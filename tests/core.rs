use slidecast::command::{
    apply_quality, build_concat_args, build_ffmpeg_args, build_images_to_video_args,
    build_segment_args, composition_command, slides_video_command, FfmpegArgs,
};
use slidecast::domain::{
    CompositionRequest, ForegroundKind, OverlayPosition, QualityProfile, SlideTiming,
    ValidationError,
};
use slidecast::validate::{validate_request, validate_timings};

fn timing(slide_index: u32, time_millis: u64) -> SlideTiming {
    SlideTiming { slide_index, time_millis }
}

fn request() -> CompositionRequest {
    CompositionRequest {
        pdf_path: "a.pdf".into(),
        video_path: "b.mp4".into(),
        output_path: "out.mp4".into(),
        overlay_position: OverlayPosition::TopRight,
        overlay_width_permille: 250,
        foreground_kind: ForegroundKind::Slides,
        quality: QualityProfile::Standard,
        fps: None,
        output_width: None,
        output_height: None,
        expected_duration_millis: None,
        timings: vec![timing(0, 100), timing(1, 1000)],
    }
}

fn strs(v: &[&str]) -> Vec<String> {
    v.iter().map(|s| s.to_string()).collect()
}

#[test]
fn timings_validation_ok() {
    let timings = vec![timing(0, 500), timing(1, 10_000), timing(2, 20_000)];
    assert!(validate_timings(&timings).is_ok());
}

#[test]
fn timings_empty_err() {
    let timings: Vec<SlideTiming> = vec![];
    assert!(matches!(
        validate_timings(&timings),
        Err(ValidationError::EmptyTimings)
    ));
}

#[test]
fn timings_non_increasing_err() {
    let timings = vec![timing(0, 500), timing(1, 1000), timing(2, 1000)];
    assert!(matches!(
        validate_timings(&timings),
        Err(ValidationError::NonIncreasingTimings)
    ));
}

#[test]
fn timings_invalid_indices_err() {
    let timings = vec![timing(0, 500), timing(2, 1000)];
    assert!(matches!(
        validate_timings(&timings),
        Err(ValidationError::InvalidSlideIndices)
    ));
}

#[test]
fn request_overlay_width_range() {
    let req = request();
    assert!(validate_request(&req).is_ok());

    let mut bad = req.clone();
    bad.overlay_width_permille = 0;
    assert!(matches!(
        validate_request(&bad),
        Err(ValidationError::OverlayWidthOutOfRange(_))
    ));
}

#[test]
fn ffmpeg_args_build_basic() {
    let args = build_ffmpeg_args(
        "main.mp4",
        "overlay.mp4",
        "out.mp4",
        200,
        OverlayPosition::TopRight,
        ForegroundKind::Slides,
    );
    let joined = args.0.join(" ");
    assert!(joined.contains("-i main.mp4"));
    assert!(joined.contains("-i overlay.mp4"));
    assert!(joined.contains("filter_complex"));
    assert!(joined.contains("scale=1920*0.2"));
    assert!(joined.contains("-map 0:a?"));
    assert!(joined.contains("-shortest"));
    assert!(joined.contains("-loglevel warning"));
    assert!(joined.ends_with("out.mp4"));
}

#[test]
fn images_to_video_args() {
    let args = build_images_to_video_args("frames/*.png", 30, "slides.mp4");
    let joined = args.0.join(" ");
    assert!(joined.contains("-framerate 30"));
    assert!(joined.contains("-pattern_type glob"));
    assert!(joined.contains("-i frames/*.png"));
    assert!(joined.contains("1920x1080"));
}

#[test]
fn quality_profile_applies_flags() {
    let mut args = build_ffmpeg_args(
        "main.mp4",
        "overlay.mp4",
        "out.mp4",
        200,
        OverlayPosition::TopRight,
        ForegroundKind::Slides,
    );
    let last_before = args.0.last().cloned().unwrap();
    apply_quality(&mut args, QualityProfile::Draft);
    let joined = args.0.join(" ");
    assert_eq!(args.0.last().unwrap(), &last_before);
    assert!(joined.contains("-crf 32"));
    assert!(joined.contains("-preset veryfast"));
}

#[test]
fn index_gap_after_zero_is_invalid_even_when_times_decrease() {
    let timings = vec![timing(0, 900), timing(2, 100), timing(3, 50)];
    assert_eq!(
        validate_timings(&timings),
        Err(ValidationError::InvalidSlideIndices)
    );
}

#[test]
fn single_timing_is_valid() {
    assert_eq!(validate_timings(&[timing(0, 0)]), Ok(()));
}

#[test]
fn reordered_indices_are_invalid() {
    let timings = vec![timing(1, 100), timing(0, 200)];
    assert_eq!(
        validate_timings(&timings),
        Err(ValidationError::InvalidSlideIndices)
    );
}

#[test]
fn decreasing_time_late_in_sequence_is_rejected() {
    let timings = vec![timing(0, 100), timing(1, 200), timing(2, 300), timing(3, 250)];
    assert_eq!(
        validate_timings(&timings),
        Err(ValidationError::NonIncreasingTimings)
    );
}

#[test]
fn width_bounds_are_inclusive() {
    let mut req = request();
    req.overlay_width_permille = 50;
    assert_eq!(validate_request(&req), Ok(()));
    req.overlay_width_permille = 500;
    assert_eq!(validate_request(&req), Ok(()));
}

#[test]
fn width_error_reports_the_offending_value() {
    let mut req = request();
    req.overlay_width_permille = 501;
    assert_eq!(
        validate_request(&req),
        Err(ValidationError::OverlayWidthOutOfRange(501))
    );
    req.overlay_width_permille = 49;
    assert_eq!(
        validate_request(&req),
        Err(ValidationError::OverlayWidthOutOfRange(49))
    );
}

#[test]
fn width_is_checked_before_timings() {
    let mut req = request();
    req.overlay_width_permille = 900;
    req.timings = vec![];
    assert_eq!(
        validate_request(&req),
        Err(ValidationError::OverlayWidthOutOfRange(900))
    );
    req.overlay_width_permille = 200;
    assert_eq!(validate_request(&req), Err(ValidationError::EmptyTimings));
}

#[test]
fn overlay_command_is_exact() {
    let args = build_ffmpeg_args(
        "rec.mp4",
        "slides.mp4",
        "final.mp4",
        250,
        OverlayPosition::BottomLeft,
        ForegroundKind::Video,
    );
    let expected = strs(&[
        "-y",
        "-hide_banner",
        "-loglevel",
        "warning",
        "-i",
        "rec.mp4",
        "-i",
        "slides.mp4",
        "-filter_complex",
        "[0:v]scale=1920*0.25:-1[ov];[1:v]scale=1920:1080:flags=bicubic[bg];[bg][ov]overlay=16:H-h-16:eval=init,fps=30",
        "-map",
        "0:a?",
        "-c:v",
        "libx264",
        "-pix_fmt",
        "yuv420p",
        "-r",
        "30",
        "-s",
        "1920x1080",
        "-c:a",
        "aac",
        "-b:a",
        "192k",
        "-shortest",
        "-movflags",
        "+faststart",
        "final.mp4",
    ]);
    assert_eq!(args.0, expected);
}

#[test]
fn overlay_corner_offsets() {
    let filter = |p: OverlayPosition| {
        build_ffmpeg_args("m", "o", "x", 200, p, ForegroundKind::Slides).0[9].clone()
    };
    assert!(filter(OverlayPosition::TopLeft).contains("overlay=16:16:"));
    assert!(filter(OverlayPosition::TopRight).contains("overlay=W-w-16:16:"));
    assert!(filter(OverlayPosition::BottomLeft).contains("overlay=16:H-h-16:"));
    assert!(filter(OverlayPosition::BottomRight).contains("overlay=W-w-16:H-h-16:"));
    assert!(filter(OverlayPosition::TopLeft).starts_with("[1:v]scale=1920*0.2:-1[ov];[0:v]scale=1920:1080"));
}

#[test]
fn quality_high_and_standard_flags() {
    let mut high = FfmpegArgs(strs(&["-i", "in.mp4", "out.mp4"]));
    apply_quality(&mut high, QualityProfile::High);
    assert_eq!(
        high.0,
        strs(&["-i", "in.mp4", "-crf", "20", "-preset", "slow", "out.mp4"])
    );
    let mut standard = FfmpegArgs(strs(&["out.mp4"]));
    apply_quality(&mut standard, QualityProfile::Standard);
    assert_eq!(
        standard.0,
        strs(&["-crf", "26", "-preset", "medium", "out.mp4"])
    );
}

#[test]
fn quality_on_empty_list_keeps_an_empty_output() {
    let mut args = FfmpegArgs(vec![]);
    apply_quality(&mut args, QualityProfile::Draft);
    assert_eq!(args.0, strs(&["-crf", "32", "-preset", "veryfast", ""]));
}

#[test]
fn image_sequence_command_is_exact() {
    let args = build_images_to_video_args("shots/*.png", 24, "deck.mp4");
    assert_eq!(
        args.0,
        strs(&[
            "-y",
            "-framerate",
            "24",
            "-pattern_type",
            "glob",
            "-i",
            "shots/*.png",
            "-s",
            "1920x1080",
            "-c:v",
            "libx264",
            "-pix_fmt",
            "yuv420p",
            "deck.mp4",
        ])
    );
}

#[test]
fn slides_video_command_globs_the_frames_directory() {
    let args = slides_video_command("/tmp/frames", 5, "s.mp4");
    assert_eq!(args.0[2], "5");
    assert_eq!(args.0[6], "/tmp/frames/**/*.png");
    assert_eq!(args.0[13], "s.mp4");
}

#[test]
fn segment_command_is_exact() {
    let args = build_segment_args("f/00001.png", 3500, "seg/seg_00001.mp4");
    assert_eq!(
        args.0,
        strs(&[
            "-y",
            "-loop",
            "1",
            "-t",
            "3.5",
            "-i",
            "f/00001.png",
            "-s",
            "1920x1080",
            "-r",
            "30",
            "-c:v",
            "libx264",
            "-pix_fmt",
            "yuv420p",
            "seg/seg_00001.mp4",
        ])
    );
    assert_eq!(build_segment_args("a", 2000, "b").0[4], "2");
    assert_eq!(build_segment_args("a", 1250, "b").0[4], "1.25");
}

#[test]
fn concat_command_is_exact() {
    let args = build_concat_args("seg/concat.txt", "out.mp4");
    assert_eq!(
        args.0,
        strs(&[
            "-y",
            "-f",
            "concat",
            "-safe",
            "0",
            "-i",
            "seg/concat.txt",
            "-c",
            "copy",
            "out.mp4",
        ])
    );
}

#[test]
fn composition_command_for_valid_request() {
    let mut req = request();
    req.quality = QualityProfile::High;
    let args = composition_command(&req).unwrap();
    assert_eq!(&args.0[0..2], &strs(&["-progress", "pipe:2"])[..]);
    assert_eq!(args.0[6], "-i");
    assert_eq!(args.0[7], "b.mp4");
    assert_eq!(args.0[9], "a.pdf");
    assert!(args.0[11].starts_with("[1:v]scale=1920*0.25:-1[ov]"));
    let n = args.0.len();
    assert_eq!(n, 2 + 28 + 4);
    assert_eq!(&args.0[n - 5..], &strs(&["-crf", "20", "-preset", "slow", "out.mp4"])[..]);
}

#[test]
fn composition_command_rejects_invalid_request() {
    let mut req = request();
    req.timings = vec![timing(0, 10), timing(1, 5)];
    assert!(matches!(
        composition_command(&req),
        Err(ValidationError::NonIncreasingTimings)
    ));
}
