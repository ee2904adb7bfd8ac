//! Encoder argument lists: picture-in-picture composition, image sequences,
//! still-image segments, concatenation, and the quality adjustment.
use vstd::prelude::*;

use crate::domain::{CompositionRequest, ForegroundKind, OverlayPosition, QualityProfile};
use crate::text::{decimal_digits, decimal_text, thousandths_text, thousandths_to_text};
use crate::validate::{request_verdict, validate_request};

verus! {

/// The texts of a list of strings.
pub open spec fn texts(v: Seq<String>) -> Seq<Seq<char>> {
    v.map_values(|s: String| s@)
}

/// One encoder invocation; the last argument is the output path.
#[derive(Debug, Clone, PartialEq)]
pub struct FfmpegArgs(pub Vec<String>);

impl View for FfmpegArgs {
    type V = Seq<Seq<char>>;

    open spec fn view(&self) -> Seq<Seq<char>> {
        texts(self.0@)
    }
}

/// Appends a copy of `s`.
fn push_text(v: &mut Vec<String>, s: &str)
    ensures
        texts(final(v)@) == texts(old(v)@).push(s@),
{
    v.push(String::from_str(s));
    assert(texts(final(v)@) =~= texts(old(v)@).push(s@));
}

/// Appends `s` itself.
fn push_owned(v: &mut Vec<String>, s: String)
    ensures
        texts(final(v)@) == texts(old(v)@).push(s@),
{
    v.push(s);
    assert(texts(final(v)@) =~= texts(old(v)@).push(s@));
}

/// Stream label of the inset.
pub open spec fn inset_label(fg: ForegroundKind) -> Seq<char> {
    match fg {
        ForegroundKind::Video => "0:v"@,
        ForegroundKind::Slides => "1:v"@,
    }
}

/// Stream label of the background.
pub open spec fn background_label(fg: ForegroundKind) -> Seq<char> {
    match fg {
        ForegroundKind::Video => "1:v"@,
        ForegroundKind::Slides => "0:v"@,
    }
}

/// Horizontal offset expression of the inset.
pub open spec fn offset_x(p: OverlayPosition) -> Seq<char> {
    match p {
        OverlayPosition::TopLeft | OverlayPosition::BottomLeft => "16"@,
        OverlayPosition::TopRight | OverlayPosition::BottomRight => "W-w-16"@,
    }
}

/// Vertical offset expression of the inset.
pub open spec fn offset_y(p: OverlayPosition) -> Seq<char> {
    match p {
        OverlayPosition::TopLeft | OverlayPosition::TopRight => "16"@,
        OverlayPosition::BottomLeft | OverlayPosition::BottomRight => "H-h-16"@,
    }
}

/// The filter graph: the inset scaled to `w` thousandths of 1920 pixels wide,
/// the background scaled to 1920x1080, the inset laid over it at the corner.
pub open spec fn overlay_filter(w: nat, p: OverlayPosition, fg: ForegroundKind) -> Seq<char> {
    "["@ + inset_label(fg) + "]scale=1920*"@ + thousandths_text(w) + ":-1[ov];["@
        + background_label(fg) + "]scale=1920:1080:flags=bicubic[bg];[bg][ov]overlay="@
        + offset_x(p) + ":"@ + offset_y(p) + ":eval=init,fps=30"@
}

/// The start of the filter graph: the inset stream scaled to `w` thousandths
/// of 1920 pixels wide.
pub open spec fn inset_scale(fg: ForegroundKind, w: nat) -> Seq<char> {
    "["@ + inset_label(fg) + "]scale=1920*"@ + thousandths_text(w)
}

/// The picture-in-picture command.
pub open spec fn overlay_args(
    main: Seq<char>,
    overlay: Seq<char>,
    out: Seq<char>,
    w: nat,
    p: OverlayPosition,
    fg: ForegroundKind,
) -> Seq<Seq<char>> {
    seq![
        "-y"@, "-hide_banner"@, "-loglevel"@, "warning"@,
        "-i"@, main, "-i"@, overlay,
        "-filter_complex"@, overlay_filter(w, p, fg),
        "-map"@, "0:a?"@, "-c:v"@, "libx264"@, "-pix_fmt"@, "yuv420p"@,
        "-r"@, "30"@, "-s"@, "1920x1080"@, "-c:a"@, "aac"@, "-b:a"@, "192k"@,
        "-shortest"@, "-movflags"@, "+faststart"@, out,
    ]
}

fn inset_label_str(fg: ForegroundKind) -> (r: &'static str)
    ensures
        r@ == inset_label(fg),
{
    match fg {
        ForegroundKind::Video => "0:v",
        ForegroundKind::Slides => "1:v",
    }
}

fn background_label_str(fg: ForegroundKind) -> (r: &'static str)
    ensures
        r@ == background_label(fg),
{
    match fg {
        ForegroundKind::Video => "1:v",
        ForegroundKind::Slides => "0:v",
    }
}

fn offset_x_str(p: OverlayPosition) -> (r: &'static str)
    ensures
        r@ == offset_x(p),
{
    match p {
        OverlayPosition::TopLeft | OverlayPosition::BottomLeft => "16",
        OverlayPosition::TopRight | OverlayPosition::BottomRight => "W-w-16",
    }
}

fn offset_y_str(p: OverlayPosition) -> (r: &'static str)
    ensures
        r@ == offset_y(p),
{
    match p {
        OverlayPosition::TopLeft | OverlayPosition::TopRight => "16",
        OverlayPosition::BottomLeft | OverlayPosition::BottomRight => "H-h-16",
    }
}

fn build_overlay_filter(w: u32, p: OverlayPosition, fg: ForegroundKind) -> (r: String)
    ensures
        r@ == overlay_filter(w as nat, p, fg),
{
    let mut f = String::from_str("[");
    f.append(inset_label_str(fg));
    f.append("]scale=1920*");
    let width = thousandths_to_text(w as u64);
    f.append(width.as_str());
    f.append(":-1[ov];[");
    f.append(background_label_str(fg));
    f.append("]scale=1920:1080:flags=bicubic[bg];[bg][ov]overlay=");
    f.append(offset_x_str(p));
    f.append(":");
    f.append(offset_y_str(p));
    f.append(":eval=init,fps=30");
    f
}

/// Builds the picture-in-picture command: `overlay_video_path` (input 1) and
/// `main_video_path` (input 0) on a 1920x1080 canvas at 30 fps, the inset
/// `overlay_width_permille` thousandths of the canvas wide, audio of input 0
/// kept where present, ending with `output_path`.
pub fn build_ffmpeg_args(
    main_video_path: &str,
    overlay_video_path: &str,
    output_path: &str,
    overlay_width_permille: u32,
    position: OverlayPosition,
    foreground: ForegroundKind,
) -> (r: FfmpegArgs)
    ensures
        r@ == overlay_args(
            main_video_path@,
            overlay_video_path@,
            output_path@,
            overlay_width_permille as nat,
            position,
            foreground,
        ),
{
    let filter = build_overlay_filter(overlay_width_permille, position, foreground);
    let mut v: Vec<String> = Vec::new();
    push_text(&mut v, "-y");
    push_text(&mut v, "-hide_banner");
    push_text(&mut v, "-loglevel");
    push_text(&mut v, "warning");
    push_text(&mut v, "-i");
    push_text(&mut v, main_video_path);
    push_text(&mut v, "-i");
    push_text(&mut v, overlay_video_path);
    push_text(&mut v, "-filter_complex");
    push_owned(&mut v, filter);
    push_text(&mut v, "-map");
    push_text(&mut v, "0:a?");
    push_text(&mut v, "-c:v");
    push_text(&mut v, "libx264");
    push_text(&mut v, "-pix_fmt");
    push_text(&mut v, "yuv420p");
    push_text(&mut v, "-r");
    push_text(&mut v, "30");
    push_text(&mut v, "-s");
    push_text(&mut v, "1920x1080");
    push_text(&mut v, "-c:a");
    push_text(&mut v, "aac");
    push_text(&mut v, "-b:a");
    push_text(&mut v, "192k");
    push_text(&mut v, "-shortest");
    push_text(&mut v, "-movflags");
    push_text(&mut v, "+faststart");
    push_text(&mut v, output_path);
    let r = FfmpegArgs(v);
    assert(r@ =~= overlay_args(
        main_video_path@,
        overlay_video_path@,
        output_path@,
        overlay_width_permille as nat,
        position,
        foreground,
    ));
    r
}

/// The encoder quality factor of a profile: lower means higher fidelity.
pub open spec fn quality_factor(q: QualityProfile) -> nat {
    match q {
        QualityProfile::Draft => 32,
        QualityProfile::Standard => 26,
        QualityProfile::High => 20,
    }
}

/// The encoder speed preset of a profile.
pub open spec fn speed_preset(q: QualityProfile) -> Seq<char> {
    match q {
        QualityProfile::Draft => "veryfast"@,
        QualityProfile::Standard => "medium"@,
        QualityProfile::High => "slow"@,
    }
}

/// The two flag/value pairs a profile adds.
pub open spec fn quality_flags(q: QualityProfile) -> Seq<Seq<char>> {
    seq!["-crf"@, decimal_digits(quality_factor(q)), "-preset"@, speed_preset(q)]
}

/// All arguments but the output path.
pub open spec fn leading_args(a: Seq<Seq<char>>) -> Seq<Seq<char>> {
    if a.len() == 0 { a } else { a.drop_last() }
}

/// The output path: the last argument, or the empty text for an empty list.
pub open spec fn output_arg(a: Seq<Seq<char>>) -> Seq<char> {
    if a.len() == 0 { Seq::empty() } else { a.last() }
}

/// `a` with the quality flags of `q` placed just before its output path.
pub open spec fn with_quality(a: Seq<Seq<char>>, q: QualityProfile) -> Seq<Seq<char>> {
    leading_args(a) + quality_flags(q) + seq![output_arg(a)]
}

fn quality_factor_of(q: QualityProfile) -> (r: u64)
    ensures
        r as nat == quality_factor(q),
{
    match q {
        QualityProfile::Draft => 32,
        QualityProfile::Standard => 26,
        QualityProfile::High => 20,
    }
}

fn speed_preset_str(q: QualityProfile) -> (r: &'static str)
    ensures
        r@ == speed_preset(q),
{
    match q {
        QualityProfile::Draft => "veryfast",
        QualityProfile::Standard => "medium",
        QualityProfile::High => "slow",
    }
}

/// Inserts the quality factor and speed preset of `quality` just before the
/// output path, which stays last.
pub fn apply_quality(args: &mut FfmpegArgs, quality: QualityProfile)
    ensures
        final(args)@ == with_quality(old(args)@, quality),
{
    let out = match args.0.pop() {
        Some(s) => s,
        None => String::new(),
    };
    assert(texts(args.0@) =~= leading_args(old(args)@));
    let factor = decimal_text(quality_factor_of(quality));
    push_text(&mut args.0, "-crf");
    push_owned(&mut args.0, factor);
    push_text(&mut args.0, "-preset");
    push_text(&mut args.0, speed_preset_str(quality));
    push_owned(&mut args.0, out);
    assert(args@ =~= with_quality(old(args)@, quality));
}

/// Adding quality flags keeps the output path unchanged and last, and makes
/// exactly two flag/value insertions just before it: the quality factor and
/// the speed preset. Draft is factor 32 with the fastest preset, High factor
/// 20 with the slowest; a lower factor goes with a slower preset.
pub proof fn law_quality_keeps_output(a: Seq<Seq<char>>, q: QualityProfile)
    requires
        a.len() > 0,
    ensures
        with_quality(a, q).len() == a.len() + 4,
        with_quality(a, q).last() == a.last(),
        with_quality(a, q).subrange(0, a.len() - 1) == a.drop_last(),
        with_quality(a, q).subrange(a.len() - 1, a.len() + 3 as int) == seq![
            "-crf"@,
            decimal_digits(quality_factor(q)),
            "-preset"@,
            speed_preset(q),
        ],
        quality_factor(QualityProfile::Draft) == 32,
        speed_preset(QualityProfile::Draft) == "veryfast"@,
        quality_factor(QualityProfile::High) == 20,
        speed_preset(QualityProfile::High) == "slow"@,
        quality_factor(QualityProfile::High) < quality_factor(QualityProfile::Standard)
            < quality_factor(QualityProfile::Draft),
{
    let w = with_quality(a, q);
    assert(w.subrange(0, a.len() - 1) =~= a.drop_last());
    assert(w.subrange(a.len() - 1, a.len() + 3 as int) =~= quality_flags(q));
}

/// The picture-in-picture command reads both inputs, scales the inset to the
/// given width through the filter graph, maps the main input's audio only
/// where present, keeps to the shorter input, and ends with the output path.
pub proof fn law_overlay_command_shape(
    main: Seq<char>,
    overlay: Seq<char>,
    out: Seq<char>,
    w: nat,
    p: OverlayPosition,
    fg: ForegroundKind,
)
    ensures
        ({
            let a = overlay_args(main, overlay, out, w, p, fg);
            &&& a.subrange(4, 8) == seq!["-i"@, main, "-i"@, overlay]
            &&& a[8] == "-filter_complex"@
            &&& a[9].len() >= inset_scale(fg, w).len()
            &&& a[9].subrange(0, inset_scale(fg, w).len() as int) == inset_scale(fg, w)
            &&& a.subrange(10, 12) == seq!["-map"@, "0:a?"@]
            &&& a[24] == "-shortest"@
            &&& a.last() == out
        }),
{
    let a = overlay_args(main, overlay, out, w, p, fg);
    assert(a.subrange(4, 8) =~= seq!["-i"@, main, "-i"@, overlay]);
    assert(a.subrange(10, 12) =~= seq!["-map"@, "0:a?"@]);
    let head = inset_scale(fg, w);
    let rest = ":-1[ov];["@ + background_label(fg)
        + "]scale=1920:1080:flags=bicubic[bg];[bg][ov]overlay="@ + offset_x(p) + ":"@ + offset_y(p)
        + ":eval=init,fps=30"@;
    assert(a[9] =~= head + rest);
    assert(a[9].subrange(0, head.len() as int) =~= head);
}

/// The command that encodes a glob of still images at `fps` frames per second.
pub open spec fn image_sequence_args(glob: Seq<char>, fps: nat, out: Seq<char>) -> Seq<Seq<char>> {
    seq![
        "-y"@, "-framerate"@, decimal_digits(fps), "-pattern_type"@, "glob"@,
        "-i"@, glob, "-s"@, "1920x1080"@, "-c:v"@, "libx264"@, "-pix_fmt"@, "yuv420p"@,
        out,
    ]
}

/// Builds the command that reads the images matched by `images_glob`, in
/// lexicographic order, at `fps` frames per second and encodes them to a
/// 1920x1080 H.264 video without audio.
pub fn build_images_to_video_args(images_glob: &str, fps: u32, output_path: &str) -> (r: FfmpegArgs)
    ensures
        r@ == image_sequence_args(images_glob@, fps as nat, output_path@),
{
    let rate = decimal_text(fps as u64);
    let mut v: Vec<String> = Vec::new();
    push_text(&mut v, "-y");
    push_text(&mut v, "-framerate");
    push_owned(&mut v, rate);
    push_text(&mut v, "-pattern_type");
    push_text(&mut v, "glob");
    push_text(&mut v, "-i");
    push_text(&mut v, images_glob);
    push_text(&mut v, "-s");
    push_text(&mut v, "1920x1080");
    push_text(&mut v, "-c:v");
    push_text(&mut v, "libx264");
    push_text(&mut v, "-pix_fmt");
    push_text(&mut v, "yuv420p");
    push_text(&mut v, output_path);
    let r = FfmpegArgs(v);
    assert(r@ =~= image_sequence_args(images_glob@, fps as nat, output_path@));
    r
}

/// The glob of every PNG file below a frames directory.
pub open spec fn frames_glob(frames_dir: Seq<char>) -> Seq<char> {
    frames_dir + "/**/*.png"@
}

/// Builds the command that turns every PNG below `frames_dir` into a video
/// at `fps` frames per second.
pub fn slides_video_command(frames_dir: &str, fps: u32, output_path: &str) -> (r: FfmpegArgs)
    ensures
        r@ == image_sequence_args(frames_glob(frames_dir@), fps as nat, output_path@),
{
    let glob = String::from_str(frames_dir).concat("/**/*.png");
    build_images_to_video_args(glob.as_str(), fps, output_path)
}

/// The command that loops one still image for `duration_millis` milliseconds.
pub open spec fn segment_args(image: Seq<char>, duration_millis: nat, out: Seq<char>) -> Seq<Seq<char>> {
    seq![
        "-y"@, "-loop"@, "1"@, "-t"@, thousandths_text(duration_millis),
        "-i"@, image, "-s"@, "1920x1080"@, "-r"@, "30"@,
        "-c:v"@, "libx264"@, "-pix_fmt"@, "yuv420p"@, out,
    ]
}

/// Builds the command that shows `image_path` for `duration_millis`
/// milliseconds as a 1920x1080, 30 fps H.264 segment.
pub fn build_segment_args(image_path: &str, duration_millis: u64, segment_path: &str) -> (r: FfmpegArgs)
    ensures
        r@ == segment_args(image_path@, duration_millis as nat, segment_path@),
{
    let seconds = thousandths_to_text(duration_millis);
    let mut v: Vec<String> = Vec::new();
    push_text(&mut v, "-y");
    push_text(&mut v, "-loop");
    push_text(&mut v, "1");
    push_text(&mut v, "-t");
    push_owned(&mut v, seconds);
    push_text(&mut v, "-i");
    push_text(&mut v, image_path);
    push_text(&mut v, "-s");
    push_text(&mut v, "1920x1080");
    push_text(&mut v, "-r");
    push_text(&mut v, "30");
    push_text(&mut v, "-c:v");
    push_text(&mut v, "libx264");
    push_text(&mut v, "-pix_fmt");
    push_text(&mut v, "yuv420p");
    push_text(&mut v, segment_path);
    let r = FfmpegArgs(v);
    assert(r@ =~= segment_args(image_path@, duration_millis as nat, segment_path@));
    r
}

/// The command that joins the segments listed in a manifest by stream copy.
pub open spec fn concat_args(manifest: Seq<char>, out: Seq<char>) -> Seq<Seq<char>> {
    seq!["-y"@, "-f"@, "concat"@, "-safe"@, "0"@, "-i"@, manifest, "-c"@, "copy"@, out]
}

/// Builds the command that reads `manifest_path` in concat mode and copies
/// the streams, without re-encoding, into `output_path`.
pub fn build_concat_args(manifest_path: &str, output_path: &str) -> (r: FfmpegArgs)
    ensures
        r@ == concat_args(manifest_path@, output_path@),
{
    let mut v: Vec<String> = Vec::new();
    push_text(&mut v, "-y");
    push_text(&mut v, "-f");
    push_text(&mut v, "concat");
    push_text(&mut v, "-safe");
    push_text(&mut v, "0");
    push_text(&mut v, "-i");
    push_text(&mut v, manifest_path);
    push_text(&mut v, "-c");
    push_text(&mut v, "copy");
    push_text(&mut v, output_path);
    let r = FfmpegArgs(v);
    assert(r@ =~= concat_args(manifest_path@, output_path@));
    r
}

/// The full command for a request: progress reported on standard error,
/// then the picture-in-picture command with the recording as input 0 and
/// the slides as input 1, adjusted to the request's quality.
pub open spec fn request_args(req: CompositionRequest) -> Seq<Seq<char>> {
    seq!["-progress"@, "pipe:2"@] + with_quality(
        overlay_args(
            req.video_path@,
            req.pdf_path@,
            req.output_path@,
            req.overlay_width_permille as nat,
            req.overlay_position,
            req.foreground_kind,
        ),
        req.quality,
    )
}

/// Validates `req` and, if it is accepted, builds its encoder command.
pub fn composition_command(req: &CompositionRequest) -> (r: Result<FfmpegArgs, crate::domain::ValidationError>)
    ensures
        match request_verdict(req.overlay_width_permille, req.timings@) {
            Err(e) => r == Err::<FfmpegArgs, crate::domain::ValidationError>(e),
            Ok(_) => r is Ok && r->Ok_0@ == request_args(*req),
        },
{
    match validate_request(req) {
        Err(e) => Err(e),
        Ok(()) => {
            let mut args = build_ffmpeg_args(
                req.video_path.as_str(),
                req.pdf_path.as_str(),
                req.output_path.as_str(),
                req.overlay_width_permille,
                req.overlay_position,
                req.foreground_kind,
            );
            apply_quality(&mut args, req.quality);
            let mut v: Vec<String> = Vec::new();
            push_text(&mut v, "-progress");
            push_text(&mut v, "pipe:2");
            let ghost before = v@;
            let mut rest = args.0;
            v.append(&mut rest);
            let r = FfmpegArgs(v);
            assert(texts(before + args.0@) =~= texts(before) + texts(args.0@));
            assert(r@ =~= request_args(*req));
            Ok(r)
        },
    }
}

} // verus!
