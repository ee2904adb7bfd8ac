use slidecast::encoder::resolve_encoder_path;
use slidecast::slide_image::decode_slide_image;
use slidecast::text::{decimal_text, thousandths_to_text, zero_padded_text};

#[test]
fn decimal_text_values() {
    assert_eq!(decimal_text(0), "0");
    assert_eq!(decimal_text(7), "7");
    assert_eq!(decimal_text(1920), "1920");
    assert_eq!(decimal_text(u64::MAX), u64::MAX.to_string());
}

#[test]
fn zero_padded_values() {
    assert_eq!(zero_padded_text(7, 5), "00007");
    assert_eq!(zero_padded_text(0, 5), "00000");
    assert_eq!(zero_padded_text(123456, 5), "123456");
    assert_eq!(zero_padded_text(42, 0), "42");
}

#[test]
fn thousandths_values_match_float_display() {
    for (v, f) in [
        (200u64, 0.2f64),
        (250, 0.25),
        (50, 0.05),
        (500, 0.5),
        (3500, 3.5),
        (2000, 2.0),
        (1, 0.001),
        (1010, 1.01),
        (0, 0.0),
    ] {
        assert_eq!(thousandths_to_text(v), format!("{}", f));
    }
}

#[test]
fn encoder_override_wins_when_not_empty() {
    assert_eq!(
        resolve_encoder_path(Some("/opt/ff".into()), Some("/usr/bin/ffmpeg".into()), false),
        "/opt/ff"
    );
    assert_eq!(
        resolve_encoder_path(Some(String::new()), Some("/usr/bin/ffmpeg".into()), false),
        "/usr/bin/ffmpeg"
    );
}

#[test]
fn encoder_default_names() {
    assert_eq!(resolve_encoder_path(None, None, false), "ffmpeg");
    assert_eq!(resolve_encoder_path(None, None, true), "ffmpeg.exe");
}

#[test]
fn slide_image_base64_decodes() {
    assert_eq!(decode_slide_image("aGVsbG8=").unwrap(), b"hello".to_vec());
    assert_eq!(decode_slide_image("").unwrap(), Vec::<u8>::new());
}

#[test]
fn slide_image_invalid_base64_is_refused() {
    assert!(decode_slide_image("not base64!").is_err());
}
