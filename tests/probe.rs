use slidecast::probe::{duration_fields, DurationFields};

fn fields(h: &str, m: &str, s: &str) -> Option<DurationFields> {
    Some(DurationFields { hours: h.into(), minutes: m.into(), seconds: s.into() })
}

#[test]
fn duration_from_a_typical_report() {
    let report = "Input #0, mov,mp4,m4a, from 'a.mp4':\n  Metadata:\n    encoder: x\n  Duration: 00:01:02.50, start: 0.000000, bitrate: 812 kb/s\n  Stream #0:0\n";
    assert_eq!(duration_fields(report), fields("00", "01", "02.50"));
}

#[test]
fn duration_without_comma_runs_to_line_end() {
    assert_eq!(duration_fields("Duration: 1:2:3\nnext: 4:5:6"), fields("1", "2", "3"));
    assert_eq!(duration_fields("  Duration:  01 : 02 : 03.5 \r\n"), fields("01", "02", "03.5"));
}

#[test]
fn duration_absent_or_malformed() {
    assert_eq!(duration_fields(""), None);
    assert_eq!(duration_fields("no duration here"), None);
    assert_eq!(duration_fields("Duration: N/A, start: 0"), None);
    assert_eq!(duration_fields("Duration: 1:2:3:4, x"), None);
    assert_eq!(duration_fields("Duration: 1:2\nDuration: 1:2:3"), None);
}

#[test]
fn duration_after_non_ascii_text() {
    assert_eq!(duration_fields("Entrée é\nDuration: 00:00:07.00, x"), fields("00", "00", "07.00"));
}
