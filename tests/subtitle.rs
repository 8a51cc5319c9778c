use subtitle_generator::subtitle::{format_srt, format_timestamp, TranscriptSegment};
use subtitle_generator::text::trim_text;

fn millis(seconds: f64) -> u64 {
    (seconds * 1000.0) as u64
}

fn seg(start_ms: u64, end_ms: u64, text: &str) -> TranscriptSegment {
    TranscriptSegment { start_ms, end_ms, text: text.to_string() }
}

#[test]
fn timestamp_of_zero() {
    assert_eq!(format_timestamp(millis(0.0)), "00:00:00,000");
}

#[test]
fn timestamp_of_one_hour_one_minute() {
    assert_eq!(format_timestamp(millis(3661.234)), "01:01:01,234");
}

#[test]
fn timestamp_truncates_milliseconds() {
    assert_eq!(format_timestamp(millis(59.9996)), "00:00:59,999");
}

#[test]
fn timestamp_fields_are_exact() {
    assert_eq!(format_timestamp(1500), "00:00:01,500");
    assert_eq!(format_timestamp(7), "00:00:00,007");
    assert_eq!(format_timestamp(45), "00:00:00,045");
    assert_eq!(format_timestamp(3_599_999), "00:59:59,999");
}

#[test]
fn timestamp_hours_do_not_wrap() {
    assert_eq!(format_timestamp(100 * 3_600_000 + 1), "100:00:00,001");
}

#[test]
fn empty_document() {
    assert_eq!(format_srt(&Vec::new()), "");
}

#[test]
fn single_cue_document() {
    let doc = format_srt(&vec![seg(0, 1500, "hello")]);
    assert_eq!(doc, "1\n00:00:00,000 --> 00:00:01,500\nhello\n\n");
}

#[test]
fn cues_are_numbered_in_order() {
    let segs = vec![seg(0, 1000, " one "), seg(1000, 2500, "two"), seg(2500, 61_000, "\tthree\n")];
    let doc = format_srt(&segs);
    assert_eq!(
        doc,
        "1\n00:00:00,000 --> 00:00:01,000\none\n\n\
         2\n00:00:01,000 --> 00:00:02,500\ntwo\n\n\
         3\n00:00:02,500 --> 00:01:01,000\nthree\n\n"
    );
    let blocks: Vec<&str> = doc.split_terminator("\n\n").collect();
    assert_eq!(blocks.len(), 3);
    for (i, b) in blocks.iter().enumerate() {
        assert!(b.starts_with(&format!("{}\n", i + 1)));
    }
}

#[test]
fn many_cues_count() {
    let segs: Vec<TranscriptSegment> = (0..12).map(|i| seg(i * 1000, i * 1000 + 500, "x")).collect();
    let doc = format_srt(&segs);
    assert_eq!(doc.matches(" --> ").count(), 12);
    assert!(doc.starts_with("1\n"));
    assert!(doc.contains("\n\n12\n00:00:11,000 --> 00:00:11,500\nx\n\n"));
    assert!(doc.ends_with("x\n\n"));
}

#[test]
fn trim_removes_unicode_whitespace() {
    assert_eq!(trim_text("  hi there \n"), "hi there");
    assert_eq!(trim_text("\u{3000}你好\u{a0}"), "你好");
    assert_eq!(trim_text("   "), "");
    assert_eq!(trim_text(""), "");
    assert_eq!(trim_text("a b"), "a b");
}
