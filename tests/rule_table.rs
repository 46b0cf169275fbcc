use file_format::{FileFormat, Rule, RuleTable, Signature, SignaturePart};

fn generic_and_specific() -> RuleTable {
    let specific = Rule::new(
        FileFormat::new("application/x-specific", "spc"),
        vec![Signature::new(vec![
            SignaturePart::new(0, vec![0xAB, 0xCD]),
            SignaturePart::new(6, b"MORE".to_vec()),
        ])],
    );
    let generic = Rule::new(
        FileFormat::new("application/x-generic", "gen"),
        vec![Signature::new(vec![SignaturePart::new(0, vec![0xAB, 0xCD])])],
    );
    RuleTable::new(vec![specific, generic])
}

#[test]
fn part_matches_pattern_at_offset() {
    let part = SignaturePart::new(2, b"xyz".to_vec());
    assert!(part.matches(b"abxyz"));
    assert!(part.matches(b"abxyzabc"));
    assert!(!part.matches(b"xyzab"));
}

#[test]
fn part_one_byte_too_short_does_not_match() {
    let part = SignaturePart::new(2, b"xyz".to_vec());
    assert!(!part.matches(b"abxy"));
    assert!(!part.matches(b""));
}

#[test]
fn part_with_offset_beyond_buffer_does_not_match() {
    let part = SignaturePart::new(0x9001, b"CD001".to_vec());
    assert!(!part.matches(&[0u8; 16]));
}

#[test]
fn signature_needs_every_part() {
    let sig = Signature::new(vec![
        SignaturePart::new(0, b"RIFF".to_vec()),
        SignaturePart::new(8, b"WAVE".to_vec()),
    ]);
    assert!(sig.matches(b"RIFF\x00\x00\x00\x00WAVE"));
    assert!(!sig.matches(b"RIFF\x00\x00\x00\x00WEBP"));
    assert!(!sig.matches(b"RIFX\x00\x00\x00\x00WAVE"));
    assert!(!sig.matches(b"RIFF\x00\x00\x00\x00WAV"));
}

#[test]
fn rule_needs_any_alternative() {
    let rule = Rule::new(
        FileFormat::new("image/gif", "gif"),
        vec![
            Signature::new(vec![SignaturePart::new(0, b"GIF87a".to_vec())]),
            Signature::new(vec![SignaturePart::new(0, b"GIF89a".to_vec())]),
        ],
    );
    assert!(rule.matches(b"GIF87a"));
    assert!(rule.matches(b"GIF89a"));
    assert!(!rule.matches(b"GIF88a"));
    assert_eq!(rule.format().extension(), "gif");
}

#[test]
fn specific_rule_listed_first_takes_precedence() {
    let table = generic_and_specific();
    let format = table.classify(b"\xAB\xCD\x00\x00\x00\x00MORE");
    assert_eq!(format.media_type(), "application/x-specific");
    assert_eq!(format.extension(), "spc");
}

#[test]
fn generic_rule_applies_when_specific_bytes_are_absent() {
    let table = generic_and_specific();
    let format = table.classify(b"\xAB\xCD\x00\x00\x00\x00LESS");
    assert_eq!(format.media_type(), "application/x-generic");
    assert_eq!(format.extension(), "gen");
    let short = table.classify(b"\xAB\xCD\x00\x00\x00\x00MOR");
    assert_eq!(short.extension(), "gen");
}

#[test]
fn custom_table_falls_back_to_default() {
    let table = generic_and_specific();
    assert_eq!(table.classify(b"\x00\x01"), FileFormat::default());
    assert_eq!(table.classify(b""), FileFormat::default());
}

#[test]
fn empty_table_always_gives_default() {
    let table = RuleTable::new(Vec::new());
    assert_eq!(table.classify(b"GIF89a"), FileFormat::default());
}

#[test]
fn standard_table_agrees_with_from_bytes() {
    let table = RuleTable::standard();
    let b = b"GIF89a";
    assert_eq!(table.classify(b), FileFormat::from_bytes(b));
    assert_eq!(table.classify(b).media_type(), "image/gif");
}
