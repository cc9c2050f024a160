use ppt_tas::records::{parse_frame, parse_seed, InputFrame, RecordError};

#[test]
fn seed_hex_line() {
    assert_eq!(parse_seed(b"2A\n"), Ok(Some(0x2A)));
    assert_eq!(parse_seed(b"  1ffff  "), Ok(Some(0x1FFFF)));
    assert_eq!(parse_seed(b"+ff"), Ok(Some(0xFF)));
    assert_eq!(parse_seed(b"FFFFFFFFFFFFFFFF"), Ok(Some(u64::MAX)));
}

#[test]
fn seed_blank_line_is_sentinel() {
    assert_eq!(parse_seed(b""), Ok(None));
    assert_eq!(parse_seed(b"\n"), Ok(None));
    assert_eq!(parse_seed(b" \t\r\n"), Ok(None));
}

#[test]
fn seed_malformed() {
    assert_eq!(parse_seed(b"2G"), Err(RecordError::Malformed));
    assert_eq!(parse_seed(b"2 A"), Err(RecordError::Malformed));
    assert_eq!(parse_seed(b"+"), Err(RecordError::Malformed));
    assert_eq!(parse_seed(b"10000000000000000"), Err(RecordError::Malformed));
}

#[test]
fn frame_glyphs_and_repeat() {
    assert_eq!(parse_frame(b"<< 3\n"), Ok(Some(InputFrame { mask: 0x01, repeat: 3 })));
    assert_eq!(parse_frame(b"d\n"), Ok(Some(InputFrame { mask: 0x04, repeat: 1 })));
    assert_eq!(parse_frame(b"<>dvlrh\n"), Ok(Some(InputFrame { mask: 0x7F, repeat: 1 })));
    assert_eq!(parse_frame(b"DVLRH 12"), Ok(Some(InputFrame { mask: 0x7C, repeat: 12 })));
    assert_eq!(parse_frame(b"> 2 comment\n"), Ok(Some(InputFrame { mask: 0x02, repeat: 2 })));
}

#[test]
fn frame_glyphs_after_count_are_ignored() {
    assert_eq!(parse_frame(b"h5 d"), Ok(Some(InputFrame { mask: 0x40, repeat: 5 })));
}

#[test]
fn frame_without_glyphs_is_an_empty_mask() {
    assert_eq!(parse_frame(b"x\n"), Ok(Some(InputFrame { mask: 0, repeat: 1 })));
    assert_eq!(parse_frame(b"4\n"), Ok(Some(InputFrame { mask: 0, repeat: 4 })));
}

#[test]
fn frame_blank_line_is_sentinel() {
    assert_eq!(parse_frame(b""), Ok(None));
    assert_eq!(parse_frame(b"\n"), Ok(None));
    assert_eq!(parse_frame(b"   \n"), Ok(None));
}

#[test]
fn frame_malformed() {
    assert_eq!(parse_frame(b"< 3x\n"), Err(RecordError::Malformed));
    assert_eq!(parse_frame(b"< 0\n"), Err(RecordError::Malformed));
    assert_eq!(parse_frame(b"< 99999999999999999999\n"), Err(RecordError::Malformed));
}
