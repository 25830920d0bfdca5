use rcore_os::syscall::fs::{from_utf8_lossy, lossy_step, sys_write, Piece};

fn text(start: usize, end: usize) -> Piece {
    Piece::Text { start, end }
}

#[test]
fn valid_text_is_one_piece() {
    assert_eq!(from_utf8_lossy("hello".as_bytes()), vec![text(0, 5)]);
    assert_eq!(from_utf8_lossy("héllo ⍰".as_bytes()), vec![text(0, 10)]);
}

#[test]
fn empty_input_is_one_empty_piece() {
    assert_eq!(from_utf8_lossy(&[]), vec![text(0, 0)]);
}

#[test]
fn invalid_byte_is_replaced() {
    assert_eq!(
        from_utf8_lossy(&[b'a', 0xff, b'b']),
        vec![text(0, 1), Piece::Replacement, text(2, 3)]
    );
}

#[test]
fn invalid_sequence_at_start_and_end() {
    assert_eq!(
        from_utf8_lossy(&[0x80, b'x', 0xfe]),
        vec![text(0, 0), Piece::Replacement, text(1, 2), Piece::Replacement, text(3, 3)]
    );
}

#[test]
fn truncated_sequence_ends_output() {
    // "a" followed by the first two bytes of a three-byte character
    assert_eq!(from_utf8_lossy(&[b'a', 0xe2, 0x82]), vec![text(0, 1), Piece::Replacement]);
}

#[test]
fn broken_multibyte_sequence_is_skipped_as_one() {
    // 0xe2 0x82 followed by a non-continuation byte: one invalid sequence of length 2
    assert_eq!(
        from_utf8_lossy(&[0xe2, 0x82, b'z']),
        vec![text(0, 0), Piece::Replacement, text(2, 3)]
    );
}

#[test]
fn text_pieces_are_valid_utf8() {
    let input: &[u8] = &[b'o', b'k', 0xc3, 0x28, 0xe2, 0x82, 0xac, 0xff];
    for p in from_utf8_lossy(input) {
        if let Piece::Text { start, end } = p {
            assert!(start <= end && end <= input.len());
            assert!(core::str::from_utf8(&input[start..end]).is_ok());
        }
    }
}

#[test]
fn write_to_stdout_returns_length() {
    let (pieces, n) = sys_write(1, b"abc");
    assert_eq!(pieces, vec![text(0, 3)]);
    assert_eq!(n, 3);
    let (pieces, n) = sys_write(1, &[0xff]);
    assert_eq!(pieces, vec![text(0, 0), Piece::Replacement, text(1, 1)]);
    assert_eq!(n, 1);
}

#[test]
fn lossy_step_cases() {
    assert_eq!(lossy_step(4, 6, None), (vec![text(4, 10)], None));
    assert_eq!(lossy_step(4, 6, Some((2, Some(1)))), (vec![text(4, 6), Piece::Replacement], Some(7)));
    assert_eq!(lossy_step(0, 3, Some((1, None))), (vec![text(0, 1), Piece::Replacement], None));
}

fn rendered(input: &[u8]) -> String {
    let mut out = String::new();
    for p in from_utf8_lossy(input) {
        match p {
            Piece::Text { start, end } => out.push_str(core::str::from_utf8(&input[start..end]).unwrap()),
            Piece::Replacement => out.push('⍰'),
        }
    }
    out
}

#[test]
fn rendering_matches_std_lossy_decoding() {
    let inputs: [&[u8]; 8] = [
        b"",
        b"plain",
        &[0xff],
        &[b'a', 0xe2, 0x82],
        &[0xe2, 0x82, b'z', 0xf0, 0x9f, 0x98, 0x80, 0xc0, 0xaf],
        &[0xed, 0xa0, 0x80, b'x'],
        &[0xf4, 0x90, 0x80, 0x80],
        "héllo wörld".as_bytes(),
    ];
    for input in inputs {
        let expected = String::from_utf8_lossy(input).replace('\u{FFFD}', "⍰");
        assert_eq!(rendered(input), expected);
    }
}
