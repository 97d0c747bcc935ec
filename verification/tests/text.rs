use gnirehtet_vd::text::{
    contains_text, format_unsigned, joined, lowercase, parse_unsigned, replaced, same_text,
    same_text_ignoring_case, trimmed,
};
use gnirehtet_vd::time::{Duration, Instant};
use gnirehtet_vd::track::{
    parse_track_length, parse_track_snapshot, TrackDevicesDecodeError, TrackDevicesDecoder,
};

#[test]
fn white_space_is_trimmed_at_both_ends() {
    assert_eq!(trimmed(" \t\u{a0}a b\u{3000}\r\n"), "a b");
    assert_eq!(trimmed(" \n"), "");
    assert_eq!(trimmed("\u{200b}x"), "\u{200b}x");
}

#[test]
fn unsigned_numbers_are_read_within_their_bound() {
    assert_eq!(parse_unsigned("0", 10), Some(0));
    assert_eq!(parse_unsigned("+10", 10), Some(10));
    assert_eq!(parse_unsigned("0010", 10), Some(10));
    assert_eq!(parse_unsigned("11", 10), None);
    assert_eq!(parse_unsigned("", 10), None);
    assert_eq!(parse_unsigned("+", 10), None);
    assert_eq!(parse_unsigned("1 ", 10), None);
    assert_eq!(parse_unsigned("18446744073709551615", u64::MAX), Some(u64::MAX));
    assert_eq!(parse_unsigned("18446744073709551616", u64::MAX), None);
    assert_eq!(format_unsigned(u64::MAX), "18446744073709551615");
    assert_eq!(format_unsigned(0), "0");
}

#[test]
fn letters_are_folded_in_ascii_only() {
    assert_eq!(lowercase("AZaz\u{c4}"), "azaz\u{c4}");
    assert!(same_text_ignoring_case("VD.EXE", "vd.exe"));
    assert!(!same_text_ignoring_case("\u{c4}", "\u{e4}"));
    assert!(same_text("a", "a"));
    assert!(!same_text("a", "A"));
}

#[test]
fn texts_are_searched_replaced_and_joined() {
    assert!(contains_text("abcabd", "abd"));
    assert!(contains_text("abc", ""));
    assert!(!contains_text("abc", "abcd"));
    assert!(!contains_text("", "a"));
    assert_eq!(replaced("a-b-", '-', "__"), "a__b__");
    assert_eq!(replaced("a\0b", '\0', ""), "ab");
    assert_eq!(joined("x", "", "y"), "xy");
}

#[test]
fn a_snapshot_is_decoded_from_its_bytes() {
    assert_eq!(parse_track_snapshot("s\u{e9}rial\tdevice\n".as_bytes()), Ok(true));
    assert_eq!(parse_track_snapshot(b"serial\toffline\n"), Ok(false));
    assert_eq!(
        parse_track_snapshot(b"\xff\tdevice\n"),
        Err(TrackDevicesDecodeError::InvalidUtf8)
    );
    assert_eq!(parse_track_length(b"0016"), Ok(22));
    assert_eq!(parse_track_length(b"00fF"), Ok(255));
    assert_eq!(
        parse_track_length(b"00g0"),
        Err(TrackDevicesDecodeError::InvalidLength)
    );
}

#[test]
fn the_cut_of_the_stream_makes_no_difference() {
    let stream = b"0016private-serial\tdevice\n00000016private-serial\tdevice\n".to_vec();
    let mut whole = TrackDevicesDecoder::default();
    let expected = whole.push(&stream).unwrap();
    assert_eq!(expected, vec![true, false, true]);
    for cut in 0..stream.len() {
        let mut decoder = TrackDevicesDecoder::default();
        let mut updates = decoder.push(&stream[..cut]).unwrap();
        updates.extend(decoder.push(&stream[cut..]).unwrap());
        assert_eq!(updates, expected);
    }
}

#[test]
fn a_refused_stream_stays_refused() {
    let mut decoder = TrackDevicesDecoder::default();
    assert_eq!(decoder.push(b"0000"), Ok(vec![false]));
    assert_eq!(decoder.push(b"zzzz"), Err(TrackDevicesDecodeError::InvalidLength));
    assert_eq!(decoder.push(b"0000"), Err(TrackDevicesDecodeError::InvalidLength));
}

#[test]
fn spans_saturate() {
    let longest = Duration::from_secs(u64::MAX).saturating_mul(2);
    assert_eq!(longest.as_nanos(), 18_446_744_073_709_551_615_999_999_999);
    assert_eq!(longest.saturating_add(Duration::from_secs(1)), longest);
    assert_eq!(Duration::from_millis(1_500).as_millis(), 1_500);
    assert_eq!(Duration::from_nanos(2_999).as_micros(), 2);
    let early = Instant { since_start: Duration::from_secs(1) };
    let late = early.plus(Duration::from_secs(2));
    assert_eq!(late.duration_since(early), Duration::from_secs(2));
    assert_eq!(early.duration_since(late), Duration::from_secs(0));
}
