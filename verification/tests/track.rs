use gnirehtet_vd::track::{TrackDevicesDecodeError, TrackDevicesDecoder};

#[test]
fn track_devices_decoder_handles_every_frame_split_and_empty_snapshot() {
    let connected = b"0016private-serial\tdevice\n";
    let stream = [connected.as_slice(), b"0000"].concat();
    for split in 0..=stream.len() {
        let mut decoder = TrackDevicesDecoder::default();
        let mut updates = decoder.push(&stream[..split]).unwrap();
        updates.extend(decoder.push(&stream[split..]).unwrap());
        assert_eq!(updates, vec![true, false], "split at {split}");
    }
    let mut decoder = TrackDevicesDecoder::default();
    assert_eq!(decoder.push(&stream).unwrap(), vec![true, false]);
    let mut decoder = TrackDevicesDecoder::default();
    let mut updates = Vec::new();
    for byte in &stream {
        updates.extend(decoder.push(std::slice::from_ref(byte)).unwrap());
    }
    assert_eq!(updates, vec![true, false]);
}

#[test]
fn track_devices_decoder_supports_headered_and_headerless_text_fallback() {
    let mut decoder = TrackDevicesDecoder::default();
    let first = b"List of devices attached\r\nprivate-serial\tdevice product:quest\r\n\r\n";
    let mut updates = decoder.push(&first[..7]).unwrap();
    updates.extend(decoder.push(&first[7..]).unwrap());
    assert_eq!(updates, vec![true]);

    let mut decoder = TrackDevicesDecoder::default();
    assert_eq!(
        decoder
            .push(b"private-serial\tunauthorized\n\nprivate-serial\tdevice\n\n")
            .unwrap(),
        vec![false, true]
    );
}

#[test]
fn malformed_or_oversized_framed_track_output_fails_closed() {
    let mut malformed = TrackDevicesDecoder::default();
    assert_eq!(malformed.push(b"0000").unwrap(), vec![false]);
    assert_eq!(
        malformed.push(b"00g1"),
        Err(TrackDevicesDecodeError::InvalidLength)
    );
    let mut oversized = TrackDevicesDecoder::default();
    assert_eq!(
        oversized.push(b"ffff"),
        Err(TrackDevicesDecodeError::Oversized(65_535))
    );
    let mut invalid_utf8 = TrackDevicesDecoder::default();
    assert_eq!(
        invalid_utf8.push(b"0001\xff"),
        Err(TrackDevicesDecodeError::InvalidUtf8)
    );
}
