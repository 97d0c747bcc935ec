//! Decoder for the output of `adb track-devices`.
//!
//! The stream is either a sequence of frames, each a four-digit hexadecimal length followed by a
//! snapshot of that many bytes, or plain text lines. The first four bytes decide which. The
//! decoder turns either form into availability updates and reports only changes.
use crate::text::{
    chars_of, first_word, leading_word, position, range_is, utf8_text, whitespace, whitespace_end,
    word_end,
};
use vstd::prelude::*;
use vstd::utf8::{decode_utf8, valid_utf8};

verus! {

/// The longest snapshot, and the longest unterminated text line, that the decoder accepts.
pub const MAX_TRACK_DEVICES_PAYLOAD: usize = 16 * 1024;

/// The form of the stream, as far as it is known.
#[derive(Clone, Copy, Debug, PartialEq, Eq, Structural)]
pub enum TrackDevicesMode {
    Unknown,
    Framed,
    Text,
}

/// Why the stream cannot be decoded any further.
#[derive(Clone, Copy, Debug, PartialEq, Eq, Structural)]
pub enum TrackDevicesDecodeError {
    /// A frame does not start with four hexadecimal digits.
    InvalidLength,
    /// A frame or an unterminated line has this many bytes, which exceeds the bound.
    Oversized(usize),
    /// A snapshot or a line is not UTF-8.
    InvalidUtf8,
}

/// Parser for the line-oriented form.
#[derive(Clone, Copy, Debug, PartialEq, Eq, Structural)]
pub struct TrackDevicesTextParser {
    pub in_snapshot: bool,
    pub device_available: bool,
}

/// Incremental decoder of the stream.
pub struct TrackDevicesDecoder {
    pub mode: TrackDevicesMode,
    pub buffer: Vec<u8>,
    pub text: TrackDevicesTextParser,
    pub last_update: Option<bool>,
}

/// The mathematical model of a [`TrackDevicesDecoder`].
#[verifier::ext_equal]
pub struct DecoderModel {
    pub mode: TrackDevicesMode,
    pub buffer: Seq<u8>,
    pub text: TrackDevicesTextParser,
    pub last_update: Option<bool>,
}

/// What decoding leads to: the decoder that is left, the updates that were found, and the error
/// that ended it, if one did.
#[verifier::ext_equal]
pub struct Decoded {
    pub decoder: DecoderModel,
    pub updates: Seq<bool>,
    pub error: Option<TrackDevicesDecodeError>,
}

impl View for TrackDevicesDecoder {
    type V = DecoderModel;

    open spec fn view(&self) -> DecoderModel {
        DecoderModel {
            mode: self.mode,
            buffer: self.buffer@,
            text: self.text,
            last_update: self.last_update,
        }
    }
}

/// `b` is an ASCII hexadecimal digit.
pub open spec fn is_hex_digit(b: u8) -> bool {
    0x30 <= b <= 0x39 || 0x41 <= b <= 0x46 || 0x61 <= b <= 0x66
}

/// The value of an ASCII hexadecimal digit.
pub open spec fn hex_digit_value(b: u8) -> int {
    if b <= 0x39 {
        b - 0x30
    } else if b <= 0x46 {
        b - 0x41 + 10
    } else {
        b - 0x61 + 10
    }
}

/// `bytes` is a frame length: four hexadecimal digits.
pub open spec fn is_track_length(bytes: Seq<u8>) -> bool {
    bytes.len() == 4 && forall|i: int| 0 <= i < 4 ==> is_hex_digit(#[trigger] bytes[i])
}

/// The number that four hexadecimal digits spell.
pub open spec fn track_length(bytes: Seq<u8>) -> int {
    hex_digit_value(bytes[0]) * 4096 + hex_digit_value(bytes[1]) * 256 + hex_digit_value(bytes[2])
        * 16 + hex_digit_value(bytes[3])
}

/// A snapshot line reports a usable device when the first word behind its first tab is `device`.
pub open spec fn reports_device(line: Seq<char>) -> bool {
    let tab = position(line, '\t');
    tab < line.len() && first_word(line.skip(tab + 1)) == "device"@
}

/// `text[from..to]` is a line of `text`, without its line feed.
pub open spec fn is_line(text: Seq<char>, from: int, to: int) -> bool {
    &&& 0 <= from <= to <= text.len()
    &&& from == 0 || text[from - 1] == '\n'
    &&& to == text.len() || text[to] == '\n'
    &&& forall|i: int| from <= i < to ==> text[i] != '\n'
}

/// Some line of a snapshot reports a usable device. A carriage return at the end of a line makes
/// no difference, see [`carriage_return_is_immaterial`].
pub open spec fn snapshot_has_device(text: Seq<char>) -> bool {
    exists|from: int, to: int|
        #[trigger] is_line(text, from, to) && reports_device(text.subrange(from, to))
}

/// `line` without its trailing carriage returns.
pub open spec fn drop_carriage_returns(line: Seq<char>) -> Seq<char>
    decreases line.len(),
{
    if line.len() > 0 && line.last() == '\r' {
        drop_carriage_returns(line.drop_last())
    } else {
        line
    }
}

impl TrackDevicesTextParser {
    /// The parser after `line`, and the availability that `line` reports, if it reports one.
    ///
    /// The header starts a snapshot and completes the one before it. An empty line completes a
    /// snapshot. Any other line counts once a snapshot has started, and a line with a tab starts
    /// one; it reports availability as soon as it shows a usable device.
    pub open spec fn after_line(self, line: Seq<char>) -> (TrackDevicesTextParser, Option<bool>) {
        let line = drop_carriage_returns(line);
        if line == "List of devices attached"@ {
            (
                TrackDevicesTextParser { in_snapshot: true, device_available: false },
                if self.in_snapshot {
                    Some(self.device_available)
                } else {
                    None
                },
            )
        } else if line.len() == 0 {
            (
                TrackDevicesTextParser { in_snapshot: false, device_available: false },
                Some(self.in_snapshot && self.device_available),
            )
        } else if !self.in_snapshot && !line.contains('\t') {
            (self, None)
        } else {
            let device = reports_device(line);
            (
                TrackDevicesTextParser {
                    in_snapshot: true,
                    device_available: device || (self.in_snapshot && self.device_available),
                },
                if device {
                    Some(true)
                } else {
                    None
                },
            )
        }
    }
}

/// `line` without one trailing carriage return.
pub open spec fn strip_carriage_return(line: Seq<u8>) -> Seq<u8> {
    if line.len() > 0 && line.last() == 0x0d {
        line.drop_last()
    } else {
        line
    }
}

impl DecoderModel {
    /// The decoder with `bytes` appended to its buffer.
    pub open spec fn with_bytes(self, bytes: Seq<u8>) -> DecoderModel {
        DecoderModel { buffer: self.buffer + bytes, ..self }
    }

    /// The updates that observing `available` gives: none when nothing changed.
    pub open spec fn update_for(self, available: Option<bool>) -> Seq<bool> {
        match available {
            Some(available) if self.last_update != Some(available) => seq![available],
            _ => Seq::empty(),
        }
    }

    /// The decoder once `available` was observed.
    pub open spec fn observing(self, available: Option<bool>) -> DecoderModel {
        match available {
            Some(available) => DecoderModel { last_update: Some(available), ..self },
            None => self,
        }
    }

    /// Decoding that stops here, for want of bytes or at an error.
    pub open spec fn stop(self, error: Option<TrackDevicesDecodeError>) -> Decoded {
        Decoded { decoder: self, updates: Seq::empty(), error }
    }

    /// Decodes the buffer as far as it goes.
    pub open spec fn decode(self) -> Decoded {
        match self.mode {
            TrackDevicesMode::Framed => self.decode_frames(),
            TrackDevicesMode::Text => self.decode_lines(),
            TrackDevicesMode::Unknown => if self.buffer.len() < 4 {
                self.stop(None)
            } else if !is_track_length(self.buffer.take(4)) {
                DecoderModel { mode: TrackDevicesMode::Text, ..self }.decode_lines()
            } else if track_length(self.buffer.take(4)) > MAX_TRACK_DEVICES_PAYLOAD {
                self.stop(
                    Some(
                        TrackDevicesDecodeError::Oversized(
                            track_length(self.buffer.take(4)) as usize,
                        ),
                    ),
                )
            } else {
                DecoderModel { mode: TrackDevicesMode::Framed, ..self }.decode_frames()
            },
        }
    }

    /// Decodes the buffer as frames.
    pub open spec fn decode_frames(self) -> Decoded
        decreases self.buffer.len(),
    {
        let length = track_length(self.buffer.take(4));
        if self.buffer.len() < 4 {
            self.stop(None)
        } else if !is_track_length(self.buffer.take(4)) {
            self.stop(Some(TrackDevicesDecodeError::InvalidLength))
        } else if length > MAX_TRACK_DEVICES_PAYLOAD {
            self.stop(Some(TrackDevicesDecodeError::Oversized(length as usize)))
        } else if length < 0 || self.buffer.len() < 4 + length {
            self.stop(None)
        } else if !valid_utf8(self.buffer.subrange(4, 4 + length)) {
            self.stop(Some(TrackDevicesDecodeError::InvalidUtf8))
        } else {
            let available = snapshot_has_device(decode_utf8(self.buffer.subrange(4, 4 + length)));
            let rest = DecoderModel {
                buffer: self.buffer.skip(4 + length),
                ..self.observing(Some(available))
            }.decode_frames();
            Decoded { updates: self.update_for(Some(available)) + rest.updates, ..rest }
        }
    }

    /// Decodes the buffer as text lines.
    pub open spec fn decode_lines(self) -> Decoded
        decreases self.buffer.len(),
    {
        let newline = position(self.buffer, 0x0au8);
        if newline < 0 || newline >= self.buffer.len() {
            if self.buffer.len() > MAX_TRACK_DEVICES_PAYLOAD {
                self.stop(Some(TrackDevicesDecodeError::Oversized(self.buffer.len() as usize)))
            } else {
                self.stop(None)
            }
        } else {
            let line = strip_carriage_return(self.buffer.take(newline));
            let drained = DecoderModel { buffer: self.buffer.skip(newline + 1), ..self };
            if !valid_utf8(line) {
                drained.stop(Some(TrackDevicesDecodeError::InvalidUtf8))
            } else {
                let (text, available) = self.text.after_line(decode_utf8(line));
                let rest = DecoderModel { text, ..drained.observing(available) }.decode_lines();
                Decoded { updates: self.update_for(available) + rest.updates, ..rest }
            }
        }
    }
}

proof fn lemma_position<T>(s: Seq<T>, x: T)
    ensures
        0 <= position(s, x) <= s.len(),
        position(s, x) < s.len() ==> s[position(s, x)] == x,
        forall|i: int| 0 <= i < position(s, x) ==> s[i] != x,
    decreases s.len(),
{
    if s.len() > 0 && s[0] != x {
        lemma_position(s.skip(1), x);
        assert forall|i: int| 0 <= i < position(s, x) implies s[i] != x by {
            if i > 0 {
                assert(s.skip(1)[i - 1] == s[i]);
            }
        }
    }
}

proof fn lemma_position_is<T>(s: Seq<T>, x: T, at: int)
    requires
        0 <= at <= s.len(),
        at < s.len() ==> s[at] == x,
        forall|i: int| 0 <= i < at ==> s[i] != x,
    ensures
        position(s, x) == at,
{
    lemma_position(s, x);
}

proof fn lemma_track_length(bytes: Seq<u8>)
    requires
        is_track_length(bytes),
    ensures
        0 <= track_length(bytes) <= 0xffff,
{
    assert(is_hex_digit(bytes[0]) && is_hex_digit(bytes[1]) && is_hex_digit(bytes[2])
        && is_hex_digit(bytes[3]));
}

fn hex_value(b: u8) -> (value: Option<usize>)
    ensures
        match value {
            Some(value) => is_hex_digit(b) && value == hex_digit_value(b),
            None => !is_hex_digit(b),
        },
{
    if 0x30 <= b && b <= 0x39 {
        Some((b - 0x30) as usize)
    } else if 0x41 <= b && b <= 0x46 {
        Some((b - 0x41) as usize + 10)
    } else if 0x61 <= b && b <= 0x66 {
        Some((b - 0x61) as usize + 10)
    } else {
        None
    }
}

/// Parses the length of a frame.
pub fn parse_track_length(bytes: &[u8]) -> (length: Result<usize, TrackDevicesDecodeError>)
    ensures
        match length {
            Ok(length) => is_track_length(bytes@) && length == track_length(bytes@),
            Err(error) => !is_track_length(bytes@) && error
                == TrackDevicesDecodeError::InvalidLength,
        },
{
    if bytes.len() != 4 {
        return Err(TrackDevicesDecodeError::InvalidLength);
    }
    match (hex_value(bytes[0]), hex_value(bytes[1]), hex_value(bytes[2]), hex_value(bytes[3])) {
        (Some(first), Some(second), Some(third), Some(fourth)) => Ok(
            first * 4096 + second * 256 + third * 16 + fourth,
        ),
        _ => Err(TrackDevicesDecodeError::InvalidLength),
    }
}

/// The index at or after `from`, and at most `to`, of the first `c`, or `to`.
fn find_char(chars: &Vec<char>, from: usize, to: usize, c: char) -> (at: usize)
    requires
        from <= to <= chars@.len(),
    ensures
        from <= at <= to,
        at - from == position(chars@.subrange(from as int, to as int), c),
{
    let mut at: usize = from;
    while at < to && chars[at] != c
        invariant
            from <= at <= to <= chars@.len(),
            forall|i: int| from <= i < at ==> chars@[i] != c,
        decreases to - at,
    {
        at = at + 1;
    }
    proof {
        lemma_position_is(chars@.subrange(from as int, to as int), c, at - from);
    }
    at
}

/// Whether the line `chars[from..to]` reports a usable device.
fn line_reports_device(chars: &Vec<char>, from: usize, to: usize) -> (device: bool)
    requires
        from <= to <= chars@.len(),
    ensures
        device == reports_device(chars@.subrange(from as int, to as int)),
{
    let tab = find_char(chars, from, to, '\t');
    if tab == to {
        return false;
    }
    let ghost line = chars@.subrange(from as int, to as int);
    let mut state: Vec<char> = Vec::new();
    let mut at: usize = tab + 1;
    while at < to
        invariant
            from <= tab < at <= to <= chars@.len(),
            state@ == chars@.subrange(tab + 1, at as int),
        decreases to - at,
    {
        state.push(chars[at]);
        at = at + 1;
    }
    assert(state@ == line.skip(position(line, '\t') + 1));
    assert(state@.skip(0) == state@);
    let start = whitespace_end(&state, 0);
    let end = word_end(&state, start);
    range_is(&state, start, end, "device")
}

/// Whether a snapshot shows a usable device.
pub fn parse_track_snapshot(payload: &[u8]) -> (available: Result<bool, TrackDevicesDecodeError>)
    ensures
        match available {
            Ok(available) => valid_utf8(payload@) && available == snapshot_has_device(
                decode_utf8(payload@),
            ),
            Err(error) => !valid_utf8(payload@) && error == TrackDevicesDecodeError::InvalidUtf8,
        },
{
    let text = match utf8_text(payload) {
        Some(text) => text,
        None => {
            return Err(TrackDevicesDecodeError::InvalidUtf8);
        },
    };
    let chars = chars_of(text.as_str());
    let mut from: usize = 0;
    loop
        invariant
            chars@ == decode_utf8(payload@),
            valid_utf8(payload@),
            from <= chars@.len(),
            from == 0 || chars@[from - 1] == '\n',
            forall|i: int, j: int|
                #[trigger] is_line(chars@, i, j) && i < from ==> !reports_device(
                    chars@.subrange(i, j),
                ),
        decreases chars@.len() - from,
    {
        let to = find_char(&chars, from, chars.len(), '\n');
        proof {
            let rest = chars@.subrange(from as int, chars@.len() as int);
            lemma_position(rest, '\n');
            assert forall|i: int| from <= i < to implies chars@[i] != '\n' by {
                assert(rest[i - from] == chars@[i]);
            }
            assert(is_line(chars@, from as int, to as int));
        }
        if line_reports_device(&chars, from, to) {
            return Ok(true);
        }
        proof {
            assert forall|i: int, j: int| #[trigger]
                is_line(chars@, i, j) && i <= to implies !reports_device(chars@.subrange(i, j)) by {
                if i >= from {
                    if i > from {
                        assert(chars@[i - 1] == '\n');
                        assert(i - 1 == to);
                    }
                    assert(i == from);
                    if j < to {
                        assert(chars@[j] == '\n');
                    }
                    if j > to {
                        assert(chars@[to as int] != '\n');
                    }
                }
            }
        }
        if to == chars.len() {
            assert(!snapshot_has_device(chars@)) by {
                if snapshot_has_device(chars@) {
                    let (i, j) = choose|i: int, j: int| #[trigger]
                        is_line(chars@, i, j) && reports_device(chars@.subrange(i, j));
                    assert(is_line(chars@, i, j));
                }
            }
            return Ok(false);
        }
        from = to + 1;
    }
}

impl TrackDevicesTextParser {
    /// Feeds one line, without its line feed.
    pub fn push_line(&mut self, line: &str) -> (available: Option<bool>)
        ensures
            (*final(self), available) == old(self).after_line(line@),
    {
        let chars = chars_of(line);
        let mut length: usize = chars.len();
        assert(chars@.take(length as int) == line@);
        while length > 0 && chars[length - 1] == '\r'
            invariant
                length <= chars@.len(),
                drop_carriage_returns(chars@.take(length as int)) == drop_carriage_returns(line@),
            decreases length,
        {
            assert(chars@.take(length as int).drop_last() == chars@.take(length - 1));
            length = length - 1;
        }
        let ghost kept = drop_carriage_returns(line@);
        assert(kept == chars@.take(length as int));
        assert(chars@.subrange(0, length as int) == kept);
        if range_is(&chars, 0, length, "List of devices attached") {
            let completed = if self.in_snapshot {
                Some(self.device_available)
            } else {
                None
            };
            self.in_snapshot = true;
            self.device_available = false;
            return completed;
        }
        if length == 0 {
            let available = self.in_snapshot && self.device_available;
            self.in_snapshot = false;
            self.device_available = false;
            return Some(available);
        }
        let tab = find_char(&chars, 0, length, '\t');
        proof {
            lemma_position(kept, '\t');
            if kept.contains('\t') {
                let at = choose|i: int| 0 <= i < kept.len() && kept[i] == '\t';
                assert(tab < length);
            }
        }
        // Some platform-tools versions stream only the tab-separated snapshot, so the first
        // line with a tab starts one.
        if !self.in_snapshot && tab < length {
            self.in_snapshot = true;
            self.device_available = false;
        }
        if !self.in_snapshot {
            return None;
        }
        let available = line_reports_device(&chars, 0, length);
        self.device_available = self.device_available || available;
        if available {
            Some(true)
        } else {
            None
        }
    }
}

/// What a decoder returns for what decoding led to.
pub open spec fn push_result(
    decoded: Decoded,
    result: Result<Vec<bool>, TrackDevicesDecodeError>,
) -> bool {
    match result {
        Ok(updates) => decoded.error is None && updates@ == decoded.updates,
        Err(error) => decoded.error == Some(error),
    }
}

impl TrackDevicesDecoder {
    /// A decoder at the start of a stream.
    pub open spec fn start() -> DecoderModel {
        DecoderModel {
            mode: TrackDevicesMode::Unknown,
            buffer: Seq::empty(),
            text: TrackDevicesTextParser { in_snapshot: false, device_available: false },
            last_update: None,
        }
    }

    /// Feeds the next bytes of the stream and returns the changes of availability that they
    /// complete, in order.
    pub fn push(&mut self, bytes: &[u8]) -> (result: Result<Vec<bool>, TrackDevicesDecodeError>)
        ensures
            final(self)@ == old(self)@.with_bytes(bytes@).decode().decoder,
            push_result(old(self)@.with_bytes(bytes@).decode(), result),
    {
        extend_bytes(&mut self.buffer, bytes);
        assert(self@ == old(self)@.with_bytes(bytes@));
        if self.mode == TrackDevicesMode::Unknown {
            if self.buffer.len() < 4 {
                return Ok(Vec::new());
            }
            let header = copy_bytes(&self.buffer, 0, 4);
            assert(header@ == self.buffer@.take(4));
            match parse_track_length(header.as_slice()) {
                Ok(length) => {
                    proof {
                        lemma_track_length(header@);
                    }
                    if length > MAX_TRACK_DEVICES_PAYLOAD {
                        return Err(TrackDevicesDecodeError::Oversized(length));
                    }
                    self.mode = TrackDevicesMode::Framed;
                },
                Err(_) => {
                    self.mode = TrackDevicesMode::Text;
                },
            }
        }
        match self.mode {
            TrackDevicesMode::Framed => self.push_frames(),
            _ => self.push_lines(),
        }
    }

    /// Decodes the buffered frames.
    fn push_frames(&mut self) -> (result: Result<Vec<bool>, TrackDevicesDecodeError>)
        ensures
            final(self)@ == old(self)@.decode_frames().decoder,
            push_result(old(self)@.decode_frames(), result),
    {
        let mut updates: Vec<bool> = Vec::new();
        let ghost target = self@.decode_frames();
        assert(updates@ + target.updates == target.updates);
        loop
            invariant
                target == old(self)@.decode_frames(),
                target.decoder == self@.decode_frames().decoder,
                target.error == self@.decode_frames().error,
                target.updates == updates@ + self@.decode_frames().updates,
            decreases self.buffer@.len(),
        {
            let ghost before = self@;
            if self.buffer.len() < 4 {
                return Ok(updates);
            }
            let header = copy_bytes(&self.buffer, 0, 4);
            assert(header@ == self.buffer@.take(4));
            let length = parse_track_length(header.as_slice())?;
            proof {
                lemma_track_length(header@);
            }
            if length > MAX_TRACK_DEVICES_PAYLOAD {
                return Err(TrackDevicesDecodeError::Oversized(length));
            }
            if self.buffer.len() < 4 + length {
                return Ok(updates);
            }
            let payload = copy_bytes(&self.buffer, 4, 4 + length);
            let available = parse_track_snapshot(payload.as_slice())?;
            drain_bytes(&mut self.buffer, 4 + length);
            let ghost found = updates@;
            self.observe(Some(available), &mut updates);
            proof {
                let rest = self@.decode_frames();
                assert(self@ == DecoderModel {
                    buffer: before.buffer.skip(4 + length),
                    ..before.observing(Some(available))
                });
                assert(before.decode_frames().updates == before.update_for(Some(available))
                    + rest.updates);
                assert(found + (before.update_for(Some(available)) + rest.updates) == (found
                    + before.update_for(Some(available))) + rest.updates);
            }
        }
    }

    /// Decodes the buffered lines.
    fn push_lines(&mut self) -> (result: Result<Vec<bool>, TrackDevicesDecodeError>)
        ensures
            final(self)@ == old(self)@.decode_lines().decoder,
            push_result(old(self)@.decode_lines(), result),
    {
        let mut updates: Vec<bool> = Vec::new();
        let ghost target = self@.decode_lines();
        assert(updates@ + target.updates == target.updates);
        loop
            invariant
                target == old(self)@.decode_lines(),
                target.decoder == self@.decode_lines().decoder,
                target.error == self@.decode_lines().error,
                target.updates == updates@ + self@.decode_lines().updates,
            decreases self.buffer@.len(),
        {
            let ghost before = self@;
            let newline = find_byte(&self.buffer, 0x0a);
            if newline == self.buffer.len() {
                if self.buffer.len() > MAX_TRACK_DEVICES_PAYLOAD {
                    return Err(TrackDevicesDecodeError::Oversized(self.buffer.len()));
                }
                return Ok(updates);
            }
            let end: usize = if newline > 0 && self.buffer[newline - 1] == 0x0d {
                newline - 1
            } else {
                newline
            };
            let line = copy_bytes(&self.buffer, 0, end);
            assert(line@ == strip_carriage_return(before.buffer.take(newline as int)));
            drain_bytes(&mut self.buffer, newline + 1);
            let text = match utf8_text(line.as_slice()) {
                Some(text) => text,
                None => {
                    return Err(TrackDevicesDecodeError::InvalidUtf8);
                },
            };
            let available = self.text.push_line(text.as_str());
            let ghost found = updates@;
            self.observe(available, &mut updates);
            proof {
                let rest = self@.decode_lines();
                assert(before.decode_lines().updates == before.update_for(available)
                    + rest.updates);
                assert(found + (before.update_for(available) + rest.updates) == (found
                    + before.update_for(available)) + rest.updates);
            }
        }
    }

    /// Notes an observed availability and appends it to `updates` when it is a change.
    fn observe(&mut self, available: Option<bool>, updates: &mut Vec<bool>)
        ensures
            final(self)@ == old(self)@.observing(available),
            final(updates)@ == old(updates)@ + old(self)@.update_for(available),
    {
        if let Some(value) = available {
            if self.last_update != Some(value) {
                self.last_update = Some(value);
                updates.push(value);
            }
        }
    }
}

impl Default for TrackDevicesDecoder {
    fn default() -> (decoder: Self)
        ensures
            decoder@ == Self::start(),
    {
        TrackDevicesDecoder {
            mode: TrackDevicesMode::Unknown,
            buffer: Vec::new(),
            text: TrackDevicesTextParser { in_snapshot: false, device_available: false },
            last_update: None,
        }
    }
}

fn extend_bytes(buffer: &mut Vec<u8>, bytes: &[u8])
    ensures
        final(buffer)@ == old(buffer)@ + bytes@,
{
    buffer.extend_from_slice(bytes);
}

fn copy_bytes(buffer: &Vec<u8>, from: usize, to: usize) -> (bytes: Vec<u8>)
    requires
        from <= to <= buffer@.len(),
    ensures
        bytes@ == buffer@.subrange(from as int, to as int),
{
    let mut bytes: Vec<u8> = Vec::new();
    let mut at: usize = from;
    while at < to
        invariant
            from <= at <= to <= buffer@.len(),
            bytes@ == buffer@.subrange(from as int, at as int),
        decreases to - at,
    {
        bytes.push(buffer[at]);
        at = at + 1;
    }
    bytes
}

fn drain_bytes(buffer: &mut Vec<u8>, count: usize)
    requires
        count <= old(buffer)@.len(),
    ensures
        final(buffer)@ == old(buffer)@.skip(count as int),
{
    let rest = buffer.split_off(count);
    *buffer = rest;
}

fn find_byte(buffer: &Vec<u8>, byte: u8) -> (at: usize)
    ensures
        at == position(buffer@, byte),
        at <= buffer@.len(),
{
    let mut at: usize = 0;
    while at < buffer.len() && buffer[at] != byte
        invariant
            at <= buffer@.len(),
            forall|i: int| 0 <= i < at ==> buffer@[i] != byte,
        decreases buffer@.len() - at,
    {
        at = at + 1;
    }
    proof {
        lemma_position_is(buffer@, byte, at as int);
    }
    at
}

impl Decoded {
    /// What is left of decoding once `earlier` updates came before it.
    pub open spec fn after(self, earlier: Seq<bool>) -> Decoded {
        Decoded { updates: earlier + self.updates, ..self }
    }
}

proof fn lemma_frames_keep_mode(d: DecoderModel)
    ensures
        d.decode_frames().decoder.mode == d.mode,
    decreases d.buffer.len(),
{
    let length = track_length(d.buffer.take(4));
    if d.decode_frames() != d.stop(d.decode_frames().error) {
        let available = snapshot_has_device(decode_utf8(d.buffer.subrange(4, 4 + length)));
        lemma_frames_keep_mode(
            DecoderModel { buffer: d.buffer.skip(4 + length), ..d.observing(Some(available)) },
        );
    }
}

proof fn lemma_lines_keep_mode(d: DecoderModel)
    ensures
        d.decode_lines().decoder.mode == d.mode,
    decreases d.buffer.len(),
{
    let newline = position(d.buffer, 0x0au8);
    let line = strip_carriage_return(d.buffer.take(newline));
    if 0 <= newline < d.buffer.len() && valid_utf8(line) {
        let drained = DecoderModel { buffer: d.buffer.skip(newline + 1), ..d };
        let (text, available) = d.text.after_line(decode_utf8(line));
        lemma_lines_keep_mode(DecoderModel { text, ..drained.observing(available) });
    }
}

/// The first whole frame of the buffer taken off: the decoder after it, and its updates.
spec fn next_frame(d: DecoderModel) -> Option<(DecoderModel, Seq<bool>)> {
    let length = track_length(d.buffer.take(4));
    if d.buffer.len() >= 4 && is_track_length(d.buffer.take(4)) && 0 <= length
        <= MAX_TRACK_DEVICES_PAYLOAD && d.buffer.len() >= 4 + length && valid_utf8(
        d.buffer.subrange(4, 4 + length),
    ) {
        let available = snapshot_has_device(decode_utf8(d.buffer.subrange(4, 4 + length)));
        Some(
            (
                DecoderModel { buffer: d.buffer.skip(4 + length), ..d.observing(Some(available)) },
                d.update_for(Some(available)),
            ),
        )
    } else {
        None
    }
}

proof fn lemma_next_frame(d: DecoderModel)
    ensures
        match next_frame(d) {
            Some((rest, first)) => {
                &&& d.decode_frames() == rest.decode_frames().after(first)
                &&& rest.buffer.len() < d.buffer.len()
            },
            None => d.decode_frames() == d.stop(d.decode_frames().error),
        },
{
}

#[verifier::spinoff_prover]
proof fn lemma_next_frame_append(d: DecoderModel, more: Seq<u8>)
    ensures
        next_frame(d) matches Some((rest, first)) ==> next_frame(d.with_bytes(more)) == Some(
            (rest.with_bytes(more), first),
        ),
        next_frame(d) is None && d.decode_frames().error is Some ==> d.with_bytes(
            more,
        ).decode_frames().error == d.decode_frames().error,
{
    let longer = d.with_bytes(more);
    let length = track_length(d.buffer.take(4));
    if d.buffer.len() >= 4 {
        assert(longer.buffer.take(4) == d.buffer.take(4));
        if is_track_length(d.buffer.take(4)) && length <= MAX_TRACK_DEVICES_PAYLOAD {
            lemma_track_length(d.buffer.take(4));
            if d.buffer.len() >= 4 + length {
                assert(longer.buffer.subrange(4, 4 + length) == d.buffer.subrange(4, 4 + length));
                assert(longer.buffer.skip(4 + length) == d.buffer.skip(4 + length) + more);
            }
        }
    }
}

proof fn lemma_frames_append(d: DecoderModel, more: Seq<u8>)
    ensures
        d.decode_frames().error is None ==> d.with_bytes(more).decode_frames()
            == d.decode_frames().decoder.with_bytes(more).decode_frames().after(
            d.decode_frames().updates,
        ),
        d.decode_frames().error is Some ==> d.with_bytes(more).decode_frames().error
            == d.decode_frames().error,
    decreases d.buffer.len(),
{
    let longer = d.with_bytes(more);
    lemma_next_frame(d);
    lemma_next_frame(longer);
    lemma_next_frame_append(d, more);
    match next_frame(d) {
        Some((rest, first)) => {
            lemma_frames_append(rest, more);
            let tail = rest.decode_frames().decoder.with_bytes(more).decode_frames();
            assert(first + (rest.decode_frames().updates + tail.updates) == (first
                + rest.decode_frames().updates) + tail.updates);
        },
        None => {
            assert(longer.decode_frames().after(Seq::empty()) == longer.decode_frames());
        },
    }
}

proof fn lemma_lines_append(d: DecoderModel, more: Seq<u8>)
    ensures
        d.decode_lines().error is None ==> d.with_bytes(more).decode_lines()
            == d.decode_lines().decoder.with_bytes(more).decode_lines().after(
            d.decode_lines().updates,
        ),
        d.decode_lines().error == Some(TrackDevicesDecodeError::InvalidUtf8) ==> d.with_bytes(
            more,
        ).decode_lines().error == d.decode_lines().error,
    decreases d.buffer.len(),
{
    let longer = d.with_bytes(more);
    let newline = position(d.buffer, 0x0au8);
    lemma_position(d.buffer, 0x0au8);
    if newline == d.buffer.len() {
        if d.decode_lines().error is None {
            assert(d.decode_lines() == d.stop(None));
            assert(longer.decode_lines().after(Seq::empty()) == longer.decode_lines());
        }
    } else {
        lemma_position_is(longer.buffer, 0x0au8, newline);
        assert(longer.buffer.take(newline) == d.buffer.take(newline));
        assert(longer.buffer.skip(newline + 1) == d.buffer.skip(newline + 1) + more);
        let line = strip_carriage_return(d.buffer.take(newline));
        if valid_utf8(line) {
            let drained = DecoderModel { buffer: d.buffer.skip(newline + 1), ..d };
            let (text, available) = d.text.after_line(decode_utf8(line));
            let rest = DecoderModel { text, ..drained.observing(available) };
            lemma_lines_append(rest, more);
            let first = d.update_for(available);
            let tail = rest.decode_lines().decoder.with_bytes(more).decode_lines();
            assert(d.decode_lines() == rest.decode_lines().after(first));
            assert(longer.decode_lines() == rest.with_bytes(more).decode_lines().after(first));
            assert(first + (rest.decode_lines().updates + tail.updates) == (first
                + rest.decode_lines().updates) + tail.updates);
        }
    }
}

/// Where the stream is cut into chunks makes no difference: once a chunk has been accepted,
/// feeding the next one gives what feeding both at once would have given, the updates of the
/// first chunk before those of the second, and the same error if there is one.
pub proof fn chunking_is_immaterial(decoder: DecoderModel, first: Seq<u8>, second: Seq<u8>)
    requires
        decoder.with_bytes(first).decode().error is None,
    ensures
        decoder.with_bytes(first + second).decode() == decoder.with_bytes(
            first,
        ).decode().decoder.with_bytes(second).decode().after(
            decoder.with_bytes(first).decode().updates,
        ),
{
    let start = decoder.with_bytes(first);
    assert(decoder.with_bytes(first + second) == start.with_bytes(second));
    let both = start.with_bytes(second);
    match start.mode {
        TrackDevicesMode::Framed => {
            lemma_frames_append(start, second);
            lemma_frames_keep_mode(start);
        },
        TrackDevicesMode::Text => {
            lemma_lines_append(start, second);
            lemma_lines_keep_mode(start);
        },
        TrackDevicesMode::Unknown => {
            if start.buffer.len() < 4 {
                assert(both.decode().after(Seq::empty()) == both.decode());
            } else {
                assert(both.buffer.take(4) == start.buffer.take(4));
                let framed = DecoderModel { mode: TrackDevicesMode::Framed, ..start };
                let text = DecoderModel { mode: TrackDevicesMode::Text, ..start };
                lemma_frames_append(framed, second);
                lemma_frames_keep_mode(framed);
                lemma_lines_append(text, second);
                lemma_lines_keep_mode(text);
                assert(framed.with_bytes(second) == DecoderModel {
                    mode: TrackDevicesMode::Framed,
                    ..both
                });
                assert(text.with_bytes(second) == DecoderModel {
                    mode: TrackDevicesMode::Text,
                    ..both
                });
            }
        },
    }
}

/// Bytes that follow never mend a stream that was refused, except that an unterminated text line
/// of excessive length is refused only while its end has not been seen.
pub proof fn refusal_is_final(decoder: DecoderModel, first: Seq<u8>, second: Seq<u8>)
    requires
        decoder.with_bytes(first).decode().error is Some,
        decoder.with_bytes(first).decode().decoder.mode == TrackDevicesMode::Text
            ==> decoder.with_bytes(first).decode().error == Some(
            TrackDevicesDecodeError::InvalidUtf8,
        ),
    ensures
        decoder.with_bytes(first + second).decode().error == decoder.with_bytes(
            first,
        ).decode().error,
{
    let start = decoder.with_bytes(first);
    assert(decoder.with_bytes(first + second) == start.with_bytes(second));
    let both = start.with_bytes(second);
    match start.mode {
        TrackDevicesMode::Framed => {
            lemma_frames_append(start, second);
        },
        TrackDevicesMode::Text => {
            lemma_lines_append(start, second);
            lemma_lines_keep_mode(start);
        },
        TrackDevicesMode::Unknown => {
            assert(both.buffer.take(4) == start.buffer.take(4));
            let framed = DecoderModel { mode: TrackDevicesMode::Framed, ..start };
            let text = DecoderModel { mode: TrackDevicesMode::Text, ..start };
            lemma_frames_append(framed, second);
            lemma_lines_append(text, second);
            lemma_lines_keep_mode(text);
            assert(framed.with_bytes(second) == DecoderModel {
                mode: TrackDevicesMode::Framed,
                ..both
            });
            assert(text.with_bytes(second) == DecoderModel {
                mode: TrackDevicesMode::Text,
                ..both
            });
        },
    }
}

/// No two neighbours in `updates` are equal, and the first differs from `last`.
pub open spec fn only_changes(last: Option<bool>, updates: Seq<bool>) -> bool {
    &&& updates.len() > 0 ==> last != Some(updates[0])
    &&& forall|i: int| 0 < i < updates.len() ==> updates[i - 1] != #[trigger] updates[i]
}

/// The availability that is known after `updates`, when `last` was known before.
pub open spec fn last_known(last: Option<bool>, updates: Seq<bool>) -> Option<bool> {
    if updates.len() == 0 {
        last
    } else {
        Some(updates.last())
    }
}

proof fn lemma_only_changes(d: DecoderModel, available: Option<bool>, rest: Decoded)
    requires
        only_changes(d.observing(available).last_update, rest.updates),
        rest.decoder.last_update == last_known(
            d.observing(available).last_update,
            rest.updates,
        ),
    ensures
        only_changes(d.last_update, d.update_for(available) + rest.updates),
        rest.decoder.last_update == last_known(
            d.last_update,
            d.update_for(available) + rest.updates,
        ),
{
    let updates = d.update_for(available) + rest.updates;
    assert forall|i: int| 0 < i < updates.len() implies updates[i - 1] != #[trigger] updates[i] by {
        let shift = d.update_for(available).len();
        if i > shift {
            assert(updates[i] == rest.updates[i - shift]);
            assert(updates[i - 1] == rest.updates[i - shift - 1]);
        } else if shift == 1 {
            assert(updates[1] == rest.updates[0]);
        }
    }
    if rest.updates.len() > 0 {
        assert(updates.last() == rest.updates.last());
        assert(updates[d.update_for(available).len() as int] == rest.updates[0]);
    }
}

proof fn lemma_frames_only_changes(d: DecoderModel)
    ensures
        only_changes(d.last_update, d.decode_frames().updates),
        d.decode_frames().decoder.last_update == last_known(
            d.last_update,
            d.decode_frames().updates,
        ),
    decreases d.buffer.len(),
{
    let length = track_length(d.buffer.take(4));
    if d.buffer.len() >= 4 && is_track_length(d.buffer.take(4)) && length
        <= MAX_TRACK_DEVICES_PAYLOAD {
        lemma_track_length(d.buffer.take(4));
        if d.buffer.len() >= 4 + length && valid_utf8(d.buffer.subrange(4, 4 + length)) {
            let available = Some(
                snapshot_has_device(decode_utf8(d.buffer.subrange(4, 4 + length))),
            );
            let rest = DecoderModel { buffer: d.buffer.skip(4 + length), ..d.observing(available) };
            lemma_frames_only_changes(rest);
            lemma_only_changes(d, available, rest.decode_frames());
        }
    }
}

proof fn lemma_lines_only_changes(d: DecoderModel)
    ensures
        only_changes(d.last_update, d.decode_lines().updates),
        d.decode_lines().decoder.last_update == last_known(
            d.last_update,
            d.decode_lines().updates,
        ),
    decreases d.buffer.len(),
{
    let newline = position(d.buffer, 0x0au8);
    let line = strip_carriage_return(d.buffer.take(newline));
    if 0 <= newline < d.buffer.len() && valid_utf8(line) {
        let drained = DecoderModel { buffer: d.buffer.skip(newline + 1), ..d };
        let (text, available) = d.text.after_line(decode_utf8(line));
        let rest = DecoderModel { text, ..drained.observing(available) };
        lemma_lines_only_changes(rest);
        lemma_only_changes(d, available, rest.decode_lines());
    }
}

/// Updates report changes only: each differs from the one before it, across calls too, since
/// the decoder keeps the last one.
pub proof fn updates_are_changes(decoder: DecoderModel, bytes: Seq<u8>)
    ensures
        only_changes(decoder.last_update, decoder.with_bytes(bytes).decode().updates),
        decoder.with_bytes(bytes).decode().decoder.last_update == last_known(
            decoder.last_update,
            decoder.with_bytes(bytes).decode().updates,
        ),
{
    let d = decoder.with_bytes(bytes);
    lemma_frames_only_changes(d);
    lemma_lines_only_changes(d);
    lemma_frames_only_changes(DecoderModel { mode: TrackDevicesMode::Framed, ..d });
    lemma_lines_only_changes(DecoderModel { mode: TrackDevicesMode::Text, ..d });
}

proof fn lemma_frames_bounded(d: DecoderModel)
    requires
        d.decode_frames().error is None,
    ensures
        d.decode_frames().decoder.buffer.len() < 4 + MAX_TRACK_DEVICES_PAYLOAD,
    decreases d.buffer.len(),
{
    let length = track_length(d.buffer.take(4));
    if d.buffer.len() >= 4 {
        lemma_track_length(d.buffer.take(4));
        if d.buffer.len() >= 4 + length {
            let available = snapshot_has_device(decode_utf8(d.buffer.subrange(4, 4 + length)));
            lemma_frames_bounded(
                DecoderModel { buffer: d.buffer.skip(4 + length), ..d.observing(Some(available)) },
            );
        }
    }
}

proof fn lemma_lines_bounded(d: DecoderModel)
    requires
        d.decode_lines().error is None,
    ensures
        d.decode_lines().decoder.buffer.len() <= MAX_TRACK_DEVICES_PAYLOAD,
    decreases d.buffer.len(),
{
    let newline = position(d.buffer, 0x0au8);
    lemma_position(d.buffer, 0x0au8);
    if newline < d.buffer.len() {
        let line = strip_carriage_return(d.buffer.take(newline));
        let drained = DecoderModel { buffer: d.buffer.skip(newline + 1), ..d };
        let (text, available) = d.text.after_line(decode_utf8(line));
        lemma_lines_bounded(DecoderModel { text, ..drained.observing(available) });
    }
}

/// A decoder that accepted its input buffers less than one frame of the largest size.
pub proof fn buffer_stays_bounded(decoder: DecoderModel, bytes: Seq<u8>)
    requires
        decoder.with_bytes(bytes).decode().error is None,
    ensures
        decoder.with_bytes(bytes).decode().decoder.buffer.len() < 4 + MAX_TRACK_DEVICES_PAYLOAD,
{
    let d = decoder.with_bytes(bytes);
    match d.mode {
        TrackDevicesMode::Framed => lemma_frames_bounded(d),
        TrackDevicesMode::Text => lemma_lines_bounded(d),
        TrackDevicesMode::Unknown => {
            if d.buffer.len() >= 4 {
                if is_track_length(d.buffer.take(4)) {
                    lemma_frames_bounded(DecoderModel { mode: TrackDevicesMode::Framed, ..d });
                } else {
                    lemma_lines_bounded(DecoderModel { mode: TrackDevicesMode::Text, ..d });
                }
            }
        },
    }
}

proof fn lemma_skip_whitespace_append(s: Seq<char>, c: char)
    requires
        whitespace(c),
    ensures
        first_word(s.push(c)) == first_word(s),
    decreases s.len(),
{
    if s.len() > 0 && whitespace(s[0]) {
        lemma_skip_whitespace_append(s.skip(1), c);
        assert(s.push(c).skip(1) == s.skip(1).push(c));
    } else if s.len() > 0 {
        lemma_leading_word_append(s, c);
    } else {
        assert(s.push(c).skip(1) == s);
    }
}

proof fn lemma_leading_word_append(s: Seq<char>, c: char)
    requires
        whitespace(c),
    ensures
        leading_word(s.push(c)) == leading_word(s),
    decreases s.len(),
{
    if s.len() > 0 && !whitespace(s[0]) {
        lemma_leading_word_append(s.skip(1), c);
        assert(s.push(c).skip(1) == s.skip(1).push(c));
    }
}

/// A line reports the same with a carriage return behind it as without.
pub proof fn carriage_return_is_immaterial(line: Seq<char>)
    ensures
        reports_device(line.push('\r')) == reports_device(line),
{
    let longer = line.push('\r');
    let tab = position(line, '\t');
    lemma_position(line, '\t');
    lemma_position(longer, '\t');
    if tab < line.len() {
        lemma_position_is(longer, '\t', tab);
        assert(longer.skip(tab + 1) == line.skip(tab + 1).push('\r'));
        lemma_skip_whitespace_append(line.skip(tab + 1), '\r');
    } else if position(longer, '\t') < longer.len() {
        assert(longer[position(longer, '\t')] == '\t');
    }
}

/// A line reports a usable device exactly when the word behind its first tab is `device`: no other
/// state makes a device usable, whatever follows it, and neither does a line without a tab.
pub proof fn usable_device_is_called_device(
    serial: Seq<char>,
    gap: Seq<char>,
    state: Seq<char>,
    rest: Seq<char>,
)
    requires
        !serial.contains('\t'),
        crate::text::blank(gap),
        crate::text::solid(state),
        state.len() > 0,
        rest.len() > 0 ==> whitespace(rest[0]),
    ensures
        reports_device(serial.push('\t') + (gap + state + rest)) <==> state == "device"@,
        !reports_device(serial),
{
    let tail = gap + state + rest;
    crate::text::position_is_the_first_occurrence(serial, '\t', tail);
    crate::text::first_word_stands_between_whitespace(gap, state, rest);
    assert((serial.push('\t') + tail).skip(serial.len() as int + 1) =~= tail);
}

/// A snapshot of one line shows a device exactly when that line reports one.
pub proof fn one_line_is_a_snapshot(line: Seq<char>)
    requires
        !line.contains('\n'),
    ensures
        snapshot_has_device(line) == reports_device(line),
{
    assert(line.subrange(0, line.len() as int) =~= line);
    assert forall|i: int| 0 <= i < line.len() implies line[i] != '\n' by {
        assert(line.contains(line[i]));
    }
    assert(is_line(line, 0, line.len() as int));
    if snapshot_has_device(line) {
        let (from, to) = choose|from: int, to: int| #[trigger]
            is_line(line, from, to) && reports_device(line.subrange(from, to));
        assert(from == 0 && to == line.len());
    }
}

/// A snapshot shows a device exactly when its first line does or what follows that line does.
pub proof fn snapshot_shows_what_its_parts_show(first: Seq<char>, rest: Seq<char>)
    requires
        !first.contains('\n'),
    ensures
        snapshot_has_device(first.push('\n') + rest) == (reports_device(first)
            || snapshot_has_device(rest)),
{
    let text = first.push('\n') + rest;
    let shift = first.len() + 1;
    assert forall|i: int| 0 <= i < first.len() implies text[i] != '\n' by {
        assert(first.contains(first[i]));
    }
    assert(text.subrange(0, first.len() as int) =~= first);
    assert(is_line(text, 0, first.len() as int));
    if snapshot_has_device(rest) {
        let (from, to) = choose|from: int, to: int| #[trigger]
            is_line(rest, from, to) && reports_device(rest.subrange(from, to));
        assert forall|i: int| from + shift <= i < to + shift implies text[i] != '\n' by {
            assert(rest[i - shift] != '\n');
        }
        assert(text.subrange(from + shift, to + shift) =~= rest.subrange(from, to));
        assert(is_line(text, from + shift, to + shift));
    }
    if snapshot_has_device(text) {
        let (from, to) = choose|from: int, to: int| #[trigger]
            is_line(text, from, to) && reports_device(text.subrange(from, to));
        if from == 0 {
            assert(text[first.len() as int] == '\n');
            assert(to == first.len());
        } else {
            assert(text[from - 1] == '\n');
            assert(from >= shift);
            assert forall|i: int| from - shift <= i < to - shift implies rest[i] != '\n' by {
                assert(text[i + shift] != '\n');
            }
            if to < text.len() {
                assert(text[to] == rest[to - shift]);
            }
            if from > shift {
                assert(text[from - 1] == rest[from - shift - 1]);
            }
            assert(is_line(rest, from - shift, to - shift));
            assert(text.subrange(from, to) =~= rest.subrange(from - shift, to - shift));
        }
    }
}

/// The line is one of a device: neither empty nor the header of a snapshot.
pub open spec fn lists_something(line: Seq<char>) -> bool {
    let kept = drop_carriage_returns(line);
    kept.len() > 0 && kept != "List of devices attached"@
}

/// Some of the lines reports a usable device.
pub open spec fn any_reports_device(lines: Seq<Seq<char>>) -> bool {
    exists|i: int| 0 <= i < lines.len() && reports_device(#[trigger] lines[i])
}

impl TrackDevicesTextParser {
    /// The parser after `lines`, in order.
    pub open spec fn after_lines(self, lines: Seq<Seq<char>>) -> TrackDevicesTextParser
        decreases lines.len(),
    {
        if lines.len() == 0 {
            self
        } else {
            self.after_lines(lines.drop_last()).after_line(lines.last()).0
        }
    }
}

proof fn lemma_dropping_carriage_returns(line: Seq<char>)
    ensures
        reports_device(drop_carriage_returns(line)) == reports_device(line),
    decreases line.len(),
{
    if line.len() > 0 && line.last() == '\r' {
        lemma_dropping_carriage_returns(line.drop_last());
        carriage_return_is_immaterial(line.drop_last());
        assert(line.drop_last().push('\r') =~= line);
    }
}

proof fn lemma_lines_add_up(parser: TrackDevicesTextParser, lines: Seq<Seq<char>>)
    requires
        parser.in_snapshot,
        forall|i: int| 0 <= i < lines.len() ==> lists_something(#[trigger] lines[i]),
    ensures
        parser.after_lines(lines).in_snapshot,
        parser.after_lines(lines).device_available == (parser.device_available
            || any_reports_device(lines)),
    decreases lines.len(),
{
    if lines.len() > 0 {
        let earlier = lines.drop_last();
        let last = lines.len() - 1;
        assert forall|i: int| 0 <= i < earlier.len() implies lists_something(
            #[trigger] earlier[i],
        ) by {
            assert(lists_something(lines[i]));
        }
        lemma_lines_add_up(parser, earlier);
        assert(lists_something(lines[last]));
        lemma_dropping_carriage_returns(lines[last]);
        if any_reports_device(earlier) {
            let i = choose|i: int| 0 <= i < earlier.len() && reports_device(#[trigger] earlier[i]);
            assert(reports_device(lines[i]));
        }
        if any_reports_device(lines) {
            let i = choose|i: int| 0 <= i < lines.len() && reports_device(#[trigger] lines[i]);
            if i < last {
                assert(reports_device(earlier[i]));
            }
        }
    }
}

/// A snapshot in text form, between its header and the empty line or the header that completes it,
/// shows a device exactly when any of its lines reports one, whichever it is.
pub proof fn text_snapshot_shows_any_device(
    parser: TrackDevicesTextParser,
    lines: Seq<Seq<char>>,
)
    requires
        forall|i: int| 0 <= i < lines.len() ==> lists_something(#[trigger] lines[i]),
    ensures
        ({
            let header = "List of devices attached"@;
            let shown = parser.after_line(header).0.after_lines(lines);
            &&& shown.after_line(Seq::empty()).1 == Some(any_reports_device(lines))
            &&& shown.after_line(header).1 == Some(any_reports_device(lines))
            &&& shown.after_line(Seq::empty()).0 == (TrackDevicesTextParser {
                in_snapshot: false,
                device_available: false,
            })
            &&& shown.after_line(header).0 == parser.after_line(header).0
        }),
{
    lemma_header();
    lemma_lines_add_up(parser.after_line("List of devices attached"@).0, lines);
}

proof fn lemma_header()
    ensures
        drop_carriage_returns("List of devices attached"@) == "List of devices attached"@,
        "List of devices attached"@.len() > 0,
        drop_carriage_returns(Seq::empty()) == Seq::<char>::empty(),
{
    reveal_strlit("List of devices attached");
}

/// A snapshot without a header begins with its first line that holds a tab, and shows a device
/// exactly when any of its lines reports one. Lines before it, without a tab, count for nothing.
pub proof fn headless_snapshot_shows_any_device(
    parser: TrackDevicesTextParser,
    noise: Seq<char>,
    first: Seq<char>,
    lines: Seq<Seq<char>>,
)
    requires
        !parser.in_snapshot,
        lists_something(noise),
        !noise.contains('\t'),
        lists_something(first),
        drop_carriage_returns(first).contains('\t'),
        forall|i: int| 0 <= i < lines.len() ==> lists_something(#[trigger] lines[i]),
    ensures
        parser.after_line(noise) == (parser, None::<bool>),
        parser.after_line(first).0.after_lines(lines).after_line(Seq::empty()).1 == Some(
            reports_device(first) || any_reports_device(lines),
        ),
{
    lemma_header();
    lemma_dropping_carriage_returns(first);
    lemma_kept_part(noise);
    lemma_lines_add_up(parser.after_line(first).0, lines);
}

proof fn lemma_kept_part(line: Seq<char>)
    ensures
        drop_carriage_returns(line).len() <= line.len(),
        drop_carriage_returns(line) == line.take(drop_carriage_returns(line).len() as int),
        !line.contains('\t') ==> !drop_carriage_returns(line).contains('\t'),
    decreases line.len(),
{
    if line.len() > 0 && line.last() == '\r' {
        lemma_kept_part(line.drop_last());
        assert(line.drop_last().take(drop_carriage_returns(line).len() as int) =~= line.take(
            drop_carriage_returns(line).len() as int,
        ));
    } else {
        assert(line.take(line.len() as int) =~= line);
    }
    let kept = drop_carriage_returns(line);
    if kept.contains('\t') {
        let at = choose|i: int| 0 <= i < kept.len() && kept[i] == '\t';
        assert(line[at] == '\t');
    }
}

/// A usable device is told of as soon as its line is read within a snapshot; a line of another
/// device tells nothing yet.
pub proof fn usable_device_is_told_of_at_once(parser: TrackDevicesTextParser, line: Seq<char>)
    requires
        parser.in_snapshot,
        lists_something(line),
    ensures
        parser.after_line(line).1 == if reports_device(line) {
            Some(true)
        } else {
            None
        },
{
    lemma_dropping_carriage_returns(line);
}

/// The lines with a line feed between any two of them.
pub open spec fn joined_lines(lines: Seq<Seq<char>>) -> Seq<char>
    decreases lines.len(),
{
    if lines.len() == 0 {
        Seq::empty()
    } else if lines.len() == 1 {
        lines[0]
    } else {
        lines[0].push('\n') + joined_lines(lines.skip(1))
    }
}

/// Both forms of the stream mean the same: a framed snapshot of some lines shows a device exactly
/// when the text form of the same lines does.
pub proof fn both_forms_mean_the_same(parser: TrackDevicesTextParser, lines: Seq<Seq<char>>)
    requires
        lines.len() > 0,
        forall|i: int| 0 <= i < lines.len() ==> !(#[trigger] lines[i]).contains('\n'),
        forall|i: int| 0 <= i < lines.len() ==> lists_something(#[trigger] lines[i]),
    ensures
        snapshot_has_device(joined_lines(lines)) == any_reports_device(lines),
        parser.after_line("List of devices attached"@).0.after_lines(lines).after_line(
            Seq::empty(),
        ).1 == Some(snapshot_has_device(joined_lines(lines))),
{
    lemma_framed_lines(lines);
    text_snapshot_shows_any_device(parser, lines);
}

proof fn lemma_framed_lines(lines: Seq<Seq<char>>)
    requires
        lines.len() > 0,
        forall|i: int| 0 <= i < lines.len() ==> !(#[trigger] lines[i]).contains('\n'),
    ensures
        snapshot_has_device(joined_lines(lines)) == any_reports_device(lines),
    decreases lines.len(),
{
    assert(!lines[0].contains('\n'));
    if lines.len() == 1 {
        one_line_is_a_snapshot(lines[0]);
        if any_reports_device(lines) {
            let i = choose|i: int| 0 <= i < lines.len() && reports_device(#[trigger] lines[i]);
            assert(i == 0);
        }
    } else {
        let rest = lines.skip(1);
        assert forall|i: int| 0 <= i < rest.len() implies !(#[trigger] rest[i]).contains(
            '\n',
        ) by {
            assert(!lines[i + 1].contains('\n'));
        }
        lemma_framed_lines(rest);
        snapshot_shows_what_its_parts_show(lines[0], joined_lines(rest));
        if any_reports_device(rest) {
            let i = choose|i: int| 0 <= i < rest.len() && reports_device(#[trigger] rest[i]);
            assert(reports_device(lines[i + 1]));
        }
        if any_reports_device(lines) {
            let i = choose|i: int| 0 <= i < lines.len() && reports_device(#[trigger] lines[i]);
            if i > 0 {
                assert(reports_device(rest[i - 1]));
            }
        }
    }
}

/// The first four bytes decide the form of a stream: hexadecimal digits begin a frame, anything
/// else is text. Until there are four of them, nothing is decided.
pub proof fn first_bytes_decide_the_form(decoder: DecoderModel)
    requires
        decoder.mode == TrackDevicesMode::Unknown,
    ensures
        ({
            let decoded = decoder.decode();
            let header = decoder.buffer.take(4);
            &&& decoder.buffer.len() < 4 ==> decoded.decoder == decoder && decoded.updates.len()
                == 0 && decoded.error is None
            &&& decoder.buffer.len() >= 4 && !(forall|i: int|
                0 <= i < 4 ==> is_hex_digit(#[trigger] header[i]))
                ==> decoded.decoder.mode == TrackDevicesMode::Text
            &&& decoder.buffer.len() >= 4 && (forall|i: int|
                0 <= i < 4 ==> is_hex_digit(#[trigger] header[i])) && track_length(header) <= 16
                * 1024 ==> decoded.decoder.mode == TrackDevicesMode::Framed
        }),
{
    if decoder.buffer.len() >= 4 {
        lemma_frames_keep_mode(DecoderModel { mode: TrackDevicesMode::Framed, ..decoder });
        lemma_lines_keep_mode(DecoderModel { mode: TrackDevicesMode::Text, ..decoder });
    }
}

/// The value of a hexadecimal digit: 0 to 9, and 10 to 15 for the letters, in either case. No other
/// byte is one.
pub proof fn hexadecimal_digits(b: u8)
    ensures
        is_hex_digit(b) <==> ('0' <= b as char <= '9' || 'a' <= b as char <= 'f' || 'A' <= b as char
            <= 'F'),
        is_hex_digit(b) ==> 0 <= hex_digit_value(b) <= 15,
        '0' <= b as char <= '9' ==> hex_digit_value(b) == b as int - '0' as int,
        'a' <= b as char <= 'f' ==> hex_digit_value(b) == b as int - 'a' as int + 10,
        'A' <= b as char <= 'F' ==> hex_digit_value(b) == hex_digit_value((b + 32) as u8),
{
}

/// A frame gives the availability that its snapshot shows, as an update if that is a change, and is
/// used up.
pub proof fn frame_gives_its_snapshot(decoder: DecoderModel, header: Seq<u8>, payload: Seq<u8>)
    requires
        decoder.mode != TrackDevicesMode::Text,
        decoder.buffer.len() == 0,
        header.len() == 4,
        forall|i: int| 0 <= i < 4 ==> is_hex_digit(#[trigger] header[i]),
        payload.len() <= 16 * 1024,
        ((hex_digit_value(header[0]) * 16 + hex_digit_value(header[1])) * 16 + hex_digit_value(
            header[2],
        )) * 16 + hex_digit_value(header[3]) == payload.len(),
        valid_utf8(payload),
    ensures
        ({
            let shown = snapshot_has_device(decode_utf8(payload));
            let decoded = decoder.with_bytes(header + payload).decode();
            &&& decoded.error is None
            &&& decoded.decoder.buffer.len() == 0
            &&& decoded.decoder.mode == TrackDevicesMode::Framed
            &&& decoded.decoder.last_update == Some(shown)
            &&& decoded.updates == if decoder.last_update == Some(shown) {
                Seq::<bool>::empty()
            } else {
                seq![shown]
            }
        }),
{
    let full = decoder.with_bytes(header + payload);
    assert(full.buffer =~= header + payload);
    assert(full.buffer.take(4) =~= header);
    let framed = DecoderModel { mode: TrackDevicesMode::Framed, ..full };
    assert(full.mode == TrackDevicesMode::Framed ==> framed == full);
    assert(framed.buffer.subrange(4, 4 + payload.len() as int) =~= payload);
    assert(framed.buffer.skip(4 + payload.len() as int) =~= Seq::empty());
    let shown = snapshot_has_device(decode_utf8(payload));
    let rest = DecoderModel {
        buffer: framed.buffer.skip(4 + payload.len() as int),
        ..framed.observing(Some(shown))
    };
    assert(rest.decode_frames() == rest.stop(None));
    assert(framed.decode_frames().updates =~= framed.update_for(Some(shown)));
}

/// A frame that cannot be one is refused: without a hexadecimal length, with one that is too large,
/// or with a snapshot that is not UTF-8.
pub proof fn impossible_frames_are_refused(decoder: DecoderModel, length: nat)
    requires
        decoder.mode == TrackDevicesMode::Framed,
        decoder.buffer.len() >= 4,
    ensures
        !is_track_length(decoder.buffer.take(4)) ==> decoder.decode().error == Some(
            TrackDevicesDecodeError::InvalidLength,
        ),
        is_track_length(decoder.buffer.take(4)) && track_length(decoder.buffer.take(4)) == length
            && length > 16 * 1024 ==> decoder.decode().error == Some(
            TrackDevicesDecodeError::Oversized(length as usize),
        ),
        is_track_length(decoder.buffer.take(4)) && track_length(decoder.buffer.take(4)) == length
            && length <= 16 * 1024 && decoder.buffer.len() < 4 + length ==> decoder.decode().error
            is None && decoder.decode().decoder == decoder && decoder.decode().updates.len() == 0,
        is_track_length(decoder.buffer.take(4)) && track_length(decoder.buffer.take(4)) == length
            && length <= 16 * 1024 && decoder.buffer.len() >= 4 + length && !valid_utf8(
            decoder.buffer.subrange(4, 4 + length as int),
        ) ==> decoder.decode().error == Some(TrackDevicesDecodeError::InvalidUtf8),
{
}

/// A line of the text form is read up to its line feed, without a carriage return in front of that,
/// and what it tells is an update if it is a change.
pub proof fn line_ends_at_its_line_feed(decoder: DecoderModel, line: Seq<u8>)
    requires
        decoder.mode == TrackDevicesMode::Text,
        decoder.buffer.len() == 0,
        !line.contains(0x0au8),
        line.len() > 0 ==> line.last() != 0x0d,
        valid_utf8(line),
    ensures
        ({
            let (text, told) = decoder.text.after_line(decode_utf8(line));
            let decoded = decoder.with_bytes(line.push(0x0a)).decode();
            let same = decoder.with_bytes(line.push(0x0d).push(0x0a)).decode();
            &&& decoded.error is None
            &&& decoded.decoder.buffer.len() == 0
            &&& decoded.decoder.text == text
            &&& decoded.updates == if told is None || told == decoder.last_update {
                Seq::<bool>::empty()
            } else {
                seq![told->0]
            }
            &&& same == decoded
        }),
{
    assert(line.push(0x0d).drop_last() =~= line);
    lemma_one_line(decoder, line.push(0x0a), line, line);
    lemma_one_line(decoder, line.push(0x0d).push(0x0a), line.push(0x0d), line);
}

proof fn lemma_one_line(decoder: DecoderModel, bytes: Seq<u8>, raw: Seq<u8>, line: Seq<u8>)
    requires
        decoder.mode == TrackDevicesMode::Text,
        decoder.buffer.len() == 0,
        bytes == raw.push(0x0a),
        !raw.contains(0x0au8),
        strip_carriage_return(raw) == line,
        valid_utf8(line),
    ensures
        ({
            let (text, told) = decoder.text.after_line(decode_utf8(line));
            let decoded = decoder.with_bytes(bytes).decode();
            &&& decoded.error is None
            &&& decoded.decoder == (DecoderModel { text, ..decoder.observing(told) })
            &&& decoded.updates == decoder.update_for(told)
        }),
{
    let full = decoder.with_bytes(bytes);
    assert(full.buffer =~= bytes);
    crate::text::position_is_the_first_occurrence(raw, 0x0au8, Seq::empty());
    assert(raw.push(0x0a) + Seq::empty() =~= bytes);
    assert(full.buffer.take(raw.len() as int) =~= raw);
    assert(full.buffer.skip(raw.len() as int + 1) =~= decoder.buffer);
    let (text, told) = decoder.text.after_line(decode_utf8(line));
    let rest = DecoderModel {
        text,
        ..DecoderModel { buffer: full.buffer.skip(raw.len() as int + 1), ..full }.observing(told)
    };
    assert(rest.decode_lines() == rest.stop(None));
    assert(full.decode_lines().updates =~= decoder.update_for(told));
}

/// A decoder starts with nothing: no form, no bytes, no snapshot and no word told.
pub proof fn decoder_starts_with_nothing()
    ensures
        TrackDevicesDecoder::start().mode == TrackDevicesMode::Unknown,
        TrackDevicesDecoder::start().buffer.len() == 0,
        !TrackDevicesDecoder::start().text.in_snapshot,
        !TrackDevicesDecoder::start().text.device_available,
        TrackDevicesDecoder::start().last_update is None,
{
}

} // verus!
