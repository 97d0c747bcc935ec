//! Lifecycle of the host and identity of a session.
use crate::text::chars_of;
use vstd::prelude::*;

verus! {

/// Why the lifecycle is degraded while the wired transport is rebuilt.
pub const TRANSPORT_RECOVERY_REASON: &'static str = "rebuilding the wired transport generation";

/// Why the lifecycle is degraded once the control connection is gone. The control lane has to give
/// exactly this text as its reason: by it the relay tells a lost connection, which has a grace
/// period, from any other degradation.
pub const CONTROL_TRANSPORT_LOST_REASON: &'static str = "control transport lost";

/// The state of the host.
#[derive(Clone, Copy, Debug, PartialEq, Eq, Structural)]
pub enum HostState {
    Stopped,
    Preparing,
    Connected,
    Degraded,
    Stopping,
    Error,
}

/// The lifecycle at one moment.
#[derive(Debug)]
pub struct StateSnapshot {
    pub state: HostState,
    pub session_id: Option<String>,
    pub missed_heartbeats: u32,
    pub reason: Option<String>,
}

impl Clone for StateSnapshot {
    fn clone(&self) -> (copy: Self)
        ensures
            copy == *self,
    {
        StateSnapshot {
            state: self.state,
            session_id: clone_text(&self.session_id),
            missed_heartbeats: self.missed_heartbeats,
            reason: clone_text(&self.reason),
        }
    }
}

/// A copy of an optional text.
pub fn clone_text(text: &Option<String>) -> (copy: Option<String>)
    ensures
        copy == *text,
{
    match text {
        Some(text) => Some(text.clone()),
        None => None,
    }
}

/// `text` is present and reads `expected`.
pub open spec fn reads(text: Option<String>, expected: Seq<char>) -> bool {
    text matches Some(text) && text@ == expected
}

impl HostState {
    /// The lifecycle has a peer to lose: it is connected or degraded.
    pub open spec fn active(self) -> bool {
        self == HostState::Connected || self == HostState::Degraded
    }

    pub fn is_active(self) -> (result: bool)
        ensures
            result == self.active(),
    {
        matches!(self, HostState::Connected | HostState::Degraded)
    }
}

/// What the VPN service on the device says of itself.
#[derive(Debug)]
pub struct AndroidVpnStatus {
    pub vpn_fd_open: Option<bool>,
    pub state: Option<String>,
    pub screen_suspended: Option<bool>,
}

/// The identity of a session: sixteen bytes, all zero when there is none.
#[derive(Clone, Copy, Debug, PartialEq, Eq)]
pub struct SessionId(pub [u8; 16]);

/// The lower-case hexadecimal digit of a number below sixteen.
pub open spec fn hex_digit(n: int) -> char {
    if n < 10 {
        ((0x30 + n) as u32) as char
    } else {
        ((0x61 + n - 10) as u32) as char
    }
}

/// The value of a hexadecimal digit of either case.
pub open spec fn hex_value(c: char) -> Option<int> {
    if '0' <= c <= '9' {
        Some(c as int - 0x30)
    } else if 'a' <= c <= 'f' {
        Some(c as int - 0x61 + 10)
    } else if 'A' <= c <= 'F' {
        Some(c as int - 0x41 + 10)
    } else {
        None
    }
}

/// The hexadecimal spelling of `bytes`.
pub open spec fn hex_text(bytes: Seq<u8>) -> Seq<char> {
    Seq::new(
        2 * bytes.len(),
        |i: int|
            if i % 2 == 0 {
                hex_digit(bytes[i / 2] as int / 16)
            } else {
                hex_digit(bytes[i / 2] as int % 16)
            },
    )
}

/// `text` spells a session: thirty-two hexadecimal digits.
pub open spec fn is_session_text(text: Seq<char>) -> bool {
    text.len() == 32 && forall|i: int| 0 <= i < 32 ==> hex_value(#[trigger] text[i]) is Some
}

/// The bytes of the session that `text` spells.
pub open spec fn session_bytes(text: Seq<char>) -> Seq<u8> {
    Seq::new(
        16,
        |i: int| (hex_value(text[2 * i])->0 * 16 + hex_value(text[2 * i + 1])->0) as u8,
    )
}

/// `text` spells a session other than the zero session.
pub open spec fn names_session(text: Seq<char>) -> bool {
    is_session_text(text) && exists|i: int| 0 <= i < 16 && #[trigger] session_bytes(text)[i] != 0
}

fn digit_of(value: u8) -> (digit: char)
    requires
        value < 16,
    ensures
        digit == hex_digit(value as int),
{
    if value < 10 {
        (0x30u8 + value) as char
    } else {
        (0x61u8 + (value - 10)) as char
    }
}

fn value_of(c: char) -> (value: Option<u8>)
    ensures
        match value {
            Some(value) => value < 16 && hex_value(c) == Some(value as int),
            None => hex_value(c) is None,
        },
{
    if '0' <= c && c <= '9' {
        Some(c as u8 - 0x30)
    } else if 'a' <= c && c <= 'f' {
        Some(c as u8 - 0x61 + 10)
    } else if 'A' <= c && c <= 'F' {
        Some(c as u8 - 0x41 + 10)
    } else {
        None
    }
}

impl SessionId {
    /// The identity that stands for no session.
    pub fn zero() -> (id: SessionId)
        ensures
            forall|i: int| 0 <= i < 16 ==> #[trigger] id.0@[i] == 0,
    {
        SessionId([0, 0, 0, 0, 0, 0, 0, 0, 0, 0, 0, 0, 0, 0, 0, 0])
    }

    /// The identity is that of a session.
    pub open spec fn some_session(self) -> bool {
        exists|i: int| 0 <= i < 16 && #[trigger] self.0@[i] != 0
    }

    pub fn is_some_session(&self) -> (result: bool)
        ensures
            result == self.some_session(),
    {
        let mut at: usize = 0;
        while at < 16
            invariant
                at <= 16,
                forall|i: int| 0 <= i < at ==> #[trigger] self.0@[i] == 0,
            decreases 16 - at,
        {
            if self.0[at] != 0 {
                assert(self.0@[at as int] != 0);
                return true;
            }
            at = at + 1;
        }
        false
    }

    /// The hexadecimal spelling.
    pub fn to_text(&self) -> (text: String)
        ensures
            text@ == hex_text(self.0@),
    {
        let mut text = String::new();
        let mut at: usize = 0;
        while at < 16
            invariant
                at <= 16,
                text@ == hex_text(self.0@).take(2 * at),
            decreases 16 - at,
        {
            let byte = self.0[at];
            text.push(digit_of(byte / 16));
            text.push(digit_of(byte % 16));
            at = at + 1;
            assert(text@ =~= hex_text(self.0@).take(2 * at));
        }
        assert(hex_text(self.0@).take(32) == hex_text(self.0@));
        text
    }

    /// Reads a hexadecimal spelling, in either case.
    pub fn parse(text: &str) -> (id: Option<SessionId>)
        ensures
            match id {
                Some(id) => is_session_text(text@) && id.0@ == session_bytes(text@),
                None => !is_session_text(text@),
            },
    {
        let chars = chars_of(text);
        if chars.len() != 32 {
            return None;
        }
        let mut bytes: [u8; 16] = [0, 0, 0, 0, 0, 0, 0, 0, 0, 0, 0, 0, 0, 0, 0, 0];
        let mut at: usize = 0;
        while at < 16
            invariant
                at <= 16,
                chars@ == text@,
                chars@.len() == 32,
                forall|i: int| 0 <= i < 2 * at ==> hex_value(#[trigger] text@[i]) is Some,
                forall|i: int| 0 <= i < at ==> bytes@[i] == #[trigger] session_bytes(text@)[i],
            decreases 16 - at,
        {
            match (value_of(chars[2 * at]), value_of(chars[2 * at + 1])) {
                (Some(high), Some(low)) => {
                    bytes[at] = high * 16 + low;
                },
                _ => {
                    assert(hex_value(text@[2 * at]) is None || hex_value(text@[2 * at + 1])
                        is None);
                    return None;
                },
            }
            at = at + 1;
        }
        assert(bytes@ =~= session_bytes(text@));
        Some(SessionId(bytes))
    }
}

/// Reading back the spelling of an identity gives the identity.
pub proof fn session_text_round_trip(id: SessionId)
    ensures
        is_session_text(hex_text(id.0@)),
        session_bytes(hex_text(id.0@)) == id.0@,
        names_session(hex_text(id.0@)) == id.some_session(),
{
    let text = hex_text(id.0@);
    assert forall|i: int| 0 <= i < 32 implies hex_value(#[trigger] text[i]) is Some by {}
    assert forall|i: int| 0 <= i < 16 implies #[trigger] session_bytes(text)[i] == id.0@[i] by {
        assert((2 * i) % 2 == 0 && (2 * i) / 2 == i && (2 * i + 1) % 2 == 1 && (2 * i + 1) / 2
            == i);
    }
    assert(session_bytes(text) =~= id.0@);
}

/// Whether `text` spells a session other than the zero session.
pub fn is_session_name(text: &str) -> (result: bool)
    ensures
        result == names_session(text@),
{
    match SessionId::parse(text) {
        Some(id) => id.is_some_session(),
        None => false,
    }
}

/// The lifecycle has a peer to lose while it is connected or degraded, and in no other state.
pub proof fn active_states(state: HostState)
    ensures
        state.active() <==> !(state == HostState::Stopped || state == HostState::Preparing || state
            == HostState::Stopping || state == HostState::Error),
{
}

/// A spelling of a session is thirty-two characters from 0 to 9, a to f or A to F; the case of the
/// letters makes no difference, and no other spelling gives the same session.
pub proof fn session_spelling_ignores_case(text: Seq<char>)
    ensures
        is_session_text(text) <==> (text.len() == 32 && forall|i: int|
            0 <= i < 32 ==> ('0' <= #[trigger] text[i] <= '9' || 'a' <= text[i] <= 'f' || 'A'
                <= text[i] <= 'F')),
        is_session_text(text) ==> hex_text(session_bytes(text)) == crate::text::lower(text),
{
    if text.len() == 32 && forall|i: int|
        0 <= i < 32 ==> ('0' <= #[trigger] text[i] <= '9' || 'a' <= text[i] <= 'f' || 'A' <= text[i]
            <= 'F') {
        assert forall|i: int| 0 <= i < 32 implies hex_value(#[trigger] text[i]) is Some by {}
    }
    if is_session_text(text) {
        assert forall|i: int| 0 <= i < 32 implies ('0' <= #[trigger] text[i] <= '9' || 'a' <= text[i]
            <= 'f' || 'A' <= text[i] <= 'F') by {
            assert(hex_value(text[i]) is Some);
        }
        let spelled = hex_text(session_bytes(text));
        assert forall|i: int| 0 <= i < 32 implies spelled[i] == crate::text::lower(text)[i] by {
            let half = i / 2;
            assert(hex_value(text[2 * half]) is Some && hex_value(text[2 * half + 1]) is Some);
            let (high, low) = (hex_value(text[2 * half])->0, hex_value(text[2 * half + 1])->0);
            assert(0 <= high < 16 && 0 <= low < 16);
            let byte = session_bytes(text)[half];
            assert(byte == high * 16 + low);
            assert(byte as int / 16 == high && byte as int % 16 == low);
            assert(i == 2 * half || i == 2 * half + 1);
        }
        assert(spelled =~= crate::text::lower(text));
    }
}

/// A text names a session when it spells one and any of its digits is not zero.
pub proof fn zero_names_no_session(text: Seq<char>)
    requires
        is_session_text(text),
    ensures
        names_session(text) <==> exists|i: int| 0 <= i < 32 && #[trigger] text[i] != '0',
{
    if names_session(text) {
        let at = choose|i: int| 0 <= i < 16 && #[trigger] session_bytes(text)[i] != 0;
        assert(hex_value(text[2 * at]) is Some && hex_value(text[2 * at + 1]) is Some);
        assert(text[2 * at] != '0' || text[2 * at + 1] != '0');
    }
    if exists|i: int| 0 <= i < 32 && #[trigger] text[i] != '0' {
        let at = choose|i: int| 0 <= i < 32 && #[trigger] text[i] != '0';
        let half = at / 2;
        assert(hex_value(text[2 * half]) is Some && hex_value(text[2 * half + 1]) is Some);
        assert(at == 2 * half || at == 2 * half + 1);
        let (high, low) = (hex_value(text[2 * half])->0, hex_value(text[2 * half + 1])->0);
        assert(0 <= high < 16 && 0 <= low < 16);
        assert(high != 0 || low != 0);
        assert(session_bytes(text)[half] == high * 16 + low);
        assert(session_bytes(text)[half] != 0);
    }
}

} // verus!
