//! Status messages received from the TNC
//!
//! The main method, `Response::parse()`, reads one line of TNC output
//! from the provided bytes and classifies it. Its result holds
//!
//! 0. The number of bytes consumed. Provide the remaining bytes to
//!    future calls to `Response::parse()`.
//!
//! 1. If a non-empty line was read, `Some` `Response`, which is
//!    further enumerated.
use vstd::prelude::*;
use vstd::utf8::*;

use super::constants::{
    lemma_command_id_name_roundtrip, spec_false_text, spec_true_text, spec_truth_text, CommandID,
    ParseEnumError, NEWLINE,
};
use crate::arq::connectioninfo::ConnectionInfoView;
use crate::arq::{ConnectionFailedReason, ConnectionInfo};
use crate::text::{
    all_ascii_digits, chars_eq, chars_of, decimal_value, has_tag, lemma_tag_mismatch, scan,
    scan_number, span, spec_number, substring, tag_at, utf8_to_string, CharClass,
};

verus! {

/// ARQ Connection States
#[derive(Debug, Clone, Copy, PartialEq, Eq, Structural)]
pub enum State {
    /// Codec stopped
    OFFLINE,
    /// ARQ has disconnected
    DISC,
    /// Information Sending Station
    ISS,
    /// Information Receiving Station
    IRS,
    /// Attempting to become the ISS
    IRStoISS,
    /// Not connected or trying to connect, but maybe listening
    IDLE,
    /// Sending FEC data
    FECSend,
    /// Receiving FEC data
    FECRcv,
}

impl State {
    /// The protocol name of this value
    pub open spec fn spec_name(self) -> Seq<char> {
        match self {
            State::OFFLINE => seq!['O', 'F', 'F', 'L', 'I', 'N', 'E'],
            State::DISC => seq!['D', 'I', 'S', 'C'],
            State::ISS => seq!['I', 'S', 'S'],
            State::IRS => seq!['I', 'R', 'S'],
            State::IRStoISS => seq!['I', 'R', 'S', 't', 'o', 'I', 'S', 'S'],
            State::IDLE => seq!['I', 'D', 'L', 'E'],
            State::FECSend => seq!['F', 'E', 'C', 'S', 'e', 'n', 'd'],
            State::FECRcv => seq!['F', 'E', 'C', 'R', 'c', 'v'],
        }
    }

    /// The value whose protocol name is exactly `s`, if any
    pub open spec fn spec_from_name(s: Seq<char>) -> Option<State> {
        if s == seq!['O', 'F', 'F', 'L', 'I', 'N', 'E'] {
            Some(State::OFFLINE)
        } else if s == seq!['D', 'I', 'S', 'C'] {
            Some(State::DISC)
        } else if s == seq!['I', 'S', 'S'] {
            Some(State::ISS)
        } else if s == seq!['I', 'R', 'S'] {
            Some(State::IRS)
        } else if s == seq!['I', 'R', 'S', 't', 'o', 'I', 'S', 'S'] {
            Some(State::IRStoISS)
        } else if s == seq!['I', 'D', 'L', 'E'] {
            Some(State::IDLE)
        } else if s == seq!['F', 'E', 'C', 'S', 'e', 'n', 'd'] {
            Some(State::FECSend)
        } else if s == seq!['F', 'E', 'C', 'R', 'c', 'v'] {
            Some(State::FECRcv)
        } else {
            None
        }
    }

    /// The protocol name of this value
    pub fn as_str(&self) -> (s: &'static str)
        ensures
            s@ == self.spec_name(),
    {
        match self {
            State::OFFLINE => {
                proof {
                    reveal_strlit("OFFLINE");
                }
                "OFFLINE"
            },
            State::DISC => {
                proof {
                    reveal_strlit("DISC");
                }
                "DISC"
            },
            State::ISS => {
                proof {
                    reveal_strlit("ISS");
                }
                "ISS"
            },
            State::IRS => {
                proof {
                    reveal_strlit("IRS");
                }
                "IRS"
            },
            State::IRStoISS => {
                proof {
                    reveal_strlit("IRStoISS");
                }
                "IRStoISS"
            },
            State::IDLE => {
                proof {
                    reveal_strlit("IDLE");
                }
                "IDLE"
            },
            State::FECSend => {
                proof {
                    reveal_strlit("FECSend");
                }
                "FECSend"
            },
            State::FECRcv => {
                proof {
                    reveal_strlit("FECRcv");
                }
                "FECRcv"
            },
        }
    }

    /// The protocol name of this value, as an owned string
    pub fn to_string(&self) -> (s: String)
        ensures
            s@ == self.spec_name(),
    {
        self.as_str().to_owned()
    }

    /// The value whose protocol name is exactly `s`, if any
    pub fn from_chars(s: &[char]) -> (r: Option<State>)
        ensures
            r == State::spec_from_name(s@),
            r matches Some(x) ==> x.spec_name() == s@,
            r is None ==> forall|x: State| x.spec_name() != s@,
    {
        if chars_eq(s, &['O', 'F', 'F', 'L', 'I', 'N', 'E']) {
            return Some(State::OFFLINE);
        }
        if chars_eq(s, &['D', 'I', 'S', 'C']) {
            return Some(State::DISC);
        }
        if chars_eq(s, &['I', 'S', 'S']) {
            return Some(State::ISS);
        }
        if chars_eq(s, &['I', 'R', 'S']) {
            return Some(State::IRS);
        }
        if chars_eq(s, &['I', 'R', 'S', 't', 'o', 'I', 'S', 'S']) {
            return Some(State::IRStoISS);
        }
        if chars_eq(s, &['I', 'D', 'L', 'E']) {
            return Some(State::IDLE);
        }
        if chars_eq(s, &['F', 'E', 'C', 'S', 'e', 'n', 'd']) {
            return Some(State::FECSend);
        }
        if chars_eq(s, &['F', 'E', 'C', 'R', 'c', 'v']) {
            return Some(State::FECRcv);
        }
        None
    }

    /// The value whose protocol name is exactly `s`, if any
    pub fn from_name(s: &str) -> (r: Option<State>)
        ensures
            r == State::spec_from_name(s@),
            r matches Some(x) ==> x.spec_name() == s@,
            r is None ==> forall|x: State| x.spec_name() != s@,
    {
        let v = chars_of(s);
        Self::from_chars(v.as_slice())
    }
}

impl std::str::FromStr for State {
    type Err = ParseEnumError;

    fn from_str(s: &str) -> (r: Result<State, ParseEnumError>)
        ensures
            match State::spec_from_name(s@) {
                Some(x) => r == Ok::<State, ParseEnumError>(x),
                None => r is Err,
            },
    {
        match Self::from_name(s) {
            Some(x) => Ok(x),
            None => Err(ParseEnumError {}),
        }
    }
}

impl State {
    /// True if this state is a connected state
    ///
    /// Returns true if the TNC is connected to a remote
    /// peer when it is in the given state.
    pub fn is_connected(state: &Self) -> (r: bool)
        ensures
            r == (*state is ISS || *state is IRS || *state is IRStoISS),
    {
        match state {
            State::ISS => true,
            State::IRS => true,
            State::IRStoISS => true,
            _ => false,
        }
    }
}

/// Announces a change in the ARQ connection state
#[derive(Debug, PartialEq, Eq, Clone)]
pub enum ConnectionStateChange {
    /// An open connection has been closed
    ///
    /// Connections may be closed by `DISCONNECT` tear-down
    /// or by an `ABORT`. The loss of connection reason is
    /// not enumerated here, however.
    Closed,
    /// Successfully connected
    ///
    /// Data is information about the connection
    Connected(ConnectionInfo),
    /// Failed to connect
    ///
    /// No connection was ever successfully made with
    /// the remote peer. Failure is not limited to
    /// `CONNECT` requests. Even when `LISTEN`ing, it
    /// is possible for the bandwidth negotiation to
    /// fail.
    Failed(ConnectionFailedReason),
    /// Reports on the progress of data transmission
    ///
    /// This message reports the current length of the
    /// TNC's outbound `BUFFER`. When the `SendBuffer`
    /// reaches zero, all enqueued data has been transmitted.
    SendBuffer(u64),
    /// The RF channel has become busy (`true`) or clear (`false`)
    Busy(bool),
    /// The connected TNC has become the sending side (ISS)
    Sending,
    /// The connected TNC has become the receiving side (IRS)
    Receiving,
    /// A ping was heard: sender, intended target, SNR and quality
    Ping(String, String, u16, u16),
    /// A ping acknowledgement was heard: SNR and quality
    PingAck(u16, u16),
    /// An identity frame was heard: callsign and grid square, if any
    IdentityFrame(String, Option<String>),
}

/// Abstract value of a `ConnectionStateChange`
pub enum ConnectionStateChangeView {
    /// See `ConnectionStateChange::Closed`
    Closed,
    /// See `ConnectionStateChange::Connected`
    Connected(ConnectionInfoView),
    /// See `ConnectionStateChange::Failed`
    Failed(ConnectionFailedReason),
    /// See `ConnectionStateChange::SendBuffer`
    SendBuffer(u64),
    /// See `ConnectionStateChange::Busy`
    Busy(bool),
    /// See `ConnectionStateChange::Sending`
    Sending,
    /// See `ConnectionStateChange::Receiving`
    Receiving,
    /// See `ConnectionStateChange::Ping`
    Ping(Seq<char>, Seq<char>, u16, u16),
    /// See `ConnectionStateChange::PingAck`
    PingAck(u16, u16),
    /// See `ConnectionStateChange::IdentityFrame`
    IdentityFrame(Seq<char>, Option<Seq<char>>),
}

impl View for ConnectionStateChange {
    type V = ConnectionStateChangeView;

    open spec fn view(&self) -> ConnectionStateChangeView {
        match self {
            ConnectionStateChange::Closed => ConnectionStateChangeView::Closed,
            ConnectionStateChange::Connected(c) => ConnectionStateChangeView::Connected(c@),
            ConnectionStateChange::Failed(f) => ConnectionStateChangeView::Failed(*f),
            ConnectionStateChange::SendBuffer(b) => ConnectionStateChangeView::SendBuffer(*b),
            ConnectionStateChange::Busy(b) => ConnectionStateChangeView::Busy(*b),
            ConnectionStateChange::Sending => ConnectionStateChangeView::Sending,
            ConnectionStateChange::Receiving => ConnectionStateChangeView::Receiving,
            ConnectionStateChange::Ping(a, b, s, q) => ConnectionStateChangeView::Ping(
                a@,
                b@,
                *s,
                *q,
            ),
            ConnectionStateChange::PingAck(s, q) => ConnectionStateChangeView::PingAck(*s, *q),
            ConnectionStateChange::IdentityFrame(c, g) => ConnectionStateChangeView::IdentityFrame(
                c@,
                opt_view(*g),
            ),
        }
    }
}

/// Abstract value of an optional string
pub open spec fn opt_view(o: Option<String>) -> Option<Seq<char>> {
    match o {
        Some(s) => Some(s@),
        None => None,
    }
}

/// Event messages
///
/// These events are always sent asynchronously—i.e., not at the
/// request of the host.
#[derive(Debug, PartialEq, Eq, Clone)]
pub enum Event {
    /// Bytes of payload data that is "pending"
    BUFFER(u64),
    /// Indicates that the RF channel has become busy (or not)
    BUSY(bool),
    /// Pending connect or ping not for this station
    CANCELPENDING,
    /// Indicates the successful opening of an ARQ connection:
    /// remote call sign, bandwidth in Hz, and the remote grid
    /// square if known
    CONNECTED(String, u16, Option<String>),
    /// An existing ARQ link has been disconnected
    DISCONNECTED,
    /// Announces a state transition to the given State
    NEWSTATE(State),
    /// A connect request or ping frame has been detected
    PENDING,
    /// Reports receipt of a ping: sender, intended target, SNR and
    /// decoded constellation quality
    PING(String, String, u16, u16),
    /// Reports receipt of a ping acknowledgement: SNR and quality
    PINGACK(u16, u16),
    /// Reports transmission of a `PINGACK`
    PINGREPLY,
    /// Key transmitter
    PTT(bool),
    /// Connection rejected by peer
    REJECTED(ConnectionFailedReason),
    /// A textual status message for the user
    STATUS(String),
    /// Announces target of incoming call
    TARGET(String),
    /// An unknown, unsolicited message from the TNC
    Unknown(String),
}

/// Abstract value of an `Event`
pub enum EventView {
    /// See `Event::BUFFER`
    BUFFER(u64),
    /// See `Event::BUSY`
    BUSY(bool),
    /// See `Event::CANCELPENDING`
    CANCELPENDING,
    /// See `Event::CONNECTED`
    CONNECTED(Seq<char>, u16, Option<Seq<char>>),
    /// See `Event::DISCONNECTED`
    DISCONNECTED,
    /// See `Event::NEWSTATE`
    NEWSTATE(State),
    /// See `Event::PENDING`
    PENDING,
    /// See `Event::PING`
    PING(Seq<char>, Seq<char>, u16, u16),
    /// See `Event::PINGACK`
    PINGACK(u16, u16),
    /// See `Event::PINGREPLY`
    PINGREPLY,
    /// See `Event::PTT`
    PTT(bool),
    /// See `Event::REJECTED`
    REJECTED(ConnectionFailedReason),
    /// See `Event::STATUS`
    STATUS(Seq<char>),
    /// See `Event::TARGET`
    TARGET(Seq<char>),
    /// See `Event::Unknown`
    Unknown(Seq<char>),
}

impl View for Event {
    type V = EventView;

    open spec fn view(&self) -> EventView {
        match self {
            Event::BUFFER(b) => EventView::BUFFER(*b),
            Event::BUSY(b) => EventView::BUSY(*b),
            Event::CANCELPENDING => EventView::CANCELPENDING,
            Event::CONNECTED(c, bw, g) => EventView::CONNECTED(c@, *bw, opt_view(*g)),
            Event::DISCONNECTED => EventView::DISCONNECTED,
            Event::NEWSTATE(s) => EventView::NEWSTATE(*s),
            Event::PENDING => EventView::PENDING,
            Event::PING(a, b, s, q) => EventView::PING(a@, b@, *s, *q),
            Event::PINGACK(s, q) => EventView::PINGACK(*s, *q),
            Event::PINGREPLY => EventView::PINGREPLY,
            Event::PTT(b) => EventView::PTT(*b),
            Event::REJECTED(r) => EventView::REJECTED(*r),
            Event::STATUS(s) => EventView::STATUS(s@),
            Event::TARGET(s) => EventView::TARGET(s@),
            Event::Unknown(s) => EventView::Unknown(s@),
        }
    }
}

/// Command success
///
/// Reports a successful command execution. A tuple of:
/// 1. ID of the command that succeeded
/// 2. Optional response text. At present, this is only
///    populated for `VERSION` responses.
pub type CommandOk = (CommandID, Option<String>);

/// Command success or failure
///
/// - For successful commands, returns the Command ID and,
///   for some commands, a descriptive string.
/// - For erroneous commands, returns the error message.
pub type CommandResult = Result<CommandOk, String>;

/// Abstract value of a `CommandResult`
pub type CommandResultView = Result<(CommandID, Option<Seq<char>>), Seq<char>>;

/// Abstract value of a `CommandResult`
pub open spec fn command_result_view(r: CommandResult) -> CommandResultView {
    match r {
        Ok((id, msg)) => Ok((id, opt_view(msg))),
        Err(e) => Err(e@),
    }
}

/// Response messages
///
/// The TNC has two types of output messages:
/// 1. A response to a command (request-reply pattern)
/// 2. An asynchronous reporting on some event (publish-subscribe pattern)
#[derive(Debug, PartialEq, Eq)]
pub enum Response {
    /// Command success or failure
    CommandResult(CommandResult),
    /// Asynchronous event message
    Event(Event),
}

/// Abstract value of a `Response`
pub enum ResponseView {
    /// See `Response::CommandResult`
    CommandResult(CommandResultView),
    /// See `Response::Event`
    Event(EventView),
}

impl View for Response {
    type V = ResponseView;

    open spec fn view(&self) -> ResponseView {
        match self {
            Response::CommandResult(r) => ResponseView::CommandResult(command_result_view(*r)),
            Response::Event(e) => ResponseView::Event(e@),
        }
    }
}

/// Abstract value of an optional `Response`
pub open spec fn opt_response_view(r: Option<Response>) -> Option<ResponseView> {
    match r {
        Some(x) => Some(x@),
        None => None,
    }
}

/* ---------------------------------------------------------------------- */
/* The grammar of one line of TNC output, over its characters             */
/* ---------------------------------------------------------------------- */

/// Position after the spaces that start at `i`
pub open spec fn after_spaces(l: Seq<char>, i: int) -> int {
    span(l, i, CharClass::Space)
}

/// `TRUE` or `FALSE` at position `i`: end position and value
pub open spec fn spec_boolstr(l: Seq<char>, i: int) -> Option<(int, bool)> {
    if has_tag(l, i, spec_true_text()) {
        Some((i + 4, true))
    } else if has_tag(l, i, spec_false_text()) {
        Some((i + 5, false))
    } else {
        None
    }
}

/// `BUFFER`, spaces, a `u64`
pub open spec fn spec_parse_buffer(l: Seq<char>) -> Option<ResponseView> {
    if has_tag(l, 0, seq!['B', 'U', 'F', 'F', 'E', 'R']) {
        match spec_number(l, after_spaces(l, 6), 0xffff_ffff_ffff_ffffnat) {
            Some((_j, v)) => Some(ResponseView::Event(EventView::BUFFER(v as u64))),
            None => None,
        }
    } else {
        None
    }
}

/// `BUSY`, spaces, `TRUE` or `FALSE`
pub open spec fn spec_parse_busy(l: Seq<char>) -> Option<ResponseView> {
    if has_tag(l, 0, seq!['B', 'U', 'S', 'Y']) {
        match spec_boolstr(l, after_spaces(l, 4)) {
            Some((_j, b)) => Some(ResponseView::Event(EventView::BUSY(b))),
            None => None,
        }
    } else {
        None
    }
}

/// `CANCELPENDING`
pub open spec fn spec_parse_cancelpending(l: Seq<char>) -> Option<ResponseView> {
    if has_tag(l, 0, seq!['C', 'A', 'N', 'C', 'E', 'L', 'P', 'E', 'N', 'D', 'I', 'N', 'G']) {
        Some(ResponseView::Event(EventView::CANCELPENDING))
    } else {
        None
    }
}

/// The optional grid square after a `CONNECTED` bandwidth at `k`: one or
/// more spaces, then the (possibly empty) run of ASCII letters and digits
pub open spec fn spec_connected_grid(l: Seq<char>, k: int) -> Option<Seq<char>> {
    let k2 = after_spaces(l, k);
    if k2 > k {
        Some(l.subrange(k2, span(l, k2, CharClass::AsciiAlnum)))
    } else {
        None
    }
}

/// `CONNECTED`, spaces, callsign, spaces, `u16` bandwidth, optional grid
pub open spec fn spec_parse_connected(l: Seq<char>) -> Option<ResponseView> {
    if has_tag(l, 0, seq!['C', 'O', 'N', 'N', 'E', 'C', 'T', 'E', 'D']) {
        let i1 = after_spaces(l, 9);
        let j = span(l, i1, CharClass::Call);
        let i2 = after_spaces(l, j);
        match spec_number(l, i2, 0xffffnat) {
            Some((k, bw)) => Some(
                ResponseView::Event(
                    EventView::CONNECTED(l.subrange(i1, j), bw as u16, spec_connected_grid(l, k)),
                ),
            ),
            None => None,
        }
    } else {
        None
    }
}

/// `DISCONNECTED`
pub open spec fn spec_parse_disconnected(l: Seq<char>) -> Option<ResponseView> {
    if has_tag(l, 0, seq!['D', 'I', 'S', 'C', 'O', 'N', 'N', 'E', 'C', 'T', 'E', 'D']) {
        Some(ResponseView::Event(EventView::DISCONNECTED))
    } else {
        None
    }
}

/// `FAULT`, spaces, message
pub open spec fn spec_parse_fault(l: Seq<char>) -> Option<ResponseView> {
    if has_tag(l, 0, seq!['F', 'A', 'U', 'L', 'T']) {
        Some(ResponseView::CommandResult(Err(l.subrange(after_spaces(l, 5), l.len() as int))))
    } else {
        None
    }
}

/// `NEWSTATE`, spaces, a state name made of ASCII letters and digits
pub open spec fn spec_parse_newstate(l: Seq<char>) -> Option<ResponseView> {
    if has_tag(l, 0, seq!['N', 'E', 'W', 'S', 'T', 'A', 'T', 'E']) {
        let i = after_spaces(l, 8);
        match State::spec_from_name(l.subrange(i, span(l, i, CharClass::AsciiAlnum))) {
            Some(st) => Some(ResponseView::Event(EventView::NEWSTATE(st))),
            None => None,
        }
    } else {
        None
    }
}

/// `PENDING`
pub open spec fn spec_parse_pending(l: Seq<char>) -> Option<ResponseView> {
    if has_tag(l, 0, seq!['P', 'E', 'N', 'D', 'I', 'N', 'G']) {
        Some(ResponseView::Event(EventView::PENDING))
    } else {
        None
    }
}

/// `PING`, spaces, sender, `>`, target, spaces, `u16` SNR, spaces,
/// `u16` quality
pub open spec fn spec_parse_ping(l: Seq<char>) -> Option<ResponseView> {
    if has_tag(l, 0, seq!['P', 'I', 'N', 'G']) {
        let i1 = after_spaces(l, 4);
        let j1 = span(l, i1, CharClass::Call);
        if has_tag(l, j1, seq!['>']) {
            let j2 = span(l, j1 + 1, CharClass::Call);
            match spec_number(l, after_spaces(l, j2), 0xffffnat) {
                Some((k1, snr)) => match spec_number(l, after_spaces(l, k1), 0xffffnat) {
                    Some((_k2, q)) => Some(
                        ResponseView::Event(
                            EventView::PING(
                                l.subrange(i1, j1),
                                l.subrange(j1 + 1, j2),
                                snr as u16,
                                q as u16,
                            ),
                        ),
                    ),
                    None => None,
                },
                None => None,
            }
        } else {
            None
        }
    } else {
        None
    }
}

/// `PINGACK`, spaces, `u16` SNR, spaces, `u16` quality
pub open spec fn spec_parse_pingack(l: Seq<char>) -> Option<ResponseView> {
    if has_tag(l, 0, seq!['P', 'I', 'N', 'G', 'A', 'C', 'K']) {
        match spec_number(l, after_spaces(l, 7), 0xffffnat) {
            Some((k1, snr)) => match spec_number(l, after_spaces(l, k1), 0xffffnat) {
                Some((_k2, q)) => Some(ResponseView::Event(EventView::PINGACK(snr as u16, q as u16))),
                None => None,
            },
            None => None,
        }
    } else {
        None
    }
}

/// `PINGREPLY`
pub open spec fn spec_parse_pingreply(l: Seq<char>) -> Option<ResponseView> {
    if has_tag(l, 0, seq!['P', 'I', 'N', 'G', 'R', 'E', 'P', 'L', 'Y']) {
        Some(ResponseView::Event(EventView::PINGREPLY))
    } else {
        None
    }
}

/// `PTT`, spaces, `TRUE` or `FALSE`
pub open spec fn spec_parse_ptt(l: Seq<char>) -> Option<ResponseView> {
    if has_tag(l, 0, seq!['P', 'T', 'T']) {
        match spec_boolstr(l, after_spaces(l, 3)) {
            Some((_j, b)) => Some(ResponseView::Event(EventView::PTT(b))),
            None => None,
        }
    } else {
        None
    }
}

/// The rejection reason named by a word of alphabetic characters
pub open spec fn spec_rejection_reason(w: Seq<char>) -> Option<ConnectionFailedReason> {
    if w == seq!['B', 'W'] {
        Some(ConnectionFailedReason::IncompatibleBandwidth)
    } else if w == seq!['B', 'U', 'S', 'Y'] {
        Some(ConnectionFailedReason::Busy)
    } else {
        None
    }
}

/// `REJECTED` directly followed by the alphabetic word `BW` or `BUSY`
pub open spec fn spec_parse_rejected(l: Seq<char>) -> Option<ResponseView> {
    if has_tag(l, 0, seq!['R', 'E', 'J', 'E', 'C', 'T', 'E', 'D']) {
        match spec_rejection_reason(l.subrange(8, span(l, 8, CharClass::Alphabetic))) {
            Some(r) => Some(ResponseView::Event(EventView::REJECTED(r))),
            None => None,
        }
    } else {
        None
    }
}

/// `STATUS`, spaces, message
pub open spec fn spec_parse_status(l: Seq<char>) -> Option<ResponseView> {
    if has_tag(l, 0, seq!['S', 'T', 'A', 'T', 'U', 'S']) {
        Some(
            ResponseView::Event(
                EventView::STATUS(l.subrange(after_spaces(l, 6), l.len() as int)),
            ),
        )
    } else {
        None
    }
}

/// `TARGET`, spaces, callsign
pub open spec fn spec_parse_target(l: Seq<char>) -> Option<ResponseView> {
    if has_tag(l, 0, seq!['T', 'A', 'R', 'G', 'E', 'T']) {
        let i = after_spaces(l, 6);
        Some(ResponseView::Event(EventView::TARGET(l.subrange(i, span(l, i, CharClass::Call)))))
    } else {
        None
    }
}

/// `VERSION`, spaces, version text
pub open spec fn spec_parse_version(l: Seq<char>) -> Option<ResponseView> {
    if has_tag(l, 0, seq!['V', 'E', 'R', 'S', 'I', 'O', 'N']) {
        Some(
            ResponseView::CommandResult(
                Ok((CommandID::VERSION, Some(l.subrange(after_spaces(l, 7), l.len() as int)))),
            ),
        )
    } else {
        None
    }
}

/// A command echo: the leading run of ASCII letters names a command
pub open spec fn spec_parse_command_ok(l: Seq<char>) -> Option<ResponseView> {
    match CommandID::spec_from_name(l.subrange(0, span(l, 0, CharClass::AsciiAlpha))) {
        Some(id) => Some(ResponseView::CommandResult(Ok((id, None)))),
        None => None,
    }
}

/// Any line at all, as an unknown event
pub open spec fn spec_parse_anything(l: Seq<char>) -> ResponseView {
    ResponseView::Event(EventView::Unknown(l))
}

/// The response that one line of TNC output denotes: the first of the
/// alternatives, in this order, that accepts the line
pub open spec fn spec_response(l: Seq<char>) -> ResponseView {
    if let Some(r) = spec_parse_buffer(l) {
        r
    } else if let Some(r) = spec_parse_busy(l) {
        r
    } else if let Some(r) = spec_parse_cancelpending(l) {
        r
    } else if let Some(r) = spec_parse_connected(l) {
        r
    } else if let Some(r) = spec_parse_disconnected(l) {
        r
    } else if let Some(r) = spec_parse_fault(l) {
        r
    } else if let Some(r) = spec_parse_newstate(l) {
        r
    } else if let Some(r) = spec_parse_pending(l) {
        r
    } else if let Some(r) = spec_parse_ping(l) {
        r
    } else if let Some(r) = spec_parse_pingack(l) {
        r
    } else if let Some(r) = spec_parse_pingreply(l) {
        r
    } else if let Some(r) = spec_parse_ptt(l) {
        r
    } else if let Some(r) = spec_parse_rejected(l) {
        r
    } else if let Some(r) = spec_parse_status(l) {
        r
    } else if let Some(r) = spec_parse_target(l) {
        r
    } else if let Some(r) = spec_parse_version(l) {
        r
    } else if let Some(r) = spec_parse_command_ok(l) {
        r
    } else {
        spec_parse_anything(l)
    }
}

/// Index of the first carriage return in `b` at or after `i`, if any
pub open spec fn newline_from(b: Seq<u8>, i: int) -> Option<int>
    decreases b.len() - i,
{
    if i < 0 || i >= b.len() {
        None
    } else if b[i] == NEWLINE {
        Some(i)
    } else {
        newline_from(b, i + 1)
    }
}

/// Index of the first carriage return in `b`, if any
pub open spec fn first_newline(b: Seq<u8>) -> Option<int> {
    newline_from(b, 0)
}

/// The carriage return found is within the bytes, and is the first one
pub proof fn lemma_newline_from(b: Seq<u8>, i: int)
    requires
        0 <= i,
    ensures
        newline_from(b, i) matches Some(k) ==> i <= k < b.len() && b[k] == NEWLINE && forall|m: int|
            i <= m < k ==> b[m] != NEWLINE,
        newline_from(b, i) is None ==> forall|m: int| i <= m < b.len() ==> b[m] != NEWLINE,
    decreases b.len() - i,
{
    if i < b.len() && b[i] != NEWLINE {
        lemma_newline_from(b, i + 1);
    }
}

/// The input that `Response::parse` accepts: a first line, if complete,
/// is well-formed UTF-8
pub open spec fn parse_requires(b: Seq<u8>) -> bool {
    first_newline(b) matches Some(k) ==> valid_utf8(b.take(k))
}

/// The result of `Response::parse` on bytes `b`: the number of bytes
/// consumed and the response to the first line, if any
pub open spec fn spec_parse(b: Seq<u8>) -> (int, Option<ResponseView>) {
    match first_newline(b) {
        None => (0, None),
        Some(k) => if k == 0 {
            (1, None)
        } else {
            (k + 1, Some(spec_response(decode_utf8(b.take(k)))))
        },
    }
}

/// Finds the first carriage return in `b`
pub fn find_newline(b: &[u8]) -> (r: Option<usize>)
    ensures
        r matches Some(k) ==> first_newline(b@) == Some(k as int) && k < b@.len(),
        r is None ==> first_newline(b@) is None,
        b@.len() <= usize::MAX,
{
    let mut i: usize = 0;
    while i < b.len()
        invariant
            i <= b@.len(),
            first_newline(b@) == newline_from(b@, i as int),
        decreases b@.len() - i,
    {
        if b[i] == NEWLINE {
            return Some(i);
        }
        i = i + 1;
    }
    None
}

/* ---------------------------------------------------------------------- */
/* Executable parsers, one per alternative                                */
/* ---------------------------------------------------------------------- */

/// `TRUE` or `FALSE` at position `i`
fn boolstr_at(l: &[char], i: usize) -> (r: Option<(usize, bool)>)
    ensures
        r matches Some((j, b)) ==> spec_boolstr(l@, i as int) == Some((j as int, b)),
        r is None ==> spec_boolstr(l@, i as int) is None,
{
    if tag_at(l, i, &['T', 'R', 'U', 'E']) {
        Some((i + 4, true))
    } else if tag_at(l, i, &['F', 'A', 'L', 'S', 'E']) {
        Some((i + 5, false))
    } else {
        None
    }
}

fn buffer_in(l: &[char]) -> (r: Option<Response>)
    ensures
        opt_response_view(r) == spec_parse_buffer(l@),
{
    if !tag_at(l, 0, &['B', 'U', 'F', 'F', 'E', 'R']) {
        return None;
    }
    let i = scan(l, 6, CharClass::Space);
    match scan_number(l, i, 0xffff_ffff_ffff_ffff) {
        Some((_j, v)) => Some(Response::Event(Event::BUFFER(v))),
        None => None,
    }
}

fn busy_in(l: &[char]) -> (r: Option<Response>)
    ensures
        opt_response_view(r) == spec_parse_busy(l@),
{
    if !tag_at(l, 0, &['B', 'U', 'S', 'Y']) {
        return None;
    }
    let i = scan(l, 4, CharClass::Space);
    match boolstr_at(l, i) {
        Some((_j, b)) => Some(Response::Event(Event::BUSY(b))),
        None => None,
    }
}

fn cancelpending_in(l: &[char]) -> (r: Option<Response>)
    ensures
        opt_response_view(r) == spec_parse_cancelpending(l@),
{
    if tag_at(l, 0, &['C', 'A', 'N', 'C', 'E', 'L', 'P', 'E', 'N', 'D', 'I', 'N', 'G']) {
        Some(Response::Event(Event::CANCELPENDING))
    } else {
        None
    }
}

fn connected_in(line: &str, l: &[char]) -> (r: Option<Response>)
    requires
        l@ == line@,
    ensures
        opt_response_view(r) == spec_parse_connected(l@),
{
    if !tag_at(l, 0, &['C', 'O', 'N', 'N', 'E', 'C', 'T', 'E', 'D']) {
        return None;
    }
    let i1 = scan(l, 9, CharClass::Space);
    proof {
        crate::text::lemma_span(l@, 9, CharClass::Space);
    }
    let j = scan(l, i1, CharClass::Call);
    proof {
        crate::text::lemma_span(l@, i1 as int, CharClass::Call);
    }
    let i2 = scan(l, j, CharClass::Space);
    proof {
        crate::text::lemma_span(l@, j as int, CharClass::Space);
    }
    match scan_number(l, i2, 0xffff) {
        Some((k, bw)) => {
            proof {
                crate::text::lemma_span(l@, i2 as int, CharClass::Numeric);
            }
            let k2 = scan(l, k, CharClass::Space);
            proof {
                crate::text::lemma_span(l@, k as int, CharClass::Space);
            }
            let grid = if k2 > k {
                let g_end = scan(l, k2, CharClass::AsciiAlnum);
                proof {
                    crate::text::lemma_span(l@, k2 as int, CharClass::AsciiAlnum);
                }
                Some(substring(line, k2, g_end))
            } else {
                None
            };
            Some(
                Response::Event(Event::CONNECTED(substring(line, i1, j), bw as u16, grid)),
            )
        },
        None => None,
    }
}

fn disconnected_in(l: &[char]) -> (r: Option<Response>)
    ensures
        opt_response_view(r) == spec_parse_disconnected(l@),
{
    if tag_at(l, 0, &['D', 'I', 'S', 'C', 'O', 'N', 'N', 'E', 'C', 'T', 'E', 'D']) {
        Some(Response::Event(Event::DISCONNECTED))
    } else {
        None
    }
}

fn fault_in(line: &str, l: &[char]) -> (r: Option<Response>)
    requires
        l@ == line@,
    ensures
        opt_response_view(r) == spec_parse_fault(l@),
{
    if !tag_at(l, 0, &['F', 'A', 'U', 'L', 'T']) {
        return None;
    }
    let i = scan(l, 5, CharClass::Space);
    proof {
        crate::text::lemma_span(l@, 5, CharClass::Space);
    }
    Some(Response::CommandResult(Err(substring(line, i, l.len()))))
}

fn newstate_in(l: &[char]) -> (r: Option<Response>)
    ensures
        opt_response_view(r) == spec_parse_newstate(l@),
{
    if !tag_at(l, 0, &['N', 'E', 'W', 'S', 'T', 'A', 'T', 'E']) {
        return None;
    }
    let i = scan(l, 8, CharClass::Space);
    proof {
        crate::text::lemma_span(l@, 8, CharClass::Space);
    }
    let j = scan(l, i, CharClass::AsciiAlnum);
    proof {
        crate::text::lemma_span(l@, i as int, CharClass::AsciiAlnum);
    }
    let word = vstd::slice::slice_subrange(l, i, j);
    match State::from_chars(word) {
        Some(st) => Some(Response::Event(Event::NEWSTATE(st))),
        None => None,
    }
}

fn pending_in(l: &[char]) -> (r: Option<Response>)
    ensures
        opt_response_view(r) == spec_parse_pending(l@),
{
    if tag_at(l, 0, &['P', 'E', 'N', 'D', 'I', 'N', 'G']) {
        Some(Response::Event(Event::PENDING))
    } else {
        None
    }
}

fn ping_in(line: &str, l: &[char]) -> (r: Option<Response>)
    requires
        l@ == line@,
    ensures
        opt_response_view(r) == spec_parse_ping(l@),
{
    if !tag_at(l, 0, &['P', 'I', 'N', 'G']) {
        return None;
    }
    let i1 = scan(l, 4, CharClass::Space);
    proof {
        crate::text::lemma_span(l@, 4, CharClass::Space);
    }
    let j1 = scan(l, i1, CharClass::Call);
    proof {
        crate::text::lemma_span(l@, i1 as int, CharClass::Call);
    }
    let gt: [char; 1] = ['>'];
    assert(gt@ == seq!['>']);
    if !tag_at(l, j1, &gt) {
        return None;
    }
    let j2 = scan(l, j1 + 1, CharClass::Call);
    proof {
        crate::text::lemma_span(l@, j1 + 1, CharClass::Call);
    }
    let i3 = scan(l, j2, CharClass::Space);
    proof {
        crate::text::lemma_span(l@, j2 as int, CharClass::Space);
    }
    match scan_number(l, i3, 0xffff) {
        Some((k1, snr)) => {
            proof {
                crate::text::lemma_span(l@, i3 as int, CharClass::Numeric);
            }
            let i4 = scan(l, k1, CharClass::Space);
            proof {
                crate::text::lemma_span(l@, k1 as int, CharClass::Space);
            }
            match scan_number(l, i4, 0xffff) {
                Some((_k2, q)) => Some(
                    Response::Event(
                        Event::PING(
                            substring(line, i1, j1),
                            substring(line, j1 + 1, j2),
                            snr as u16,
                            q as u16,
                        ),
                    ),
                ),
                None => None,
            }
        },
        None => None,
    }
}

fn pingack_in(l: &[char]) -> (r: Option<Response>)
    ensures
        opt_response_view(r) == spec_parse_pingack(l@),
{
    if !tag_at(l, 0, &['P', 'I', 'N', 'G', 'A', 'C', 'K']) {
        return None;
    }
    let i = scan(l, 7, CharClass::Space);
    proof {
        crate::text::lemma_span(l@, 7, CharClass::Space);
    }
    match scan_number(l, i, 0xffff) {
        Some((k1, snr)) => {
            proof {
                crate::text::lemma_span(l@, i as int, CharClass::Numeric);
            }
            let i2 = scan(l, k1, CharClass::Space);
            match scan_number(l, i2, 0xffff) {
                Some((_k2, q)) => Some(Response::Event(Event::PINGACK(snr as u16, q as u16))),
                None => None,
            }
        },
        None => None,
    }
}

fn pingreply_in(l: &[char]) -> (r: Option<Response>)
    ensures
        opt_response_view(r) == spec_parse_pingreply(l@),
{
    if tag_at(l, 0, &['P', 'I', 'N', 'G', 'R', 'E', 'P', 'L', 'Y']) {
        Some(Response::Event(Event::PINGREPLY))
    } else {
        None
    }
}

fn ptt_in(l: &[char]) -> (r: Option<Response>)
    ensures
        opt_response_view(r) == spec_parse_ptt(l@),
{
    if !tag_at(l, 0, &['P', 'T', 'T']) {
        return None;
    }
    let i = scan(l, 3, CharClass::Space);
    match boolstr_at(l, i) {
        Some((_j, b)) => Some(Response::Event(Event::PTT(b))),
        None => None,
    }
}

fn rejected_in(l: &[char]) -> (r: Option<Response>)
    ensures
        opt_response_view(r) == spec_parse_rejected(l@),
{
    if !tag_at(l, 0, &['R', 'E', 'J', 'E', 'C', 'T', 'E', 'D']) {
        return None;
    }
    let j = scan(l, 8, CharClass::Alphabetic);
    proof {
        crate::text::lemma_span(l@, 8, CharClass::Alphabetic);
    }
    let word = vstd::slice::slice_subrange(l, 8, j);
    if chars_eq(word, &['B', 'W']) {
        Some(Response::Event(Event::REJECTED(ConnectionFailedReason::IncompatibleBandwidth)))
    } else if chars_eq(word, &['B', 'U', 'S', 'Y']) {
        Some(Response::Event(Event::REJECTED(ConnectionFailedReason::Busy)))
    } else {
        None
    }
}

fn status_in(line: &str, l: &[char]) -> (r: Option<Response>)
    requires
        l@ == line@,
    ensures
        opt_response_view(r) == spec_parse_status(l@),
{
    if !tag_at(l, 0, &['S', 'T', 'A', 'T', 'U', 'S']) {
        return None;
    }
    let i = scan(l, 6, CharClass::Space);
    proof {
        crate::text::lemma_span(l@, 6, CharClass::Space);
    }
    Some(Response::Event(Event::STATUS(substring(line, i, l.len()))))
}

fn target_in(line: &str, l: &[char]) -> (r: Option<Response>)
    requires
        l@ == line@,
    ensures
        opt_response_view(r) == spec_parse_target(l@),
{
    if !tag_at(l, 0, &['T', 'A', 'R', 'G', 'E', 'T']) {
        return None;
    }
    let i = scan(l, 6, CharClass::Space);
    proof {
        crate::text::lemma_span(l@, 6, CharClass::Space);
    }
    let j = scan(l, i, CharClass::Call);
    proof {
        crate::text::lemma_span(l@, i as int, CharClass::Call);
    }
    Some(Response::Event(Event::TARGET(substring(line, i, j))))
}

fn version_in(line: &str, l: &[char]) -> (r: Option<Response>)
    requires
        l@ == line@,
    ensures
        opt_response_view(r) == spec_parse_version(l@),
{
    if !tag_at(l, 0, &['V', 'E', 'R', 'S', 'I', 'O', 'N']) {
        return None;
    }
    let i = scan(l, 7, CharClass::Space);
    proof {
        crate::text::lemma_span(l@, 7, CharClass::Space);
    }
    Some(Response::CommandResult(Ok((CommandID::VERSION, Some(substring(line, i, l.len()))))))
}

fn command_ok_in(l: &[char]) -> (r: Option<Response>)
    ensures
        opt_response_view(r) == spec_parse_command_ok(l@),
{
    let j = scan(l, 0, CharClass::AsciiAlpha);
    proof {
        crate::text::lemma_span(l@, 0, CharClass::AsciiAlpha);
    }
    let word = vstd::slice::slice_subrange(l, 0, j);
    match CommandID::from_chars(word) {
        Some(id) => Some(Response::CommandResult(Ok((id, None)))),
        None => None,
    }
}

fn anything_in(line: &str) -> (r: Response)
    ensures
        r@ == spec_parse_anything(line@),
{
    Response::Event(Event::Unknown(line.to_owned()))
}

/// Classifies one line of TNC output, given also as its characters
fn response_in(line: &str, l: &[char]) -> (r: Response)
    requires
        l@ == line@,
    ensures
        r@ == spec_response(l@),
{
    if let Some(r) = buffer_in(l) {
        r
    } else if let Some(r) = busy_in(l) {
        r
    } else if let Some(r) = cancelpending_in(l) {
        r
    } else if let Some(r) = connected_in(line, l) {
        r
    } else if let Some(r) = disconnected_in(l) {
        r
    } else if let Some(r) = fault_in(line, l) {
        r
    } else if let Some(r) = newstate_in(l) {
        r
    } else if let Some(r) = pending_in(l) {
        r
    } else if let Some(r) = ping_in(line, l) {
        r
    } else if let Some(r) = pingack_in(l) {
        r
    } else if let Some(r) = pingreply_in(l) {
        r
    } else if let Some(r) = ptt_in(l) {
        r
    } else if let Some(r) = rejected_in(l) {
        r
    } else if let Some(r) = status_in(line, l) {
        r
    } else if let Some(r) = target_in(line, l) {
        r
    } else if let Some(r) = version_in(line, l) {
        r
    } else if let Some(r) = command_ok_in(l) {
        r
    } else {
        anything_in(line)
    }
}

impl Response {
    /// Parse zero or one TNC `Response` from raw bytes
    ///
    /// Scans the provided byte stream for the next TNC message and
    /// returns it. The remaining bytes, which are not yet parsed,
    /// are also returned.
    ///
    /// A catch-all Response, `Response::Event(Event::Unknown(String))`
    /// exists to parse messages which are otherwise not parseable.
    ///
    /// Parameters
    /// - `inp`: Raw bytes received from the TNC
    ///
    /// Return Value
    /// 0. Number of bytes consumed
    /// 1. A `Response` parsed from `inp`, if any.
    pub fn parse(inp: &[u8]) -> (r: (usize, Option<Response>))
        requires
            parse_requires(inp@),
        ensures
            (r.0 as int, opt_response_view(r.1)) == spec_parse(inp@),
    {
        match find_newline(inp) {
            None => (0, None),
            Some(k) => {
                if k == 0 {
                    (1, None)
                } else {
                    let line_bytes = vstd::slice::slice_subrange(inp, 0, k);
                    assert(line_bytes@ == inp@.take(k as int));
                    match utf8_to_string(line_bytes) {
                        Some(line) => {
                            let l = chars_of(line.as_str());
                            let resp = response_in(line.as_str(), l.as_slice());
                            (k + 1, Some(resp))
                        },
                        None => (0, None),
                    }
                }
            },
        }
    }
}

/* ---------------------------------------------------------------------- */
/* The alternatives, each on a whole line                                 */
/* ---------------------------------------------------------------------- */

/// `BUFFER`, spaces, a `u64`
pub fn parse_buffer(line: &str) -> (r: Option<Response>)
    ensures
        opt_response_view(r) == spec_parse_buffer(line@),
{
    let l = chars_of(line);
    buffer_in(l.as_slice())
}

/// `BUSY`, spaces, `TRUE` or `FALSE`
pub fn parse_busy(line: &str) -> (r: Option<Response>)
    ensures
        opt_response_view(r) == spec_parse_busy(line@),
{
    let l = chars_of(line);
    busy_in(l.as_slice())
}

/// `CANCELPENDING`
pub fn parse_cancelpending(line: &str) -> (r: Option<Response>)
    ensures
        opt_response_view(r) == spec_parse_cancelpending(line@),
{
    let l = chars_of(line);
    cancelpending_in(l.as_slice())
}

/// `CONNECTED`, spaces, callsign, spaces, `u16` bandwidth, optional grid
pub fn parse_connected(line: &str) -> (r: Option<Response>)
    ensures
        opt_response_view(r) == spec_parse_connected(line@),
{
    let l = chars_of(line);
    connected_in(line, l.as_slice())
}

/// `DISCONNECTED`
pub fn parse_disconnected(line: &str) -> (r: Option<Response>)
    ensures
        opt_response_view(r) == spec_parse_disconnected(line@),
{
    let l = chars_of(line);
    disconnected_in(l.as_slice())
}

/// `FAULT`, spaces, message
pub fn parse_fault(line: &str) -> (r: Option<Response>)
    ensures
        opt_response_view(r) == spec_parse_fault(line@),
{
    let l = chars_of(line);
    fault_in(line, l.as_slice())
}

/// `NEWSTATE`, spaces, a state name
pub fn parse_newstate(line: &str) -> (r: Option<Response>)
    ensures
        opt_response_view(r) == spec_parse_newstate(line@),
{
    let l = chars_of(line);
    newstate_in(l.as_slice())
}

/// `PENDING`
pub fn parse_pending(line: &str) -> (r: Option<Response>)
    ensures
        opt_response_view(r) == spec_parse_pending(line@),
{
    let l = chars_of(line);
    pending_in(l.as_slice())
}

/// `PING`, spaces, sender, `>`, target, spaces, SNR, spaces, quality
pub fn parse_ping(line: &str) -> (r: Option<Response>)
    ensures
        opt_response_view(r) == spec_parse_ping(line@),
{
    let l = chars_of(line);
    ping_in(line, l.as_slice())
}

/// `PINGACK`, spaces, SNR, spaces, quality
pub fn parse_pingack(line: &str) -> (r: Option<Response>)
    ensures
        opt_response_view(r) == spec_parse_pingack(line@),
{
    let l = chars_of(line);
    pingack_in(l.as_slice())
}

/// `PINGREPLY`
pub fn parse_pingreply(line: &str) -> (r: Option<Response>)
    ensures
        opt_response_view(r) == spec_parse_pingreply(line@),
{
    let l = chars_of(line);
    pingreply_in(l.as_slice())
}

/// `PTT`, spaces, `TRUE` or `FALSE`
pub fn parse_ptt(line: &str) -> (r: Option<Response>)
    ensures
        opt_response_view(r) == spec_parse_ptt(line@),
{
    let l = chars_of(line);
    ptt_in(l.as_slice())
}

/// `REJECTED` directly followed by `BW` or `BUSY`
pub fn parse_rejected(line: &str) -> (r: Option<Response>)
    ensures
        opt_response_view(r) == spec_parse_rejected(line@),
{
    let l = chars_of(line);
    rejected_in(l.as_slice())
}

/// `STATUS`, spaces, message
pub fn parse_status(line: &str) -> (r: Option<Response>)
    ensures
        opt_response_view(r) == spec_parse_status(line@),
{
    let l = chars_of(line);
    status_in(line, l.as_slice())
}

/// `TARGET`, spaces, callsign
pub fn parse_target(line: &str) -> (r: Option<Response>)
    ensures
        opt_response_view(r) == spec_parse_target(line@),
{
    let l = chars_of(line);
    target_in(line, l.as_slice())
}

/// `VERSION`, spaces, version text
pub fn parse_version(line: &str) -> (r: Option<Response>)
    ensures
        opt_response_view(r) == spec_parse_version(line@),
{
    let l = chars_of(line);
    version_in(line, l.as_slice())
}

/// A command echo
pub fn parse_command_ok(line: &str) -> (r: Option<Response>)
    ensures
        opt_response_view(r) == spec_parse_command_ok(line@),
{
    let l = chars_of(line);
    command_ok_in(l.as_slice())
}

/// Any line at all, as an unknown event
pub fn parse_anything(line: &str) -> (r: Response)
    ensures
        r@ == spec_parse_anything(line@),
{
    anything_in(line)
}

/// Classifies one line of TNC output
pub fn parse_response(line: &str) -> (r: Response)
    ensures
        r@ == spec_response(line@),
{
    let l = chars_of(line);
    response_in(line, l.as_slice())
}

/// A `u16` at the start of `text`
pub fn parse_u16(text: &str) -> (r: Option<u16>)
    ensures
        r matches Some(v) ==> spec_number(text@, 0, 0xffffnat) matches Some((_j, n)) && n == v,
        r is None ==> spec_number(text@, 0, 0xffffnat) is None,
{
    let l = chars_of(text);
    match scan_number(l.as_slice(), 0, 0xffff) {
        Some((_j, v)) => Some(v as u16),
        None => None,
    }
}

/// A `u64` at the start of `text`
pub fn parse_u64(text: &str) -> (r: Option<u64>)
    ensures
        r matches Some(v) ==> spec_number(text@, 0, 0xffff_ffff_ffff_ffffnat) matches Some((_j, n))
            && n == v,
        r is None ==> spec_number(text@, 0, 0xffff_ffff_ffff_ffffnat) is None,
{
    let l = chars_of(text);
    match scan_number(l.as_slice(), 0, 0xffff_ffff_ffff_ffff) {
        Some((_j, v)) => Some(v),
        None => None,
    }
}

/// `TRUE` or `FALSE` at the start of `text`
pub fn parse_boolstr_like(text: &str) -> (r: Option<bool>)
    ensures
        r matches Some(b) ==> spec_boolstr(text@, 0) matches Some((_j, v)) && v == b,
        r is None ==> spec_boolstr(text@, 0) is None,
{
    let l = chars_of(text);
    match boolstr_at(l.as_slice(), 0) {
        Some((_j, b)) => Some(b),
        None => None,
    }
}

/// Reads a complete line of text: the number of bytes consumed (the
/// line and its carriage return) and the line, or `None` if no
/// carriage return has arrived yet
pub fn parse_line(inp: &[u8]) -> (r: Option<(usize, String)>)
    requires
        parse_requires(inp@),
    ensures
        match first_newline(inp@) {
            None => r is None,
            Some(k) => r matches Some((n, s)) && n == k + 1 && s@ == decode_utf8(inp@.take(k)),
        },
{
    match find_newline(inp) {
        None => None,
        Some(k) => {
            let line_bytes = vstd::slice::slice_subrange(inp, 0, k);
            assert(line_bytes@ == inp@.take(k as int));
            match utf8_to_string(line_bytes) {
                Some(line) => Some((k + 1, line)),
                None => None,
            }
        },
    }
}


/// True if none of the alternatives that come before a command echo
/// accepts the line
spec fn no_event_alternative(l: Seq<char>) -> bool {
    &&& spec_parse_buffer(l) is None
    &&& spec_parse_busy(l) is None
    &&& spec_parse_cancelpending(l) is None
    &&& spec_parse_connected(l) is None
    &&& spec_parse_disconnected(l) is None
    &&& spec_parse_fault(l) is None
    &&& spec_parse_newstate(l) is None
    &&& spec_parse_pending(l) is None
    &&& spec_parse_ping(l) is None
    &&& spec_parse_pingack(l) is None
    &&& spec_parse_pingreply(l) is None
    &&& spec_parse_ptt(l) is None
    &&& spec_parse_rejected(l) is None
    &&& spec_parse_status(l) is None
    &&& spec_parse_target(l) is None
    &&& spec_parse_version(l) is None
}

/// None of the tags that open an event or a result occurs at the start of
/// a line that begins with another letter
proof fn lemma_tags_by_initial(l: Seq<char>)
    requires
        l.len() > 0,
    ensures
        l[0] != 'B' ==> !has_tag(l, 0, seq!['B', 'U', 'F', 'F', 'E', 'R']),
        l[0] != 'B' ==> !has_tag(l, 0, seq!['B', 'U', 'S', 'Y']),
        l[0] != 'C' ==> !has_tag(l, 0, seq!['C', 'A', 'N', 'C', 'E', 'L', 'P', 'E', 'N', 'D', 'I', 'N', 'G']),
        l[0] != 'C' ==> !has_tag(l, 0, seq!['C', 'O', 'N', 'N', 'E', 'C', 'T', 'E', 'D']),
        l[0] != 'D' ==> !has_tag(l, 0, seq!['D', 'I', 'S', 'C', 'O', 'N', 'N', 'E', 'C', 'T', 'E', 'D']),
        l[0] != 'F' ==> !has_tag(l, 0, seq!['F', 'A', 'U', 'L', 'T']),
        l[0] != 'N' ==> !has_tag(l, 0, seq!['N', 'E', 'W', 'S', 'T', 'A', 'T', 'E']),
        l[0] != 'P' ==> !has_tag(l, 0, seq!['P', 'E', 'N', 'D', 'I', 'N', 'G']),
        l[0] != 'P' ==> !has_tag(l, 0, seq!['P', 'I', 'N', 'G']),
        l[0] != 'P' ==> !has_tag(l, 0, seq!['P', 'I', 'N', 'G', 'A', 'C', 'K']),
        l[0] != 'P' ==> !has_tag(l, 0, seq!['P', 'I', 'N', 'G', 'R', 'E', 'P', 'L', 'Y']),
        l[0] != 'P' ==> !has_tag(l, 0, seq!['P', 'T', 'T']),
        l[0] != 'R' ==> !has_tag(l, 0, seq!['R', 'E', 'J', 'E', 'C', 'T', 'E', 'D']),
        l[0] != 'S' ==> !has_tag(l, 0, seq!['S', 'T', 'A', 'T', 'U', 'S']),
        l[0] != 'T' ==> !has_tag(l, 0, seq!['T', 'A', 'R', 'G', 'E', 'T']),
        l[0] != 'V' ==> !has_tag(l, 0, seq!['V', 'E', 'R', 'S', 'I', 'O', 'N']),
{
    if l[0] != 'B' {
        lemma_tag_mismatch(l, 0, seq!['B', 'U', 'F', 'F', 'E', 'R'], 0);
    }
    if l[0] != 'B' {
        lemma_tag_mismatch(l, 0, seq!['B', 'U', 'S', 'Y'], 0);
    }
    if l[0] != 'C' {
        lemma_tag_mismatch(l, 0, seq!['C', 'A', 'N', 'C', 'E', 'L', 'P', 'E', 'N', 'D', 'I', 'N', 'G'], 0);
    }
    if l[0] != 'C' {
        lemma_tag_mismatch(l, 0, seq!['C', 'O', 'N', 'N', 'E', 'C', 'T', 'E', 'D'], 0);
    }
    if l[0] != 'D' {
        lemma_tag_mismatch(l, 0, seq!['D', 'I', 'S', 'C', 'O', 'N', 'N', 'E', 'C', 'T', 'E', 'D'], 0);
    }
    if l[0] != 'F' {
        lemma_tag_mismatch(l, 0, seq!['F', 'A', 'U', 'L', 'T'], 0);
    }
    if l[0] != 'N' {
        lemma_tag_mismatch(l, 0, seq!['N', 'E', 'W', 'S', 'T', 'A', 'T', 'E'], 0);
    }
    if l[0] != 'P' {
        lemma_tag_mismatch(l, 0, seq!['P', 'E', 'N', 'D', 'I', 'N', 'G'], 0);
    }
    if l[0] != 'P' {
        lemma_tag_mismatch(l, 0, seq!['P', 'I', 'N', 'G'], 0);
    }
    if l[0] != 'P' {
        lemma_tag_mismatch(l, 0, seq!['P', 'I', 'N', 'G', 'A', 'C', 'K'], 0);
    }
    if l[0] != 'P' {
        lemma_tag_mismatch(l, 0, seq!['P', 'I', 'N', 'G', 'R', 'E', 'P', 'L', 'Y'], 0);
    }
    if l[0] != 'P' {
        lemma_tag_mismatch(l, 0, seq!['P', 'T', 'T'], 0);
    }
    if l[0] != 'R' {
        lemma_tag_mismatch(l, 0, seq!['R', 'E', 'J', 'E', 'C', 'T', 'E', 'D'], 0);
    }
    if l[0] != 'S' {
        lemma_tag_mismatch(l, 0, seq!['S', 'T', 'A', 'T', 'U', 'S'], 0);
    }
    if l[0] != 'T' {
        lemma_tag_mismatch(l, 0, seq!['T', 'A', 'R', 'G', 'E', 'T'], 0);
    }
    if l[0] != 'V' {
        lemma_tag_mismatch(l, 0, seq!['V', 'E', 'R', 'S', 'I', 'O', 'N'], 0);
    }
}

/// A line that only a command echo accepts is read as that command's success
proof fn lemma_echo_line(l: Seq<char>, id: CommandID)
    requires
        l == id.spec_name(),
        no_event_alternative(l),
        span(l, 0, CharClass::AsciiAlpha) == l.len(),
    ensures
        spec_response(l) == ResponseView::CommandResult(Ok((id, None))),
{
    lemma_command_id_name_roundtrip(id);
    assert(l.subrange(0, l.len() as int) =~= l);
}

/// `lemma_command_echo` for `ABORT`, `AUTOBREAK`, `BUFFER`, `ARQBW`, `ARQTIMEOUT`, `ARQCALL`
proof fn lemma_command_echo_part1(id: CommandID)
    requires
        id is ABORT || id is AUTOBREAK || id is BUFFER || id is ARQBW || id is ARQTIMEOUT || id is ARQCALL,
    ensures
        spec_response(id.spec_name()) == ResponseView::CommandResult(Ok((id, None))),
{
    match id {
        CommandID::ABORT => {
            let l = seq!['A', 'B', 'O', 'R', 'T'];
            lemma_tags_by_initial(l);
            assert(span(l, 0, CharClass::AsciiAlpha) == l.len()) by {
                reveal_with_fuel(span, 6);
            }
            lemma_echo_line(l, id);
        },
        CommandID::AUTOBREAK => {
            let l = seq!['A', 'U', 'T', 'O', 'B', 'R', 'E', 'A', 'K'];
            lemma_tags_by_initial(l);
            assert(span(l, 0, CharClass::AsciiAlpha) == l.len()) by {
                reveal_with_fuel(span, 10);
            }
            lemma_echo_line(l, id);
        },
        CommandID::BUFFER => {
            let l = seq!['B', 'U', 'F', 'F', 'E', 'R'];
            lemma_tags_by_initial(l);
            lemma_tag_mismatch(l, 0, seq!['B', 'U', 'S', 'Y'], 2);
            assert(span(l, 0, CharClass::AsciiAlpha) == l.len()) by {
                reveal_with_fuel(span, 7);
            }
            lemma_echo_line(l, id);
        },
        CommandID::ARQBW => {
            let l = seq!['A', 'R', 'Q', 'B', 'W'];
            lemma_tags_by_initial(l);
            assert(span(l, 0, CharClass::AsciiAlpha) == l.len()) by {
                reveal_with_fuel(span, 6);
            }
            lemma_echo_line(l, id);
        },
        CommandID::ARQTIMEOUT => {
            let l = seq!['A', 'R', 'Q', 'T', 'I', 'M', 'E', 'O', 'U', 'T'];
            lemma_tags_by_initial(l);
            assert(span(l, 0, CharClass::AsciiAlpha) == l.len()) by {
                reveal_with_fuel(span, 11);
            }
            lemma_echo_line(l, id);
        },
        CommandID::ARQCALL => {
            let l = seq!['A', 'R', 'Q', 'C', 'A', 'L', 'L'];
            lemma_tags_by_initial(l);
            assert(span(l, 0, CharClass::AsciiAlpha) == l.len()) by {
                reveal_with_fuel(span, 8);
            }
            lemma_echo_line(l, id);
        },
        _ => {},
    }
}

/// `lemma_command_echo` for `BUSY`, `BUSYBLOCK`, `BUSYDET`, `CONNECTED`, `CWID`, `DISCONNECT`
proof fn lemma_command_echo_part2(id: CommandID)
    requires
        id is BUSY || id is BUSYBLOCK || id is BUSYDET || id is CONNECTED || id is CWID || id is DISCONNECT,
    ensures
        spec_response(id.spec_name()) == ResponseView::CommandResult(Ok((id, None))),
{
    match id {
        CommandID::BUSY => {
            let l = seq!['B', 'U', 'S', 'Y'];
            lemma_tags_by_initial(l);
            lemma_tag_mismatch(l, 0, seq!['B', 'U', 'F', 'F', 'E', 'R'], 2);
            assert(span(l, 0, CharClass::AsciiAlpha) == l.len()) by {
                reveal_with_fuel(span, 5);
            }
            lemma_echo_line(l, id);
        },
        CommandID::BUSYBLOCK => {
            let l = seq!['B', 'U', 'S', 'Y', 'B', 'L', 'O', 'C', 'K'];
            lemma_tags_by_initial(l);
            lemma_tag_mismatch(l, 0, seq!['B', 'U', 'F', 'F', 'E', 'R'], 2);
            lemma_tag_mismatch(l, 4, spec_true_text(), 0);
            lemma_tag_mismatch(l, 4, spec_false_text(), 0);
            assert(span(l, 0, CharClass::AsciiAlpha) == l.len()) by {
                reveal_with_fuel(span, 10);
            }
            lemma_echo_line(l, id);
        },
        CommandID::BUSYDET => {
            let l = seq!['B', 'U', 'S', 'Y', 'D', 'E', 'T'];
            lemma_tags_by_initial(l);
            lemma_tag_mismatch(l, 0, seq!['B', 'U', 'F', 'F', 'E', 'R'], 2);
            lemma_tag_mismatch(l, 4, spec_true_text(), 0);
            lemma_tag_mismatch(l, 4, spec_false_text(), 0);
            assert(span(l, 0, CharClass::AsciiAlpha) == l.len()) by {
                reveal_with_fuel(span, 8);
            }
            lemma_echo_line(l, id);
        },
        CommandID::CONNECTED => {
            let l = seq!['C', 'O', 'N', 'N', 'E', 'C', 'T', 'E', 'D'];
            lemma_tags_by_initial(l);
            lemma_tag_mismatch(l, 0, seq!['C', 'A', 'N', 'C', 'E', 'L', 'P', 'E', 'N', 'D', 'I', 'N', 'G'], 1);
            assert(span(l, 0, CharClass::AsciiAlpha) == l.len()) by {
                reveal_with_fuel(span, 10);
            }
            lemma_echo_line(l, id);
        },
        CommandID::CWID => {
            let l = seq!['C', 'W', 'I', 'D'];
            lemma_tags_by_initial(l);
            lemma_tag_mismatch(l, 0, seq!['C', 'A', 'N', 'C', 'E', 'L', 'P', 'E', 'N', 'D', 'I', 'N', 'G'], 1);
            lemma_tag_mismatch(l, 0, seq!['C', 'O', 'N', 'N', 'E', 'C', 'T', 'E', 'D'], 1);
            assert(span(l, 0, CharClass::AsciiAlpha) == l.len()) by {
                reveal_with_fuel(span, 5);
            }
            lemma_echo_line(l, id);
        },
        CommandID::DISCONNECT => {
            let l = seq!['D', 'I', 'S', 'C', 'O', 'N', 'N', 'E', 'C', 'T'];
            lemma_tags_by_initial(l);
            assert(span(l, 0, CharClass::AsciiAlpha) == l.len()) by {
                reveal_with_fuel(span, 11);
            }
            lemma_echo_line(l, id);
        },
        _ => {},
    }
}

/// `lemma_command_echo` for `GRIDSQUARE`, `INITIALIZE`, `LEADER`, `LISTEN`, `MYAUX`
proof fn lemma_command_echo_part3(id: CommandID)
    requires
        id is GRIDSQUARE || id is INITIALIZE || id is LEADER || id is LISTEN || id is MYAUX,
    ensures
        spec_response(id.spec_name()) == ResponseView::CommandResult(Ok((id, None))),
{
    match id {
        CommandID::GRIDSQUARE => {
            let l = seq!['G', 'R', 'I', 'D', 'S', 'Q', 'U', 'A', 'R', 'E'];
            lemma_tags_by_initial(l);
            assert(span(l, 0, CharClass::AsciiAlpha) == l.len()) by {
                reveal_with_fuel(span, 11);
            }
            lemma_echo_line(l, id);
        },
        CommandID::INITIALIZE => {
            let l = seq!['I', 'N', 'I', 'T', 'I', 'A', 'L', 'I', 'Z', 'E'];
            lemma_tags_by_initial(l);
            assert(span(l, 0, CharClass::AsciiAlpha) == l.len()) by {
                reveal_with_fuel(span, 11);
            }
            lemma_echo_line(l, id);
        },
        CommandID::LEADER => {
            let l = seq!['L', 'E', 'A', 'D', 'E', 'R'];
            lemma_tags_by_initial(l);
            assert(span(l, 0, CharClass::AsciiAlpha) == l.len()) by {
                reveal_with_fuel(span, 7);
            }
            lemma_echo_line(l, id);
        },
        CommandID::LISTEN => {
            let l = seq!['L', 'I', 'S', 'T', 'E', 'N'];
            lemma_tags_by_initial(l);
            assert(span(l, 0, CharClass::AsciiAlpha) == l.len()) by {
                reveal_with_fuel(span, 7);
            }
            lemma_echo_line(l, id);
        },
        CommandID::MYAUX => {
            let l = seq!['M', 'Y', 'A', 'U', 'X'];
            lemma_tags_by_initial(l);
            assert(span(l, 0, CharClass::AsciiAlpha) == l.len()) by {
                reveal_with_fuel(span, 6);
            }
            lemma_echo_line(l, id);
        },
        _ => {},
    }
}

/// `lemma_command_echo` for `MYCALL`, `PING`, `PROTOCOLMODE`, `REJECTED`, `SENDID`, `TWOTONETEST`
proof fn lemma_command_echo_part4(id: CommandID)
    requires
        id is MYCALL || id is PING || id is PROTOCOLMODE || id is REJECTED || id is SENDID || id is TWOTONETEST,
    ensures
        spec_response(id.spec_name()) == ResponseView::CommandResult(Ok((id, None))),
{
    match id {
        CommandID::MYCALL => {
            let l = seq!['M', 'Y', 'C', 'A', 'L', 'L'];
            lemma_tags_by_initial(l);
            assert(span(l, 0, CharClass::AsciiAlpha) == l.len()) by {
                reveal_with_fuel(span, 7);
            }
            lemma_echo_line(l, id);
        },
        CommandID::PING => {
            let l = seq!['P', 'I', 'N', 'G'];
            lemma_tags_by_initial(l);
            lemma_tag_mismatch(l, 0, seq!['P', 'E', 'N', 'D', 'I', 'N', 'G'], 1);
            lemma_tag_mismatch(l, 0, seq!['P', 'T', 'T'], 1);
            assert(span(l, 0, CharClass::AsciiAlpha) == l.len()) by {
                reveal_with_fuel(span, 5);
            }
            lemma_echo_line(l, id);
        },
        CommandID::PROTOCOLMODE => {
            let l = seq!['P', 'R', 'O', 'T', 'O', 'C', 'O', 'L', 'M', 'O', 'D', 'E'];
            lemma_tags_by_initial(l);
            lemma_tag_mismatch(l, 0, seq!['P', 'E', 'N', 'D', 'I', 'N', 'G'], 1);
            lemma_tag_mismatch(l, 0, seq!['P', 'I', 'N', 'G'], 1);
            lemma_tag_mismatch(l, 0, seq!['P', 'I', 'N', 'G', 'A', 'C', 'K'], 1);
            lemma_tag_mismatch(l, 0, seq!['P', 'I', 'N', 'G', 'R', 'E', 'P', 'L', 'Y'], 1);
            lemma_tag_mismatch(l, 0, seq!['P', 'T', 'T'], 1);
            assert(span(l, 0, CharClass::AsciiAlpha) == l.len()) by {
                reveal_with_fuel(span, 13);
            }
            lemma_echo_line(l, id);
        },
        CommandID::REJECTED => {
            let l = seq!['R', 'E', 'J', 'E', 'C', 'T', 'E', 'D'];
            lemma_tags_by_initial(l);
            assert(l.subrange(8, 8) =~= Seq::<char>::empty());
            assert(span(l, 0, CharClass::AsciiAlpha) == l.len()) by {
                reveal_with_fuel(span, 9);
            }
            lemma_echo_line(l, id);
        },
        CommandID::SENDID => {
            let l = seq!['S', 'E', 'N', 'D', 'I', 'D'];
            lemma_tags_by_initial(l);
            lemma_tag_mismatch(l, 0, seq!['S', 'T', 'A', 'T', 'U', 'S'], 1);
            assert(span(l, 0, CharClass::AsciiAlpha) == l.len()) by {
                reveal_with_fuel(span, 7);
            }
            lemma_echo_line(l, id);
        },
        CommandID::TWOTONETEST => {
            let l = seq!['T', 'W', 'O', 'T', 'O', 'N', 'E', 'T', 'E', 'S', 'T'];
            lemma_tags_by_initial(l);
            lemma_tag_mismatch(l, 0, seq!['T', 'A', 'R', 'G', 'E', 'T'], 1);
            assert(span(l, 0, CharClass::AsciiAlpha) == l.len()) by {
                reveal_with_fuel(span, 12);
            }
            lemma_echo_line(l, id);
        },
        _ => {},
    }
}

/// `lemma_command_echo` for `NEWSTATE`
proof fn lemma_newstate_echo()
    ensures
        spec_response(CommandID::NEWSTATE.spec_name()) == ResponseView::CommandResult(
            Ok((CommandID::NEWSTATE, None)),
        ),
{
    let id = CommandID::NEWSTATE;
    let l = seq!['N', 'E', 'W', 'S', 'T', 'A', 'T', 'E'];
    lemma_tags_by_initial(l);
    assert(l.subrange(8, 8) =~= Seq::<char>::empty());
    assert(after_spaces(l, 8) == 8);
    assert(span(l, 8, CharClass::AsciiAlnum) == 8);
    assert(State::spec_from_name(Seq::<char>::empty()) is None);
    assert(spec_parse_newstate(l) is None);
    assert(span(l, 0, CharClass::AsciiAlpha) == l.len()) by {
        reveal_with_fuel(span, 9);
    }
    lemma_echo_line(l, id);
}

/// The TNC acknowledges a command by echoing its verb. Each verb, alone on
/// a line, is read as the success of that command, except the verbs that
/// carry text of their own: `FAULT` (a failure), `TARGET` (an event) and
/// `VERSION` (see `lemma_version_echo`).
pub proof fn lemma_command_echo(id: CommandID)
    requires
        !(id is FAULT || id is TARGET || id is VERSION),
    ensures
        spec_response(id.spec_name()) == ResponseView::CommandResult(Ok((id, None))),
{
    match id {
        CommandID::ABORT
        | CommandID::AUTOBREAK
        | CommandID::BUFFER
        | CommandID::ARQBW
        | CommandID::ARQTIMEOUT
        | CommandID::ARQCALL => lemma_command_echo_part1(id),
        CommandID::BUSY
        | CommandID::BUSYBLOCK
        | CommandID::BUSYDET
        | CommandID::CONNECTED
        | CommandID::CWID
        | CommandID::DISCONNECT => lemma_command_echo_part2(id),
        CommandID::GRIDSQUARE
        | CommandID::INITIALIZE
        | CommandID::LEADER
        | CommandID::LISTEN
        | CommandID::MYAUX => lemma_command_echo_part3(id),
        CommandID::NEWSTATE => lemma_newstate_echo(),
        CommandID::MYCALL
        | CommandID::PING
        | CommandID::PROTOCOLMODE
        | CommandID::REJECTED
        | CommandID::SENDID
        | CommandID::TWOTONETEST => lemma_command_echo_part4(id),
        _ => {},
    }
}


/// The TNC answers `VERSION` with its version text; the bare verb is read
/// as the success of `VERSION` with an empty version text
pub proof fn lemma_version_echo()
    ensures
        spec_response(CommandID::VERSION.spec_name()) == ResponseView::CommandResult(
            Ok((CommandID::VERSION, Some(Seq::<char>::empty()))),
        ),
{
    let l = seq!['V', 'E', 'R', 'S', 'I', 'O', 'N'];
    lemma_tags_by_initial(l);
    assert(l == CommandID::VERSION.spec_name());
    assert(after_spaces(l, 7) == 7);
    assert(l.subrange(7, 7) =~= Seq::<char>::empty());
    assert(l.subrange(0, 7) =~= l);
    assert(spec_parse_buffer(l) is None && spec_parse_busy(l) is None
        && spec_parse_cancelpending(l) is None && spec_parse_connected(l) is None
        && spec_parse_disconnected(l) is None && spec_parse_fault(l) is None
        && spec_parse_newstate(l) is None && spec_parse_pending(l) is None);
    assert(spec_parse_ping(l) is None && spec_parse_pingack(l) is None
        && spec_parse_pingreply(l) is None && spec_parse_ptt(l) is None
        && spec_parse_rejected(l) is None && spec_parse_status(l) is None
        && spec_parse_target(l) is None);
}


/// Distinct ARQ states have distinct protocol names
pub proof fn lemma_state_names_distinct(a: State, b: State)
    ensures
        a.spec_name() == b.spec_name() ==> a == b,
{
    if a.spec_name() == b.spec_name() && a != b {
        let x = a.spec_name();
        let y = b.spec_name();
        assert(x.len() == y.len());
        assert(x[0] == y[0]);
        assert(x[1] == y[1]);
        assert(x[2] == y[2]);
        if x.len() > 3 {
            assert(x[3] == y[3]);
        }
    }
}

/// Every ARQ state is read back from its own protocol name
pub proof fn lemma_state_name_roundtrip(st: State)
    ensures
        State::spec_from_name(st.spec_name()) == Some(st),
{
    lemma_state_names_distinct(State::OFFLINE, st);
    lemma_state_names_distinct(State::DISC, st);
    lemma_state_names_distinct(State::ISS, st);
    lemma_state_names_distinct(State::IRS, st);
    lemma_state_names_distinct(State::IRStoISS, st);
    lemma_state_names_distinct(State::IDLE, st);
    lemma_state_names_distinct(State::FECSend, st);
    lemma_state_names_distinct(State::FECRcv, st);
}


/// The TNC rejects a command with `FAULT` and a message; such a line is
/// read as a failed command carrying that message
pub proof fn lemma_fault_rejects(m: Seq<char>)
    requires
        m.len() > 0 ==> m[0] != ' ',
    ensures
        spec_response(CommandID::FAULT.spec_name() + seq![' '] + m) == ResponseView::CommandResult(
            Err(m),
        ),
{
    let l = CommandID::FAULT.spec_name() + seq![' '] + m;
    lemma_tag_mismatch(l, 0, seq!['B', 'U', 'F', 'F', 'E', 'R'], 0);
    lemma_tag_mismatch(l, 0, seq!['B', 'U', 'S', 'Y'], 0);
    lemma_tag_mismatch(
        l,
        0,
        seq!['C', 'A', 'N', 'C', 'E', 'L', 'P', 'E', 'N', 'D', 'I', 'N', 'G'],
        0,
    );
    lemma_tag_mismatch(l, 0, seq!['C', 'O', 'N', 'N', 'E', 'C', 'T', 'E', 'D'], 0);
    lemma_tag_mismatch(l, 0, seq!['D', 'I', 'S', 'C', 'O', 'N', 'N', 'E', 'C', 'T', 'E', 'D'], 0);
    assert(l.subrange(0, 5) =~= seq!['F', 'A', 'U', 'L', 'T']);
    assert(span(l, 6, CharClass::Space) == 6);
    assert(after_spaces(l, 5) == 6);
    assert(l.subrange(6, l.len() as int) =~= m);
}


/// A complete line is read as its response and consumed together with its
/// carriage return, whatever follows it; an empty line is skipped; with no
/// carriage return yet, nothing is consumed
pub proof fn lemma_parse_first_line(line: Seq<u8>, rest: Seq<u8>)
    requires
        forall|i: int| 0 <= i < line.len() ==> line[i] != NEWLINE,
    ensures
        line.len() > 0 ==> spec_parse(line + seq![NEWLINE] + rest) == (
            line.len() as int + 1,
            Some(spec_response(decode_utf8(line))),
        ),
        line.len() == 0 ==> spec_parse(line + seq![NEWLINE] + rest) == (1int, None::<ResponseView>),
        spec_parse(line) == (0int, None::<ResponseView>),
{
    let b = line + seq![NEWLINE] + rest;
    let k = line.len() as int;
    lemma_newline_from(b, 0);
    lemma_newline_from(line, 0);
    assert(b[k] == NEWLINE);
    assert forall|m: int| 0 <= m < k implies b[m] != NEWLINE by {
        assert(b[m] == line[m]);
    }
    assert(first_newline(b) == Some(k));
    assert(b.take(k) =~= line);
}


/// The TNC reports the push-to-talk line as `PTT TRUE` or `PTT FALSE`;
/// each is read as the truth value it names, for both values
pub proof fn lemma_ptt_report(b: bool)
    ensures
        spec_response(seq!['P', 'T', 'T', ' '] + spec_truth_text(b)) == ResponseView::Event(
            EventView::PTT(b),
        ),
{
    let l = seq!['P', 'T', 'T', ' '] + spec_truth_text(b);
    lemma_tags_by_initial(l);
    lemma_tag_mismatch(l, 0, seq!['P', 'E', 'N', 'D', 'I', 'N', 'G'], 1);
    lemma_tag_mismatch(l, 0, seq!['P', 'I', 'N', 'G'], 1);
    lemma_tag_mismatch(l, 0, seq!['P', 'I', 'N', 'G', 'A', 'C', 'K'], 1);
    lemma_tag_mismatch(l, 0, seq!['P', 'I', 'N', 'G', 'R', 'E', 'P', 'L', 'Y'], 1);
    assert(l.subrange(0, 3) =~= seq!['P', 'T', 'T']);
    assert(span(l, 4, CharClass::Space) == 4);
    assert(after_spaces(l, 3) == 4);
    if b {
        assert(l.subrange(4, 8) =~= spec_true_text());
        assert(spec_boolstr(l, 4) == Some((8int, true)));
    } else {
        lemma_tag_mismatch(l, 4, spec_true_text(), 0);
        assert(l.subrange(4, 9) =~= spec_false_text());
        assert(spec_boolstr(l, 4) == Some((9int, false)));
    }
    assert(spec_parse_buffer(l) is None && spec_parse_busy(l) is None
        && spec_parse_cancelpending(l) is None && spec_parse_connected(l) is None
        && spec_parse_disconnected(l) is None && spec_parse_fault(l) is None
        && spec_parse_newstate(l) is None && spec_parse_pending(l) is None);
    assert(spec_parse_ping(l) is None && spec_parse_pingack(l) is None
        && spec_parse_pingreply(l) is None);
    assert(spec_parse_ptt(l) == Some(ResponseView::Event(EventView::PTT(b))));
}

/// The TNC reports the channel state as `BUSY TRUE` or `BUSY FALSE`; each
/// is read as the truth value it names, for both values
pub proof fn lemma_busy_report(b: bool)
    ensures
        spec_response(seq!['B', 'U', 'S', 'Y', ' '] + spec_truth_text(b)) == ResponseView::Event(
            EventView::BUSY(b),
        ),
{
    let l = seq!['B', 'U', 'S', 'Y', ' '] + spec_truth_text(b);
    lemma_tag_mismatch(l, 0, seq!['B', 'U', 'F', 'F', 'E', 'R'], 2);
    assert(l.subrange(0, 4) =~= seq!['B', 'U', 'S', 'Y']);
    assert(span(l, 5, CharClass::Space) == 5);
    assert(after_spaces(l, 4) == 5);
    if b {
        assert(l.subrange(5, 9) =~= spec_true_text());
        assert(spec_boolstr(l, 5) == Some((9int, true)));
    } else {
        lemma_tag_mismatch(l, 5, spec_true_text(), 0);
        assert(l.subrange(5, 10) =~= spec_false_text());
        assert(spec_boolstr(l, 5) == Some((10int, false)));
    }
    assert(spec_parse_buffer(l) is None);
    assert(spec_parse_busy(l) == Some(ResponseView::Event(EventView::BUSY(b))));
}

} // verus!
