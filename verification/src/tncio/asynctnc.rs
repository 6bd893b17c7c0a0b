//! Decisions of the asynchronous ARDOP TNC backend
//!
//! Talking to the TNC alternates I/O (sending a command, awaiting a reply
//! or an event, sleeping) with decisions. The I/O stays with the caller;
//! this module makes the decisions: which commands to send, what a reply
//! means, when a wait for a clear channel is over, how a connection,
//! listen, monitor or ping attempt ends, and how a disconnect progresses.
use vstd::prelude::*;

use super::dataevent::{DataEvent, DataEventView};
use crate::arq::connectioninfo::ConnectionInfoView;
use crate::arq::{ConnectionFailedReason, ConnectionInfo};
use crate::protocol::command::{
    arqbw, arqcall, busyblock, disconnect, initialize, listen, mycall, ping, protocolmode,
    spec_bw_mode_text, spec_command_text, Command, CommandArg,
};
use crate::protocol::constants::{spec_truth_text, CommandID, ProtocolMode};
use crate::protocol::response::{
    command_result_view, opt_view, CommandOk, CommandResult, CommandResultView,
    ConnectionStateChange, ConnectionStateChangeView,
};
use crate::text::decimal_text;
use crate::tnc::discoveredpeer::{DiscoveredPeer, DiscoveredPeerView};
use crate::tnc::error::{
    command_response_invalid_err, connection_reset_err, connection_timeout_err,
    spec_invalid_response_message, spec_reset_message, spec_timeout_message, IoError, IoErrorKind,
    TncError, TncErrorView, TncResult,
};
use crate::tnc::pingreply::{PingAck, PingAckView, PingFailedReason};

verus! {

/* ---------------------------------------------------------------------- */
/* Commands                                                               */
/* ---------------------------------------------------------------------- */

/// A command ready to send: its wire text and its verb
pub type PlannedCommand = (String, CommandID);

/// Abstract value of a list of planned commands
pub open spec fn plan_view(v: Seq<PlannedCommand>) -> Seq<(Seq<char>, CommandID)> {
    v.map_values(|c: PlannedCommand| (c.0@, c.1))
}

/// A command, ready to send
pub fn planned<I: CommandArg>(cmd: Command<I>) -> (r: PlannedCommand)
    ensures
        r.0@ == cmd.spec_text(),
        r.1 == cmd.spec_id(),
{
    let text = cmd.to_string();
    (text, *cmd.command_id())
}

/// The wire text of a command without argument
pub open spec fn bare(id: CommandID) -> (Seq<char>, CommandID) {
    (spec_command_text(id, None), id)
}

/// The wire text of a command with an argument
pub open spec fn with_arg(id: CommandID, arg: Seq<char>) -> (Seq<char>, CommandID) {
    (spec_command_text(id, Some(arg)), id)
}

/// Commands that bring a freshly connected TNC to known conditions:
/// `INITIALIZE`, stop listening, FEC mode, set the callsign, block
/// connections on a busy channel
pub fn initialize_commands(call: &str) -> (r: Vec<PlannedCommand>)
    ensures
        plan_view(r@) == seq![
            bare(CommandID::INITIALIZE),
            with_arg(CommandID::LISTEN, spec_truth_text(false)),
            with_arg(CommandID::PROTOCOLMODE, ProtocolMode::FEC.spec_name()),
            with_arg(CommandID::MYCALL, call@),
            with_arg(CommandID::BUSYBLOCK, spec_truth_text(true)),
        ],
{
    let mut v: Vec<PlannedCommand> = Vec::new();
    v.push(planned(initialize()));
    v.push(planned(listen(false)));
    v.push(planned(protocolmode(ProtocolMode::FEC)));
    v.push(planned(mycall(call)));
    v.push(planned(busyblock(true)));
    assert(plan_view(v@) =~= seq![
        bare(CommandID::INITIALIZE),
        with_arg(CommandID::LISTEN, spec_truth_text(false)),
        with_arg(CommandID::PROTOCOLMODE, ProtocolMode::FEC.spec_name()),
        with_arg(CommandID::MYCALL, call@),
        with_arg(CommandID::BUSYBLOCK, spec_truth_text(true)),
    ]);
    v
}

/// Commands that dial a peer: stop listening, ARQ mode, set the
/// bandwidth, then `ARQCALL`
pub fn connect_commands(target: &str, bw: u16, bw_forced: bool, attempts: u16) -> (r: Vec<
    PlannedCommand,
>)
    ensures
        plan_view(r@) == seq![
            with_arg(CommandID::LISTEN, spec_truth_text(false)),
            with_arg(CommandID::PROTOCOLMODE, ProtocolMode::ARQ.spec_name()),
            with_arg(CommandID::ARQBW, decimal_text(bw as nat) + spec_bw_mode_text(bw_forced)),
            with_arg(
                CommandID::ARQCALL,
                target@ + seq![' '] + decimal_text(attempts as nat),
            ),
        ],
{
    let mut v: Vec<PlannedCommand> = Vec::new();
    v.push(planned(listen(false)));
    v.push(planned(protocolmode(ProtocolMode::ARQ)));
    v.push(planned(arqbw(bw, bw_forced)));
    v.push(planned(arqcall(target, attempts)));
    assert(plan_view(v@) =~= seq![
        with_arg(CommandID::LISTEN, spec_truth_text(false)),
        with_arg(CommandID::PROTOCOLMODE, ProtocolMode::ARQ.spec_name()),
        with_arg(CommandID::ARQBW, decimal_text(bw as nat) + spec_bw_mode_text(bw_forced)),
        with_arg(CommandID::ARQCALL, target@ + seq![' '] + decimal_text(attempts as nat)),
    ]);
    v
}

/// Commands that start listening for calls and peers: ARQ mode, set the
/// bandwidth, listen
pub fn listen_commands(bw: u16, bw_forced: bool) -> (r: Vec<PlannedCommand>)
    ensures
        plan_view(r@) == seq![
            with_arg(CommandID::PROTOCOLMODE, ProtocolMode::ARQ.spec_name()),
            with_arg(CommandID::ARQBW, decimal_text(bw as nat) + spec_bw_mode_text(bw_forced)),
            with_arg(CommandID::LISTEN, spec_truth_text(true)),
        ],
{
    let mut v: Vec<PlannedCommand> = Vec::new();
    v.push(planned(protocolmode(ProtocolMode::ARQ)));
    v.push(planned(arqbw(bw, bw_forced)));
    v.push(planned(listen(true)));
    assert(plan_view(v@) =~= seq![
        with_arg(CommandID::PROTOCOLMODE, ProtocolMode::ARQ.spec_name()),
        with_arg(CommandID::ARQBW, decimal_text(bw as nat) + spec_bw_mode_text(bw_forced)),
        with_arg(CommandID::LISTEN, spec_truth_text(true)),
    ]);
    v
}

/// Commands that start monitoring for peers: ARQ mode, listen
pub fn monitor_commands() -> (r: Vec<PlannedCommand>)
    ensures
        plan_view(r@) == seq![
            with_arg(CommandID::PROTOCOLMODE, ProtocolMode::ARQ.spec_name()),
            with_arg(CommandID::LISTEN, spec_truth_text(true)),
        ],
{
    let mut v: Vec<PlannedCommand> = Vec::new();
    v.push(planned(protocolmode(ProtocolMode::ARQ)));
    v.push(planned(listen(true)));
    assert(plan_view(v@) =~= seq![
        with_arg(CommandID::PROTOCOLMODE, ProtocolMode::ARQ.spec_name()),
        with_arg(CommandID::LISTEN, spec_truth_text(true)),
    ]);
    v
}

/// What came back while awaiting a command's result
pub enum CommandReceipt {
    /// Nothing came back in time
    TimedOut,
    /// The result stream ended
    Closed,
    /// A command result arrived
    Received(CommandResult),
}

/// Abstract value of a `CommandReceipt`
pub enum CommandReceiptView {
    /// See `CommandReceipt::TimedOut`
    TimedOut,
    /// See `CommandReceipt::Closed`
    Closed,
    /// See `CommandReceipt::Received`
    Received(CommandResultView),
}

impl View for CommandReceipt {
    type V = CommandReceiptView;

    open spec fn view(&self) -> CommandReceiptView {
        match self {
            CommandReceipt::TimedOut => CommandReceiptView::TimedOut,
            CommandReceipt::Closed => CommandReceiptView::Closed,
            CommandReceipt::Received(r) => CommandReceiptView::Received(command_result_view(*r)),
        }
    }
}

/// Abstract value of the outcome of a command
pub open spec fn command_outcome_view(r: TncResult<CommandOk>) -> Result<
    (CommandID, Option<Seq<char>>),
    TncErrorView,
> {
    match r {
        Ok((id, msg)) => Ok((id, opt_view(msg))),
        Err(e) => Err(e@),
    }
}

/// The outcome of a command whose verb is `expected`, given what came back
pub open spec fn spec_command_outcome(expected: CommandID, receipt: CommandReceiptView) -> Result<
    (CommandID, Option<Seq<char>>),
    TncErrorView,
> {
    match receipt {
        CommandReceiptView::TimedOut => Err(
            TncErrorView::IoError(IoErrorKind::TimedOut, spec_timeout_message()),
        ),
        CommandReceiptView::Closed => Err(
            TncErrorView::IoError(IoErrorKind::ConnectionReset, spec_reset_message()),
        ),
        CommandReceiptView::Received(Err(msg)) => Err(TncErrorView::CommandFailed(msg)),
        CommandReceiptView::Received(Ok((id, msg))) => if id == expected {
            Ok((id, msg))
        } else {
            Err(TncErrorView::IoError(IoErrorKind::InvalidData, spec_invalid_response_message()))
        },
    }
}

/// Decides the outcome of a command: a `FAULT` fails it, the echo of its
/// own verb completes it, anything else (a timeout, a lost connection, an
/// answer to another command) is an I/O failure
pub fn command_outcome(expected: CommandID, receipt: CommandReceipt) -> (r: TncResult<CommandOk>)
    ensures
        command_outcome_view(r) == spec_command_outcome(expected, receipt@),
{
    match receipt {
        CommandReceipt::TimedOut => Err(TncError::IoError(connection_timeout_err())),
        CommandReceipt::Closed => Err(TncError::IoError(connection_reset_err())),
        CommandReceipt::Received(Err(badcmd)) => Err(TncError::CommandFailed(badcmd)),
        CommandReceipt::Received(Ok((in_id, msg))) => {
            if in_id == expected {
                Ok((in_id, msg))
            } else {
                Err(TncError::IoError(command_response_invalid_err()))
            }
        },
    }
}

/// The version text of a `VERSION` command's result: empty if the TNC
/// gave none
pub fn version_text(ok: CommandOk) -> (s: String)
    ensures
        s@ == match opt_view(ok.1) {
            Some(v) => v,
            None => Seq::<char>::empty(),
        },
{
    match ok.1 {
        None => String::new(),
        Some(v) => v,
    }
}

/* ---------------------------------------------------------------------- */
/* Waiting for a clear channel                                            */
/* ---------------------------------------------------------------------- */

/// What to do while waiting for a clear channel
#[derive(Debug, Clone, Copy, PartialEq, Eq, Structural)]
pub enum ClearWait {
    /// The channel has been clear long enough
    Clear,
    /// The longest wait allowed is over
    TimedOut,
    /// Await the next state change for at most this many nanoseconds
    WaitFor(u128),
}

/// True if no wait is needed at all: busy-channel detection is off when the
/// clear time is zero
pub fn clear_wait_disabled(clear_time: u128) -> (r: bool)
    ensures
        r == (clear_time == 0),
{
    clear_time == 0
}

/// True if the channel, clear for `clear_elapsed`, has already been clear for
/// longer than `clear_time`
pub fn already_clear(clear_time: u128, clear_elapsed: u128) -> (r: bool)
    ensures
        r == (clear_elapsed > clear_time),
{
    clear_elapsed > clear_time
}

/// One round of the wait for a clear channel. All times are nanoseconds:
/// the clear time required, the longest wait allowed, the time waited so
/// far, and how long the channel has been clear (it is busy if `busy`).
pub open spec fn spec_clear_wait(
    clear_time: u128,
    max_wait: u128,
    wait_elapsed: u128,
    busy: bool,
    clear_elapsed: u128,
) -> ClearWait {
    if wait_elapsed >= max_wait {
        ClearWait::TimedOut
    } else if !busy && clear_elapsed >= clear_time {
        ClearWait::Clear
    } else if !busy && clear_time - clear_elapsed < max_wait - wait_elapsed {
        ClearWait::WaitFor((clear_time - clear_elapsed) as u128)
    } else {
        ClearWait::WaitFor((max_wait - wait_elapsed) as u128)
    }
}

/// One round of the wait for a clear channel: give up once `max_wait` has
/// passed; succeed once the channel has been clear for `clear_time`;
/// otherwise wait for the next state change, but no longer than until the
/// deadline or until the channel would have been clear long enough
pub fn clear_wait_step(
    clear_time: u128,
    max_wait: u128,
    wait_elapsed: u128,
    busy: bool,
    clear_elapsed: u128,
) -> (r: ClearWait)
    ensures
        r == spec_clear_wait(clear_time, max_wait, wait_elapsed, busy, clear_elapsed),
{
    if wait_elapsed >= max_wait {
        return ClearWait::TimedOut;
    }
    let mut wait_remaining = max_wait - wait_elapsed;
    if !busy {
        if clear_elapsed >= clear_time {
            return ClearWait::Clear;
        }
        let clear_remaining = clear_time - clear_elapsed;
        if clear_remaining < wait_remaining {
            wait_remaining = clear_remaining;
        }
    }
    ClearWait::WaitFor(wait_remaining)
}

/// A wait for a clear channel that timed out means the channel was busy;
/// other failures pass on
pub fn busy_when_timed_out(e: TncError) -> (r: Result<ConnectionFailedReason, TncError>)
    ensures
        e@ is TimedOut ==> r == Ok::<ConnectionFailedReason, TncError>(
            ConnectionFailedReason::Busy,
        ),
        !(e@ is TimedOut) ==> (r matches Err(x) && x@ == e@),
{
    match e {
        TncError::TimedOut => Ok(ConnectionFailedReason::Busy),
        _ => Err(e),
    }
}

/// A wait for a clear channel before a ping that timed out means the
/// channel was busy; other failures pass on
pub fn ping_busy_when_timed_out(e: TncError) -> (r: Result<PingFailedReason, TncError>)
    ensures
        e@ is TimedOut ==> r == Ok::<PingFailedReason, TncError>(PingFailedReason::Busy),
        !(e@ is TimedOut) ==> (r matches Err(x) && x@ == e@),
{
    match e {
        TncError::TimedOut => Ok(PingFailedReason::Busy),
        _ => Err(e),
    }
}

/* ---------------------------------------------------------------------- */
/* Outcomes of connect, listen, monitor and ping                          */
/* ---------------------------------------------------------------------- */

/// Abstract value of the end of a connection attempt
pub open spec fn connect_end_view(r: Option<Result<ConnectionInfo, ConnectionFailedReason>>) -> Option<
    Result<ConnectionInfoView, ConnectionFailedReason>,
> {
    match r {
        Some(Ok(c)) => Some(Ok(c@)),
        Some(Err(f)) => Some(Err(f)),
        None => None,
    }
}

/// How a state change bears on an outgoing connection attempt: connected,
/// failed, or closed (no answer) end it; anything else is waited past
pub fn connect_outcome(change: ConnectionStateChange) -> (r: Option<
    Result<ConnectionInfo, ConnectionFailedReason>,
>)
    ensures
        connect_end_view(r) == match change@ {
            ConnectionStateChangeView::Connected(c) => Some(
                Ok::<ConnectionInfoView, ConnectionFailedReason>(c),
            ),
            ConnectionStateChangeView::Failed(f) => Some(Err(f)),
            ConnectionStateChangeView::Closed => Some(Err(ConnectionFailedReason::NoAnswer)),
            _ => None,
        },
{
    match change {
        ConnectionStateChange::Connected(info) => Some(Ok(info)),
        ConnectionStateChange::Failed(fail) => Some(Err(fail)),
        ConnectionStateChange::Closed => Some(Err(ConnectionFailedReason::NoAnswer)),
        _ => None,
    }
}

/// The output of `listen_monitor()`
pub enum ConnectionInfoOrPeerDiscovery {
    /// An incoming connection completed
    Connection(ConnectionInfo),
    /// A peer was heard
    PeerDiscovery(DiscoveredPeer),
}

/// Abstract value of a `ConnectionInfoOrPeerDiscovery`
pub enum ConnectionInfoOrPeerDiscoveryView {
    /// See `ConnectionInfoOrPeerDiscovery::Connection`
    Connection(ConnectionInfoView),
    /// See `ConnectionInfoOrPeerDiscovery::PeerDiscovery`
    PeerDiscovery(DiscoveredPeerView),
}

impl View for ConnectionInfoOrPeerDiscovery {
    type V = ConnectionInfoOrPeerDiscoveryView;

    open spec fn view(&self) -> ConnectionInfoOrPeerDiscoveryView {
        match self {
            ConnectionInfoOrPeerDiscovery::Connection(c) => ConnectionInfoOrPeerDiscoveryView::Connection(c@),
            ConnectionInfoOrPeerDiscovery::PeerDiscovery(p) => ConnectionInfoOrPeerDiscoveryView::PeerDiscovery(p@),
        }
    }
}

/// The peer that a state change announces, if any: an identity frame gives
/// its callsign and grid, a ping its sender and SNR
pub open spec fn spec_discovered(change: ConnectionStateChangeView) -> Option<DiscoveredPeerView> {
    match change {
        ConnectionStateChangeView::IdentityFrame(call, grid) => Some(
            DiscoveredPeerView { peer: call, snr: None, grid_square: grid },
        ),
        ConnectionStateChangeView::Ping(src, _dst, snr, _quality) => Some(
            DiscoveredPeerView { peer: src, snr: Some(snr), grid_square: None },
        ),
        _ => None,
    }
}

/// The peer that a state change announces, if any
pub fn monitor_outcome(change: ConnectionStateChange) -> (r: Option<DiscoveredPeer>)
    ensures
        match r {
            Some(p) => spec_discovered(change@) == Some(p@),
            None => spec_discovered(change@) is None,
        },
{
    match change {
        ConnectionStateChange::IdentityFrame(call, grid) => Some(
            DiscoveredPeer::new(call.as_str(), None, grid),
        ),
        ConnectionStateChange::Ping(src, _dst, snr, _quality) => Some(
            DiscoveredPeer::new(src.as_str(), Some(snr), None),
        ),
        _ => None,
    }
}

/// How a state change bears on listening: a completed connection or a
/// discovered peer ends it; failed or closed incoming attempts and
/// everything else are waited past
pub fn listen_monitor_outcome(change: ConnectionStateChange) -> (r: Option<
    ConnectionInfoOrPeerDiscovery,
>)
    ensures
        match change@ {
            ConnectionStateChangeView::Connected(c) => r matches Some(x) && x@
                == ConnectionInfoOrPeerDiscoveryView::Connection(c),
            _ => match spec_discovered(change@) {
                Some(p) => r matches Some(x) && x@
                    == ConnectionInfoOrPeerDiscoveryView::PeerDiscovery(p),
                None => r is None,
            },
        },
{
    match change {
        ConnectionStateChange::Connected(info) => Some(
            ConnectionInfoOrPeerDiscovery::Connection(info),
        ),
        other => match monitor_outcome(other) {
            Some(peer) => Some(ConnectionInfoOrPeerDiscovery::PeerDiscovery(peer)),
            None => None,
        },
    }
}

/// Commands to send once listening has an outcome: a completed incoming
/// connection stops listening (`LISTEN FALSE`); a discovered peer needs
/// nothing
pub fn listen_monitor_followup(found: &ConnectionInfoOrPeerDiscovery) -> (r: Vec<PlannedCommand>)
    ensures
        plan_view(r@) == match found {
            ConnectionInfoOrPeerDiscovery::Connection(_c) => seq![
                with_arg(CommandID::LISTEN, spec_truth_text(false)),
            ],
            ConnectionInfoOrPeerDiscovery::PeerDiscovery(_p) => Seq::<(Seq<char>, CommandID)>::empty(),
        },
{
    let mut v: Vec<PlannedCommand> = Vec::new();
    match found {
        ConnectionInfoOrPeerDiscovery::Connection(_c) => {
            v.push(planned(listen(false)));
            assert(plan_view(v@) =~= seq![with_arg(CommandID::LISTEN, spec_truth_text(false))]);
        },
        ConnectionInfoOrPeerDiscovery::PeerDiscovery(_p) => {
            assert(plan_view(v@) =~= Seq::<(Seq<char>, CommandID)>::empty());
        },
    }
    v
}

/// Seconds a ping waits for its reply, per ping sent
pub const PING_TIMEOUT_SECS: u64 = 5;

/// True if a ping with `attempts` repeats gets no packet at all
pub fn ping_needs_no_send(attempts: u16) -> (r: bool)
    ensures
        r == (attempts == 0),
{
    attempts == 0
}

/// True once a ping with `attempts` repeats has waited `elapsed_secs`
/// seconds, five per attempt, without reply
pub fn ping_expired(elapsed_secs: u64, attempts: u16) -> (r: bool)
    ensures
        r == (elapsed_secs >= attempts * 5),
{
    elapsed_secs >= attempts as u64 * PING_TIMEOUT_SECS
}

/// The reply to a ping of `target` that a state change carries, if any
pub fn ping_outcome(target: &str, change: ConnectionStateChange) -> (r: Option<PingAck>)
    ensures
        match change@ {
            ConnectionStateChangeView::PingAck(snr, quality) => r matches Some(a) && a@
                == (PingAckView { peer: target@, snr, decode_quality: quality }),
            _ => r is None,
        },
{
    match change {
        ConnectionStateChange::PingAck(snr, quality) => Some(PingAck::new(target, snr, quality)),
        _ => None,
    }
}

/* ---------------------------------------------------------------------- */
/* Disconnecting                                                          */
/* ---------------------------------------------------------------------- */

/// Progress of a disconnect driven by polling
#[derive(Debug, Clone, Copy, PartialEq, Eq, Structural)]
pub enum DisconnectProgress {
    /// No disconnect in progress: the `DISCONNECT` command is next
    NoProgress,
    /// `DISCONNECT` was sent: its result is awaited
    SentDisconnect,
    /// The TNC accepted `DISCONNECT`: the close of the link is awaited
    AckDisconnect,
}

/// What the I/O reports to the disconnect machine
pub enum DisconnectInput {
    /// The command sink is ready for the `DISCONNECT` command
    SinkReady,
    /// The next command result, or the end of the result stream
    Response(Option<CommandResult>),
    /// The next merged data/event item, or the end of that stream
    Event(Option<DataEvent>),
}

/// What the disconnect machine makes of its input
pub enum DisconnectInputView {
    /// The command sink is ready
    SinkReady,
    /// The command result stream ended
    ResponseEnd,
    /// A command failed
    ResponseFault,
    /// A command with this verb succeeded
    ResponseOk(CommandID),
    /// The merged stream ended
    EventEnd,
    /// The link closed
    EventClosed,
    /// Any other data or event
    EventOther,
}

impl View for DisconnectInput {
    type V = DisconnectInputView;

    open spec fn view(&self) -> DisconnectInputView {
        match self {
            DisconnectInput::SinkReady => DisconnectInputView::SinkReady,
            DisconnectInput::Response(None) => DisconnectInputView::ResponseEnd,
            DisconnectInput::Response(Some(Err(_m))) => DisconnectInputView::ResponseFault,
            DisconnectInput::Response(Some(Ok((id, _msg)))) => DisconnectInputView::ResponseOk(*id),
            DisconnectInput::Event(None) => DisconnectInputView::EventEnd,
            DisconnectInput::Event(Some(e)) => match e@ {
                DataEventView::Event(ConnectionStateChangeView::Closed) => DisconnectInputView::EventClosed,
                _ => DisconnectInputView::EventOther,
            },
        }
    }
}

/// The input that each stage of a disconnect waits for
pub open spec fn disconnect_input_fits(state: DisconnectProgress, input: DisconnectInput) -> bool {
    match state {
        DisconnectProgress::NoProgress => input is SinkReady,
        DisconnectProgress::SentDisconnect => input is Response,
        DisconnectProgress::AckDisconnect => input is Event,
    }
}

/// Abstract value of the end of a disconnect
pub open spec fn disconnect_end_view(r: Option<TncResult<()>>) -> Option<Result<(), TncErrorView>> {
    match r {
        Some(Ok(())) => Some(Ok(())),
        Some(Err(e)) => Some(Err(e@)),
        None => None,
    }
}

/// One step of a disconnect: the next stage, and the result once it is over
pub open spec fn spec_disconnect_step(state: DisconnectProgress, input: DisconnectInputView) -> (
    DisconnectProgress,
    Option<Result<(), TncErrorView>>,
) {
    let reset = TncErrorView::IoError(IoErrorKind::ConnectionReset, spec_reset_message());
    match input {
        DisconnectInputView::SinkReady => (DisconnectProgress::SentDisconnect, None),
        DisconnectInputView::ResponseEnd => (DisconnectProgress::NoProgress, Some(Err(reset))),
        DisconnectInputView::ResponseFault => (DisconnectProgress::NoProgress, Some(Ok(()))),
        DisconnectInputView::ResponseOk(id) => if id == CommandID::DISCONNECT {
            (DisconnectProgress::AckDisconnect, None)
        } else {
            (state, None)
        },
        DisconnectInputView::EventEnd => (DisconnectProgress::NoProgress, Some(Err(reset))),
        DisconnectInputView::EventClosed => (DisconnectProgress::NoProgress, Some(Ok(()))),
        DisconnectInputView::EventOther => (state, None),
    }
}

/// Advances a disconnect by one input.
///
/// With no disconnect in progress, a ready sink means `DISCONNECT` is sent
/// now. While its result is awaited, a failure means the TNC was probably
/// not connected (done), the echo of `DISCONNECT` means the link is being
/// closed, other results are skipped, and the end of the stream is a lost
/// connection. While the close is awaited, `Closed` ends the disconnect
/// and the end of the stream is a lost connection.
pub fn disconnect_step(state: &mut DisconnectProgress, input: DisconnectInput) -> (r: Option<
    TncResult<()>,
>)
    requires
        disconnect_input_fits(*old(state), input),
    ensures
        (*final(state), disconnect_end_view(r)) == spec_disconnect_step(*old(state), input@),
{
    match input {
        DisconnectInput::SinkReady => {
            *state = DisconnectProgress::SentDisconnect;
            None
        },
        DisconnectInput::Response(None) => {
            *state = DisconnectProgress::NoProgress;
            Some(Err(TncError::IoError(connection_reset_err())))
        },
        DisconnectInput::Response(Some(Err(_e))) => {
            *state = DisconnectProgress::NoProgress;
            Some(Ok(()))
        },
        DisconnectInput::Response(Some(Ok((id, _msg)))) => {
            if id == CommandID::DISCONNECT {
                *state = DisconnectProgress::AckDisconnect;
            }
            None
        },
        DisconnectInput::Event(None) => {
            *state = DisconnectProgress::NoProgress;
            Some(Err(TncError::IoError(connection_reset_err())))
        },
        DisconnectInput::Event(Some(DataEvent::Event(ConnectionStateChange::Closed))) => {
            *state = DisconnectProgress::NoProgress;
            Some(Ok(()))
        },
        DisconnectInput::Event(Some(_dataevt)) => None,
    }
}

/// The wire text of the `DISCONNECT` command
pub fn disconnect_command_text() -> (s: String)
    ensures
        s@ == spec_command_text(CommandID::DISCONNECT, None),
{
    disconnect().to_string()
}

/// How many times an awaited disconnect waits for the link to close
pub const DISCONNECT_TRIES: u8 = 2;

/// What to do next while an awaited disconnect waits for the link to close
#[derive(Debug, Clone, Copy, PartialEq, Eq, Structural)]
pub enum CloseWaitAction {
    /// Nothing came in time (or the wait failed): send `ABORT`
    Abort,
    /// The link closed: the disconnect is over
    Done,
    /// Another state change: keep waiting, if tries are left
    Wait,
}

/// What the wait for a closed link observed
pub enum CloseWaitInputView {
    /// The wait for a state change failed or timed out
    Failed,
    /// The link closed
    Closed,
    /// Any other state change
    Other,
}

/// What the wait for a closed link makes of the next state change, or of
/// the failure to get one
pub open spec fn close_wait_input(next: TncResult<ConnectionStateChange>) -> CloseWaitInputView {
    match next {
        Err(_e) => CloseWaitInputView::Failed,
        Ok(c) => match c@ {
            ConnectionStateChangeView::Closed => CloseWaitInputView::Closed,
            _ => CloseWaitInputView::Other,
        },
    }
}

/// One wait for the link to close: tries left after it, and what to do
pub open spec fn spec_close_wait(tries_left: u8, input: CloseWaitInputView) -> (u8, CloseWaitAction) {
    match input {
        CloseWaitInputView::Failed => ((tries_left - 1) as u8, CloseWaitAction::Abort),
        CloseWaitInputView::Closed => (0u8, CloseWaitAction::Done),
        CloseWaitInputView::Other => ((tries_left - 1) as u8, CloseWaitAction::Wait),
    }
}

/// The wait for the link to close after `DISCONNECT` was accepted
#[derive(Debug, Clone, Copy, PartialEq, Eq, Structural)]
pub struct DisconnectWait {
    /// Waits left
    pub tries_left: u8,
}

impl DisconnectWait {
    /// A wait with all its tries left
    pub fn new() -> (r: DisconnectWait)
        ensures
            r.tries_left == DISCONNECT_TRIES,
    {
        DisconnectWait { tries_left: DISCONNECT_TRIES }
    }

    /// True while another wait for a state change is due
    pub fn waiting(&self) -> (r: bool)
        ensures
            r == (self.tries_left > 0),
    {
        self.tries_left > 0
    }

    /// Takes in the next state change, or the failure to get one in time.
    /// Each one uses up a try; a failure asks for `ABORT`; the closing of
    /// the link ends the wait.
    pub fn step(&mut self, next: TncResult<ConnectionStateChange>) -> (r: CloseWaitAction)
        requires
            old(self).tries_left > 0,
        ensures
            (final(self).tries_left, r) == spec_close_wait(old(self).tries_left, close_wait_input(next)),
    {
        match next {
            Err(_e) => {
                self.tries_left = self.tries_left - 1;
                CloseWaitAction::Abort
            },
            Ok(ConnectionStateChange::Closed) => {
                self.tries_left = 0;
                CloseWaitAction::Done
            },
            Ok(_other) => {
                self.tries_left = self.tries_left - 1;
                CloseWaitAction::Wait
            },
        }
    }
}

/// An awaited disconnect waits at most `DISCONNECT_TRIES` times: every
/// step uses up a try, and only the closing of the link ends it early
pub proof fn lemma_close_wait_bounded(tries_left: u8, input: CloseWaitInputView)
    requires
        tries_left > 0,
    ensures
        spec_close_wait(tries_left, input).0 < tries_left,
        spec_close_wait(tries_left, input).1 is Done <==> input is Closed,
        spec_close_wait(tries_left, input).1 is Abort <==> input is Failed,
{
}

/// The I/O result of a finished disconnect: I/O failures pass on, any
/// other failure counts as a lost connection
pub fn disconnect_io_result(r: TncResult<()>) -> (out: Result<(), IoError>)
    ensures
        match r {
            Ok(()) => out is Ok,
            Err(TncError::IoError(e)) => out matches Err(x) && x == e,
            Err(_e) => out matches Err(x) && x.kind == IoErrorKind::ConnectionReset && x.message@
                == spec_reset_message(),
        },
{
    match r {
        Ok(()) => Ok(()),
        Err(TncError::IoError(e)) => Err(e),
        Err(_tnc_err) => Err(connection_reset_err()),
    }
}


/* ---------------------------------------------------------------------- */
/* Laws                                                                   */
/* ---------------------------------------------------------------------- */

/// A command succeeds exactly when the TNC echoes the command's own verb;
/// a `FAULT` fails it with the TNC's message, and every other outcome is
/// an I/O failure
pub proof fn lemma_command_outcome(expected: CommandID, receipt: CommandReceiptView)
    ensures
        spec_command_outcome(expected, receipt) is Ok <==> (receipt matches CommandReceiptView::Received(
            Ok((id, _msg)),
        ) && id == expected),
        receipt matches CommandReceiptView::Received(Err(m)) ==> spec_command_outcome(
            expected,
            receipt,
        ) == Err::<(CommandID, Option<Seq<char>>), TncErrorView>(TncErrorView::CommandFailed(m)),
        !(receipt is Received) ==> spec_command_outcome(expected, receipt) matches Err(
            TncErrorView::IoError(_k, _m),
        ),
{
}

/// The wait for a clear channel never outlasts its limit and never ends
/// clear while the channel is busy: it times out exactly once the limit is
/// reached, declares the channel clear only when it has been clear long
/// enough, and otherwise waits a positive time that ends no later than the
/// limit, nor (on a clear channel) later than the moment the channel has
/// been clear long enough
pub proof fn lemma_clear_wait_bounded(
    clear_time: u128,
    max_wait: u128,
    wait_elapsed: u128,
    busy: bool,
    clear_elapsed: u128,
)
    ensures
        ({
            let r = spec_clear_wait(clear_time, max_wait, wait_elapsed, busy, clear_elapsed);
            &&& (r is TimedOut <==> wait_elapsed >= max_wait)
            &&& (r is Clear ==> !busy && clear_elapsed >= clear_time)
            &&& (r matches ClearWait::WaitFor(d) ==> 0 < d <= max_wait - wait_elapsed && (!busy
                ==> d <= clear_time - clear_elapsed))
        }),
{
}

/// A disconnect sends `DISCONNECT` only when none is in progress, and is
/// over (with a result) only when it is back where it started
pub proof fn lemma_disconnect_returns_idle(state: DisconnectProgress, input: DisconnectInputView)
    ensures
        spec_disconnect_step(state, input).1 is Some ==> spec_disconnect_step(state, input).0
            == DisconnectProgress::NoProgress,
        input is SinkReady ==> spec_disconnect_step(state, input).0
            == DisconnectProgress::SentDisconnect,
        input == DisconnectInputView::ResponseOk(CommandID::DISCONNECT) ==> spec_disconnect_step(
            state,
            input,
        ).0 == DisconnectProgress::AckDisconnect,
{
}


/// A command whose own verb is echoed succeeds with exactly what the TNC
/// answered, its message included (so `VERSION` yields the version text);
/// an echo of another verb never succeeds
pub proof fn lemma_command_echo_kept(expected: CommandID, id: CommandID, msg: Option<Seq<char>>)
    ensures
        id == expected ==> spec_command_outcome(
            expected,
            CommandReceiptView::Received(Ok((id, msg))),
        ) == Ok::<(CommandID, Option<Seq<char>>), TncErrorView>((id, msg)),
        id != expected ==> spec_command_outcome(
            expected,
            CommandReceiptView::Received(Ok((id, msg))),
        ) is Err,
{
}

} // verus!
