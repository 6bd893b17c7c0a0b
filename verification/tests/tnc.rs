use bytes::Bytes;

use ardop_interface::arq::{CallDirection, ConnectionFailedReason, ConnectionInfo};
use ardop_interface::commandchain::{CallLog, CommandChain, Commandable};
use ardop_interface::framing::control::TncControlFraming;
use ardop_interface::framing::data::TncDataFraming;
use ardop_interface::framing::framer::{DecodeStep, FrameBuffers};
use ardop_interface::protocol::command;
use ardop_interface::protocol::constants::CommandID;
use ardop_interface::protocol::response::{
    CommandOk, CommandResult, ConnectionStateChange, Event, Response,
};
use ardop_interface::tnc::{IoErrorKind, TncError, TncResult};
use ardop_interface::tncio::asynctnc::{
    busy_when_timed_out, clear_wait_step, command_outcome, connect_commands, connect_outcome,
    disconnect_command_text, disconnect_io_result, disconnect_step, initialize_commands,
    listen_commands, listen_monitor_outcome, monitor_commands, monitor_outcome, ping_expired,
    ping_needs_no_send, ping_outcome, planned, version_text, ClearWait, CommandReceipt,
    ConnectionInfoOrPeerDiscovery, DisconnectInput, DisconnectProgress,
};
use ardop_interface::tncio::asynctnc::{
    listen_monitor_followup, CloseWaitAction, DisconnectWait, DISCONNECT_TRIES,
};
use ardop_interface::tncio::busylock::{BusyAction, BusyInput, BusyLock};
use ardop_interface::tncio::controlstream::{CommandQueue, ControlQueues};
use ardop_interface::tncio::data::DataIn;
use ardop_interface::tncio::dataevent::{state_change_of, DataEvent, DataEventMux, MuxWant};

fn control_responses(input: &[u8]) -> Vec<Response> {
    let mut fb = FrameBuffers::new();
    let mut codec = TncControlFraming::new();
    fb.received(input);
    let mut out = Vec::new();
    while let DecodeStep::Item(r) = fb.try_decode(&mut codec) {
        out.push(r);
    }
    out
}

fn data_items(input: &[u8]) -> Vec<DataIn> {
    let mut fb = FrameBuffers::new();
    let mut codec = TncDataFraming::new();
    fb.received(input);
    let mut out = Vec::new();
    while let DecodeStep::Item(r) = fb.try_decode(&mut codec) {
        out.push(r);
    }
    out
}

#[test]
fn test_execute_command_good_response() {
    let cmd_out = planned(command::listen(true));
    assert_eq!("LISTEN TRUE\r", cmd_out.0);
    let res = command_outcome(cmd_out.1, CommandReceipt::Received(Ok((CommandID::LISTEN, None))));
    match res {
        Ok((CommandID::LISTEN, None)) => assert!(true),
        _ => assert!(false),
    }
}

#[test]
fn test_execute_command_bad_response() {
    let cmd_out = planned(command::listen(true));
    let res = command_outcome(cmd_out.1, CommandReceipt::Received(Ok((CommandID::VERSION, None))));
    match res {
        Err(TncError::IoError(e)) => assert_eq!(IoErrorKind::InvalidData, e.kind),
        _ => assert!(false),
    }
}

#[test]
fn test_execute_command_eof() {
    let cmd_out = planned(command::listen(true));
    let res = command_outcome(cmd_out.1, CommandReceipt::Closed);
    match res {
        Err(TncError::IoError(e)) => assert_eq!(e.kind, IoErrorKind::ConnectionReset),
        _ => assert!(false),
    }
}

#[test]
fn test_execute_command_timeout() {
    let cmd_out = planned(command::listen(true));
    let res = command_outcome(cmd_out.1, CommandReceipt::TimedOut);
    match res {
        Err(TncError::IoError(e)) => assert_eq!(IoErrorKind::TimedOut, e.kind),
        _ => assert!(false),
    }
}

#[test]
fn command_outcome_fault() {
    let res = command_outcome(
        CommandID::LISTEN,
        CommandReceipt::Received(Err("not from state".to_owned())),
    );
    match res {
        Err(TncError::CommandFailed(m)) => assert_eq!("not from state", m),
        _ => assert!(false),
    }
    assert_eq!("1.0.4", version_text((CommandID::VERSION, Some("1.0.4".to_owned()))));
    assert_eq!("", version_text((CommandID::VERSION, None)));
}

#[test]
fn asynctnc_test_streams() {
    let stream_ctrl = b"BUSY FALSE\rINPUTPEAKS BLAH\rREJECTEDBW\r";
    let stream_data = b"\x00\x08ARQHELLO\x00\x0BIDFID: W1AW";

    let mut mux = DataEventMux::new("W1AW");
    let mut out: Vec<DataEvent> = Vec::new();
    for d in data_items(stream_data) {
        if let Some(e) = mux.on_data(Some(Ok(d))) {
            out.push(e);
        }
    }
    assert_eq!(None, mux.on_data(None));
    assert_eq!(MuxWant::EventsOnly, mux.wants());
    for r in control_responses(stream_ctrl) {
        if let Response::Event(evt) = r {
            if let Some(e) = mux.on_event(Some(evt)) {
                out.push(e);
            }
        }
    }
    assert_eq!(None, mux.on_event(None));
    assert_eq!(MuxWant::Done, mux.wants());

    assert_eq!(4, out.len());
    match &out[0] {
        DataEvent::Data(_d) => assert!(true),
        _ => assert!(false),
    }
    match &out[1] {
        DataEvent::Data(DataIn::IDF(_i0, _i1)) => assert!(true),
        _ => assert!(false),
    }
    match &out[2] {
        DataEvent::Event(ConnectionStateChange::Busy(false)) => assert!(true),
        _ => assert!(false),
    }
    match &out[3] {
        DataEvent::Event(ConnectionStateChange::Failed(
            ConnectionFailedReason::IncompatibleBandwidth,
        )) => assert!(true),
        _ => assert!(false),
    }
}

#[test]
fn test_execute_disconnect() {
    // starts disconnection, but no connection in progress
    let mut state = DisconnectProgress::NoProgress;
    assert!(disconnect_step(&mut state, DisconnectInput::SinkReady).is_none());
    assert_eq!("DISCONNECT\r", disconnect_command_text());
    match disconnect_step(
        &mut state,
        DisconnectInput::Response(Some(Err("not from state".to_owned()))),
    ) {
        Some(Ok(())) => assert!(true),
        _ => assert!(false),
    }
    assert_eq!(DisconnectProgress::NoProgress, state);

    // starts disconnection
    state = DisconnectProgress::NoProgress;
    assert!(disconnect_step(&mut state, DisconnectInput::SinkReady).is_none());
    assert_eq!(DisconnectProgress::SentDisconnect, state);

    // make progress towards disconnection
    assert!(disconnect_step(
        &mut state,
        DisconnectInput::Response(Some(Ok((CommandID::DISCONNECT, None))))
    )
    .is_none());
    assert_eq!(DisconnectProgress::AckDisconnect, state);

    // finish disconnect
    assert!(disconnect_step(
        &mut state,
        DisconnectInput::Event(Some(DataEvent::Event(ConnectionStateChange::SendBuffer(0))))
    )
    .is_none());
    assert_eq!(DisconnectProgress::AckDisconnect, state);
    match disconnect_step(
        &mut state,
        DisconnectInput::Event(Some(DataEvent::Event(ConnectionStateChange::Closed))),
    ) {
        Some(Ok(())) => assert!(true),
        _ => assert!(false),
    }
    assert_eq!(DisconnectProgress::NoProgress, state);
}

#[test]
fn disconnect_lost_connection() {
    let mut state = DisconnectProgress::SentDisconnect;
    // other command results are skipped
    assert!(disconnect_step(
        &mut state,
        DisconnectInput::Response(Some(Ok((CommandID::LISTEN, None))))
    )
    .is_none());
    assert_eq!(DisconnectProgress::SentDisconnect, state);
    match disconnect_step(&mut state, DisconnectInput::Response(None)) {
        Some(Err(TncError::IoError(e))) => assert_eq!(IoErrorKind::ConnectionReset, e.kind),
        _ => assert!(false),
    }
    assert_eq!(DisconnectProgress::NoProgress, state);

    let mut state = DisconnectProgress::AckDisconnect;
    let r = disconnect_step(&mut state, DisconnectInput::Event(None)).unwrap();
    assert_eq!(DisconnectProgress::NoProgress, state);
    let io = disconnect_io_result(r).unwrap_err();
    assert_eq!(IoErrorKind::ConnectionReset, io.kind);
    let io = disconnect_io_result(Err(TncError::TimedOut)).unwrap_err();
    assert_eq!(IoErrorKind::ConnectionReset, io.kind);
    assert!(disconnect_io_result(Ok(())).is_ok());
}

#[test]
fn test_exit() {
    // a clear time of 120 seconds: the lock is taken at startup
    let mut busy = BusyLock::new(false);
    assert!(busy.held);
    assert!(busy.wants_timeout());
    // busy: the lock is already held
    assert_eq!(BusyAction::Continue, busy.step(BusyInput::Event(Event::BUSY(true))));
    assert!(busy.held);
    // the end of the events stops the detector, which gives up the lock
    assert_eq!(BusyAction::Stop, busy.step(BusyInput::End));
}

#[test]
fn test_becomes_clear() {
    let mut busy = BusyLock::new(false);
    assert_eq!(BusyAction::Continue, busy.step(BusyInput::Event(Event::BUSY(true))));
    // a timeout while busy keeps the lock
    assert_eq!(BusyAction::Continue, busy.step(BusyInput::TimedOut));
    assert!(busy.held);
    // becomes clear, and after the clear time the lock is released
    assert_eq!(BusyAction::Continue, busy.step(BusyInput::Event(Event::BUSY(false))));
    assert!(busy.held);
    assert_eq!(BusyAction::Release, busy.step(BusyInput::TimedOut));
    assert!(!busy.held);
    assert!(!busy.wants_timeout());
    // busy again: the lock is taken again
    assert_eq!(BusyAction::Acquire, busy.step(BusyInput::Event(Event::BUSY(true))));
}

#[test]
fn busylock_zero_clear_time() {
    let mut busy = BusyLock::new(true);
    assert!(!busy.held);
    assert!(!busy.wants_timeout());
    assert_eq!(BusyAction::Acquire, busy.step(BusyInput::Event(Event::BUSY(true))));
    assert_eq!(BusyAction::Release, busy.step(BusyInput::Event(Event::BUSY(false))));
    assert_eq!(BusyAction::Continue, busy.step(BusyInput::Event(Event::BUSY(false))));
    // other events pass through
    assert_eq!(
        BusyAction::Forward(Event::PENDING),
        busy.step(BusyInput::Event(Event::PENDING))
    );
}

#[test]
fn controlstream_test_streams() {
    let mut queues = ControlQueues::new();
    for r in control_responses(b"MYCALL\rBUSY TRUE\rARQBW\r") {
        assert!(queues.route(Some(r)));
    }
    assert!(!queues.route(None));
    assert!(queues.is_fused());

    let e1 = queues.pop_event().unwrap();
    assert_eq!(Event::BUSY(true), e1);

    let r1 = queues.pop_result().unwrap();
    assert_eq!(Ok((CommandID::MYCALL, None)), r1);

    let r2 = queues.pop_result().unwrap();
    assert_eq!(Ok((CommandID::ARQBW, None)), r2);

    assert!(queues.pop_result().is_none());
    assert!(queues.pop_event().is_none());
    // once ended, nothing more is queued
    assert!(!queues.route(Some(Response::Event(Event::PENDING))));
    assert!(queues.pop_event().is_none());
}

#[test]
fn test_sink() {
    let mut out = CommandQueue::new();
    assert!(out.is_empty());
    out.push("ABORT\r".to_owned());
    out.push("VERSION\r".to_owned());
    let mut fb = FrameBuffers::new();
    let mut codec = TncControlFraming::new();
    while let Some(line) = out.pop() {
        fb.encode(&mut codec, line).unwrap();
    }
    assert!(out.is_empty());
    assert_eq!(b"ABORT\rVERSION\r", fb.pending_output());
}

#[test]
fn test_stream() {
    let mut mux = DataEventMux::new("W1AW");
    assert_eq!(MuxWant::Either, mux.wants());
    let data = data_items(b"\x00\x08ARQHELLO");
    match mux.on_data(Some(Ok(data.into_iter().next().unwrap()))) {
        Some(DataEvent::Data(_d)) => assert!(true),
        _ => assert!(false),
    }
    match mux.on_event(Some(Event::REJECTED(ConnectionFailedReason::IncompatibleBandwidth))) {
        Some(DataEvent::Event(ConnectionStateChange::Failed(
            ConnectionFailedReason::IncompatibleBandwidth,
        ))) => assert!(true),
        _ => assert!(false),
    }
    assert_eq!(None, mux.on_event(None));
    assert_eq!(MuxWant::DataOnly, mux.wants());
    assert_eq!(None, mux.on_data(None));
    assert_eq!(MuxWant::Done, mux.wants());
    assert_eq!("W1AW", mux.state().mycall());
}

#[test]
fn dataevent_state_changes() {
    assert_eq!(
        Some(ConnectionStateChange::IdentityFrame("W1AW".to_owned(), None)),
        state_change_of(DataEvent::Data(DataIn::IDF("W1AW".to_owned(), None)))
    );
    assert_eq!(None, state_change_of(DataEvent::Data(DataIn::ARQ(Bytes::from("x")))));
    assert_eq!(
        Some(ConnectionStateChange::Closed),
        state_change_of(DataEvent::Event(ConnectionStateChange::Closed))
    );
}

struct Commando {
    pub count: usize,
    pub last: String,
}

impl Commando {
    fn commands(&mut self) -> CommandChain<'_, Commando> {
        CommandChain::new(self)
    }
}

impl Commandable for Commando {
    // The call log is a model for proofs; it is never evaluated
    fn spec_calls(&self) -> CallLog {
        panic!("the call log is a model for proofs")
    }

    fn send_raw_command(&mut self, cmd: String) -> TncResult<()> {
        self.count += 1;
        self.last = cmd;
        Ok(())
    }

    fn await_command_result(&mut self, id: CommandID) -> TncResult<CommandOk> {
        Ok((id, None))
    }
}

#[test]
fn test_none() {
    let mut tnc = Commando { count: 0, last: "".to_owned() };

    assert!(tnc.commands().send().is_err());
    assert_eq!(tnc.count, 0);
}

#[test]
fn test_single() {
    let mut tnc = Commando { count: 0, last: "".to_owned() };

    tnc.commands().abort().send().unwrap();

    assert_eq!(tnc.count, 1);
    assert_eq!(tnc.last, "ABORT\r");
}

#[test]
fn test_multiple() {
    let mut tnc = Commando { count: 0, last: "".to_owned() };

    tnc.commands().abort().mycall("W1AW-C").send().unwrap();

    assert_eq!(tnc.count, 2);
    assert_eq!(tnc.last, "MYCALL W1AW-C\r");
}

struct Refuser {
    pub sent: Vec<String>,
}

impl Commandable for Refuser {
    // The call log is a model for proofs; it is never evaluated
    fn spec_calls(&self) -> CallLog {
        panic!("the call log is a model for proofs")
    }

    fn send_raw_command(&mut self, cmd: String) -> TncResult<()> {
        self.sent.push(cmd);
        Ok(())
    }

    fn await_command_result(&mut self, id: CommandID) -> TncResult<CommandOk> {
        if id == CommandID::MYCALL {
            Err(TncError::CommandFailed("bad call".to_owned()))
        } else {
            Ok((id, None))
        }
    }
}

// The first failure stops the chain
#[test]
fn commandchain_stops_at_failure() {
    let mut dest = Refuser { sent: Vec::new() };
    let mut chain = CommandChain::new(&mut dest);
    let r = chain.busydet(5).mycall("W1AW").version().send();
    match r {
        Err(TncError::CommandFailed(m)) => assert_eq!("bad call", m),
        _ => assert!(false),
    }
    drop(chain);
    assert_eq!(vec!["BUSYDET 5\r".to_owned(), "MYCALL W1AW\r".to_owned()], dest.sent);
}

// The command plans of initialize, connect, listen and monitor
#[test]
fn command_plans() {
    let init: Vec<String> = initialize_commands("W1AW").into_iter().map(|c| c.0).collect();
    assert_eq!(
        vec!["INITIALIZE\r", "LISTEN FALSE\r", "PROTOCOLMODE FEC\r", "MYCALL W1AW\r", "BUSYBLOCK TRUE\r"],
        init
    );
    let conn: Vec<String> = connect_commands("W9ABC", 500, false, 3).into_iter().map(|c| c.0).collect();
    assert_eq!(
        vec!["LISTEN FALSE\r", "PROTOCOLMODE ARQ\r", "ARQBW 500MAX\r", "ARQCALL W9ABC 3\r"],
        conn
    );
    let lis: Vec<(String, CommandID)> = listen_commands(2000, true);
    assert_eq!(
        vec![
            ("PROTOCOLMODE ARQ\r".to_owned(), CommandID::PROTOCOLMODE),
            ("ARQBW 2000FORCED\r".to_owned(), CommandID::ARQBW),
            ("LISTEN TRUE\r".to_owned(), CommandID::LISTEN),
        ],
        lis
    );
    let mon: Vec<String> = monitor_commands().into_iter().map(|c| c.0).collect();
    assert_eq!(vec!["PROTOCOLMODE ARQ\r", "LISTEN TRUE\r"], mon);
}

// The wait for a clear channel, in nanoseconds
#[test]
fn clear_wait_rounds() {
    let s = 1_000_000_000u128;
    // channel clear long enough
    assert_eq!(ClearWait::Clear, clear_wait_step(10 * s, 90 * s, 0, false, 11 * s));
    // clear, but not long enough: wait out the rest of the clear time
    assert_eq!(ClearWait::WaitFor(4 * s), clear_wait_step(10 * s, 90 * s, 0, false, 6 * s));
    // busy: wait until the deadline at most
    assert_eq!(ClearWait::WaitFor(60 * s), clear_wait_step(10 * s, 90 * s, 30 * s, true, 0));
    // the deadline is nearer than the clear time
    assert_eq!(ClearWait::WaitFor(2 * s), clear_wait_step(10 * s, 90 * s, 88 * s, false, 1 * s));
    // out of time
    assert_eq!(ClearWait::TimedOut, clear_wait_step(10 * s, 90 * s, 90 * s, false, 0));
    match busy_when_timed_out(TncError::TimedOut) {
        Ok(ConnectionFailedReason::Busy) => assert!(true),
        _ => assert!(false),
    }
    match busy_when_timed_out(TncError::CommandFailed("x".to_owned())) {
        Err(TncError::CommandFailed(m)) => assert_eq!("x", m),
        _ => assert!(false),
    }
}

// How state changes end connect, monitor, listen and ping
#[test]
fn outcomes() {
    let info = ConnectionInfo::new("W9ABC", None, 500, CallDirection::Outgoing("W1AW".to_owned()));
    match connect_outcome(ConnectionStateChange::Connected(info.clone())) {
        Some(Ok(c)) => assert_eq!(info, c),
        _ => assert!(false),
    }
    match connect_outcome(ConnectionStateChange::Closed) {
        Some(Err(ConnectionFailedReason::NoAnswer)) => assert!(true),
        _ => assert!(false),
    }
    match connect_outcome(ConnectionStateChange::Failed(ConnectionFailedReason::Busy)) {
        Some(Err(ConnectionFailedReason::Busy)) => assert!(true),
        _ => assert!(false),
    }
    assert!(connect_outcome(ConnectionStateChange::Sending).is_none());

    let peer = monitor_outcome(ConnectionStateChange::Ping(
        "W1AW".to_owned(),
        "W9ABC".to_owned(),
        7,
        50,
    ))
    .unwrap();
    assert_eq!("W1AW [????]: 7 dB", peer.to_string());
    let peer = monitor_outcome(ConnectionStateChange::IdentityFrame(
        "W1AW".to_owned(),
        Some("FN31".to_owned()),
    ))
    .unwrap();
    assert_eq!("W1AW [FN31]", peer.to_string());
    assert!(monitor_outcome(ConnectionStateChange::Closed).is_none());

    match listen_monitor_outcome(ConnectionStateChange::Connected(info.clone())) {
        Some(ConnectionInfoOrPeerDiscovery::Connection(c)) => assert_eq!(info, c),
        _ => assert!(false),
    }
    assert!(listen_monitor_outcome(ConnectionStateChange::Failed(
        ConnectionFailedReason::Busy
    ))
    .is_none());

    let ack = ping_outcome("W9ABC", ConnectionStateChange::PingAck(12, 88)).unwrap();
    assert_eq!("Ping W9ABC: SNR 12 dB - Quality 88", ack.to_string());
    assert!(ping_outcome("W9ABC", ConnectionStateChange::Busy(true)).is_none());
    assert!(ping_needs_no_send(0));
    assert!(!ping_needs_no_send(1));
    assert!(!ping_expired(14, 3));
    assert!(ping_expired(15, 3));
}

#[test]
fn command_result_type() {
    let r: CommandResult = Ok((CommandID::ABORT, None));
    assert!(r.is_ok());
}

// After a completed incoming connection, listening stops
#[test]
fn listen_followup() {
    let info = ConnectionInfo::new("W9ABC", None, 500, CallDirection::Incoming("W1AW".to_owned()));
    let plan = listen_monitor_followup(&ConnectionInfoOrPeerDiscovery::Connection(info));
    assert_eq!(vec![("LISTEN FALSE\r".to_owned(), CommandID::LISTEN)], plan);
    let peer = monitor_outcome(ConnectionStateChange::IdentityFrame("W1AW".to_owned(), None)).unwrap();
    assert!(listen_monitor_followup(&ConnectionInfoOrPeerDiscovery::PeerDiscovery(peer)).is_empty());
}

// The wait for a closed link: two tries, ABORT on a timeout
#[test]
fn disconnect_wait() {
    let mut w = DisconnectWait::new();
    assert_eq!(2, DISCONNECT_TRIES);
    assert!(w.waiting());
    assert_eq!(CloseWaitAction::Abort, w.step(Err(TncError::TimedOut)));
    assert!(w.waiting());
    assert_eq!(CloseWaitAction::Wait, w.step(Ok(ConnectionStateChange::SendBuffer(0))));
    assert!(!w.waiting());

    let mut w = DisconnectWait::new();
    assert_eq!(CloseWaitAction::Done, w.step(Ok(ConnectionStateChange::Closed)));
    assert!(!w.waiting());
}
