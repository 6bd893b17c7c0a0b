use ardop_interface::arq::{CallDirection, ConnectionFailedReason};
use ardop_interface::protocol::response::{ConnectionStateChange, Event, State};
use ardop_interface::tncio::connevent::ConnEventParser;

#[test]
fn test_outgoing_connection() {
    let mut evh = ConnEventParser::new("W0EME");
    evh.process(Event::NEWSTATE(State::ISS));
    let e1 = evh.process(Event::CONNECTED("W1AW".to_owned(), 500, None));
    match e1 {
        Some(ConnectionStateChange::Connected(conn)) => {
            assert_eq!(500, conn.bandwidth());
            assert_eq!(&CallDirection::Outgoing("W0EME".to_owned()), conn.direction());
            assert_eq!("W1AW", conn.peer_call());
        }
        _ => assert!(false),
    };
}

#[test]
fn test_incoming_connection() {
    let mut evh = ConnEventParser::new("W0EME");
    evh.process(Event::TARGET("W0EME-S".to_owned()));
    evh.process(Event::NEWSTATE(State::IRS));
    let e1 = evh.process(Event::CONNECTED("W1AW".to_owned(), 500, None));

    match e1 {
        Some(ConnectionStateChange::Connected(conn)) => {
            assert_eq!(500, conn.bandwidth());
            assert_eq!(&CallDirection::Incoming("W0EME-S".to_owned()), conn.direction());
            assert_eq!("W1AW", conn.peer_call());
        }
        _ => assert!(false),
    };
}

#[test]
fn test_disconnect_vs_failure() {
    let mut evh = ConnEventParser::new("W0EME");
    evh.process(Event::CONNECTED("W1AW".to_owned(), 500, None));
    let e1 = evh.process(Event::NEWSTATE(State::IRS));
    match e1 {
        Some(ConnectionStateChange::Receiving) => assert!(true),
        _ => assert!(false),
    }
    let e1 = evh.process(Event::NEWSTATE(State::ISS));
    match e1 {
        Some(ConnectionStateChange::Sending) => assert!(true),
        _ => assert!(false),
    }

    let e1 = evh.process(Event::NEWSTATE(State::DISC));
    match e1 {
        None => assert!(true),
        _ => assert!(false),
    }
    let e1 = evh.process(Event::DISCONNECTED);
    match e1 {
        Some(ConnectionStateChange::Closed) => assert!(true),
        _ => assert!(false),
    }

    evh.process(Event::NEWSTATE(State::ISS));
    let e2 = evh.process(Event::NEWSTATE(State::DISC));
    match e2 {
        Some(ConnectionStateChange::Failed(ConnectionFailedReason::NoAnswer)) => assert!(true),
        _ => assert!(false),
    }
}

#[test]
fn test_buffer() {
    let mut evh = ConnEventParser::new("W0EME");
    assert!(evh.process(Event::BUFFER(0)).is_none());
    assert!(evh.process(Event::BUFFER(0)).is_none());
    assert_eq!(
        ConnectionStateChange::SendBuffer(10),
        evh.process(Event::BUFFER(10)).unwrap()
    );
    assert_eq!(
        ConnectionStateChange::SendBuffer(5),
        evh.process(Event::BUFFER(5)).unwrap()
    );
    assert_eq!(
        ConnectionStateChange::SendBuffer(0),
        evh.process(Event::BUFFER(0)).unwrap()
    );
    assert!(evh.process(Event::BUFFER(0)).is_none());
}

#[test]
fn test_ping_ack() {
    let mut evh = ConnEventParser::new("W0EME");
    assert_eq!(
        ConnectionStateChange::PingAck(5, 20),
        evh.process(Event::PINGACK(5, 20)).unwrap()
    );
}

#[test]
fn test_busy() {
    let mut evh = ConnEventParser::new("W0EME");
    assert_eq!(false, evh.busy());

    evh.process(Event::BUSY(true)).unwrap();
    assert_eq!(true, evh.busy());
    evh.process(Event::BUSY(false)).unwrap();
    assert_eq!(false, evh.busy());
}

// A connection closes once: a second DISCONNECTED reports nothing
#[test]
fn connevent_closed_once() {
    let mut evh = ConnEventParser::new("W0EME");
    assert_eq!(None, evh.process(Event::DISCONNECTED));
    evh.process(Event::CONNECTED("W1AW".to_owned(), 500, None));
    assert_eq!(Some(ConnectionStateChange::Closed), evh.process(Event::DISCONNECTED));
    assert_eq!(None, evh.process(Event::DISCONNECTED));
}

// The target announcement is consumed by the connection it announced
#[test]
fn connevent_target_consumed() {
    let mut evh = ConnEventParser::new("W0EME");
    evh.process(Event::TARGET("W0EME-S".to_owned()));
    evh.process(Event::BUSY(true));
    evh.process(Event::CONNECTED("W1AW".to_owned(), 500, Some("EM00".to_owned())));
    evh.process(Event::DISCONNECTED);
    match evh.process(Event::CONNECTED("W9ABC".to_owned(), 2000, None)) {
        Some(ConnectionStateChange::Connected(conn)) => {
            assert_eq!(&CallDirection::Outgoing("W0EME".to_owned()), conn.direction());
            assert_eq!(2000, conn.bandwidth());
            assert_eq!(&None, conn.peer_grid());
        }
        _ => assert!(false),
    }
}

// Pings, rejections and the remaining events
#[test]
fn connevent_other_events() {
    let mut evh = ConnEventParser::new("W0EME");
    assert_eq!(
        Some(ConnectionStateChange::Ping("W1AW".to_owned(), "W0EME".to_owned(), 12, 90)),
        evh.process(Event::PING("W1AW".to_owned(), "W0EME".to_owned(), 12, 90))
    );
    assert_eq!(
        Some(ConnectionStateChange::Failed(ConnectionFailedReason::Busy)),
        evh.process(Event::REJECTED(ConnectionFailedReason::Busy))
    );
    assert_eq!(None, evh.process(Event::PENDING));
    assert_eq!(None, evh.process(Event::STATUS("hi".to_owned())));
    assert_eq!(None, evh.process(Event::TARGET("W0EME".to_owned())));
    // not connected and not calling: state changes say nothing
    assert_eq!(None, evh.process(Event::NEWSTATE(State::IRS)));
}

// Reset returns to the initial conditions, keeping the callsign
#[test]
fn connevent_reset() {
    let mut evh = ConnEventParser::new("W0EME");
    evh.process(Event::BUSY(true));
    evh.process(Event::BUFFER(10));
    evh.process(Event::CONNECTED("W1AW".to_owned(), 500, None));
    evh.reset();
    assert_eq!("W0EME", evh.mycall());
    assert!(!evh.busy());
    assert_eq!(None, evh.process(Event::BUFFER(0)));
    assert_eq!(None, evh.process(Event::DISCONNECTED));
    evh.process(Event::BUSY(true));
    assert_eq!(std::time::Duration::from_micros(0), evh.clear_time());
}
