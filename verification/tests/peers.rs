use ardop_interface::arq::{CallDirection, ConnectionFailedReason, ConnectionInfo};
use ardop_interface::protocol::response::State;
use ardop_interface::tnc::error::{
    command_response_invalid_err, connection_reset_err, connection_timeout_err,
};
use ardop_interface::tnc::{DiscoveredPeer, IoError, IoErrorKind, PingAck, TncError};

#[test]
fn connectioninfo_test_fmt() {
    let ct = ConnectionInfo::new("W9ABC", None, 500, CallDirection::Outgoing("W1AW".to_string()));
    let s = ct.to_string();
    assert!(s.starts_with("W1AW>W9ABC [????][500 Hz]"));

    let ct = ConnectionInfo::new(
        "W9ABC",
        Some("EM00".to_owned()),
        500,
        CallDirection::Incoming("W1AW-S".to_owned()),
    );
    let s = ct.to_string();
    assert!(s.starts_with("W9ABC>W1AW-S [EM00][500 Hz]"));
}

#[test]
fn connectioninfo_getters() {
    let ct = ConnectionInfo::new(
        "W9ABC",
        Some("EM00".to_owned()),
        2500,
        CallDirection::Incoming("W1AW-S".to_owned()),
    );
    assert_eq!("W9ABC", ct.peer_call());
    assert_eq!(&Some("EM00".to_owned()), ct.peer_grid());
    assert_eq!(2500, ct.bandwidth());
    assert_eq!(&CallDirection::Incoming("W1AW-S".to_owned()), ct.direction());
    assert_eq!("W9ABC>W1AW-S [EM00][2500 Hz]", ct.to_string());
}

#[test]
fn discovered_peer_fmt() {
    let p = DiscoveredPeer::new("W1AW", Some(15), Some("FN31".to_owned()));
    assert_eq!("W1AW", p.peer());
    assert_eq!(Some(15), p.snr());
    assert_eq!(&Some("FN31".to_owned()), p.grid_square());
    assert_eq!("W1AW [FN31]: 15 dB", p.to_string());
    let p = DiscoveredPeer::new("W1AW", None, None);
    assert_eq!("W1AW [????]", p.to_string());
}

#[test]
fn ping_ack_fmt() {
    let a = PingAck::new("W1AW", 10, 80);
    assert_eq!("W1AW", a.peer());
    assert_eq!(10, a.snr());
    assert_eq!(80, a.decode_quality());
    assert_eq!("Ping W1AW: SNR 10 dB - Quality 80", a.to_string());
}

#[test]
fn failure_reasons_fmt() {
    assert_eq!("busy channel", ConnectionFailedReason::Busy.to_string());
    assert_eq!(
        "rejected by peer: incompatible bandwidth",
        ConnectionFailedReason::IncompatibleBandwidth.to_string()
    );
    assert_eq!("no answer from peer", ConnectionFailedReason::NoAnswer.to_string());
}

#[test]
fn tnc_error_variants() {
    let e = TncError::from_command_result(Err("bad".to_owned()));
    assert_eq!("TNC command failed: \"bad\"", e.to_string());
    assert_eq!("Timed out", TncError::TimedOut.to_string());

    let reset = connection_reset_err();
    assert_eq!(IoErrorKind::ConnectionReset, reset.kind);
    assert_eq!("Lost connection to ARDOP TNC", reset.message);
    let timeout = connection_timeout_err();
    assert_eq!(IoErrorKind::TimedOut, timeout.kind);
    assert_eq!("Lost connection to ARDOP TNC: command timed out", timeout.message);
    let invalid = command_response_invalid_err();
    assert_eq!(IoErrorKind::InvalidData, invalid.kind);
    assert_eq!("TNC sent an unsolicited or invalid command response", invalid.message);

    let e = TncError::from_io(IoError { kind: IoErrorKind::Other, message: "boom".to_owned() });
    assert_eq!("IO Error: boom", e.to_string());
}

#[test]
fn state_names() {
    for st in [
        State::OFFLINE,
        State::DISC,
        State::ISS,
        State::IRS,
        State::IRStoISS,
        State::IDLE,
        State::FECSend,
        State::FECRcv,
    ] {
        assert_eq!(st, st.to_string().parse::<State>().unwrap());
    }
    assert!(State::is_connected(&State::ISS));
    assert!(State::is_connected(&State::IRS));
    assert!(!State::is_connected(&State::IDLE));
    assert!(!State::is_connected(&State::FECSend));
}
