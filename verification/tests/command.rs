use ardop_interface::protocol::command::{
    abort, arqbw, arqcall, arqtimeout, autobreak, busyblock, busydet, cwid, disconnect,
    gridsquare, initialize, leader, listen, myaux, mycall, ping, protocolmode, sendid,
    twotonetest, version,
};
use ardop_interface::protocol::constants::{truth_str, CommandID, ProtocolMode};

#[test]
fn test_abort() {
    let cmd = abort();
    let cmdstring = cmd.to_string();
    assert_eq!("ABORT\r", cmdstring);
}

#[test]
fn test_autobreak() {
    let cmd = autobreak(false);
    let cmdstring = cmd.to_string();
    assert_eq!("AUTOBREAK FALSE\r", cmdstring);
}

#[test]
fn test_mycall() {
    let cmd = mycall("W1AW");
    let cmdstring = cmd.to_string();
    assert_eq!("MYCALL W1AW\r", cmdstring);
}

#[test]
fn test_arqbw() {
    let cmd = arqbw(500, true);
    let cmdstring = cmd.to_string();
    assert_eq!("ARQBW 500FORCED\r", cmdstring);

    let cmd = arqbw(2500, false);
    let cmdstring = cmd.to_string();
    assert_eq!("ARQBW 2500MAX\r", cmdstring);
}

#[test]
fn test_arqcall() {
    let cmd = arqcall("W1AW-10", 5);
    let cmdstring = cmd.to_string();
    assert_eq!("ARQCALL W1AW-10 5\r", cmdstring);
}

#[test]
fn test_protocolmode() {
    let cmd = protocolmode(ProtocolMode::FEC);
    let cmdstring = cmd.to_string();
    assert_eq!("PROTOCOLMODE FEC\r", cmdstring);
}

#[test]
fn test_myaux() {
    let cmd = myaux(vec![]);
    let cmdstring = cmd.to_string();
    assert_eq!("MYAUX X\r", cmdstring);

    let cmd = myaux(vec!["W1AW-1".to_owned()]);
    let cmdstring = cmd.to_string();
    assert_eq!("MYAUX W1AW-1\r", cmdstring);

    let cmd = myaux(vec!["W1AW-1".to_owned(), "W1AW-Z".to_owned()]);
    let cmdstring = cmd.to_string();
    assert_eq!("MYAUX W1AW-1,W1AW-Z\r", cmdstring);
}

#[test]
fn test_ping() {
    let cmd = ping("W1AW-10", 5);
    let cmdstring = cmd.to_string();
    assert_eq!("PING W1AW-10 5\r", cmdstring);
}

#[test]
fn test_protocol_mode() {
    assert_eq!(b"FEC", ProtocolMode::FEC.to_string().as_bytes());
    assert_eq!(ProtocolMode::ARQ, "ARQ".parse::<ProtocolMode>().unwrap());
}

#[test]
fn test_command() {
    assert_eq!(b"PROTOCOLMODE", CommandID::PROTOCOLMODE.to_string().as_bytes());
    assert_eq!(CommandID::ABORT, "ABORT".parse::<CommandID>().unwrap());
}

// Every other builder, with the verb it carries
#[test]
fn command_other_builders() {
    assert_eq!("ARQTIMEOUT 30\r", arqtimeout(30).to_string());
    assert_eq!("BUSYBLOCK TRUE\r", busyblock(true).to_string());
    assert_eq!("BUSYDET 0\r", busydet(0).to_string());
    assert_eq!("CWID FALSE\r", cwid(false).to_string());
    assert_eq!("DISCONNECT\r", disconnect().to_string());
    assert_eq!("GRIDSQUARE EM00\r", gridsquare("EM00").to_string());
    assert_eq!("INITIALIZE\r", initialize().to_string());
    assert_eq!("LEADER 65535\r", leader(65535).to_string());
    assert_eq!("LISTEN TRUE\r", listen(true).to_string());
    assert_eq!("SENDID\r", sendid().to_string());
    assert_eq!("TWOTONETEST\r", twotonetest().to_string());
    assert_eq!("VERSION\r", version().to_string());
    assert_eq!(CommandID::LEADER, *leader(120).command_id());
    assert_eq!(CommandID::PING, *ping("W1AW", 1).command_id());
}

#[test]
fn command_truth_str() {
    assert_eq!("TRUE", truth_str(true));
    assert_eq!("FALSE", truth_str(false));
}

// Every verb is read back from its own name; other names are refused
#[test]
fn command_name_roundtrip() {
    for id in [
        CommandID::ABORT,
        CommandID::AUTOBREAK,
        CommandID::BUFFER,
        CommandID::ARQBW,
        CommandID::ARQTIMEOUT,
        CommandID::ARQCALL,
        CommandID::BUSY,
        CommandID::BUSYBLOCK,
        CommandID::BUSYDET,
        CommandID::CONNECTED,
        CommandID::CWID,
        CommandID::DISCONNECT,
        CommandID::FAULT,
        CommandID::GRIDSQUARE,
        CommandID::INITIALIZE,
        CommandID::LEADER,
        CommandID::LISTEN,
        CommandID::NEWSTATE,
        CommandID::MYAUX,
        CommandID::MYCALL,
        CommandID::PING,
        CommandID::PROTOCOLMODE,
        CommandID::REJECTED,
        CommandID::SENDID,
        CommandID::TARGET,
        CommandID::TWOTONETEST,
        CommandID::VERSION,
    ] {
        assert_eq!(id, id.to_string().parse::<CommandID>().unwrap());
        assert_eq!(Some(id), CommandID::from_name(id.as_str()));
    }
    assert!("abort".parse::<CommandID>().is_err());
    assert!("ABORTX".parse::<CommandID>().is_err());
    assert!("".parse::<ProtocolMode>().is_err());
    assert_eq!(Some(ProtocolMode::FEC), ProtocolMode::from_name("FEC"));
}
