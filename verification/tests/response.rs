use ardop_interface::arq::ConnectionFailedReason;
use ardop_interface::protocol::constants::CommandID;
use ardop_interface::protocol::response::{
    parse_anything, parse_boolstr_like, parse_buffer, parse_busy, parse_cancelpending,
    parse_command_ok, parse_connected, parse_disconnected, parse_fault, parse_line,
    parse_newstate, parse_pending, parse_ping, parse_pingack, parse_pingreply, parse_ptt,
    parse_rejected, parse_response, parse_status, parse_target, parse_u16, parse_u64,
    parse_version, Event, Response, State,
};

#[test]
fn response_test_state() {
    assert_eq!(b"IDLE", State::IDLE.to_string().as_bytes());
    assert_eq!(State::DISC, "DISC".parse::<State>().unwrap());
    assert_eq!(true, State::is_connected(&State::IRStoISS));
    assert_eq!(false, State::is_connected(&State::DISC));
}

#[test]
fn response_test_parse_line() {
    let res = parse_line("HELO WORLD\r".as_bytes());
    let r = res.unwrap().1;
    assert_eq!("HELO WORLD", r);

    let res = parse_line("\r".as_bytes());
    assert_eq!("", res.unwrap().1);
}

#[test]
fn response_test_parse_anything() {
    let res = parse_anything("HELO WORLD");
    assert_eq!(Response::Event(Event::Unknown("HELO WORLD".to_owned())), res);
}

#[test]
fn response_test_parse_u16() {
    let res = parse_u16("5455");
    assert_eq!(5455u16, res.unwrap());
}

#[test]
fn response_test_parse_boolstr_like() {
    let res = parse_boolstr_like("TRUE\r");
    assert_eq!(true, res.unwrap());

    let res = parse_boolstr_like("FALSE");
    assert_eq!(false, res.unwrap());
}

#[test]
fn response_test_parse_rejected() {
    assert_eq!(
        Response::Event(Event::REJECTED(ConnectionFailedReason::IncompatibleBandwidth)),
        parse_rejected("REJECTEDBW").unwrap()
    );
}

#[test]
fn response_test_parse_buffer() {
    let res = parse_buffer("BUFFER 160");
    assert_eq!(Response::Event(Event::BUFFER(160)), res.unwrap());
}

#[test]
fn response_test_parse_busy() {
    let res = parse_busy("BUSY TRUE");
    assert_eq!(Response::Event(Event::BUSY(true)), res.unwrap());

    let res = parse_busy("BUSY FALSE");
    assert_eq!(Response::Event(Event::BUSY(false)), res.unwrap());
}

#[test]
fn response_test_parse_connected() {
    let res = parse_connected("CONNECTED W1AW-Z 500 EM00");
    assert_eq!(
        Response::Event(Event::CONNECTED("W1AW-Z".to_owned(), 500, Some("EM00".to_owned()))),
        res.unwrap()
    );

    let res = parse_connected("CONNECTED W1AW-Z 500");
    assert_eq!(
        Response::Event(Event::CONNECTED("W1AW-Z".to_owned(), 500, None)),
        res.unwrap()
    );
}

#[test]
fn response_test_parse_fault() {
    let res = parse_fault("FAULT it isn't working");
    assert_eq!(
        Response::CommandResult(Err("it isn't working".to_owned())),
        res.unwrap()
    );
}

#[test]
fn response_test_parse_newstate() {
    let res = parse_newstate("NEWSTATE DISC");
    assert_eq!(Response::Event(Event::NEWSTATE(State::DISC)), res.unwrap());
}

#[test]
fn response_test_parse_ping() {
    let res = parse_ping("PING W1AW>CQ 10 80");
    assert_eq!(
        Response::Event(Event::PING("W1AW".to_owned(), "CQ".to_owned(), 10, 80)),
        res.unwrap()
    );
}

#[test]
fn response_test_parse_pingack() {
    let res = parse_pingack("PINGACK 10 80");
    assert_eq!(Response::Event(Event::PINGACK(10, 80)), res.unwrap());
}

#[test]
fn response_test_parse_pingreply() {
    let res = parse_pingreply("PINGREPLY");
    assert_eq!(Response::Event(Event::PINGREPLY), res.unwrap());
}

#[test]
fn response_test_parse_ptt() {
    let res = parse_ptt("PTT TRUE");
    assert_eq!(Response::Event(Event::PTT(true)), res.unwrap());
}

#[test]
fn response_test_parse_status() {
    let res = parse_status("STATUS everything alright");
    assert_eq!(
        Response::Event(Event::STATUS("everything alright".to_owned())),
        res.unwrap()
    );
}

#[test]
fn response_test_parse_target() {
    let res = parse_target("TARGET W1AW-Z");
    assert_eq!(Response::Event(Event::TARGET("W1AW-Z".to_owned())), res.unwrap());
}

#[test]
fn response_test_parse_version() {
    let res = parse_version("VERSION 1.0.4");
    assert_eq!(
        Response::CommandResult(Ok((CommandID::VERSION, Some("1.0.4".to_owned())))),
        res.unwrap()
    );
}

#[test]
fn response_test_parse_command_ok() {
    let res = parse_command_ok("MYAUX");
    assert_eq!(Response::CommandResult(Ok((CommandID::MYAUX, None))), res.unwrap());

    let res = parse_command_ok("ARQBW now 2500");
    assert_eq!(Response::CommandResult(Ok((CommandID::ARQBW, None))), res.unwrap());
}

#[test]
fn response_test_parse_response() {
    let res = parse_response("VERSION 1.0.4-b4");
    assert_eq!(
        Response::CommandResult(Ok((CommandID::VERSION, Some("1.0.4-b4".to_owned())))),
        res
    );

    let res = parse_response("blah blah");
    assert_eq!(Response::Event(Event::Unknown("blah blah".to_owned())), res);

    let res = parse_response("CONNECTED W1AW 500");
    assert_eq!(Response::Event(Event::CONNECTED("W1AW".to_owned(), 500, None)), res);
}

#[test]
fn response_test_parse() {
    let data = "PENDING\rCANCELPENDING\r";
    let res = Response::parse(data.as_bytes());
    assert_eq!(8, res.0);
    assert_eq!(Some(Response::Event(Event::PENDING)), res.1);
    let res = Response::parse(&data.as_bytes()[8..]);
    assert_eq!(14, res.0);
    assert_eq!(Some(Response::Event(Event::CANCELPENDING)), res.1);
    let res = Response::parse(&data.as_bytes()[22..]);
    assert_eq!(0, res.0);
    assert_eq!(None, res.1);

    let res = Response::parse("\r\r\r".as_bytes());
    assert_eq!(1, res.0);
    assert_eq!(None, res.1);

    let res = Response::parse("NEWSTATE IRS\r".as_bytes());
    assert_eq!(Some(Response::Event(Event::NEWSTATE(State::IRS))), res.1);
}

// The echo of each command verb reads as that command's success
#[test]
fn response_command_echo() {
    for id in [
        CommandID::ABORT,
        CommandID::AUTOBREAK,
        CommandID::BUFFER,
        CommandID::ARQBW,
        CommandID::ARQTIMEOUT,
        CommandID::ARQCALL,
        CommandID::BUSY,
        CommandID::BUSYBLOCK,
        CommandID::BUSYDET,
        CommandID::CONNECTED,
        CommandID::CWID,
        CommandID::DISCONNECT,
        CommandID::GRIDSQUARE,
        CommandID::INITIALIZE,
        CommandID::LEADER,
        CommandID::LISTEN,
        CommandID::NEWSTATE,
        CommandID::MYAUX,
        CommandID::MYCALL,
        CommandID::PING,
        CommandID::PROTOCOLMODE,
        CommandID::REJECTED,
        CommandID::SENDID,
        CommandID::TWOTONETEST,
    ] {
        let line = format!("{}\r", id.to_string());
        let res = Response::parse(line.as_bytes());
        assert_eq!(line.len(), res.0);
        assert_eq!(Some(Response::CommandResult(Ok((id, None)))), res.1);
    }
    assert_eq!(
        Response::CommandResult(Ok((CommandID::VERSION, Some(String::new())))),
        parse_response("VERSION")
    );
}

// A FAULT line is a rejection carrying the TNC's message
#[test]
fn response_fault_rejects() {
    assert_eq!(
        Response::CommandResult(Err("not from state".to_owned())),
        parse_response("FAULT not from state")
    );
}

// Lines that no alternative accepts in full fall through to later ones
#[test]
fn response_edge_cases() {
    // no bandwidth: not a connection report, but the echo of the verb
    assert_eq!(
        Response::CommandResult(Ok((CommandID::CONNECTED, None))),
        parse_response("CONNECTED W1AW")
    );
    // unknown state names are not state changes
    assert_eq!(None, parse_newstate("NEWSTATE BOGUS"));
    // a number too large for a u16 is not a bandwidth
    assert_eq!(None, parse_connected("CONNECTED W1AW 70000"));
    assert_eq!(None, parse_u16("65536"));
    assert_eq!(Some(65535u16), parse_u16("65535"));
    assert_eq!(Some(18446744073709551615u64), parse_u64("18446744073709551615"));
    assert_eq!(None, parse_u64("18446744073709551616"));
    assert_eq!(None, parse_u16(""));
    assert_eq!(None, parse_boolstr_like("MAYBE"));
    // REJECTEDBUSY and an unknown reason
    assert_eq!(
        Some(Response::Event(Event::REJECTED(ConnectionFailedReason::Busy))),
        parse_rejected("REJECTEDBUSY")
    );
    assert_eq!(None, parse_rejected("REJECTEDNOPE"));
    // an incomplete line is not consumed
    let res = Response::parse("BUSY TRUE".as_bytes());
    assert_eq!(0, res.0);
    assert_eq!(None, res.1);
    // an empty buffer
    let res = Response::parse(b"");
    assert_eq!((0, None), (res.0, res.1));
    // non-ASCII digits are not numbers
    assert_eq!(None, parse_u16("١٢"));
    // the bare events
    assert_eq!(Some(Response::Event(Event::PENDING)), parse_pending("PENDING"));
    assert_eq!(
        Some(Response::Event(Event::CANCELPENDING)),
        parse_cancelpending("CANCELPENDING")
    );
    assert_eq!(Some(Response::Event(Event::DISCONNECTED)), parse_disconnected("DISCONNECTED"));
    assert_eq!(None, parse_disconnected("DISCONNECT"));
}
