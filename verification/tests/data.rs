use bytes::Bytes;
use regex::Regex;

use ardop_interface::tnc::IoErrorKind;
use ardop_interface::framing::data::data_can_decode;
use ardop_interface::tncio::data::{parse_id_frame, DataIn};

#[test]
fn data_test_parse() {
    let data = b"\x00\x08ARQHELLO";
    let res = DataIn::parse(data).unwrap();
    assert_eq!(data.len(), res.0);
    assert_eq!(DataIn::ARQ(Bytes::from("HELLO")), res.1.unwrap());

    // err fields are eaten
    let data = b"\x00\x08ERRHELLO";
    let res = DataIn::parse(data).unwrap();
    assert_eq!(data.len(), res.0);
    assert!(res.1.is_none());

    // not enough bytes
    let data = b"\x00\x08ARQHELL";
    let res = DataIn::parse(data).unwrap();
    assert_eq!(0, res.0);
    assert!(res.1.is_none());

    // trailing field
    let data = b"\x00\x08ARQHELLO\x00\x08";
    let res = DataIn::parse(data).unwrap();
    assert_eq!(data.len() - 2, res.0);
    assert_eq!(DataIn::ARQ(Bytes::from("HELLO")), res.1.unwrap());

    // unknown frame
    let data = b"\x00\x08ZZZHELLO";
    let res = DataIn::parse(data).unwrap();
    assert_eq!(data.len(), res.0);
    assert!(res.1.is_none());
}

#[test]
fn test_parse_id_frame() {
    let outgoing_id = b"W1AW:[EM00aa]";
    let call_only = b"ID: W1AW";
    let call_and_bad_grid = b"ID: W1AW [bad grid]:";
    let call_and_grid = b"ID: W1AW-8 [EM00]:";

    assert_eq!(None, parse_id_frame(outgoing_id));
    assert_eq!(DataIn::IDF("W1AW".to_owned(), None), parse_id_frame(call_only).unwrap());
    assert_eq!(
        DataIn::IDF("W1AW".to_owned(), None),
        parse_id_frame(call_and_bad_grid).unwrap()
    );
    assert_eq!(
        DataIn::IDF("W1AW-8".to_owned(), Some("EM00".to_owned())),
        parse_id_frame(call_and_grid).unwrap()
    );
}

// Frames of every kind, and a type field that is not text
#[test]
fn data_parse_kinds() {
    let res = DataIn::parse(b"\x00\x08FECWORLD").unwrap();
    assert_eq!((10, Some(DataIn::FEC(Bytes::from("WORLD")))), res);
    let res = DataIn::parse(b"\x00\x0BIDFID: W1AW").unwrap();
    assert_eq!((13, Some(DataIn::IDF("W1AW".to_owned(), None))), res);
    // an empty payload
    let res = DataIn::parse(b"\x00\x03ARQ").unwrap();
    assert_eq!((5, Some(DataIn::ARQ(Bytes::new()))), res);
    // fewer than five bytes: nothing yet
    assert_eq!((0, None), DataIn::parse(b"\x00\x08AR").unwrap());
    // a type field that is not UTF-8
    let e = DataIn::parse(b"\x00\x08\xff\xfe\xfdHELLO").unwrap_err();
    assert_eq!(IoErrorKind::InvalidData, e.kind);
    // a length that does not cover the type field is refused up front
    assert!(!data_can_decode(b"\x00\x02ARQ"));
    assert!(data_can_decode(b"\x00\x03ARQ"));
}

// The identity-frame grammar agrees with the pattern it was written from
#[test]
fn id_frame_matches_pattern() {
    let re = Regex::new("^ID:\\s*([0-9A-Za-z-]+)(?:\\s+\\[(\\w{2,8})\\])?").unwrap();
    let samples = [
        "ID: W1AW",
        "ID:W1AW",
        "ID:   W1AW-8 [EM00]:",
        "ID: W1AW\t[FN31pr]",
        "ID: W1AW [E]",
        "ID: W1AW [EM00EM00]",
        "ID: W1AW [EM00EM00E]",
        "ID: W1AW [ÉM00]",
        "ID: W1AW[EM00]",
        "ID: W1AW  [EM_0]",
        "ID: -",
        "ID: ",
        "ID:",
        "ID: \u{2003}W1AW \u{2003}[EM00]",
        "ID: W1AW [EM00",
        "ID: W1AW [bad grid]:",
        "W1AW:[EM00aa]",
        "id: W1AW",
        "ID: Ŵ1AW",
    ];
    for s in samples.iter() {
        let expected = re.captures(s).map(|c| {
            DataIn::IDF(
                c.get(1).unwrap().as_str().to_owned(),
                c.get(2).map(|g| g.as_str().to_owned()),
            )
        });
        assert_eq!(expected, parse_id_frame(s.as_bytes()), "{}", s);
    }
    assert_eq!(None, parse_id_frame(b"ID: \xff"));
}
