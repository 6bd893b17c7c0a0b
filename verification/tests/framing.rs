use bytes::{Bytes, BytesMut};

use ardop_interface::framing::control::TncControlFraming;
use ardop_interface::framing::data::TncDataFraming;
use ardop_interface::framing::framer::{DecodeStep, Decoder, Encoder, FrameBuffers};
use ardop_interface::protocol::response::{Event, Response};
use ardop_interface::tnc::IoErrorKind;
use ardop_interface::tncio::data::DataIn;

// Reads everything that `input` frames into, as a framed stream does
fn decode_all<C: Decoder>(codec: &mut C, input: &[u8]) -> Vec<C::DecodeItem> {
    let mut fb = FrameBuffers::new();
    fb.received(input);
    let mut out = Vec::new();
    loop {
        assert!(fb.can_decode(codec));
        match fb.try_decode(codec) {
            DecodeStep::Item(x) => out.push(x),
            DecodeStep::NeedMore | DecodeStep::Failed => break,
        }
    }
    out
}

// Writes all pending output, as a framed sink's flush does
fn flush_all(fb: &mut FrameBuffers) -> Vec<u8> {
    let out = fb.pending_output().to_vec();
    fb.written(out.len()).unwrap();
    out
}

#[test]
fn control_test_decode() {
    let words = b"PENDING\rCANCELPENDING\r".to_vec();
    let mut codec = TncControlFraming::new();
    let items = decode_all(&mut codec, &words);
    assert_eq!(2, items.len());
    assert_eq!(Response::Event(Event::PENDING), items[0]);
    assert_eq!(Response::Event(Event::CANCELPENDING), items[1]);
}

#[test]
fn control_test_encode() {
    let mut fb = FrameBuffers::new();
    let mut codec = TncControlFraming::new();
    fb.encode(&mut codec, "MYCALL W1AW\r".to_owned()).unwrap();
    fb.encode(&mut codec, "LISTEN TRUE\r".to_owned()).unwrap();
    let out = flush_all(&mut fb);
    assert_eq!("MYCALL W1AW\rLISTEN TRUE\r", std::str::from_utf8(&out).unwrap());
}

#[test]
fn test_encode_decode() {
    let words = b"PENDING\rCANCELPENDING\r".to_vec();
    let mut codec = TncControlFraming::new();
    let items = decode_all(&mut codec, &words);
    assert_eq!(Response::Event(Event::PENDING), items[0]);
    assert_eq!(Response::Event(Event::CANCELPENDING), items[1]);
    assert_eq!(2, items.len());

    let mut fb = FrameBuffers::new();
    fb.encode(&mut codec, "MYCALL W1AW\r".to_owned()).unwrap();
    fb.encode(&mut codec, "LISTEN TRUE\r".to_owned()).unwrap();
    let out = flush_all(&mut fb);
    assert_eq!("MYCALL W1AW\rLISTEN TRUE\r", std::str::from_utf8(&out).unwrap());
}

#[test]
fn data_test_encode() {
    let dataempty = Bytes::from(vec![0u8; 0]);
    let bigdata = Bytes::from(vec![0u8; 66000]);
    let littledata = Bytes::from("HI!!");
    let mut outbuf = BytesMut::new();
    let mut codec = TncDataFraming::new();

    // nothing -> nothing
    codec.encode(dataempty, &mut outbuf).unwrap();
    assert_eq!(outbuf.len(), 0);

    // really big messages are split
    codec.encode(littledata, &mut outbuf).unwrap();
    assert_eq!(outbuf.as_ref(), b"\x00\x04HI!!");

    outbuf.clear();

    codec.encode(bigdata, &mut outbuf).unwrap();
    assert_eq!(outbuf.len(), 66000 + 2 * 2);
    assert_eq!(outbuf[0], 255u8);
    assert_eq!(outbuf[1], 255u8);
    assert_eq!(
        u16::from_be_bytes([outbuf[65537], outbuf[65538]]),
        (66000 - 65535) as u16
    );
}

#[test]
fn data_test_decode() {
    let words = b"\x00\x08ARQHELLO\x00\x08FECWORLDERR".to_vec();
    let mut codec = TncDataFraming::new();
    let items = decode_all(&mut codec, &words);
    assert_eq!(DataIn::ARQ(Bytes::from("HELLO")), items[0]);
    assert_eq!(DataIn::FEC(Bytes::from("WORLD")), items[1]);
    assert_eq!(2, items.len());
}

// What the data framing writes carries exactly the payload
#[test]
fn data_frames_roundtrip() {
    let payload: Vec<u8> = (0..140000u32).map(|i| (i % 251) as u8).collect();
    let mut outbuf = BytesMut::new();
    let mut codec = TncDataFraming::new();
    codec.encode(Bytes::from(payload.clone()), &mut outbuf).unwrap();
    let mut recovered = Vec::new();
    let mut rest: &[u8] = outbuf.as_ref();
    let mut blocks = 0;
    while !rest.is_empty() {
        let n = u16::from_be_bytes([rest[0], rest[1]]) as usize;
        assert!(n > 0);
        recovered.extend_from_slice(&rest[2..2 + n]);
        rest = &rest[2 + n..];
        blocks += 1;
    }
    assert_eq!(3, blocks);
    assert_eq!(payload, recovered);
}

// A line that is not text stops the control stream; a zero-byte write is
// an end of file; the high-water mark decides when to flush
#[test]
fn framer_edge_cases() {
    let mut codec = TncControlFraming::new();
    let mut fb = FrameBuffers::new();
    fb.received(b"\xff\xfe\rPENDING\r");
    assert!(!fb.can_decode(&codec));
    assert!(fb.can_decode(&TncDataFraming::new()));

    let items = decode_all(&mut codec, b"PENDING\rBUSY TR");
    assert_eq!(1, items.len());

    let mut fb = FrameBuffers::new();
    assert_eq!(65535, fb.send_high_water_mark());
    fb.set_send_high_water_mark(4);
    fb.encode(&mut codec, "ABC".to_owned()).unwrap();
    assert!(!fb.must_flush());
    fb.encode(&mut codec, "DE".to_owned()).unwrap();
    assert!(fb.must_flush());
    let e = fb.written(0).unwrap_err();
    assert_eq!(IoErrorKind::UnexpectedEof, e.kind);
    fb.written(2).unwrap();
    assert_eq!(b"CDE", fb.pending_output());
}
