//! Data received from the TNC
//!
//! Represents payload data from either an unconnected FEC
//! frame or an ARQ connection with a peer
use vstd::prelude::*;
use vstd::utf8::*;

use bytes::Bytes;

use crate::buffers::{bytes_copy_from_slice, bytes_view};
use crate::protocol::response::opt_view;
use crate::text::{chars_of, has_tag, lemma_span, scan, span, substring, tag_at, utf8_to_string, CharClass};
use crate::tnc::error::{IoError, IoErrorKind};

verus! {

/// Data out is a constant Bytes buffer
pub type DataOut = Bytes;

/// Represents a data fragment received from the TNC
#[derive(Debug, PartialEq, Eq)]
pub enum DataIn {
    /// ARQ Stream
    ///
    /// ARQ is a streaming connection; there are no
    /// message boundaries. The payload bytes in this
    /// `DataIn` are assumed to immediately follow those
    /// from the previous `DataIn`.
    ARQ(Bytes),
    /// FEC Frame
    ///
    /// FEC frames always include a complete message
    FEC(Bytes),
    /// ID Frame
    ///
    /// ID frames are produced by the `SENDID` command and
    /// announce a remote station's callsign and grid.
    /// Contains a tuple of
    ///
    /// 0. Peer callsign
    /// 1. Peer grid, if given
    IDF(String, Option<String>),
}

/// Abstract value of a `DataIn`
pub enum DataInView {
    /// ARQ payload bytes
    ARQ(Seq<u8>),
    /// FEC payload bytes
    FEC(Seq<u8>),
    /// Identity frame: callsign and grid, if given
    IDF(Seq<char>, Option<Seq<char>>),
}

impl View for DataIn {
    type V = DataInView;

    open spec fn view(&self) -> DataInView {
        match self {
            DataIn::ARQ(b) => DataInView::ARQ(bytes_view(*b)),
            DataIn::FEC(b) => DataInView::FEC(bytes_view(*b)),
            DataIn::IDF(c, g) => DataInView::IDF(c@, opt_view(*g)),
        }
    }
}

/// Abstract value of an optional `DataIn`
pub open spec fn opt_data_view(d: Option<DataIn>) -> Option<DataInView> {
    match d {
        Some(x) => Some(x@),
        None => None,
    }
}

/// The grid square of an identity frame, after the callsign that ends at
/// `j`: white space, `[`, two to eight word characters, `]`
pub open spec fn spec_id_grid(l: Seq<char>, j: int) -> Option<Seq<char>> {
    let k = span(l, j, CharClass::Whitespace);
    if k > j && has_tag(l, k, seq!['[']) {
        let m = span(l, k + 1, CharClass::Word);
        if 2 <= m - (k + 1) <= 8 && has_tag(l, m, seq![']']) {
            Some(l.subrange(k + 1, m))
        } else {
            None
        }
    } else {
        None
    }
}

/// The text of an identity frame: `ID:`, optional white space, a callsign
/// of ASCII letters, digits and `-`, then optionally white space and a
/// bracketed grid square. Anything after that is ignored.
pub open spec fn spec_id_text(l: Seq<char>) -> Option<DataInView> {
    if has_tag(l, 0, seq!['I', 'D', ':']) {
        let i = span(l, 3, CharClass::Whitespace);
        let j = span(l, i, CharClass::Call);
        if j > i {
            Some(DataInView::IDF(l.subrange(i, j), spec_id_grid(l, j)))
        } else {
            None
        }
    } else {
        None
    }
}

/// The identity frame that a payload carries: its text must be
/// well-formed UTF-8. Frames that the local TNC sends do not start with
/// `ID:` and are ignored.
pub open spec fn spec_id_frame(p: Seq<u8>) -> Option<DataInView> {
    if valid_utf8(p) {
        spec_id_text(decode_utf8(p))
    } else {
        None
    }
}

/// Length field of a data-port frame: the first two bytes, big-endian
pub open spec fn spec_frame_len(b: Seq<u8>) -> int {
    b[0] as int * 256 + b[1] as int
}

/// The bytes `DataIn::parse` accepts: once a complete, well-formed type
/// field has arrived, the length covers at least the type field
pub open spec fn data_parse_requires(b: Seq<u8>) -> bool {
    (b.len() >= 5 && valid_utf8(b.subrange(2, 5))) ==> spec_frame_len(b) >= 3
}

/// The payload of a frame of the given type
pub open spec fn spec_frame_payload(t: Seq<u8>, payload: Seq<u8>) -> Option<DataInView> {
    if t == seq![0x41u8, 0x52u8, 0x51u8] {
        Some(DataInView::ARQ(payload))
    } else if t == seq![0x46u8, 0x45u8, 0x43u8] {
        Some(DataInView::FEC(payload))
    } else if t == seq![0x49u8, 0x44u8, 0x46u8] {
        spec_id_frame(payload)
    } else {
        None
    }
}

/// What `DataIn::parse` makes of bytes `b`: `Err` for a type field that is
/// not UTF-8; otherwise the number of bytes consumed (zero until a whole
/// frame has arrived) and the frame's contents, if it is of a known type
pub open spec fn spec_data_parse(b: Seq<u8>) -> Result<(int, Option<DataInView>), ()> {
    if b.len() < 5 {
        Ok((0, None))
    } else if !valid_utf8(b.subrange(2, 5)) {
        Err(())
    } else if b.len() < spec_frame_len(b) + 2 {
        Ok((0, None))
    } else {
        Ok(
            (
                spec_frame_len(b) + 2,
                spec_frame_payload(b.subrange(2, 5), b.subrange(5, spec_frame_len(b) + 2)),
            ),
        )
    }
}

/// Reads the text of an identity frame
fn id_text_in(text: &str, l: &[char]) -> (r: Option<DataIn>)
    requires
        l@ == text@,
    ensures
        opt_data_view(r) == spec_id_text(l@),
{
    let id: [char; 3] = ['I', 'D', ':'];
    assert(id@ == seq!['I', 'D', ':']);
    if !tag_at(l, 0, &id) {
        return None;
    }
    let i = scan(l, 3, CharClass::Whitespace);
    let j = scan(l, i, CharClass::Call);
    if j <= i {
        return None;
    }
    let call = substring(text, i, j);
    let k = scan(l, j, CharClass::Whitespace);
    let open: [char; 1] = ['['];
    assert(open@ == seq!['[']);
    let close: [char; 1] = [']'];
    assert(close@ == seq![']']);
    let grid = if k > j && tag_at(l, k, &open) {
        let m = scan(l, k + 1, CharClass::Word);
        if m - (k + 1) >= 2 && m - (k + 1) <= 8 && tag_at(l, m, &close) {
            Some(substring(text, k + 1, m))
        } else {
            None
        }
    } else {
        None
    };
    Some(DataIn::IDF(call, grid))
}

/// Read the contents of an ID Frame (IDF) and return
/// them if it is valid. ID frames sent by the local
/// TNC are ignored.
pub fn parse_id_frame(inp: &[u8]) -> (r: Option<DataIn>)
    ensures
        opt_data_view(r) == spec_id_frame(inp@),
{
    match utf8_to_string(inp) {
        None => None,
        Some(text) => {
            let l = chars_of(text.as_str());
            id_text_in(text.as_str(), l.as_slice())
        },
    }
}

/// The error for a data-port frame whose type field is not text
fn data_parse_error() -> (e: IoError)
    ensures
        e.kind == IoErrorKind::InvalidData,
{
    IoError {
        kind: IoErrorKind::InvalidData,
        message: "Unexpected data channel parse error".to_owned(),
    }
}

impl DataIn {
    /// Tries to frame an incoming data packet
    ///
    /// # Parameters
    /// - `buf`: A byte buffer that is aligned to the start
    ///   of a packed tnc→host data transmission
    ///
    /// # Returns
    /// Tuple of
    /// 0. Number of bytes from `buf` that were consumed
    /// 1. A single parsed `DataIn`, if one can be parsed.
    pub fn parse(buf: &[u8]) -> (r: Result<(usize, Option<DataIn>), IoError>)
        requires
            data_parse_requires(buf@),
        ensures
            match r {
                Ok((n, d)) => spec_data_parse(buf@) == Ok::<(int, Option<DataInView>), ()>(
                    (n as int, opt_data_view(d)),
                ),
                Err(e) => spec_data_parse(buf@) is Err && e.kind == IoErrorKind::InvalidData,
            },
    {
        if buf.len() < 5 {
            return Ok((0, None));
        }
        let t = vstd::slice::slice_subrange(buf, 2, 5);
        if utf8_to_string(t).is_none() {
            return Err(data_parse_error());
        }
        let dlen: usize = buf[0] as usize * 256 + buf[1] as usize;
        assert(dlen == spec_frame_len(buf@));
        if buf.len() < dlen + 2 {
            return Ok((0, None));
        }
        let payload = vstd::slice::slice_subrange(buf, 5, dlen + 2);
        let out = if t[0] == 0x41 && t[1] == 0x52 && t[2] == 0x51 {
            assert(t@ =~= seq![0x41u8, 0x52u8, 0x51u8]);
            Some(DataIn::ARQ(bytes_copy_from_slice(payload)))
        } else if t[0] == 0x46 && t[1] == 0x45 && t[2] == 0x43 {
            assert(t@ =~= seq![0x46u8, 0x45u8, 0x43u8]);
            Some(DataIn::FEC(bytes_copy_from_slice(payload)))
        } else if t[0] == 0x49 && t[1] == 0x44 && t[2] == 0x46 {
            assert(t@ =~= seq![0x49u8, 0x44u8, 0x46u8]);
            parse_id_frame(payload)
        } else {
            None
        };
        Ok((dlen + 2, out))
    }
}


/// The type field of ARQ data frames, `ARQ`
pub open spec fn arq_tag() -> Seq<u8> {
    seq![0x41u8, 0x52u8, 0x51u8]
}

/// The type field of FEC data frames, `FEC`
pub open spec fn fec_tag() -> Seq<u8> {
    seq![0x46u8, 0x45u8, 0x43u8]
}

/// A TNC-to-host data frame: big-endian length of what follows, the type
/// field, the payload
pub open spec fn spec_data_frame(tag: Seq<u8>, payload: Seq<u8>) -> Seq<u8> {
    let n = payload.len() + 3;
    seq![(n / 256) as u8, (n % 256) as u8] + tag + payload
}

/// A complete ARQ or FEC frame is read back as its payload, and exactly
/// the frame is consumed, whatever follows it; until the whole frame has
/// arrived, nothing is consumed or read
pub proof fn lemma_data_frame_read_back(tag: Seq<u8>, payload: Seq<u8>, rest: Seq<u8>, cut: int)
    requires
        tag == arq_tag() || tag == fec_tag(),
        payload.len() + 3 <= 0xffff,
        0 <= cut < payload.len() + 5,
    ensures
        spec_data_parse(spec_data_frame(tag, payload) + rest) == Ok::<
            (int, Option<DataInView>),
            (),
        >(
            (
                payload.len() as int + 5,
                Some(
                    if tag == arq_tag() {
                        DataInView::ARQ(payload)
                    } else {
                        DataInView::FEC(payload)
                    },
                ),
            ),
        ),
        spec_data_parse(spec_data_frame(tag, payload).take(cut)) == Ok::<
            (int, Option<DataInView>),
            (),
        >((0, None)),
{
    let n: int = payload.len() as int + 3;
    let f = spec_data_frame(tag, payload);
    let b = f + rest;
    let hi = (n / 256) as u8;
    let lo = (n % 256) as u8;
    assert(hi as int * 256 + lo as int == n) by (nonlinear_arith)
        requires
            0 < n <= 65535,
            hi == (n / 256) as u8,
            lo == (n % 256) as u8,
    ;
    assert(valid_utf8(tag)) by {
        reveal_with_fuel(valid_utf8, 4);
    }
    assert(b.subrange(2, 5) =~= tag);
    assert(b.subrange(5, n + 2) =~= payload);
    assert(spec_frame_len(b) == n);
    let c = f.take(cut);
    if cut >= 5 {
        assert(c.subrange(2, 5) =~= tag);
        assert(spec_frame_len(c) == n);
    }
    assert(arq_tag() != fec_tag()) by {
        assert(arq_tag()[0] != fec_tag()[0]);
    }
}

} // verus!
