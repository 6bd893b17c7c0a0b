//! Framing for the TNC data protocol
use vstd::prelude::*;

use bytes::{Bytes, BytesMut};

use super::framer::{Decoder, Encoder};
use crate::buffers::{
    bytes_as_slice, bytes_mut_as_slice, bytes_mut_extend, bytes_mut_put_u16, bytes_mut_reserve,
    bytes_mut_split_to, bytes_mut_view, bytes_view,
};
use crate::text::utf8_to_string;
use crate::tncio::data::{
    data_parse_requires, opt_data_view, spec_data_parse, spec_frame_len, DataIn, DataOut,
};
use crate::tnc::error::IoError;

verus! {

/// Frames and sends TNC data messages
pub struct TncDataFraming {}

impl TncDataFraming {
    /// New TNC data message framer
    pub fn new() -> (r: TncDataFraming) {
        TncDataFraming {}
    }
}

/// Largest payload that one host-to-TNC data block carries
pub const MAX_CHUNK: usize = 65535;

/// Host-to-TNC framing of a payload: blocks of at most 65535 bytes, each
/// prefixed with its length as a big-endian `u16`. Nothing is sent for an
/// empty payload.
pub open spec fn spec_data_frames(p: Seq<u8>) -> Seq<u8>
    decreases p.len(),
{
    if p.len() == 0 {
        seq![]
    } else {
        let c = if p.len() < 65535 {
            p.len() as int
        } else {
            65535
        };
        seq![(c / 256) as u8, (c % 256) as u8] + p.take(c) + spec_data_frames(p.skip(c))
    }
}

/// True if `DataIn::parse` may be called on `src`: once a well-formed type
/// field has arrived, the length field covers it
pub fn data_can_decode(src: &[u8]) -> (r: bool)
    ensures
        r == data_parse_requires(src@),
{
    if src.len() < 5 {
        return true;
    }
    let t = vstd::slice::slice_subrange(src, 2, 5);
    if utf8_to_string(t).is_none() {
        return true;
    }
    let dlen: usize = src[0] as usize * 256 + src[1] as usize;
    assert(dlen == spec_frame_len(src@));
    dlen >= 3
}

impl Encoder for TncDataFraming {
    type EncodeItem = DataOut;

    open spec fn spec_encode(&self, item: DataOut) -> Option<Seq<u8>> {
        Some(spec_data_frames(bytes_view(item)))
    }

    fn encode(&mut self, item: DataOut, dst: &mut BytesMut) -> (r: Result<(), IoError>)
        ensures
            bytes_mut_view(*final(dst)) == bytes_mut_view(*old(dst)) + spec_data_frames(
                bytes_view(item),
            ),
            r is Ok,
    {
        // data is prefixed with a big endian size
        //
        // if we have more than 2**16 bytes to send, we need to split it up
        // into blocks for the TNC.
        let data = bytes_as_slice(&item);
        let ghost p = data@;
        let ghost start = bytes_mut_view(*dst);
        let mut pos: usize = 0;
        assert(p.skip(0) =~= p);
        while pos < data.len()
            invariant
                p == data@,
                pos <= p.len(),
                bytes_mut_view(*dst) + spec_data_frames(p.skip(pos as int)) == start
                    + spec_data_frames(p),
            decreases p.len() - pos,
        {
            let remain = data.len() - pos;
            let chunk_size = if remain < MAX_CHUNK {
                remain
            } else {
                MAX_CHUNK
            };
            let ghost before = bytes_mut_view(*dst);
            let ghost rest = p.skip(pos as int);
            assert(rest.take(chunk_size as int) =~= p.subrange(pos as int, pos + chunk_size));
            assert(rest.skip(chunk_size as int) =~= p.skip(pos + chunk_size));
            bytes_mut_reserve(dst, 2);
            bytes_mut_put_u16(dst, chunk_size as u16);
            let piece = vstd::slice::slice_subrange(data, pos, pos + chunk_size);
            bytes_mut_extend(dst, piece);
            assert(bytes_mut_view(*dst) =~= before + seq![
                (chunk_size / 256) as u8,
                (chunk_size % 256) as u8,
            ] + rest.take(chunk_size as int));
            assert(spec_data_frames(rest) == seq![
                (chunk_size as int / 256) as u8,
                (chunk_size as int % 256) as u8,
            ] + rest.take(chunk_size as int) + spec_data_frames(rest.skip(chunk_size as int)));
            assert(bytes_mut_view(*dst) + spec_data_frames(p.skip(pos + chunk_size)) =~= before
                + spec_data_frames(rest));
            pos = pos + chunk_size;
        }
        assert(p.skip(pos as int) =~= Seq::<u8>::empty());
        assert(bytes_mut_view(*dst) + spec_data_frames(p.skip(pos as int)) =~= bytes_mut_view(
            *dst,
        ));
        Ok(())
    }
}

impl Decoder for TncDataFraming {
    type DecodeItem = DataIn;

    open spec fn decode_requires(&self, src: Seq<u8>) -> bool {
        data_parse_requires(src)
    }

    open spec fn spec_decode(&self, src: Seq<u8>) -> Option<(int, bool)> {
        match spec_data_parse(src) {
            Err(_) => None,
            Ok((n, d)) => Some((n, d is Some)),
        }
    }

    open spec fn spec_item(&self, src: Seq<u8>, item: DataIn) -> bool {
        spec_data_parse(src) matches Ok((_n, d)) && d == Some(item@)
    }

    fn can_decode(&self, src: &[u8]) -> (r: bool) {
        data_can_decode(src)
    }

    fn decode(&mut self, src: &mut BytesMut) -> (r: Result<Option<DataIn>, IoError>)
        ensures
            match spec_data_parse(bytes_mut_view(*old(src))) {
                Err(_) => r is Err && bytes_mut_view(*final(src)) == bytes_mut_view(*old(src)),
                Ok((n, d)) => r matches Ok(item) && opt_data_view(item) == d && bytes_mut_view(
                    *final(src),
                ) == bytes_mut_view(*old(src)).skip(n),
            },
    {
        let ghost before = bytes_mut_view(*src);
        if bytes_mut_as_slice(src).len() < 5 {
            assert(before.skip(0) =~= before);
            return Ok(None);
        }
        let out = DataIn::parse(bytes_mut_as_slice(src));
        match out {
            Err(e) => Err(e),
            Ok((n, d)) => {
                let _ = bytes_mut_split_to(src, n);
                Ok(d)
            },
        }
    }
}


/// The payload carried by host-to-TNC data blocks: each block is a
/// big-endian `u16` length, never zero, then that many payload bytes.
/// `None` if the bytes are not a sequence of whole blocks.
pub open spec fn spec_unframe(f: Seq<u8>) -> Option<Seq<u8>>
    decreases f.len(),
{
    if f.len() == 0 {
        Some(Seq::<u8>::empty())
    } else if f.len() < 2 {
        None
    } else {
        let n = f[0] as int * 256 + f[1] as int;
        if n == 0 || f.len() < n + 2 {
            None
        } else {
            match spec_unframe(f.skip(n + 2)) {
                Some(rest) => Some(f.subrange(2, n + 2) + rest),
                None => None,
            }
        }
    }
}

/// The data framing loses nothing: the blocks written for a payload carry
/// exactly that payload, in order
pub proof fn lemma_data_frames_roundtrip(p: Seq<u8>)
    ensures
        spec_unframe(spec_data_frames(p)) == Some(p),
    decreases p.len(),
{
    if p.len() > 0 {
        let c: int = if p.len() < 65535 {
            p.len() as int
        } else {
            65535
        };
        let f = spec_data_frames(p);
        let hi = (c / 256) as u8;
        let lo = (c % 256) as u8;
        assert(hi as int * 256 + lo as int == c) by (nonlinear_arith)
            requires
                0 < c <= 65535,
                hi == (c / 256) as u8,
                lo == (c % 256) as u8,
        ;
        lemma_data_frames_roundtrip(p.skip(c));
        assert(f.skip(c + 2) =~= spec_data_frames(p.skip(c)));
        assert(f.subrange(2, c + 2) =~= p.take(c));
        assert(p.take(c) + p.skip(c) =~= p);
    } else {
        assert(spec_data_frames(p) =~= Seq::<u8>::empty());
    }
}

} // verus!
