//! Framing for the TNC control protocol
use vstd::prelude::*;
use vstd::utf8::*;

use bytes::BytesMut;

use super::framer::{Decoder, Encoder};
use crate::buffers::{bytes_mut_advance, bytes_mut_as_slice, bytes_mut_extend, bytes_mut_view};
use crate::protocol::response::{
    find_newline, opt_response_view, parse_requires, spec_parse, Response,
};
use crate::text::utf8_to_string;
use crate::tnc::error::IoError;

verus! {

/// Frames and sends TNC control messages
pub struct TncControlFraming {}

impl TncControlFraming {
    /// New TNC control message framer
    pub fn new() -> (r: TncControlFraming) {
        TncControlFraming {}
    }
}

/// True if the first complete line of `src`, if any, is well-formed UTF-8
pub fn control_can_decode(src: &[u8]) -> (r: bool)
    ensures
        r == parse_requires(src@),
{
    match find_newline(src) {
        None => true,
        Some(k) => {
            let line = vstd::slice::slice_subrange(src, 0, k);
            assert(line@ == src@.take(k as int));
            utf8_to_string(line).is_some()
        },
    }
}

impl Encoder for TncControlFraming {
    type EncodeItem = String;

    open spec fn spec_encode(&self, item: String) -> Option<Seq<u8>> {
        Some(encode_utf8(item@))
    }

    fn encode(&mut self, item: String, dst: &mut BytesMut) -> (r: Result<(), IoError>)
        ensures
            bytes_mut_view(*final(dst)) == bytes_mut_view(*old(dst)) + encode_utf8(item@),
            r is Ok,
    {
        bytes_mut_extend(dst, item.as_str().as_bytes());
        Ok(())
    }
}

impl Decoder for TncControlFraming {
    type DecodeItem = Response;

    open spec fn decode_requires(&self, src: Seq<u8>) -> bool {
        parse_requires(src)
    }

    open spec fn spec_decode(&self, src: Seq<u8>) -> Option<(int, bool)> {
        let (n, resp) = spec_parse(src);
        Some((n, resp is Some))
    }

    open spec fn spec_item(&self, src: Seq<u8>, item: Response) -> bool {
        spec_parse(src).1 == Some(item@)
    }

    fn can_decode(&self, src: &[u8]) -> (r: bool) {
        control_can_decode(src)
    }

    fn decode(&mut self, src: &mut BytesMut) -> (r: Result<Option<Response>, IoError>)
        ensures
            r matches Ok(item) && ({
                let (n, resp) = spec_parse(bytes_mut_view(*old(src)));
                &&& opt_response_view(item) == resp
                &&& bytes_mut_view(*final(src)) == bytes_mut_view(*old(src)).skip(n)
            }),
    {
        proof {
            crate::protocol::response::lemma_newline_from(bytes_mut_view(*src), 0);
        }
        // parse the head of src
        let res = Response::parse(bytes_mut_as_slice(src));
        // drop parsed characters from the buffer
        bytes_mut_advance(src, res.0);
        Ok(res.1)
    }
}

} // verus!
