//! Message framing over byte buffers
//!
//! An `Encoder` turns messages into bytes; a `Decoder` turns bytes back
//! into messages. `FrameBuffers` holds the bytes in transit for a framed
//! connection and makes the decisions of its read and write paths; the
//! I/O itself happens around it.
use vstd::prelude::*;

use bytes::BytesMut;

use crate::buffers::{
    bytes_mut_as_slice, bytes_mut_extend, bytes_mut_split_to, bytes_mut_view,
    bytes_mut_with_capacity,
};
use crate::tnc::error::{IoError, IoErrorKind};

verus! {

/// Converts messages to byte streams
pub trait Encoder {
    /// The atomic message framed by this `Encoder`
    type EncodeItem;

    /// The bytes that framing `item` appends, or `None` if `item` cannot
    /// be framed
    spec fn spec_encode(&self, item: Self::EncodeItem) -> Option<Seq<u8>>;

    /// Frame `item` into `dst`
    ///
    /// Implementations write a serialized, framed representation of
    /// `item` to the end of `dst`, or fail and leave `dst` alone.
    fn encode(&mut self, item: Self::EncodeItem, dst: &mut BytesMut) -> (r: Result<(), IoError>)
        ensures
            match old(self).spec_encode(item) {
                Some(b) => r is Ok && bytes_mut_view(*final(dst)) == bytes_mut_view(*old(dst)) + b,
                None => r is Err && bytes_mut_view(*final(dst)) == bytes_mut_view(*old(dst)),
            },
    ;
}

/// Converts byte streams to messages
pub trait Decoder {
    /// The atomic message framed by this `Decoder`
    type DecodeItem;

    /// The buffered bytes on which `decode` may be called
    spec fn decode_requires(&self, src: Seq<u8>) -> bool;

    /// What decoding the buffered bytes `src` gives: `None` if they cannot
    /// be framed at all, otherwise the number of bytes consumed and whether
    /// a message was framed
    spec fn spec_decode(&self, src: Seq<u8>) -> Option<(int, bool)>;

    /// True if `item` is the message that the front of the buffered bytes
    /// `src` frames
    spec fn spec_item(&self, src: Seq<u8>, item: Self::DecodeItem) -> bool;

    /// True if `decode` may be called on the buffered bytes `src`
    fn can_decode(&self, src: &[u8]) -> (r: bool)
        ensures
            r == self.decode_requires(src@),
    ;

    /// De-frame zero or one items from the front of `src`, removing the
    /// bytes of the item from `src`
    ///
    /// Returns `Ok(None)` if no message can be framed yet, an error if the
    /// bytes cannot be framed at all, or the message.
    fn decode(&mut self, src: &mut BytesMut) -> (r: Result<Option<Self::DecodeItem>, IoError>)
        requires
            old(self).decode_requires(bytes_mut_view(*old(src))),
        ensures
            match old(self).spec_decode(bytes_mut_view(*old(src))) {
                None => r is Err && bytes_mut_view(*final(src)) == bytes_mut_view(*old(src)),
                Some((n, framed)) => (r matches Ok(item) && (item is Some <==> framed))
                    && bytes_mut_view(*final(src)) == bytes_mut_view(*old(src)).skip(n),
            },
            r matches Ok(Some(item)) ==> old(self).spec_item(bytes_mut_view(*old(src)), item),
    ;
}

/// Number of bytes read from the I/O in one go
pub const READ_SIZE: usize = 8192;

/// Default limit of outgoing bytes buffered before the sender must wait
pub const DEFAULT_SEND_HIGH_WATER_MARK: usize = 65535;

/// The byte buffers of a framed connection
pub struct FrameBuffers {
    inbuf: BytesMut,
    outbuf: BytesMut,
    send_high_water_mark: usize,
}

/// What happened when the input buffer was offered to the decoder
pub enum DecodeStep<T> {
    /// A message was framed
    Item(T),
    /// More bytes are needed
    NeedMore,
    /// The bytes cannot be framed; the stream ends
    Failed,
}

impl FrameBuffers {
    /// The bytes received and not yet framed
    pub closed spec fn spec_inbuf(&self) -> Seq<u8> {
        bytes_mut_view(self.inbuf)
    }

    /// The bytes framed and not yet written
    pub closed spec fn spec_outbuf(&self) -> Seq<u8> {
        bytes_mut_view(self.outbuf)
    }

    /// The send high-water mark
    pub closed spec fn spec_hwm(&self) -> usize {
        self.send_high_water_mark
    }

    /// Empty buffers with the default high-water mark
    pub fn new() -> (r: FrameBuffers)
        ensures
            r.spec_inbuf() == Seq::<u8>::empty(),
            r.spec_outbuf() == Seq::<u8>::empty(),
            r.spec_hwm() == DEFAULT_SEND_HIGH_WATER_MARK,
    {
        FrameBuffers {
            inbuf: bytes_mut_with_capacity(READ_SIZE),
            outbuf: bytes_mut_with_capacity(READ_SIZE),
            send_high_water_mark: DEFAULT_SEND_HIGH_WATER_MARK,
        }
    }

    /// Gets the high-water mark
    ///
    /// When the outgoing buffer exceeds the high-water mark, the sender
    /// must flush before it may send more.
    pub fn send_high_water_mark(&self) -> (r: usize)
        ensures
            r == self.spec_hwm(),
    {
        self.send_high_water_mark
    }

    /// Sets the high-water mark
    pub fn set_send_high_water_mark(&mut self, hwm: usize)
        ensures
            final(self).spec_hwm() == hwm,
            final(self).spec_inbuf() == old(self).spec_inbuf(),
            final(self).spec_outbuf() == old(self).spec_outbuf(),
    {
        self.send_high_water_mark = hwm;
    }

    /// True if the outgoing buffer is above the high-water mark, so that the
    /// sender must flush before it is ready for another message
    pub fn must_flush(&self) -> (r: bool)
        ensures
            r == (self.spec_outbuf().len() > self.spec_hwm()),
    {
        bytes_mut_as_slice(&self.outbuf).len() > self.send_high_water_mark
    }

    /// Frames `item` onto the end of the outgoing buffer, as the codec
    /// frames it; the incoming buffer is left alone
    pub fn encode<C: Encoder>(&mut self, codec: &mut C, item: C::EncodeItem) -> (r: Result<
        (),
        IoError,
    >)
        ensures
            match old(codec).spec_encode(item) {
                Some(b) => r is Ok && final(self).spec_outbuf() == old(self).spec_outbuf() + b,
                None => r is Err && final(self).spec_outbuf() == old(self).spec_outbuf(),
            },
            final(self).spec_inbuf() == old(self).spec_inbuf(),
            final(self).spec_hwm() == old(self).spec_hwm(),
    {
        codec.encode(item, &mut self.outbuf)
    }

    /// The bytes waiting to be written
    pub fn pending_output(&self) -> (r: &[u8])
        ensures
            r@ == self.spec_outbuf(),
    {
        bytes_mut_as_slice(&self.outbuf)
    }

    /// Records that the first `n` pending bytes were written. A write of
    /// nothing while bytes are pending is an end of file.
    pub fn written(&mut self, n: usize) -> (r: Result<(), IoError>)
        requires
            n <= old(self).spec_outbuf().len(),
        ensures
            final(self).spec_outbuf() == old(self).spec_outbuf().skip(n as int),
            final(self).spec_inbuf() == old(self).spec_inbuf(),
            final(self).spec_hwm() == old(self).spec_hwm(),
            r is Err <==> n == 0,
            r matches Err(e) ==> e.kind == IoErrorKind::UnexpectedEof,
    {
        let _ = bytes_mut_split_to(&mut self.outbuf, n);
        if n == 0 {
            Err(IoError { kind: IoErrorKind::UnexpectedEof, message: "End of file".to_owned() })
        } else {
            Ok(())
        }
    }

    /// Appends bytes read from the I/O to the incoming buffer
    pub fn received(&mut self, data: &[u8])
        ensures
            final(self).spec_inbuf() == old(self).spec_inbuf() + data@,
            final(self).spec_outbuf() == old(self).spec_outbuf(),
            final(self).spec_hwm() == old(self).spec_hwm(),
    {
        bytes_mut_extend(&mut self.inbuf, data)
    }

    /// True if `try_decode` may be called with `codec`
    pub fn can_decode<C: Decoder>(&self, codec: &C) -> (r: bool)
        ensures
            r == codec.decode_requires(self.spec_inbuf()),
    {
        codec.can_decode(bytes_mut_as_slice(&self.inbuf))
    }

    /// Offers the incoming buffer to the decoder. An empty buffer needs more
    /// bytes without asking the decoder; otherwise the decoder's outcome
    /// decides: bytes that cannot be framed fail the stream, the message
    /// that the front of the buffer frames is handed out, and either way
    /// the bytes it consumed leave the buffer.
    pub fn try_decode<C: Decoder>(&mut self, codec: &mut C) -> (r: DecodeStep<C::DecodeItem>)
        requires
            old(codec).decode_requires(old(self).spec_inbuf()),
        ensures
            old(self).spec_inbuf().len() == 0 ==> r is NeedMore && final(self).spec_inbuf()
                == old(self).spec_inbuf(),
            old(self).spec_inbuf().len() > 0 ==> match old(codec).spec_decode(
                old(self).spec_inbuf(),
            ) {
                None => r is Failed && final(self).spec_inbuf() == old(self).spec_inbuf(),
                Some((n, framed)) => (if framed {
                    r is Item
                } else {
                    r is NeedMore
                }) && final(self).spec_inbuf() == old(self).spec_inbuf().skip(n),
            },
            r matches DecodeStep::Item(x) ==> old(codec).spec_item(old(self).spec_inbuf(), x),
            final(self).spec_outbuf() == old(self).spec_outbuf(),
            final(self).spec_hwm() == old(self).spec_hwm(),
    {
        if bytes_mut_as_slice(&self.inbuf).len() == 0 {
            return DecodeStep::NeedMore;
        }
        match codec.decode(&mut self.inbuf) {
            Ok(Some(itm)) => DecodeStep::Item(itm),
            Ok(None) => DecodeStep::NeedMore,
            Err(_e) => DecodeStep::Failed,
        }
    }
}

} // verus!
