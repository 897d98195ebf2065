//! The plain-text codec: each datagram is one whole message in text form.
use super::buf::{buf_extend_from_slice, buf_len, buf_split_to, buffer_contents};
use bytes::BytesMut;
use vstd::prelude::*;

verus! {

/// The plain-text codec.
#[derive(Debug)]
pub struct MsgCodec {}

impl MsgCodec {
    pub fn new() -> (r: Self)
        ensures
            r == (MsgCodec {}),
    {
        Self {}
    }

    /// Takes every byte out of `src` as one message text, unless it is empty.
    pub fn decode_text(&mut self, src: &mut BytesMut) -> (r: Option<BytesMut>)
        ensures
            buffer_contents(*final(src)) == Seq::<u8>::empty(),
            buffer_contents(*old(src)).len() == 0 <==> r is None,
            r matches Some(b) ==> buffer_contents(b) == buffer_contents(*old(src)),
    {
        let len = buf_len(src);
        if len == 0 {
            return None;
        }
        let all = buf_split_to(src, len);
        proof {
            assert(buffer_contents(*old(src)).take(len as int) =~= buffer_contents(*old(src)));
        }
        Some(all)
    }

    /// Appends the bytes of a message text to `dst`.
    pub fn encode_text(&mut self, text: &[u8], dst: &mut BytesMut)
        requires
            buffer_contents(*old(dst)).len() + text@.len() <= isize::MAX,
        ensures
            buffer_contents(*final(dst)) == buffer_contents(*old(dst)) + text@,
    {
        buf_extend_from_slice(dst, text);
    }
}

} // verus!
