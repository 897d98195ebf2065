//! Length-prefixed framing of messages: a two-byte big-endian length that counts the
//! whole frame, one byte of protocol version, then the encoded message.
use super::buf::{
    buf_advance, buf_byte, buf_clear, buf_extend_from_slice, buf_len, buf_reserve, buf_split_to,
    buffer_contents,
};
use bytes::BytesMut;
use vstd::prelude::*;

verus! {

/// Bytes of the frame header: the length (two bytes) and the protocol version (one byte).
pub const HEADER_LEN: usize = 3;

/// The longest frame a peer accepts; a header that declares more is discarded with the
/// whole buffer.
pub const MSG_MAX_LEN: usize = 1024;

/// The frame length that a header declares.
pub open spec fn declared_len(buf: Seq<u8>) -> int {
    buf[0] * 256 + buf[1]
}

/// The header of a frame for a body of `body_len` bytes: its length, counted with the
/// header and taken modulo 2^16, in big-endian order, then the version.
pub open spec fn frame_header(body_len: nat, version: u8) -> Seq<u8> {
    let total = (body_len + 3) % 65536;
    seq![(total / 256) as u8, (total % 256) as u8, version]
}

/// A whole frame for `body`.
pub open spec fn frame(body: Seq<u8>, version: u8) -> Seq<u8> {
    frame_header(body.len(), version) + body
}

/// What decoding does to a buffer: the bytes left in it, and the body handed out.
/// Too short for a header, or for the declared frame: nothing happens. A declared length
/// over the limit: the buffer is emptied. Another protocol version: the frame is skipped.
/// Otherwise the frame is taken out and its body handed out.
pub open spec fn spec_decode(buf: Seq<u8>, version: u8) -> (Seq<u8>, Option<Seq<u8>>) {
    if buf.len() < HEADER_LEN {
        (buf, None)
    } else if declared_len(buf) > MSG_MAX_LEN {
        (Seq::empty(), None)
    } else if buf.len() < declared_len(buf) {
        (buf, None)
    } else if buf[2] != version {
        (buf.skip(declared_len(buf)), None)
    } else {
        (buf.skip(declared_len(buf)), Some(buf.subrange(HEADER_LEN as int, declared_len(buf))))
    }
}

/// A frame of this version whose declared length is shorter than its own header: taking
/// the body out of it would index past the frame.
pub open spec fn decode_faults(buf: Seq<u8>, version: u8) -> bool {
    &&& buf.len() >= HEADER_LEN
    &&& declared_len(buf) < HEADER_LEN
    &&& buf[2] == version
}

/// The binary framing codec.
#[derive(Debug)]
pub struct MsgCodec;

impl Default for MsgCodec {
    fn default() -> (r: Self)
        ensures
            r == MsgCodec,
    {
        MsgCodec
    }
}

impl MsgCodec {
    /// Takes the next frame out of `src` when it is complete and of `protocol_version`, and
    /// returns its body; see `spec_decode` for what is left in `src` in every case.
    pub fn decode_frame(&mut self, src: &mut BytesMut, protocol_version: u8) -> (r: Option<
        BytesMut,
    >)
        requires
            !decode_faults(buffer_contents(*old(src)), protocol_version),
        ensures
            buffer_contents(*final(src)) == spec_decode(
                buffer_contents(*old(src)),
                protocol_version,
            ).0,
            match (r, spec_decode(buffer_contents(*old(src)), protocol_version).1) {
                (Some(b), Some(body)) => buffer_contents(b) == body,
                (None, None) => true,
                _ => false,
            },
    {
        let len = buf_len(src);
        if len < HEADER_LEN {
            return None;
        }
        let hi = buf_byte(src, 0);
        let lo = buf_byte(src, 1);
        let version = buf_byte(src, 2);
        let msg_len: usize = (hi as usize) * 256 + (lo as usize);
        if msg_len > MSG_MAX_LEN {
            buf_clear(src);
            return None;
        }
        if len < msg_len {
            buf_reserve(src, msg_len - len);
            return None;
        }
        if version != protocol_version {
            buf_advance(src, msg_len);
            return None;
        }
        let mut frame = buf_split_to(src, msg_len);
        buf_advance(&mut frame, HEADER_LEN);
        proof {
            let old_buf = buffer_contents(*old(src));
            assert(old_buf.take(msg_len as int).skip(HEADER_LEN as int) =~= old_buf.subrange(
                HEADER_LEN as int,
                msg_len as int,
            ));
        }
        Some(frame)
    }

    /// Appends to `dst` the frame of `body`: the header of `frame_header`, then the body.
    pub fn encode_frame(&mut self, body: &[u8], protocol_version: u8, dst: &mut BytesMut)
        requires
            buffer_contents(*old(dst)).len() + HEADER_LEN + body@.len() <= isize::MAX,
        ensures
            buffer_contents(*final(dst)) == buffer_contents(*old(dst)) + frame(
                body@,
                protocol_version,
            ),
    {
        let total: usize = (body.len() + HEADER_LEN) % 65536;
        let header: [u8; 3] = [(total / 256) as u8, (total % 256) as u8, protocol_version];
        proof {
            assert(header@ =~= frame_header(body@.len(), protocol_version));
        }
        buf_extend_from_slice(dst, &header);
        buf_extend_from_slice(dst, body);
        proof {
            assert(buffer_contents(*old(dst)) + header@ + body@ =~= buffer_contents(*old(dst)) + (
            header@ + body@));
        }
    }
}

/// Decoding a frame of the right version, whatever follows it, hands out its body and
/// leaves what follows; of another version, it hands out nothing and still leaves what
/// follows. The body must fit the length limit with its header.
pub proof fn lemma_frame_roundtrip(body: Seq<u8>, version: u8, read_version: u8, rest: Seq<u8>)
    requires
        body.len() + HEADER_LEN <= MSG_MAX_LEN,
    ensures
        !decode_faults(frame(body, version) + rest, read_version),
        spec_decode(frame(body, version) + rest, read_version) == (if read_version == version {
            (rest, Some(body))
        } else {
            (rest, None::<Seq<u8>>)
        }),
{
    let f = frame(body, version) + rest;
    let total = (body.len() + 3) % 65536;
    assert(total == body.len() + 3);
    assert(f[0] == (total / 256) as u8);
    assert(f[1] == (total % 256) as u8);
    assert(declared_len(f) == body.len() + 3);
    assert(f[2] == version);
    assert(f.skip(declared_len(f)) =~= rest);
    assert(f.subrange(HEADER_LEN as int, declared_len(f)) =~= body);
}

/// Decoding only ever drops bytes from the front of the buffer: what is left is a suffix
/// of what was there, and a body handed out is a part of what was dropped.
pub proof fn lemma_decode_consumes_prefix(buf: Seq<u8>, version: u8)
    requires
        !decode_faults(buf, version),
    ensures
        ({
            let (left, body) = spec_decode(buf, version);
            &&& left.len() <= buf.len()
            &&& (left.len() > 0 ==> left =~= buf.skip(buf.len() - left.len()))
            &&& (body matches Some(b) ==> b.len() + HEADER_LEN == buf.len() - left.len())
        }),
{
}

} // verus!
