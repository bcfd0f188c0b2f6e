//! The framing codec: cuts a byte stream into multi-service frames and back.
//!
//! On the wire one frame is encoded as
//!
//! ```text
//! u64 total_length (little endian) | frame bytes (header + payload)
//! ```
//!
//! where `total_length` counts the bytes following the prefix, so it is 32
//! (the frame header) plus the payload length. The configured maximum bounds
//! that same count on both the encode and the decode path, so the guard is
//! symmetric.

use vstd::prelude::*;

use crate::bytes_format::BytesFormat;
use crate::bytes_format::HEADER_LEN;
use crate::wire_format::WireErr;

verus! {

/// The wire encoding of one frame: length prefix, then the frame's bytes.
pub open spec fn spec_encoded_frame(fb: Seq<u8>) -> Seq<u8> {
    vstd::bytes::spec_u64_to_le_bytes(fb.len() as u64) + fb
}

/// The wire encoding of a whole sequence of frames, in order.
pub open spec fn spec_encoded_stream(frames: Seq<Seq<u8>>) -> Seq<u8>
    decreases frames.len(),
{
    if frames.len() == 0 {
        Seq::empty()
    } else {
        spec_encoded_frame(frames[0]) + spec_encoded_stream(frames.skip(1))
    }
}

/// The codec framing a byte-stream connection with the multi-service wire
/// format. `max_length` bounds a single frame (header plus payload, without
/// the 8-byte prefix); anything larger is rejected on both paths.
#[derive(Debug)]
pub struct MulServTokioCodec {
    max_length: usize,
}

impl MulServTokioCodec {
    /// The configured bound on a single frame's length.
    pub closed spec fn spec_max_length(&self) -> int {
        self.max_length as int
    }

    /// Creates a codec with the given bound, in bytes, on a single frame
    /// (header included). Setting the bound too high exposes more memory to a
    /// corrupt or malicious peer.
    pub fn new(max_length: usize) -> (r: Self)
        ensures
            r.spec_max_length() == max_length,
    {
        MulServTokioCodec { max_length }
    }

    /// Decodes one frame from the front of `buf`, if a complete one is there.
    ///
    /// Bytes are consumed only when a complete frame is available; otherwise
    /// the buffer is left exactly as it was and the result is `Ok(None)`. A
    /// declared length over the maximum, or under the 32-byte frame header,
    /// is rejected without consuming anything.
    pub fn decode(&mut self, buf: &mut Vec<u8>) -> (r: Result<Option<BytesFormat>, WireErr>)
        ensures
            *final(self) == *old(self),
            old(buf)@.len() < 8 ==> (r matches Ok(None) && final(buf)@ == old(buf)@),
            old(buf)@.len() >= 8 ==> ({
                let l = vstd::bytes::spec_u64_from_le_bytes(old(buf)@.subrange(0, 8)) as int;
                &&& (l > old(self).spec_max_length() ==> (r matches Err(e)
                    && (e matches WireErr::MessageSizeExceeded { size, max_size, .. }
                        && size == l && max_size == old(self).spec_max_length())
                    && final(buf)@ == old(buf)@))
                &&& (l <= old(self).spec_max_length() && l < 32 ==> (r matches Err(e)
                    && e matches WireErr::Deserialize { .. }
                    && final(buf)@ == old(buf)@))
                &&& (32 <= l && l <= old(self).spec_max_length() && old(buf)@.len() < 8 + l
                    ==> (r matches Ok(None) && final(buf)@ == old(buf)@))
                &&& (32 <= l && l <= old(self).spec_max_length() && old(buf)@.len() >= 8 + l
                    ==> (r matches Ok(Some(frame))
                        && frame@ == old(buf)@.subrange(8, 8 + l)
                        && frame.wf()
                        && final(buf)@ == old(buf)@.subrange(8 + l, old(buf)@.len() as int)))
            }),
    {
        if buf.len() < 8 {
            return Ok(None);
        }
        let l64 = vstd::bytes::u64_from_le_bytes(
            vstd::slice::slice_subrange(buf.as_slice(), 0, 8),
        );
        if l64 > self.max_length as u64 {
            return Err(WireErr::MessageSizeExceeded {
                context: String::from_str("MulServTokioCodec: decoding"),
                size: l64,
                max_size: self.max_length as u64,
            });
        }
        let l = l64 as usize;
        if l < HEADER_LEN {
            return Err(WireErr::Deserialize {
                context: String::from_str(
                    "MulServTokioCodec: declared length shorter than the frame header.",
                ),
            });
        }
        if buf.len() - 8 < l {
            return Ok(None);
        }
        let frame_bytes = vstd::slice::slice_to_vec(
            vstd::slice::slice_subrange(buf.as_slice(), 8, 8 + l),
        );
        let rest = vstd::slice::slice_to_vec(
            vstd::slice::slice_subrange(buf.as_slice(), 8 + l, buf.len()),
        );
        *buf = rest;
        match BytesFormat::try_from(frame_bytes) {
            Ok(frame) => Ok(Some(frame)),
            Err(_) => {
                proof {
                    assert(false);
                }
                Ok(None)
            },
        }
    }

    /// Encodes one frame onto the back of `buf`: the 8-byte length prefix,
    /// then the frame's bytes. A frame over the maximum is rejected before
    /// anything is written.
    pub fn encode(&mut self, item: BytesFormat, buf: &mut Vec<u8>) -> (r: Result<(), WireErr>)
        ensures
            *final(self) == *old(self),
            item@.len() > old(self).spec_max_length() ==> (r matches Err(e)
                && (e matches WireErr::MessageSizeExceeded { size, max_size, .. }
                    && size == item@.len() && max_size == old(self).spec_max_length())
                && final(buf)@ == old(buf)@),
            item@.len() <= old(self).spec_max_length() ==> (r matches Ok(u)
                && final(buf)@ == old(buf)@ + spec_encoded_frame(item@)),
    {
        if item.len() > self.max_length {
            return Err(WireErr::MessageSizeExceeded {
                context: String::from_str("MulServTokioCodec: encoding"),
                size: item.len() as u64,
                max_size: self.max_length as u64,
            });
        }
        let mut prefix = vstd::bytes::u64_to_le_bytes(item.len() as u64);
        buf.append(&mut prefix);
        let mut body = item.into_vec();
        buf.append(&mut body);
        Ok(())
    }
}

/// Round trip: a buffer holding an encoded frame, followed by anything, reads
/// back as that frame's length, its exact bytes, and the trailing rest. With
/// the decoder's contract this says that decoding an encoded frame yields the
/// frame unchanged — length, service id, connection id and payload — and
/// consumes nothing beyond it.
pub proof fn lemma_encoded_frame_decodes(fb: Seq<u8>, rest: Seq<u8>)
    requires
        32 <= fb.len() <= u64::MAX,
    ensures
        ({
            let b = spec_encoded_frame(fb) + rest;
            &&& b.len() == 8 + fb.len() + rest.len()
            &&& vstd::bytes::spec_u64_from_le_bytes(b.subrange(0, 8)) == fb.len()
            &&& b.subrange(8, 8 + fb.len() as int) == fb
            &&& b.subrange(8 + fb.len() as int, b.len() as int) == rest
        }),
{
    vstd::bytes::lemma_auto_spec_u64_to_from_le_bytes();
    let b = spec_encoded_frame(fb) + rest;
    assert(b.subrange(0, 8) =~= vstd::bytes::spec_u64_to_le_bytes(fb.len() as u64));
    assert(b.subrange(8, 8 + fb.len() as int) =~= fb);
    assert(b.subrange(8 + fb.len() as int, b.len() as int) =~= rest);
}

/// Partial delivery, the waiting half: a buffer holding any strict prefix of
/// an encoded frame is not mistaken for a frame. Either the length field is
/// not complete yet, or it already reads the frame's true length while the
/// buffer is still shorter than prefix plus frame — so, by the decoder's
/// contract, the decoder reports "need more data" and consumes nothing.
pub proof fn lemma_partial_frame_needs_more(fb: Seq<u8>, n: int)
    requires
        32 <= fb.len() <= u64::MAX,
        0 <= n < spec_encoded_frame(fb).len(),
    ensures
        ({
            let b = spec_encoded_frame(fb).take(n);
            &&& b.len() < 8 + fb.len()
            &&& n >= 8 ==> vstd::bytes::spec_u64_from_le_bytes(b.subrange(0, 8)) == fb.len()
        }),
{
    vstd::bytes::lemma_auto_spec_u64_to_from_le_bytes();
    let b = spec_encoded_frame(fb).take(n);
    if n >= 8 {
        assert(b.subrange(0, 8) =~= vstd::bytes::spec_u64_to_le_bytes(fb.len() as u64));
    }
}

/// Partial delivery, the progress half: however a well-formed stream of
/// frames is cut into chunks, the decoder's buffer — always some prefix of
/// the not-yet-decoded remainder — either still waits for frame `k`, or
/// yields exactly frame `k` and is left holding a prefix of the remainder
/// after it. Applied frame by frame this says that feeding the stream in
/// arbitrary chunks yields the same frames, in the same order, as feeding it
/// whole.
pub proof fn lemma_chunk_boundaries_immaterial(frames: Seq<Seq<u8>>, k: int, n: int)
    requires
        0 <= k < frames.len(),
        forall|i: int| 0 <= i < frames.len() ==> 32 <= (#[trigger] frames[i]).len() <= u64::MAX,
        0 <= n <= spec_encoded_stream(frames.skip(k)).len(),
    ensures
        ({
            let b = spec_encoded_stream(frames.skip(k)).take(n);
            let fl = frames[k].len() as int;
            &&& (n < 8 + fl ==> {
                &&& b.len() < 8 + fl
                &&& n >= 8 ==> vstd::bytes::spec_u64_from_le_bytes(b.subrange(0, 8)) == fl
            })
            &&& (n >= 8 + fl ==> {
                &&& vstd::bytes::spec_u64_from_le_bytes(b.subrange(0, 8)) == fl
                &&& b.subrange(8, 8 + fl) == frames[k]
                &&& b.subrange(8 + fl, b.len() as int)
                    == spec_encoded_stream(frames.skip(k + 1)).take(n - 8 - fl)
            })
        }),
{
    vstd::bytes::lemma_auto_spec_u64_to_from_le_bytes();
    assert(spec_encoded_frame(frames[k]).len() == 8 + frames[k].len());
    let tail = spec_encoded_stream(frames.skip(k + 1));
    assert(frames.skip(k).skip(1) =~= frames.skip(k + 1));
    assert(frames.skip(k)[0] == frames[k]);
    assert(spec_encoded_stream(frames.skip(k)) == spec_encoded_frame(frames[k]) + tail);
    let fl = frames[k].len() as int;
    let b = spec_encoded_stream(frames.skip(k)).take(n);
    if n < 8 + fl {
        assert(b =~= spec_encoded_frame(frames[k]).take(n));
        lemma_partial_frame_needs_more(frames[k], n);
    } else {
        lemma_encoded_frame_decodes(frames[k], tail);
        let whole = spec_encoded_frame(frames[k]) + tail;
        assert(b.subrange(0, 8) =~= whole.subrange(0, 8));
        assert(b.subrange(8, 8 + fl) =~= whole.subrange(8, 8 + fl));
        assert(b.subrange(8 + fl, b.len() as int) =~= tail.take(n - 8 - fl));
    }
}

} // verus!
