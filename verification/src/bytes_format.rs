//! The multi-service wire message.
//!
//! One message is a flat byte string, little endian throughout:
//!
//! ```text
//! 16 bytes service id | 16 bytes connection id | payload (may be empty)
//! ```
//!
//! The 32-byte header is the minimum viable frame: building a message from
//! fewer bytes is rejected. The service id tells the receiver whether the
//! frame is for a local handler, is to be relayed, or — when null — is a
//! connection-level message. The connection id correlates a call with its
//! response; null means a fire-and-forget send.

use vstd::prelude::*;

use crate::wire_format::WireErr;
use crate::wire_format::unique_id::ConnID;
use crate::wire_format::unique_id::ServiceID;
use crate::wire_format::unique_id::UniqueID;

verus! {

/// The byte length of the service id plus connection id header.
pub const HEADER_LEN: usize = 32;

/// The service id embedded in the first 16 bytes of a frame.
pub open spec fn spec_sid_of(b: Seq<u8>) -> u128
    recommends
        b.len() >= 32,
{
    vstd::bytes::spec_u128_from_le_bytes(b.subrange(0, 16))
}

/// The connection id embedded in bytes 16..32 of a frame.
pub open spec fn spec_cid_of(b: Seq<u8>) -> u128
    recommends
        b.len() >= 32,
{
    vstd::bytes::spec_u128_from_le_bytes(b.subrange(16, 32))
}

/// The payload: everything after the 32-byte header.
pub open spec fn spec_msg_of(b: Seq<u8>) -> Seq<u8>
    recommends
        b.len() >= 32,
{
    b.subrange(32, b.len() as int)
}

/// The wire bytes of a frame assembled from its three parts.
pub open spec fn spec_frame_bytes(sid: u128, cid: u128, mesg: Seq<u8>) -> Seq<u8> {
    vstd::bytes::spec_u128_to_le_bytes(sid) + vstd::bytes::spec_u128_to_le_bytes(cid) + mesg
}

/// A multi-service message: a window onto one frame's bytes.
#[derive(Debug, Clone, PartialEq, Eq)]
pub struct BytesFormat {
    bytes: Vec<u8>,
}

impl View for BytesFormat {
    type V = Seq<u8>;

    closed spec fn view(&self) -> Seq<u8> {
        self.bytes@
    }
}

impl BytesFormat {
    /// A frame always carries at least its 32-byte header.
    pub open spec fn wf(&self) -> bool {
        self@.len() >= 32
    }

    /// Assembles a frame from a service id, a connection id and a payload.
    pub fn create(sid: ServiceID, cid: ConnID, mesg: Vec<u8>) -> (r: Self)
        ensures
            r@ == spec_frame_bytes(sid.id, cid.id, mesg@),
            r.wf(),
            spec_sid_of(r@) == sid.id,
            spec_cid_of(r@) == cid.id,
            spec_msg_of(r@) == mesg@,
            r@.len() == 32 + mesg@.len(),
    {
        let ghost mesg0 = mesg@;
        let mut bytes = sid.to_bytes();
        let mut cid_bytes = cid.to_bytes();
        let mut mesg = mesg;
        bytes.append(&mut cid_bytes);
        bytes.append(&mut mesg);
        let r = BytesFormat { bytes };
        proof {
            vstd::bytes::lemma_auto_spec_u128_to_from_le_bytes();
            assert(r@.subrange(0, 16) =~= vstd::bytes::spec_u128_to_le_bytes(sid.id));
            assert(r@.subrange(16, 32) =~= vstd::bytes::spec_u128_to_le_bytes(cid.id));
            assert(r@.subrange(32, r@.len() as int) =~= mesg0);
        }
        r
    }

    /// Wraps raw bytes as a frame. Exactly the inputs shorter than the
    /// 32-byte header are rejected, with the deserialize condition.
    pub fn try_from(bytes: Vec<u8>) -> (r: Result<Self, WireErr>)
        ensures
            bytes@.len() >= 32 ==> (r matches Ok(f) && f@ == bytes@),
            bytes@.len() < 32 ==> (r matches Err(e) && e matches WireErr::Deserialize { .. }),
    {
        if bytes.len() < HEADER_LEN {
            Err(WireErr::Deserialize {
                context: String::from_str("BytesFormat: not enough bytes even for the header."),
            })
        } else {
            Ok(BytesFormat { bytes })
        }
    }

    /// The service id this frame is addressed to.
    pub fn service(&self) -> (r: ServiceID)
        requires
            self.wf(),
        ensures
            r.id == spec_sid_of(self@),
    {
        let s = vstd::slice::slice_subrange(self.bytes.as_slice(), 0, 16);
        UniqueID { id: vstd::bytes::u128_from_le_bytes(s) }
    }

    /// The connection id used to match a response to an outgoing call.
    pub fn conn_id(&self) -> (r: ConnID)
        requires
            self.wf(),
        ensures
            r.id == spec_cid_of(self@),
    {
        let s = vstd::slice::slice_subrange(self.bytes.as_slice(), 16, 32);
        UniqueID { id: vstd::bytes::u128_from_le_bytes(s) }
    }

    /// The serialized payload message.
    pub fn mesg(&self) -> (r: Vec<u8>)
        requires
            self.wf(),
        ensures
            r@ == spec_msg_of(self@),
    {
        let s = vstd::slice::slice_subrange(self.bytes.as_slice(), HEADER_LEN, self.bytes.len());
        vstd::slice::slice_to_vec(s)
    }

    /// The total length of the frame in bytes, header plus payload.
    pub fn len(&self) -> (r: usize)
        ensures
            r == self@.len(),
    {
        self.bytes.len()
    }

    /// Gives the frame's bytes up, for writing to the wire.
    pub fn into_vec(self) -> (r: Vec<u8>)
        ensures
            r@ == self@,
    {
        self.bytes
    }
}

} // verus!
