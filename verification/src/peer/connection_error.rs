//! The connection-level error value carried on the wire back to a remote
//! peer, and its byte encoding.
//!
//! These values travel in the payload of a frame whose service id is null.
//! They deliberately carry no local-process detail — no actor ids, no peer
//! names — only what the remote needs to understand the failure.
//!
//! The encoding is one tag byte followed by the variant's data: the 16 id
//! bytes for the service-carrying variants, two little-endian `u64`s for the
//! size guard, nothing for the rest.

use vstd::prelude::*;

verus! {

/// An error on the connection level, as reported to the remote peer.
#[derive(Debug, Clone, PartialEq, Eq)]
pub enum ConnectionError {
    /// Data arrived that could not be deserialized; the stream may be
    /// corrupt.
    Deserialize,
    /// Something went wrong inside the receiving process; the request
    /// failed but the stream is intact.
    InternalServerError,
    /// The connection to a relay went down after a call had been forwarded
    /// but before its response came back.
    LostRelayBeforeResponse,
    /// No handler is known for the service id carried in the payload.
    UnknownService(Vec<u8>),
    /// Forwarding to the relay responsible for the service id in the payload
    /// failed.
    FailedToRelay(Vec<u8>),
    /// A frame exceeded the configured maximum size.
    MessageSizeExceeded { size: u64, max_size: u64 },
}

/// The wire bytes of a connection error.
pub open spec fn spec_conn_err_bytes(e: ConnectionError) -> Seq<u8> {
    match e {
        ConnectionError::Deserialize => seq![0u8],
        ConnectionError::InternalServerError => seq![1u8],
        ConnectionError::LostRelayBeforeResponse => seq![2u8],
        ConnectionError::UnknownService(s) => seq![3u8] + s@,
        ConnectionError::FailedToRelay(s) => seq![4u8] + s@,
        ConnectionError::MessageSizeExceeded { size, max_size } =>
            seq![5u8] + vstd::bytes::spec_u64_to_le_bytes(size)
                + vstd::bytes::spec_u64_to_le_bytes(max_size),
    }
}

/// Whether a byte string is the encoding of some connection error.
pub open spec fn spec_conn_err_valid(b: Seq<u8>) -> bool {
    &&& b.len() >= 1
    &&& (b[0] == 0 || b[0] == 1 || b[0] == 2 ==> b.len() == 1)
    &&& (b[0] == 5 ==> b.len() == 17)
    &&& b[0] <= 5
}

/// Every encoding the encoder produces, the decoder accepts.
pub proof fn lemma_conn_err_encoding_valid(e: ConnectionError)
    ensures
        spec_conn_err_valid(spec_conn_err_bytes(e)),
{
    vstd::bytes::lemma_auto_spec_u64_to_from_le_bytes();
}

impl ConnectionError {
    /// A fresh value with the same wire encoding, for when one error must be
    /// both reported to observers and delivered to a waiting caller.
    pub fn duplicate(&self) -> (r: Self)
        ensures
            spec_conn_err_bytes(r) == spec_conn_err_bytes(*self),
    {
        match self {
            ConnectionError::Deserialize => ConnectionError::Deserialize,
            ConnectionError::InternalServerError => ConnectionError::InternalServerError,
            ConnectionError::LostRelayBeforeResponse => ConnectionError::LostRelayBeforeResponse,
            ConnectionError::UnknownService(s) => ConnectionError::UnknownService(
                vstd::slice::slice_to_vec(s.as_slice()),
            ),
            ConnectionError::FailedToRelay(s) => ConnectionError::FailedToRelay(
                vstd::slice::slice_to_vec(s.as_slice()),
            ),
            ConnectionError::MessageSizeExceeded { size, max_size } =>
                ConnectionError::MessageSizeExceeded { size: *size, max_size: *max_size },
        }
    }

    /// Serializes the error for the wire.
    pub fn encode(&self) -> (r: Vec<u8>)
        ensures
            r@ == spec_conn_err_bytes(*self),
    {
        let mut v: Vec<u8> = Vec::new();
        match self {
            ConnectionError::Deserialize => {
                v.push(0u8);
            },
            ConnectionError::InternalServerError => {
                v.push(1u8);
            },
            ConnectionError::LostRelayBeforeResponse => {
                v.push(2u8);
            },
            ConnectionError::UnknownService(s) => {
                v.push(3u8);
                let mut tail = vstd::slice::slice_to_vec(s.as_slice());
                v.append(&mut tail);
                proof {
                    assert(v@ =~= seq![3u8] + s@);
                }
            },
            ConnectionError::FailedToRelay(s) => {
                v.push(4u8);
                let mut tail = vstd::slice::slice_to_vec(s.as_slice());
                v.append(&mut tail);
                proof {
                    assert(v@ =~= seq![4u8] + s@);
                }
            },
            ConnectionError::MessageSizeExceeded { size, max_size } => {
                v.push(5u8);
                let mut sz = vstd::bytes::u64_to_le_bytes(*size);
                v.append(&mut sz);
                let mut mx = vstd::bytes::u64_to_le_bytes(*max_size);
                v.append(&mut mx);
                proof {
                    assert(v@ =~= seq![5u8] + vstd::bytes::spec_u64_to_le_bytes(*size)
                        + vstd::bytes::spec_u64_to_le_bytes(*max_size));
                }
            },
        }
        v
    }

    /// Reads an error back from its wire bytes. Exactly the valid encodings
    /// decode, and each to the value whose encoding the input is.
    pub fn decode(b: &Vec<u8>) -> (r: Option<ConnectionError>)
        ensures
            spec_conn_err_valid(b@) ==> (r matches Some(e) && spec_conn_err_bytes(e) == b@),
            !spec_conn_err_valid(b@) ==> r is None,
    {
        if b.len() == 0 {
            return None;
        }
        let tag = b[0];
        if tag == 0 {
            if b.len() == 1 {
                proof {
                    assert(b@ =~= seq![0u8]);
                }
                Some(ConnectionError::Deserialize)
            } else {
                None
            }
        } else if tag == 1 {
            if b.len() == 1 {
                proof {
                    assert(b@ =~= seq![1u8]);
                }
                Some(ConnectionError::InternalServerError)
            } else {
                None
            }
        } else if tag == 2 {
            if b.len() == 1 {
                proof {
                    assert(b@ =~= seq![2u8]);
                }
                Some(ConnectionError::LostRelayBeforeResponse)
            } else {
                None
            }
        } else if tag == 3 {
            let s = vstd::slice::slice_to_vec(
                vstd::slice::slice_subrange(b.as_slice(), 1, b.len()),
            );
            let r = ConnectionError::UnknownService(s);
            proof {
                assert(spec_conn_err_bytes(r) =~= b@);
            }
            Some(r)
        } else if tag == 4 {
            let s = vstd::slice::slice_to_vec(
                vstd::slice::slice_subrange(b.as_slice(), 1, b.len()),
            );
            let r = ConnectionError::FailedToRelay(s);
            proof {
                assert(spec_conn_err_bytes(r) =~= b@);
            }
            Some(r)
        } else if tag == 5 {
            if b.len() == 17 {
                let size = vstd::bytes::u64_from_le_bytes(
                    vstd::slice::slice_subrange(b.as_slice(), 1, 9),
                );
                let max_size = vstd::bytes::u64_from_le_bytes(
                    vstd::slice::slice_subrange(b.as_slice(), 9, 17),
                );
                let r = ConnectionError::MessageSizeExceeded { size, max_size };
                proof {
                    vstd::bytes::lemma_auto_spec_u64_to_from_le_bytes();
                    assert(vstd::bytes::spec_u64_to_le_bytes(size) =~= b@.subrange(1, 9));
                    assert(vstd::bytes::spec_u64_to_le_bytes(max_size) =~= b@.subrange(9, 17));
                    assert(spec_conn_err_bytes(r) =~= b@);
                }
                Some(r)
            } else {
                None
            }
        } else {
            None
        }
    }
}

} // verus!
