//! 128-bit identifiers for services and calls.
//!
//! A `UniqueID` is the raw 128-bit value; `ServiceID` names a service exposed
//! to other processes and `ConnID` correlates a call with its response. The
//! all-zero value is the reserved `null` sentinel: as a service id it marks a
//! connection-level message, as a connection id it marks a fire-and-forget
//! send that expects no response.

use vstd::prelude::*;

verus! {

/// The digest that the seeded constructor derives from its input bytes. The
/// hash depends on nothing but those bytes, so the name stands for one fixed
/// function of them.
pub uninterp spec fn seed_digest(data: Seq<u8>) -> u64;

/// Relies on twox_hash::XxHash64 with its default seed: hashing a byte slice
/// yields a 64-bit digest that is a function of the bytes alone.
#[verifier::external_body]
fn xxhash64_digest(data: &[u8]) -> (r: u64)
    ensures
        r == seed_digest(data@),
{
    let mut h = <twox_hash::XxHash64 as core::default::Default>::default();
    core::hash::Hasher::write(&mut h, data);
    core::hash::Hasher::finish(&h)
}

/// Relies on rand::random: draws one uniformly random machine word. Nothing
/// is promised of the value.
#[verifier::external_body]
fn random_u64() -> u64 {
    rand::random::<u64>()
}

/// The identifier the seeded constructor yields: the digest in the low 64
/// bits, zero above.
pub open spec fn spec_from_seed(data: Seq<u8>) -> UniqueID {
    UniqueID { id: seed_digest(data) as u128 }
}

/// Deterministic seeding: the seeded identifier is a function of the seed
/// bytes alone, so identical seed data always yields the identical id — in
/// one process or across processes.
pub proof fn lemma_from_seed_deterministic(a: Seq<u8>, b: Seq<u8>)
    requires
        a == b,
    ensures
        spec_from_seed(a) == spec_from_seed(b),
{
}

/// A 128-bit identifier, stored as one unsigned value whose little-endian
/// bytes are its wire representation.
#[derive(Debug, Clone, Copy, PartialEq, Eq, Hash, Structural)]
pub struct UniqueID {
    pub id: u128,
}

/// Identifies the service a frame is addressed to.
pub type ServiceID = UniqueID;

/// Correlates an outstanding call with its eventual response.
pub type ConnID = UniqueID;

impl UniqueID {
    /// Generates a random identifier, for fresh outstanding calls and
    /// short-lived test services. Collision resistance is probabilistic, so
    /// nothing is stated of the value.
    pub fn random() -> Self {
        let a = random_u64();
        let b = random_u64();
        UniqueID { id: (a as u128) | ((b as u128) << 64) }
    }

    /// Derives an identifier deterministically from seed data, so that the
    /// same logical service always maps to the same id across processes. The
    /// digest fills the low eight wire bytes; the high eight stay zero.
    pub fn from_seed(data: &[u8]) -> (r: Self)
        ensures
            r == spec_from_seed(data@),
            r.id == seed_digest(data@) as u128,
    {
        let h = xxhash64_digest(data);
        UniqueID { id: h as u128 }
    }

    /// The reserved all-zero sentinel.
    pub fn null() -> (r: Self)
        ensures
            r.id == 0,
    {
        UniqueID { id: 0 }
    }

    /// True exactly for the all-zero sentinel.
    pub fn is_null(&self) -> (r: bool)
        ensures
            r == (self.id == 0),
    {
        self.id == 0
    }

    /// The identifier's 16 wire bytes, little endian.
    pub fn to_bytes(&self) -> (r: Vec<u8>)
        ensures
            r@ == vstd::bytes::spec_u128_to_le_bytes(self.id),
            r@.len() == 16,
    {
        vstd::bytes::u128_to_le_bytes(self.id)
    }

    /// Reads an identifier back from its 16 wire bytes.
    ///
    /// Exactly the inputs of a wrong length are rejected.
    pub fn try_from(bytes: Vec<u8>) -> (r: Result<Self, crate::WireErr>)
        ensures
            bytes@.len() == 16 ==> (r matches Ok(u)
                && u.id == vstd::bytes::spec_u128_from_le_bytes(bytes@)),
            bytes@.len() != 16 ==> (r matches Err(e)
                && e matches crate::WireErr::Deserialize { .. }),
    {
        if bytes.len() == 16 {
            let id = vstd::bytes::u128_from_le_bytes(bytes.as_slice());
            Ok(UniqueID { id })
        } else {
            Err(crate::WireErr::Deserialize {
                context: String::from_str("UniqueID: need exactly 16 bytes."),
            })
        }
    }

    /// Renders the identifier as 32 lowercase hex digits, two per wire byte,
    /// in wire (little-endian) order.
    pub fn to_hex(&self) -> (r: String)
        ensures
            r@ == spec_id_hex(self.id),
    {
        let bytes = vstd::bytes::u128_to_le_bytes(self.id);
        let mut s = String::new();
        let mut i: usize = 0;
        while i < bytes.len()
            invariant
                bytes@ == vstd::bytes::spec_u128_to_le_bytes(self.id),
                bytes@.len() == 16,
                i <= 16,
                s@ == spec_bytes_hex(bytes@.take(i as int)),
            decreases 16 - i,
        {
            let b = bytes[i];
            s.append(hex_digit_str(b / 16));
            s.append(hex_digit_str(b % 16));
            proof {
                assert(bytes@.take(i + 1 as int).drop_last() =~= bytes@.take(i as int));
                assert(bytes@.take(i + 1 as int).last() == bytes@[i as int]);
            }
            i = i + 1;
        }
        proof {
            assert(bytes@.take(16) =~= bytes@);
        }
        s
    }
}

/// One lowercase hex digit as a character.
pub open spec fn spec_hex_digit(n: int) -> char {
    if n == 0 { '0' } else if n == 1 { '1' } else if n == 2 { '2' }
    else if n == 3 { '3' } else if n == 4 { '4' } else if n == 5 { '5' }
    else if n == 6 { '6' } else if n == 7 { '7' } else if n == 8 { '8' }
    else if n == 9 { '9' } else if n == 10 { 'a' } else if n == 11 { 'b' }
    else if n == 12 { 'c' } else if n == 13 { 'd' } else if n == 14 { 'e' }
    else { 'f' }
}

/// Two hex digits for one byte, high nibble first.
pub open spec fn spec_byte_hex(b: u8) -> Seq<char> {
    seq![spec_hex_digit(b as int / 16), spec_hex_digit(b as int % 16)]
}

/// The hex rendering of a byte sequence, in order.
pub open spec fn spec_bytes_hex(s: Seq<u8>) -> Seq<char>
    decreases s.len(),
{
    if s.len() == 0 {
        Seq::empty()
    } else {
        spec_bytes_hex(s.drop_last()) + spec_byte_hex(s.last())
    }
}

/// The hex rendering of an identifier: its 16 little-endian bytes.
pub open spec fn spec_id_hex(id: u128) -> Seq<char> {
    spec_bytes_hex(vstd::bytes::spec_u128_to_le_bytes(id))
}

/// One lowercase hex digit, as a string slice.
fn hex_digit_str(d: u8) -> (r: &'static str)
    requires
        d < 16,
    ensures
        r@ == seq![spec_hex_digit(d as int)],
{
    proof {
        reveal_strlit("0");
        reveal_strlit("1");
        reveal_strlit("2");
        reveal_strlit("3");
        reveal_strlit("4");
        reveal_strlit("5");
        reveal_strlit("6");
        reveal_strlit("7");
        reveal_strlit("8");
        reveal_strlit("9");
        reveal_strlit("a");
        reveal_strlit("b");
        reveal_strlit("c");
        reveal_strlit("d");
        reveal_strlit("e");
        reveal_strlit("f");
    }
    match d {
        0 => "0",
        1 => "1",
        2 => "2",
        3 => "3",
        4 => "4",
        5 => "5",
        6 => "6",
        7 => "7",
        8 => "8",
        9 => "9",
        10 => "a",
        11 => "b",
        12 => "c",
        13 => "d",
        14 => "e",
        _ => "f",
    }
}

} // verus!
