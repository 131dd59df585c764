use vstd::arithmetic::div_mod::{
    lemma_div_denominator, lemma_div_is_ordered, lemma_fundamental_div_mod, lemma_small_mod,
};
use vstd::prelude::*;

verus! {

/// The little-endian byte image of a 32-bit value: byte `i` holds the value
/// divided by `256^i`, modulo 256.
pub open spec fn u32_le_bytes(x: u32) -> Seq<u8> {
    seq![
        (x as int % 0x100) as u8,
        (x as int / 0x100 % 0x100) as u8,
        (x as int / 0x10000 % 0x100) as u8,
        (x as int / 0x1000000 % 0x100) as u8,
    ]
}

/// The 32-bit value a little-endian 4-byte image denotes.
pub open spec fn u32_of_le_bytes(b: Seq<u8>) -> u32
    recommends
        b.len() == 4,
{
    (b[0] as int + b[1] as int * 0x100 + b[2] as int * 0x10000 + b[3] as int * 0x1000000) as u32
}

/// Reading a 32-bit value's own little-endian image back gives the value.
pub proof fn lemma_u32_le_bytes_roundtrip(x: u32)
    ensures
        u32_of_le_bytes(u32_le_bytes(x)) == x,
{
    let xi = x as int;
    lemma_fundamental_div_mod(xi, 0x100);
    lemma_fundamental_div_mod(xi / 0x100, 0x100);
    lemma_fundamental_div_mod(xi / 0x10000, 0x100);
    lemma_div_denominator(xi, 0x100, 0x100);
    lemma_div_denominator(xi, 0x10000, 0x100);
    lemma_div_is_ordered(xi, u32::MAX as int, 0x1000000);
    assert(u32::MAX as int / 0x1000000 == 0xff);
    lemma_small_mod((xi / 0x1000000) as nat, 0x100);
}

/// A plain value the library can store into raw storage and read back: it
/// occupies exactly `size_of::<Self>()` bytes and has an exact byte image.
pub trait Storable: Sized + Copy {
    /// The byte image of the value, of length `size_of::<Self>()`.
    spec fn to_bytes(self) -> Seq<u8>;

    /// The value a byte image of the right length denotes.
    spec fn from_bytes(b: Seq<u8>) -> Self;

    /// The byte image always has the type's width.
    proof fn lemma_to_bytes_len(self)
        ensures
            self.to_bytes().len() == vstd::layout::size_of::<Self>(),
    ;

    /// Reading a value's own image back gives the value.
    proof fn lemma_roundtrip(self)
        ensures
            Self::from_bytes(self.to_bytes()) == self,
    ;

    /// Writes the value's byte image.
    fn store(self) -> (b: Vec<u8>)
        ensures
            b@ == self.to_bytes(),
    ;

    /// Reads a value back from a byte image.
    fn load(b: &[u8]) -> (v: Self)
        requires
            b@.len() == vstd::layout::size_of::<Self>(),
        ensures
            v == Self::from_bytes(b@),
    ;
}

impl Storable for u8 {
    open spec fn to_bytes(self) -> Seq<u8> {
        seq![self]
    }

    open spec fn from_bytes(b: Seq<u8>) -> Self {
        b[0]
    }

    proof fn lemma_to_bytes_len(self) {
        broadcast use vstd::layout::layout_of_primitives;

    }

    proof fn lemma_roundtrip(self) {
        assert(seq![self][0] == self);
    }

    fn store(self) -> (b: Vec<u8>) {
        let mut v: Vec<u8> = Vec::new();
        v.push(self);
        proof {
            assert(v@ =~= seq![self]);
        }
        v
    }

    fn load(b: &[u8]) -> (v: Self) {
        proof {
            broadcast use vstd::layout::layout_of_primitives;

        }
        *vstd::slice::slice_index_get(b, 0)
    }
}

impl Storable for u32 {
    open spec fn to_bytes(self) -> Seq<u8> {
        u32_le_bytes(self)
    }

    open spec fn from_bytes(b: Seq<u8>) -> Self {
        u32_of_le_bytes(b)
    }

    proof fn lemma_to_bytes_len(self) {
        broadcast use vstd::layout::layout_of_primitives;

    }

    proof fn lemma_roundtrip(self) {
        lemma_u32_le_bytes_roundtrip(self);
    }

    fn store(self) -> (b: Vec<u8>) {
        let mut v: Vec<u8> = Vec::new();
        v.push((self % 0x100) as u8);
        v.push((self / 0x100 % 0x100) as u8);
        v.push((self / 0x10000 % 0x100) as u8);
        v.push((self / 0x1000000 % 0x100) as u8);
        proof {
            assert(v@ =~= u32_le_bytes(self));
        }
        v
    }

    fn load(b: &[u8]) -> (v: Self) {
        proof {
            broadcast use vstd::layout::layout_of_primitives;

        }
        let b0 = *vstd::slice::slice_index_get(b, 0) as u32;
        let b1 = *vstd::slice::slice_index_get(b, 1) as u32;
        let b2 = *vstd::slice::slice_index_get(b, 2) as u32;
        let b3 = *vstd::slice::slice_index_get(b, 3) as u32;
        b0 + b1 * 0x100 + b2 * 0x10000 + b3 * 0x1000000
    }
}

impl Storable for i32 {
    open spec fn to_bytes(self) -> Seq<u8> {
        u32_le_bytes(self as u32)
    }

    open spec fn from_bytes(b: Seq<u8>) -> Self {
        u32_of_le_bytes(b) as i32
    }

    proof fn lemma_to_bytes_len(self) {
        broadcast use vstd::layout::layout_of_primitives;

    }

    proof fn lemma_roundtrip(self) {
        lemma_u32_le_bytes_roundtrip(self as u32);
        assert(((self as u32) as i32) == self) by (bit_vector);
    }

    fn store(self) -> (b: Vec<u8>) {
        (self as u32).store()
    }

    fn load(b: &[u8]) -> (v: Self) {
        proof {
            broadcast use vstd::layout::layout_of_primitives;

        }
        u32::load(b) as i32
    }
}

} // verus!
