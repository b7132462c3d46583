//! The data descriptor: what a buffer is seeded with.
//!
//! A descriptor is a plain byte-level value: a contiguous run of homogeneous
//! elements, a single element, or an uninitialized region of a given byte
//! count. Its `size` is always exactly the number of bytes `bytes` yields,
//! and an uninitialized region reads as zero-filled bytes.

use vstd::prelude::*;

verus! {

/// Describes the content a buffer starts with.
///
/// `Slice` carries the byte image of several homogeneous elements, `Single`
/// the byte image of one element, and `Empty(n)` an uninitialized region of
/// `n` bytes that reads as zeroes.
pub enum Data {
    Slice(Vec<u8>),
    Single(Vec<u8>),
    Empty(usize),
}

impl Data {
    /// The exact number of bytes this descriptor allocates.
    pub open spec fn spec_size(self) -> nat {
        match self {
            Data::Slice(b) => b@.len(),
            Data::Single(b) => b@.len(),
            Data::Empty(n) => n as nat,
        }
    }

    /// The byte image this descriptor seeds a buffer with.
    pub open spec fn spec_bytes(self) -> Seq<u8> {
        match self {
            Data::Slice(b) => b@,
            Data::Single(b) => b@,
            Data::Empty(n) => Seq::new(n as nat, |i: int| 0u8),
        }
    }

    /// The byte image is always exactly `size` bytes long.
    pub proof fn lemma_bytes_len_is_size(self)
        ensures
            self.spec_bytes().len() == self.spec_size(),
    {
    }

    /// The byte length that will be allocated for this descriptor.
    pub fn size(&self) -> (r: usize)
        ensures
            r == self.spec_size(),
    {
        match self {
            Data::Slice(b) => b.len(),
            Data::Single(b) => b.len(),
            Data::Empty(n) => *n,
        }
    }

    /// The seed bytes: the stored image, or `size` zeroes for `Empty`.
    pub fn bytes(&self) -> (r: Vec<u8>)
        ensures
            r@ == self.spec_bytes(),
            r@.len() == self.spec_size(),
    {
        match self {
            Data::Slice(b) => copy_bytes(b),
            Data::Single(b) => copy_bytes(b),
            Data::Empty(n) => zero_bytes(*n),
        }
    }
}

/// An owned copy of a byte vector.
fn copy_bytes(b: &Vec<u8>) -> (r: Vec<u8>)
    ensures
        r@ == b@,
{
    let mut out: Vec<u8> = Vec::new();
    let mut i: usize = 0;
    while i < b.len()
        invariant
            i <= b@.len(),
            out@ =~= b@.take(i as int),
        decreases b@.len() - i,
    {
        out.push(b[i]);
        proof {
            assert(out@ =~= b@.take(i + 1));
        }
        i = i + 1;
    }
    proof {
        assert(b@.take(b@.len() as int) =~= b@);
    }
    out
}

/// A vector of `n` zero bytes.
fn zero_bytes(n: usize) -> (r: Vec<u8>)
    ensures
        r@ == Seq::new(n as nat, |i: int| 0u8),
{
    let mut out: Vec<u8> = Vec::new();
    let mut i: usize = 0;
    while i < n
        invariant
            i <= n,
            out@ =~= Seq::new(i as nat, |j: int| 0u8),
        decreases n - i,
    {
        out.push(0u8);
        proof {
            assert(out@ =~= Seq::new((i + 1) as nat, |j: int| 0u8));
        }
        i = i + 1;
    }
    out
}

impl From<Vec<u8>> for Data {
    /// A byte vector converts to a `Slice` descriptor of those bytes.
    fn from(bytes: Vec<u8>) -> (r: Data) {
        Data::Slice(bytes)
    }
}

impl vstd::std_specs::convert::FromSpecImpl<Vec<u8>> for Data {
    open spec fn obeys_from_spec() -> bool {
        true
    }

    open spec fn from_spec(bytes: Vec<u8>) -> Data {
        Data::Slice(bytes)
    }
}

} // verus!
