//! Resource policy: how a buffer may be used by the device and the host.
//!
//! Two small enumerations decide the capability bits a device buffer is
//! created with: the storage class (general storage versus small read-mostly
//! uniform data) and the host access direction. The bit values are the ones
//! the device API documents for its buffer-usage flag set; the trusted
//! buffer-creation calls turn them into that flag set unchanged.

use vstd::prelude::*;

verus! {

/// Host-mappable for reading; bit value of the device API's `MAP_READ` flag.
pub const MAP_READ_BIT: u32 = 1;

/// Source of buffer copies; bit value of the device API's `COPY_SRC` flag.
pub const COPY_SRC_BIT: u32 = 4;

/// Target of buffer copies; bit value of the device API's `COPY_DST` flag.
pub const COPY_DST_BIT: u32 = 8;

/// Bindable as uniform data; bit value of the device API's `UNIFORM` flag.
pub const UNIFORM_BIT: u32 = 64;

/// Bindable as storage; bit value of the device API's `STORAGE` flag.
pub const STORAGE_BIT: u32 = 128;

/// The storage class a buffer is declared with.
///
/// `Uniform` deliberately also carries the storage capability, so a buffer
/// declared uniform may still be bound as storage by a later pipeline stage.
pub enum Usage {
    Storage,
    Uniform,
}

/// The host's access direction for a buffer.
///
/// `Write` covers data the host only seeds; `Read` and `ReadWrite` both
/// allow copy-back to the host and currently grant the same capability set,
/// with `Read` conceptually the stricter of the two.
pub enum ReadWrite {
    Read,
    Write,
    ReadWrite,
}

/// Creation parameters for a buffer: its host access direction.
pub struct Parameters {
    pub read_write: ReadWrite,
}

impl Usage {
    /// The capability bits implied by this storage class.
    pub open spec fn spec_usage_bits(self) -> u32 {
        match self {
            Usage::Storage => STORAGE_BIT,
            Usage::Uniform => UNIFORM_BIT | STORAGE_BIT,
        }
    }

    /// Maps the storage class to its capability bits.
    pub fn usage_bits(&self) -> (r: u32)
        ensures
            r == self.spec_usage_bits(),
    {
        match self {
            Usage::Storage => STORAGE_BIT,
            Usage::Uniform => UNIFORM_BIT | STORAGE_BIT,
        }
    }
}

impl ReadWrite {
    /// The capability bits implied by this access direction.
    pub open spec fn spec_usage_bits(self) -> u32 {
        match self {
            ReadWrite::Write => COPY_SRC_BIT,
            ReadWrite::Read => COPY_DST_BIT | COPY_SRC_BIT,
            ReadWrite::ReadWrite => COPY_DST_BIT | COPY_SRC_BIT,
        }
    }

    /// Maps the access direction to its capability bits.
    pub fn usage_bits(&self) -> (r: u32)
        ensures
            r == self.spec_usage_bits(),
    {
        match self {
            ReadWrite::Write => COPY_SRC_BIT,
            ReadWrite::Read => COPY_DST_BIT | COPY_SRC_BIT,
            ReadWrite::ReadWrite => COPY_DST_BIT | COPY_SRC_BIT,
        }
    }
}

/// The staging-buffer flag set is host-mappable and a copy target, is no
/// copy source, and lies within the device API's documented flag mask.
pub proof fn lemma_staging_flags()
    ensures
        (MAP_READ_BIT | COPY_DST_BIT) & MAP_READ_BIT == MAP_READ_BIT,
        (MAP_READ_BIT | COPY_DST_BIT) & COPY_DST_BIT == COPY_DST_BIT,
        (MAP_READ_BIT | COPY_DST_BIT) & COPY_SRC_BIT != COPY_SRC_BIT,
        MAP_READ_BIT | COPY_DST_BIT < 1024,
{
    assert((1u32 | 8u32) & 1u32 == 1u32) by (bit_vector);
    assert((1u32 | 8u32) & 8u32 == 8u32) by (bit_vector);
    assert((1u32 | 8u32) & 4u32 != 4u32) by (bit_vector);
    assert(1u32 | 8u32 == 9u32) by (bit_vector);
}

/// Any combination of an access direction's bits with a storage class's
/// bits carries the copy-source capability and lies within the device API's
/// documented flag mask.
pub proof fn lemma_combined_flags(read_write: ReadWrite, usage: Usage)
    ensures
        (read_write.spec_usage_bits() | usage.spec_usage_bits()) & COPY_SRC_BIT == COPY_SRC_BIT,
        read_write.spec_usage_bits() | usage.spec_usage_bits() < 1024,
{
    let rw = read_write.spec_usage_bits();
    let us = usage.spec_usage_bits();
    assert(rw == COPY_SRC_BIT || rw == (COPY_DST_BIT | COPY_SRC_BIT));
    assert(us == STORAGE_BIT || us == (UNIFORM_BIT | STORAGE_BIT));
    assert(8u32 | 4u32 == 12u32) by (bit_vector);
    assert(64u32 | 128u32 == 192u32) by (bit_vector);
    assert((4u32 | 128u32) & 4u32 == 4u32 && (4u32 | 128u32) < 1024) by (bit_vector);
    assert((4u32 | 192u32) & 4u32 == 4u32 && (4u32 | 192u32) < 1024) by (bit_vector);
    assert((12u32 | 128u32) & 4u32 == 4u32 && (12u32 | 128u32) < 1024) by (bit_vector);
    assert((12u32 | 192u32) & 4u32 == 4u32 && (12u32 | 192u32) < 1024) by (bit_vector);
}

} // verus!
