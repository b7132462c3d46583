//! The dual-buffer pair: one device-resident buffer for shader work, one
//! host-mappable staging buffer for readback.
//!
//! A pair carries its logical byte size — exactly the declared data size —
//! while both device resources are allocated with that size rounded up to
//! the device's 4-byte copy alignment, identically for the two. Results
//! come back by recording a device-to-staging copy and later mapping the
//! staging buffer through the asynchronous map/poll handshake; a read hands
//! back exactly the logical size. A rejected allocation is returned as an
//! error, not aborted on.

use crate::data::Data;
use crate::device;
use crate::device::{buffer_id, buffer_init_bytes, buffer_size, buffer_usage, encoder_commands,
    Command};
use crate::error::EngineError;
use crate::gpu::Gpu;
use crate::layout::{align_up, pad_to_align, spec_align_up};
use crate::policy::{lemma_combined_flags, lemma_staging_flags, Parameters, Usage, COPY_DST_BIT,
    COPY_SRC_BIT, MAP_READ_BIT};
use std::rc::Rc;
use vstd::prelude::*;

verus! {

/// A buffer pair on one device: the shader-visible buffer, its staging
/// twin, and the logical byte size both were sized for.
pub struct BufferPair {
    pub gpu: Rc<Gpu>,
    pub storage_buffer: wgpu::Buffer,
    pub staging_buffer: wgpu::Buffer,
    pub size: u64,
}

impl BufferPair {
    /// Well-formed: both device resources carry the logical size rounded to
    /// the copy alignment, the staging twin is host-mappable and a copy
    /// target, and the shader-visible buffer is a copy source.
    pub open spec fn wf(self) -> bool {
        &&& buffer_size(self.storage_buffer) == spec_align_up(self.size)
        &&& buffer_size(self.staging_buffer) == spec_align_up(self.size)
        &&& buffer_usage(self.staging_buffer) == MAP_READ_BIT | COPY_DST_BIT
        &&& buffer_usage(self.storage_buffer) & COPY_SRC_BIT == COPY_SRC_BIT
        &&& self.size + 3 < u64::MAX
        &&& self.size <= usize::MAX
    }

    /// Creates a buffer pair seeded with the descriptor's bytes, or returns
    /// the device's error for a rejected allocation.
    ///
    /// On success the pair's size is exactly `data.spec_size()`; the
    /// shader-visible buffer starts holding `data.spec_bytes()`, zero-padded
    /// to the copy alignment, and carries the policy's capability flags; the
    /// staging buffer is created empty and host-mappable; and both device
    /// resources have identical byte size.
    pub fn new(
        gpu: Rc<Gpu>,
        parameters: Parameters,
        usage: Usage,
        data: &Data,
        name: Option<&str>,
    ) -> (r: Result<Rc<BufferPair>, EngineError>)
        requires
            data.spec_size() + 3 < usize::MAX,
        ensures
            r matches Ok(b) ==> {
                &&& b.wf()
                &&& b.size == data.spec_size()
                &&& buffer_size(b.storage_buffer) == buffer_size(b.staging_buffer)
                &&& buffer_usage(b.storage_buffer) == parameters.read_write.spec_usage_bits()
                    | usage.spec_usage_bits()
                &&& buffer_init_bytes(b.storage_buffer) == data.spec_bytes() + Seq::new(
                    (spec_align_up(data.spec_size() as u64) - data.spec_size()) as nat,
                    |i: int| 0u8,
                )
            },
    {
        let bytes = data.bytes();
        let size = bytes.len() as u64;
        let padded = pad_to_align(bytes);
        proof {
            lemma_staging_flags();
            lemma_combined_flags(parameters.read_write, usage);
        }
        let staging_buffer = match device::create_buffer(
            &gpu.device,
            align_up(size),
            MAP_READ_BIT | COPY_DST_BIT,
            name,
        ) {
            Ok(b) => b,
            Err(e) => {
                return Err(e);
            },
        };
        let usage_bits = parameters.read_write.usage_bits() | usage.usage_bits();
        let storage_buffer = if padded.len() == 0 {
            match device::create_buffer(&gpu.device, 0, usage_bits, name) {
                Ok(b) => b,
                Err(e) => {
                    return Err(e);
                },
            }
        } else {
            match device::create_buffer_seeded(&gpu.device, &padded, usage_bits, name) {
                Ok(b) => b,
                Err(e) => {
                    return Err(e);
                },
            }
        };
        proof {
            if padded@.len() == 0 {
                assert(buffer_init_bytes(storage_buffer) =~= padded@);
            }
        }
        Ok(Rc::new(BufferPair { gpu, storage_buffer, staging_buffer, size }))
    }

    /// Creates a zero-initialized buffer pair for `size_in_elements`
    /// elements of `element_size` bytes each, or returns the device's error
    /// for a rejected allocation.
    ///
    /// On success the pair's size is exactly the element total, both device
    /// resources have identical byte size, the shader-visible buffer
    /// carries the policy's capability flags, and both start zero-filled.
    pub fn new_empty(
        gpu: Rc<Gpu>,
        parameters: Parameters,
        usage: Usage,
        size_in_elements: usize,
        element_size: usize,
        name: Option<&str>,
    ) -> (r: Result<Rc<BufferPair>, EngineError>)
        requires
            size_in_elements * element_size + 3 < usize::MAX,
        ensures
            r matches Ok(b) ==> {
                &&& b.wf()
                &&& b.size == size_in_elements * element_size
                &&& buffer_size(b.storage_buffer) == buffer_size(b.staging_buffer)
                &&& buffer_usage(b.storage_buffer) == parameters.read_write.spec_usage_bits()
                    | usage.spec_usage_bits()
                &&& buffer_init_bytes(b.storage_buffer) == Seq::new(
                    spec_align_up((size_in_elements * element_size) as u64) as nat,
                    |i: int| 0u8,
                )
            },
    {
        let size = (size_in_elements as u64) * (element_size as u64);
        let allocated = align_up(size);
        proof {
            lemma_staging_flags();
            lemma_combined_flags(parameters.read_write, usage);
        }
        let staging_buffer = match device::create_buffer(
            &gpu.device,
            allocated,
            MAP_READ_BIT | COPY_DST_BIT,
            name,
        ) {
            Ok(b) => b,
            Err(e) => {
                return Err(e);
            },
        };
        let usage_bits = parameters.read_write.usage_bits() | usage.usage_bits();
        let storage_buffer = match device::create_buffer(&gpu.device, allocated, usage_bits, name) {
            Ok(b) => b,
            Err(e) => {
                return Err(e);
            },
        };
        Ok(Rc::new(BufferPair { gpu, storage_buffer, staging_buffer, size }))
    }

    /// Reads the staging buffer back into host memory.
    ///
    /// Suspends the caller on the device's map/poll handshake until the
    /// completion signal fires. Yields the staged bytes — exactly the
    /// logical `size` of them — or nothing when the mapping fails; a failed
    /// read leaves the buffer unmapped again, so it may be re-issued. An
    /// empty buffer reads as the empty byte sequence without touching the
    /// device. The bytes are only meaningful if a copy to the staging
    /// buffer was submitted and processed.
    pub fn read(&self) -> (r: Option<Vec<u8>>)
        requires
            self.wf(),
        ensures
            r matches Some(bytes) ==> bytes@.len() == self.size,
            self.size == 0 ==> (r matches Some(bytes) && bytes@.len() == 0),
    {
        if self.size == 0 {
            Some(Vec::new())
        } else {
            proof {
                lemma_staging_flags();
            }
            match device::map_read_bytes(&self.gpu.device, &self.staging_buffer) {
                Some(mut bytes) => {
                    // The allocation is padded to the copy alignment; hand
                    // back only the logical size.
                    bytes.truncate(self.size as usize);
                    Some(bytes)
                },
                None => None,
            }
        }
    }

    /// Records a full copy from the shader-visible buffer to its staging
    /// twin into the given command recorder — the allocated (alignment-
    /// padded) length, covering every logical byte. It takes effect only
    /// once the recorded commands are submitted; nothing else in the
    /// recorder changes.
    pub fn copy_to_buffer(&self, encoder: &mut wgpu::CommandEncoder)
        requires
            self.wf(),
        ensures
            encoder_commands(*final(encoder)) == encoder_commands(*old(encoder)).push(
                (Command::Copy {
                    src: buffer_id(self.storage_buffer),
                    dst: buffer_id(self.staging_buffer),
                    len: spec_align_up(self.size),
                }),
            ),
    {
        proof {
            lemma_staging_flags();
        }
        let padded = align_up(self.size);
        device::copy_buffer_full(encoder, &self.storage_buffer, &self.staging_buffer, padded);
    }
}

/// Every well-formed buffer pair's two device resources have identical
/// byte size — the staging twin can always take a full copy of the
/// shader-visible buffer.
pub proof fn lemma_buffer_sizes_match(b: BufferPair)
    requires
        b.wf(),
    ensures
        buffer_size(b.storage_buffer) == buffer_size(b.staging_buffer),
{
}

/// Relies on `Rc::clone`: the returned handle shares the same buffer pair.
#[verifier::external_body]
pub(crate) fn share_buffer(buffer: &Rc<BufferPair>) -> (r: Rc<BufferPair>)
    ensures
        r == *buffer,
{
    buffer.clone()
}

} // verus!
