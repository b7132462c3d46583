//! The device/queue context.
//!
//! A `Gpu` owns the externally acquired device handle and its command
//! queue. It is shared, reference-counted, by every buffer and shader
//! created from it. Acquiring the device (adapter negotiation) is the
//! surrounding application's business; the context starts from the two
//! handles. Every creation call returns the device's error, rather than
//! aborting, when the request is rejected.

use crate::buffer::BufferPair;
use crate::data::Data;
use crate::device::{buffer_init_bytes, buffer_size, buffer_usage};
use crate::error::EngineError;
use crate::layout::spec_align_up;
use crate::policy::{Parameters, ReadWrite, Usage};
use std::rc::Rc;
use vstd::prelude::*;

verus! {

/// The GPU connection: a device and its in-order submission queue.
pub struct Gpu {
    pub device: wgpu::Device,
    pub queue: wgpu::Queue,
}

impl Gpu {
    /// Wraps an externally acquired device and queue as a shared context.
    pub fn new(device: wgpu::Device, queue: wgpu::Queue) -> (g: Rc<Gpu>)
        ensures
            g.device == device,
            g.queue == queue,
    {
        Rc::new(Gpu { device, queue })
    }

    /// Creates a buffer pair on this context, seeded from the descriptor,
    /// with the given policy; a rejected allocation is the error.
    pub fn create_buffer(
        self: &Rc<Gpu>,
        data: &Data,
        parameters: Parameters,
        usage: Usage,
        name: Option<&str>,
    ) -> (r: Result<Rc<BufferPair>, EngineError>)
        requires
            data.spec_size() + 3 < usize::MAX,
        ensures
            r matches Ok(b) ==> {
                &&& b.wf()
                &&& b.size == data.spec_size()
                &&& buffer_size(b.storage_buffer) == buffer_size(b.staging_buffer)
                &&& buffer_usage(b.storage_buffer) == parameters.read_write.spec_usage_bits()
                    | usage.spec_usage_bits()
                &&& buffer_init_bytes(b.storage_buffer) == data.spec_bytes() + Seq::new(
                    (spec_align_up(data.spec_size() as u64) - data.spec_size()) as nat,
                    |i: int| 0u8,
                )
            },
    {
        BufferPair::new(share_gpu(self), parameters, usage, data, name)
    }

    /// Creates a uniform buffer seeded with one element's bytes; the host
    /// only writes it. A rejected allocation is the error.
    pub fn create_uniform(self: &Rc<Gpu>, bytes: Vec<u8>) -> (r: Result<Rc<BufferPair>, EngineError>)
        requires
            bytes@.len() + 3 < usize::MAX,
        ensures
            r matches Ok(b) ==> {
                &&& b.wf()
                &&& b.size == bytes@.len()
                &&& buffer_size(b.storage_buffer) == buffer_size(b.staging_buffer)
                &&& buffer_usage(b.storage_buffer) == ReadWrite::Write.spec_usage_bits()
                    | Usage::Uniform.spec_usage_bits()
                &&& buffer_init_bytes(b.storage_buffer) == bytes@ + Seq::new(
                    (spec_align_up(bytes@.len() as u64) - bytes@.len()) as nat,
                    |i: int| 0u8,
                )
            },
    {
        let data = Data::Single(bytes);
        BufferPair::new(
            share_gpu(self),
            Parameters { read_write: ReadWrite::Write },
            Usage::Uniform,
            &data,
            None,
        )
    }

    /// Creates a storage buffer seeded with a sequence's bytes; the host
    /// only writes it. A rejected allocation is the error.
    pub fn create_storage_buffer_with_data(self: &Rc<Gpu>, data: Vec<u8>) -> (r: Result<
        Rc<BufferPair>,
        EngineError,
    >)
        requires
            data@.len() + 3 < usize::MAX,
        ensures
            r matches Ok(b) ==> {
                &&& b.wf()
                &&& b.size == data@.len()
                &&& buffer_size(b.storage_buffer) == buffer_size(b.staging_buffer)
                &&& buffer_usage(b.storage_buffer) == ReadWrite::Write.spec_usage_bits()
                    | Usage::Storage.spec_usage_bits()
                &&& buffer_init_bytes(b.storage_buffer) == data@ + Seq::new(
                    (spec_align_up(data@.len() as u64) - data@.len()) as nat,
                    |i: int| 0u8,
                )
            },
    {
        let data = Data::Slice(data);
        BufferPair::new(
            share_gpu(self),
            Parameters { read_write: ReadWrite::Write },
            Usage::Storage,
            &data,
            None,
        )
    }

    /// Creates a zero-initialized storage buffer for `size_in_elements`
    /// elements of `element_size` bytes each, readable and writable by the
    /// host. A rejected allocation is the error.
    pub fn create_storage_buffer(
        self: &Rc<Gpu>,
        size_in_elements: usize,
        element_size: usize,
    ) -> (r: Result<Rc<BufferPair>, EngineError>)
        requires
            size_in_elements * element_size + 3 < usize::MAX,
        ensures
            r matches Ok(b) ==> {
                &&& b.wf()
                &&& b.size == size_in_elements * element_size
                &&& buffer_size(b.storage_buffer) == buffer_size(b.staging_buffer)
                &&& buffer_usage(b.storage_buffer) == ReadWrite::ReadWrite.spec_usage_bits()
                    | Usage::Storage.spec_usage_bits()
                &&& buffer_init_bytes(b.storage_buffer) == Seq::new(
                    spec_align_up((size_in_elements * element_size) as u64) as nat,
                    |i: int| 0u8,
                )
            },
    {
        BufferPair::new_empty(
            share_gpu(self),
            Parameters { read_write: ReadWrite::ReadWrite },
            Usage::Storage,
            size_in_elements,
            element_size,
            None,
        )
    }
}

/// Relies on `Rc::clone`: the returned handle shares the same context.
#[verifier::external_body]
pub(crate) fn share_gpu(gpu: &Rc<Gpu>) -> (r: Rc<Gpu>)
    ensures
        r == *gpu,
{
    gpu.clone()
}

} // verus!
