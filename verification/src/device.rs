//! The trusted boundary to the device API (wgpu).
//!
//! Everything the library asks of the GPU goes through the items in this
//! module. Each wrapper holds the outside call plus the conversion of its
//! arguments; its contract states only what wgpu's own source and
//! documentation show. Creation and submission wrappers bracket their calls
//! in a pair of error scopes, so a validation or out-of-memory failure
//! comes back as an explicit error value instead of reaching the device's
//! uncaptured-error handler, which would abort.
//!
//! The uninterpreted functions below name fixed attributes of the opaque
//! device objects: the byte size, usage flags and seed bytes a buffer was
//! created with, a buffer's identity, the entries a bind group was
//! requested with, and the one ordered sequence of commands recorded into
//! an encoder. Every contract in this module is to be read under exactly
//! those meanings.

use crate::error::EngineError;
use crate::policy::{COPY_DST_BIT, COPY_SRC_BIT, MAP_READ_BIT};
use vstd::prelude::*;

verus! {

#[verifier::external_type_specification]
#[verifier::external_body]
pub struct ExDevice(wgpu::Device);

#[verifier::external_type_specification]
#[verifier::external_body]
pub struct ExQueue(wgpu::Queue);

#[verifier::external_type_specification]
#[verifier::external_body]
pub struct ExBuffer(wgpu::Buffer);

#[verifier::external_type_specification]
#[verifier::external_body]
pub struct ExComputePipeline(wgpu::ComputePipeline);

#[verifier::external_type_specification]
#[verifier::external_body]
pub struct ExShaderModule(wgpu::ShaderModule);

#[verifier::external_type_specification]
#[verifier::external_body]
pub struct ExBindGroupLayout(wgpu::BindGroupLayout);

#[verifier::external_type_specification]
#[verifier::external_body]
pub struct ExBindGroup(wgpu::BindGroup);

#[verifier::external_type_specification]
#[verifier::external_body]
pub struct ExCommandEncoder(wgpu::CommandEncoder);

/// The byte length a device buffer was allocated with.
///
/// wgpu documents `Buffer::size` as "always equal to the `size` that was
/// specified when creating the buffer", so this is a fixed attribute of the
/// buffer object; the creation wrappers below pin it down.
pub uninterp spec fn buffer_size(b: wgpu::Buffer) -> u64;

/// The usage-flag bits a device buffer was created with, as wgpu's
/// documented bit values. `Buffer::usage` is likewise "always equal to the
/// `usage` that was specified when creating the buffer".
pub uninterp spec fn buffer_usage(b: wgpu::Buffer) -> u32;

/// The bytes a device buffer was requested to start with: the seed contents
/// for a seeded creation, all zeroes otherwise (wgpu zero-initializes).
pub uninterp spec fn buffer_init_bytes(b: wgpu::Buffer) -> Seq<u8>;

/// The identity of a device buffer: buffers carry a per-object id, and the
/// commands recorded below refer to buffers through it.
pub uninterp spec fn buffer_id(b: wgpu::Buffer) -> int;

/// The `(slot, buffer identity)` entries a bind group was requested with,
/// in order.
pub uninterp spec fn bind_group_entries(g: wgpu::BindGroup) -> Seq<(u32, int)>;

/// One command recorded into an encoder, as the model sees it.
pub enum Command {
    /// A full buffer-to-buffer copy: source identity, destination identity,
    /// byte length.
    Copy { src: int, dst: int, len: int },
    /// One compute dispatch: the workgroup grid and, per bind-group index,
    /// the entries bound there.
    Dispatch { x: u32, y: u32, z: u32, groups: Seq<(u32, Seq<(u32, int)>)> },
}

/// The commands recorded into an encoder, in recording order — the order
/// the device executes them in once the encoder is submitted.
pub uninterp spec fn encoder_commands(e: wgpu::CommandEncoder) -> Seq<Command>;

/// Relies on wgpu's `Device::pop_error_scope`: on native it pops the
/// innermost scope synchronously and hands its captured error back as an
/// already-resolved future, polled here with a no-op waker. Must follow a
/// matching `push_error_scope` on the same device, which every caller in
/// this module does in the same body.
#[verifier::external_body]
fn resolve_error_scope(device: &wgpu::Device) -> (r: Option<String>) {
    let mut scope = Box::pin(device.pop_error_scope());
    let waker = std::task::Waker::noop();
    let mut context = std::task::Context::from_waker(waker);
    match std::future::Future::poll(scope.as_mut(), &mut context) {
        std::task::Poll::Ready(error) => error.map(|e| e.to_string()),
        std::task::Poll::Pending => None,
    }
}

/// Pops the out-of-memory and validation scopes pushed by the caller, in
/// that order, and maps whichever reported a failure to the engine's error
/// taxonomy (out-of-memory before validation when both did).
#[verifier::external_body]
fn pop_scopes_checked(device: &wgpu::Device) -> (r: Option<EngineError>) {
    let out_of_memory = resolve_error_scope(device);
    let validation = resolve_error_scope(device);
    if let Some(message) = out_of_memory {
        Some(EngineError::Allocation(message))
    } else {
        validation.map(EngineError::Validation)
    }
}

/// Relies on wgpu's `Device::create_buffer` under error scopes: on success
/// the returned buffer has exactly the requested byte size and usage flags
/// and starts zero-initialized; a rejected request comes back as the error.
/// The usage bits must lie in wgpu's documented flag mask (the low ten
/// bits), so they survive the flag-set conversion unchanged.
#[verifier::external_body]
pub(crate) fn create_buffer(
    device: &wgpu::Device,
    size: u64,
    usage_bits: u32,
    label: Option<&str>,
) -> (r: Result<wgpu::Buffer, EngineError>)
    requires
        usage_bits < 1024,
    ensures
        r matches Ok(b) ==> buffer_size(b) == size && buffer_usage(b) == usage_bits
            && buffer_init_bytes(b) == Seq::new(size as nat, |i: int| 0u8),
{
    device.push_error_scope(wgpu::ErrorFilter::Validation);
    device.push_error_scope(wgpu::ErrorFilter::OutOfMemory);
    let usage = wgpu::BufferUsages::from_bits_truncate(usage_bits);
    let buffer = device.create_buffer(
        &wgpu::BufferDescriptor { label, size, usage, mapped_at_creation: false },
    );
    match pop_scopes_checked(device) {
        Some(error) => Err(error),
        None => Ok(buffer),
    }
}

/// Relies on wgpu's `Device::create_buffer` with `mapped_at_creation` and
/// a mapped-range fill (the protocol of wgpu's own `create_buffer_init`),
/// under error scopes: on success the buffer is seeded with exactly
/// `contents` and sized to them. The fill happens only after the scopes
/// report a valid buffer, so a rejected request comes back as the error
/// instead of a failed mapping.
#[verifier::external_body]
pub(crate) fn create_buffer_seeded(
    device: &wgpu::Device,
    contents: &Vec<u8>,
    usage_bits: u32,
    label: Option<&str>,
) -> (r: Result<wgpu::Buffer, EngineError>)
    requires
        contents@.len() > 0,
        contents@.len() % 4 == 0,
        usage_bits < 1024,
    ensures
        r matches Ok(b) ==> buffer_size(b) == contents@.len() && buffer_usage(b) == usage_bits
            && buffer_init_bytes(b) == contents@,
{
    device.push_error_scope(wgpu::ErrorFilter::Validation);
    device.push_error_scope(wgpu::ErrorFilter::OutOfMemory);
    let usage = wgpu::BufferUsages::from_bits_truncate(usage_bits);
    let size = contents.len() as u64;
    let buffer = device.create_buffer(
        &wgpu::BufferDescriptor { label, size, usage, mapped_at_creation: true },
    );
    if let Some(error) = pop_scopes_checked(device) {
        return Err(error);
    }
    buffer.slice(..).get_mapped_range_mut().copy_from_slice(contents.as_slice());
    buffer.unmap();
    Ok(buffer)
}

/// Relies on wgpu's `Buffer::unmap` under a discarded validation scope: it
/// clears the mapping bookkeeping after a failed map request, so that the
/// next map request is accepted again. The device's complaint that the
/// buffer was not mapped (it never got that far) is captured and dropped.
#[verifier::external_body]
fn unmap_quietly(device: &wgpu::Device, staging: &wgpu::Buffer) {
    device.push_error_scope(wgpu::ErrorFilter::Validation);
    staging.unmap();
    let _ = resolve_error_scope(device);
}

/// Relies on wgpu's map/poll handshake on a `MAP_READ` staging buffer:
/// `map_async` requests the mapping, `Device::poll(Maintain::Wait)` drives
/// device work until the completion signal fires, and `get_mapped_range` of
/// the full slice then views exactly the buffer's `size` bytes. A failed
/// mapping — whether rejected up front (captured by the validation scope)
/// or reported through the completion signal — comes back as nothing, never
/// an abort, with the mapping bookkeeping cleared again either way so that
/// the read can be re-issued.
#[verifier::external_body]
pub(crate) fn map_read_bytes(device: &wgpu::Device, staging: &wgpu::Buffer) -> (r: Option<Vec<u8>>)
    requires
        buffer_size(*staging) % 4 == 0,
        buffer_size(*staging) > 0,
        buffer_usage(*staging) & MAP_READ_BIT == MAP_READ_BIT,
    ensures
        r matches Some(bytes) ==> bytes@.len() == buffer_size(*staging),
{
    device.push_error_scope(wgpu::ErrorFilter::Validation);
    let slice = staging.slice(..);
    let (sender, receiver) = std::sync::mpsc::channel();
    slice.map_async(wgpu::MapMode::Read, move |v| { let _ = sender.send(v); });
    device.poll(wgpu::Maintain::Wait);
    let mapped = resolve_error_scope(device).is_none() && matches!(receiver.recv(), Ok(Ok(())));
    if !mapped {
        unmap_quietly(device, staging);
        return None;
    }
    let bytes = slice.get_mapped_range().to_vec();
    staging.unmap();
    Some(bytes)
}

/// Relies on wgpu's `Device::create_shader_module` under error scopes:
/// compiles shader source text into a module, or reports why it is
/// ill-formed.
#[verifier::external_body]
pub(crate) fn compile_module(device: &wgpu::Device, src: &str) -> (r: Result<
    wgpu::ShaderModule,
    EngineError,
>) {
    device.push_error_scope(wgpu::ErrorFilter::Validation);
    device.push_error_scope(wgpu::ErrorFilter::OutOfMemory);
    let source = wgpu::ShaderSource::Wgsl(std::borrow::Cow::Borrowed(src));
    let module = device.create_shader_module(wgpu::ShaderModuleDescriptor { label: None, source });
    match pop_scopes_checked(device) {
        Some(error) => Err(error),
        None => Ok(module),
    }
}

/// Relies on wgpu's `Device::create_compute_pipeline` with an implicit
/// layout derived from the module's shader source, under error scopes: an
/// unknown entry point or an uncompilable stage comes back as the error.
#[verifier::external_body]
pub(crate) fn create_pipeline(
    device: &wgpu::Device,
    module: &wgpu::ShaderModule,
    entry_point: &str,
) -> (r: Result<wgpu::ComputePipeline, EngineError>) {
    device.push_error_scope(wgpu::ErrorFilter::Validation);
    device.push_error_scope(wgpu::ErrorFilter::OutOfMemory);
    let pipeline = device.create_compute_pipeline(
        &wgpu::ComputePipelineDescriptor { label: None, layout: None, module, entry_point },
    );
    match pop_scopes_checked(device) {
        Some(error) => Err(error),
        None => Ok(pipeline),
    }
}

/// Relies on wgpu's `ComputePipeline::get_bind_group_layout`: the layout
/// the pipeline derived for the given group index. Beware: for an index the
/// shader source never declares, this wgpu version panics inside the call
/// itself — the failure is not routed through error scopes or the error
/// handler, so it cannot be surfaced as a value, and which indices a
/// pipeline declares is a fact of the opaque shader text that no
/// precondition here can state. That abort matches the reference engine's
/// behavior for a binding whose group the shader does not know.
#[verifier::external_body]
pub(crate) fn get_group_layout(pipeline: &wgpu::ComputePipeline, index: u32) -> (l:
    wgpu::BindGroupLayout) {
    pipeline.get_bind_group_layout(index)
}

/// Relies on wgpu's `Device::create_bind_group` under error scopes: one
/// entry per slot, each pointing at the entire corresponding buffer — slot
/// `slots[i]` is bound to buffer `buffers[i]`. On success the returned
/// group was requested with exactly those entries; a set the layout cannot
/// satisfy comes back as the error.
#[verifier::external_body]
pub(crate) fn make_bind_group(
    device: &wgpu::Device,
    layout: &wgpu::BindGroupLayout,
    slots: &Vec<u32>,
    buffers: &Vec<&wgpu::Buffer>,
) -> (r: Result<wgpu::BindGroup, EngineError>)
    requires
        slots@.len() == buffers@.len(),
    ensures
        r matches Ok(g) ==> bind_group_entries(g) == Seq::new(
            slots@.len(),
            |i: int| (slots@[i], buffer_id(*buffers@[i])),
        ),
{
    device.push_error_scope(wgpu::ErrorFilter::Validation);
    device.push_error_scope(wgpu::ErrorFilter::OutOfMemory);
    let entries: Vec<wgpu::BindGroupEntry> = slots.iter().zip(buffers.iter()).map(
        |(slot, buffer)| wgpu::BindGroupEntry {
            binding: *slot,
            resource: buffer.as_entire_binding(),
        },
    ).collect();
    let group = device.create_bind_group(
        &wgpu::BindGroupDescriptor { label: None, layout, entries: &entries },
    );
    match pop_scopes_checked(device) {
        Some(error) => Err(error),
        None => Ok(group),
    }
}

/// Relies on wgpu's `Device::create_command_encoder`: a fresh command
/// recorder with nothing recorded yet.
#[verifier::external_body]
pub(crate) fn create_command_encoder(device: &wgpu::Device) -> (e: wgpu::CommandEncoder)
    ensures
        encoder_commands(e) == Seq::<Command>::empty(),
{
    device.create_command_encoder(&wgpu::CommandEncoderDescriptor { label: None })
}

/// Relies on wgpu's compute-pass recording under error scopes: opens one
/// pass on the encoder, binds the pipeline, binds each group at its index
/// in the given order, and records exactly one dispatch of an `(x, y, z)`
/// workgroup grid. Closing the pass inside this call is when wgpu reports a
/// grid or group index over the device's limits; that comes back as the
/// error, and only a successful call appends the dispatch.
#[verifier::external_body]
pub(crate) fn record_compute_pass(
    device: &wgpu::Device,
    encoder: &mut wgpu::CommandEncoder,
    pipeline: &wgpu::ComputePipeline,
    bind_groups: &Vec<(u32, wgpu::BindGroup)>,
    x: u32,
    y: u32,
    z: u32,
) -> (r: Result<(), EngineError>)
    ensures
        r matches Ok(_) ==> encoder_commands(*final(encoder)) == encoder_commands(
            *old(encoder),
        ).push(
            (Command::Dispatch {
                x,
                y,
                z,
                groups: Seq::new(
                    bind_groups@.len(),
                    |i: int| (bind_groups@[i].0, bind_group_entries(bind_groups@[i].1)),
                ),
            }),
        ),
{
    device.push_error_scope(wgpu::ErrorFilter::Validation);
    device.push_error_scope(wgpu::ErrorFilter::OutOfMemory);
    let descriptor = wgpu::ComputePassDescriptor { label: None, timestamp_writes: None };
    let mut cpass = encoder.begin_compute_pass(&descriptor);
    cpass.set_pipeline(pipeline);
    for (index, group) in bind_groups.iter() {
        cpass.set_bind_group(*index, group, &[]);
    }
    cpass.dispatch_workgroups(x, y, z);
    drop(cpass);
    match pop_scopes_checked(device) {
        Some(error) => Err(error),
        None => Ok(()),
    }
}

/// Relies on wgpu's `CommandEncoder::copy_buffer_to_buffer`: records a copy
/// of `size` bytes from the start of `src` to the start of `dst`. The copy
/// length must respect the 4-byte copy alignment and fit both buffers, the
/// source must carry `COPY_SRC` and the destination `COPY_DST`, and the two
/// must be distinct buffers — witnessed here by distinct usage flags, since
/// one buffer has one flag set.
#[verifier::external_body]
pub(crate) fn copy_buffer_full(
    encoder: &mut wgpu::CommandEncoder,
    src: &wgpu::Buffer,
    dst: &wgpu::Buffer,
    size: u64,
)
    requires
        size % 4 == 0,
        size <= buffer_size(*src),
        size <= buffer_size(*dst),
        buffer_usage(*src) & COPY_SRC_BIT == COPY_SRC_BIT,
        buffer_usage(*dst) & COPY_DST_BIT == COPY_DST_BIT,
        buffer_usage(*src) != buffer_usage(*dst),
    ensures
        encoder_commands(*final(encoder)) == encoder_commands(*old(encoder)).push(
            (Command::Copy { src: buffer_id(*src), dst: buffer_id(*dst), len: size as int }),
        ),
{
    encoder.copy_buffer_to_buffer(src, 0, dst, 0, size);
}

/// Relies on wgpu's `CommandEncoder::finish` and `Queue::submit` under
/// error scopes: seals the recorded commands and hands them to the queue
/// for in-order execution. A validation failure deferred from recording
/// surfaces at the seal and comes back as the error; the queue skips the
/// then-invalid command buffer rather than aborting on it. On success the
/// submission is fire-and-forget.
#[verifier::external_body]
pub(crate) fn submit_commands(
    device: &wgpu::Device,
    queue: &wgpu::Queue,
    encoder: wgpu::CommandEncoder,
) -> (r: Result<(), EngineError>) {
    device.push_error_scope(wgpu::ErrorFilter::Validation);
    device.push_error_scope(wgpu::ErrorFilter::OutOfMemory);
    let commands = encoder.finish();
    queue.submit(std::iter::once(commands));
    match pop_scopes_checked(device) {
        Some(error) => Err(error),
        None => Ok(()),
    }
}

} // verus!
