// End-to-end exercises of the engine against a real device. A machine
// without a usable GPU adapter has nothing to run these against, so each
// test passes trivially there; with an adapter they drive the full
// dispatch-then-readback protocol.

use compute::binding::Binding;
use compute::codec::{decode_u32s, encode_u32s};
use compute::error::EngineError;
use compute::gpu::Gpu;
use std::rc::Rc;

const COPY_SHADER: &str = "
@group(0) @binding(0) var<storage, read> input: array<u32>;
@group(0) @binding(1) var<storage, read_write> output: array<u32>;

@compute @workgroup_size(1)
fn main(@builtin(global_invocation_id) gid: vec3<u32>) {
    output[gid.x] = input[gid.x];
}
";

fn acquire() -> Option<Rc<Gpu>> {
    let runtime = tokio::runtime::Builder::new_current_thread().build().ok()?;
    runtime.block_on(async {
        let instance = wgpu::Instance::default();
        let adapter = instance
            .request_adapter(&wgpu::RequestAdapterOptions::default())
            .await?;
        let (device, queue) = adapter
            .request_device(
                &wgpu::DeviceDescriptor {
                    label: None,
                    required_features: wgpu::Features::empty(),
                    required_limits: wgpu::Limits::downlevel_defaults(),
                },
                None,
            )
            .await
            .ok()?;
        Some(Gpu::new(device, queue))
    })
}

#[test]
fn copy_shader_round_trip() {
    let Some(gpu) = acquire() else {
        return;
    };
    let input: Vec<u32> = vec![1, 2, 3, 4];
    let input_buffer = gpu.create_storage_buffer_with_data(encode_u32s(&input)).expect("input buffer");
    let output_buffer = gpu.create_storage_buffer(4, 4).expect("output buffer");

    let mut shader = gpu.create_shader(COPY_SHADER, "main").expect("copy shader");
    shader.bind("input", input_buffer.to_binding(0, 0));
    shader.bind("output", output_buffer.to_binding(0, 1));
    shader.execute(4, 1, 1).expect("execute");

    let bytes = output_buffer.read().expect("readback failed");
    assert_eq!(decode_u32s(&bytes), input);
}

#[test]
fn execute_twice_reads_the_same() {
    let Some(gpu) = acquire() else {
        return;
    };
    let input: Vec<u32> = vec![10, 20, 30, 40];
    let input_buffer = gpu.create_storage_buffer_with_data(encode_u32s(&input)).expect("input buffer");
    let output_buffer = gpu.create_storage_buffer(4, 4).expect("output buffer");

    let mut shader = gpu.create_shader(COPY_SHADER, "main").expect("copy shader");
    shader.bind("input", input_buffer.to_binding(0, 0));
    shader.bind("output", output_buffer.to_binding(0, 1));

    shader.execute(4, 1, 1).expect("first execute");
    let first = output_buffer.read().expect("first readback failed");
    shader.execute(4, 1, 1).expect("second execute");
    let second = output_buffer.read().expect("second readback failed");
    assert_eq!(first, second);
    assert_eq!(decode_u32s(&first), input);
}

const DOUBLE_SHADER: &str = "
@group(0) @binding(0) var<storage, read> input: array<u32>;
@group(0) @binding(1) var<storage, read_write> output: array<u32>;

@compute @workgroup_size(1)
fn main(@builtin(global_invocation_id) gid: vec3<u32>) {
    output[gid.x] = 2u * input[gid.x];
}
";

const INCREMENT_SHADER: &str = "
@group(0) @binding(0) var<storage, read> input: array<u32>;
@group(0) @binding(1) var<storage, read_write> output: array<u32>;

@compute @workgroup_size(1)
fn main(@builtin(global_invocation_id) gid: vec3<u32>) {
    output[gid.x] = input[gid.x] + 1u;
}
";

#[test]
fn chained_shaders_share_a_buffer() {
    let Some(gpu) = acquire() else {
        return;
    };
    let input: Vec<u32> = vec![5, 6, 7, 8];
    let input_buffer = gpu.create_storage_buffer_with_data(encode_u32s(&input)).expect("input buffer");
    let mid = gpu.create_storage_buffer(4, 4).expect("output buffer");
    let output_buffer = gpu.create_storage_buffer(4, 4).expect("output buffer");

    // The middle buffer is never read by the host, so its bindings skip
    // the copy-back.
    let mut double = gpu.create_shader(DOUBLE_SHADER, "main").expect("double shader");
    double.bind("input", input_buffer.to_binding(0, 0));
    double.bind("mid", Binding::new_without_copy(mid.clone(), 0, 1));

    let mut increment = gpu.create_shader(INCREMENT_SHADER, "main").expect("increment shader");
    increment.bind("mid", Binding::new_without_copy(mid.clone(), 0, 0));
    increment.bind("output", output_buffer.to_binding(0, 1));

    double.execute(4, 1, 1).expect("first stage");
    increment.execute(4, 1, 1).expect("second stage");

    let bytes = output_buffer.read().expect("readback failed");
    let expected: Vec<u32> = input.iter().map(|n| 2 * n + 1).collect();
    assert_eq!(decode_u32s(&bytes), expected);
}

#[test]
fn rebinding_a_name_wins() {
    let Some(gpu) = acquire() else {
        return;
    };
    let first: Vec<u32> = vec![1, 1, 1, 1];
    let second: Vec<u32> = vec![9, 8, 7, 6];
    let first_buffer = gpu.create_storage_buffer_with_data(encode_u32s(&first)).expect("first buffer");
    let second_buffer = gpu.create_storage_buffer_with_data(encode_u32s(&second)).expect("second buffer");
    let output_buffer = gpu.create_storage_buffer(4, 4).expect("output buffer");

    let mut shader = gpu.create_shader(COPY_SHADER, "main").expect("copy shader");
    shader.bind("input", first_buffer.to_binding(0, 0));
    shader.bind("output", output_buffer.to_binding(0, 1));
    // Binding the same name again replaces the earlier entry.
    shader.bind("input", second_buffer.to_binding(0, 0));
    shader.execute(4, 1, 1).expect("execute");

    let bytes = output_buffer.read().expect("readback failed");
    assert_eq!(decode_u32s(&bytes), second);
}

const PAIR_DOUBLE_SHADER: &str = "
struct Pair {
    a: u32,
    b: u32,
}

@group(0) @binding(0) var<storage, read> input: array<Pair>;
@group(0) @binding(1) var<storage, read_write> output: array<Pair>;

@compute @workgroup_size(1)
fn main(@builtin(global_invocation_id) gid: vec3<u32>) {
    output[gid.x] = Pair(2u * input[gid.x].a, 2u * input[gid.x].b);
}
";

#[test]
fn doubling_pairs_scenario() {
    let Some(gpu) = acquire() else {
        return;
    };
    // Four 32-bit pairs {n, n} for n in 1..=4, one workgroup per pair.
    let input: Vec<u32> = vec![1, 1, 2, 2, 3, 3, 4, 4];
    let input_buffer = gpu.create_storage_buffer_with_data(encode_u32s(&input)).expect("input buffer");
    let output_buffer = gpu.create_storage_buffer(4, 8).expect("output buffer");
    assert_eq!(input_buffer.storage_buffer.size(), input_buffer.staging_buffer.size());
    assert_eq!(output_buffer.storage_buffer.size(), output_buffer.staging_buffer.size());

    let mut shader = gpu.create_shader(PAIR_DOUBLE_SHADER, "main").expect("pair shader");
    shader.bind("input", input_buffer.to_binding(0, 0));
    shader.bind("output", output_buffer.to_binding(0, 1));
    shader.execute(4, 1, 1).expect("execute");

    let bytes = output_buffer.read().expect("readback failed");
    assert_eq!(decode_u32s(&bytes), vec![2, 2, 4, 4, 6, 6, 8, 8]);
}

#[test]
fn ill_formed_shader_source_is_a_validation_error() {
    let Some(gpu) = acquire() else {
        return;
    };
    let result = gpu.create_shader("this is not shader source", "main");
    assert!(matches!(result, Err(EngineError::Validation(_))));
}

#[test]
fn oversized_allocation_is_an_error() {
    let Some(gpu) = acquire() else {
        return;
    };
    // Far over any device's buffer limit: rejected, not aborted on.
    let result = gpu.create_storage_buffer(1 << 40, 16);
    assert!(matches!(
        result,
        Err(EngineError::Validation(_)) | Err(EngineError::Allocation(_))
    ));
}

#[test]
fn empty_buffer_reads_empty() {
    let Some(gpu) = acquire() else {
        return;
    };
    let buffer = gpu.create_storage_buffer(0, 4).expect("empty buffer");
    let bytes = buffer.read().expect("empty readback failed");
    assert_eq!(bytes, Vec::<u8>::new());
    assert_eq!(decode_u32s(&bytes), Vec::<u32>::new());
}
