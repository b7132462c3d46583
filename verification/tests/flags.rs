use compute::policy::{ReadWrite, Usage, COPY_DST_BIT, COPY_SRC_BIT, STORAGE_BIT, UNIFORM_BIT};

#[test]
fn storage_class_bits() {
    assert_eq!(Usage::Storage.usage_bits(), 128);
    assert_eq!(Usage::Uniform.usage_bits(), 64 | 128);
}

#[test]
fn uniform_always_carries_storage() {
    assert_eq!(Usage::Uniform.usage_bits() & STORAGE_BIT, STORAGE_BIT);
    assert_eq!(Usage::Uniform.usage_bits() & UNIFORM_BIT, UNIFORM_BIT);
}

#[test]
fn access_direction_bits() {
    assert_eq!(ReadWrite::Write.usage_bits(), COPY_SRC_BIT);
    assert_eq!(ReadWrite::Read.usage_bits(), COPY_DST_BIT | COPY_SRC_BIT);
    assert_eq!(ReadWrite::ReadWrite.usage_bits(), COPY_DST_BIT | COPY_SRC_BIT);
}

#[test]
fn host_write_has_no_copy_back() {
    assert_eq!(ReadWrite::Write.usage_bits() & COPY_DST_BIT, 0);
}

#[test]
fn bit_values_match_device_flag_set() {
    // The documented bit positions of the device API's buffer-usage flags.
    assert_eq!(
        wgpu::BufferUsages::from_bits_truncate(Usage::Uniform.usage_bits()),
        wgpu::BufferUsages::UNIFORM | wgpu::BufferUsages::STORAGE
    );
    assert_eq!(
        wgpu::BufferUsages::from_bits_truncate(ReadWrite::Read.usage_bits()),
        wgpu::BufferUsages::COPY_DST | wgpu::BufferUsages::COPY_SRC
    );
    assert_eq!(
        wgpu::BufferUsages::from_bits_truncate(compute::policy::MAP_READ_BIT),
        wgpu::BufferUsages::MAP_READ
    );
}
