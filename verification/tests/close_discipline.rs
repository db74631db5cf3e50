use external_memory::CudaDevice;
use external_memory::ExternalMemoryType;
use external_memory::MockNative;
use external_memory::NativeCall;
use external_memory::PlatformFamily;
use external_memory::CODE_INVALID_VALUE;
use external_memory::CODE_OUT_OF_MEMORY;

fn count_closes(n: &MockNative, handle: u64) -> usize {
    n.closed_handles.iter().filter(|&&h| h == handle).count()
}

#[test]
fn transferring_platform_never_closes_the_raw_handle() {
    // Lifecycle ending in a plain destroy.
    let mut n = MockNative::new(PlatformFamily::HandleTransferring);
    let d = CudaDevice::new(0);
    let m = d
        .import_external_memory(&mut n, 7, 1024, ExternalMemoryType::FileDescriptor)
        .unwrap();
    m.destroy(&mut n);

    // Lifecycle through a mapped buffer.
    let m = d
        .import_external_memory(&mut n, 7, 1024, ExternalMemoryType::FileDescriptor)
        .unwrap();
    let b = m.map_all(&mut n).unwrap();
    b.destroy(&mut n);

    assert!(n.closed_handles.is_empty());
    assert!(!n.log.iter().any(|c| matches!(c, NativeCall::CloseHandle { .. })));
}

#[test]
fn retaining_platform_closes_exactly_once_at_destruction() {
    let mut n = MockNative::new(PlatformFamily::HandleRetaining);
    let d = CudaDevice::new(0);
    let m = d
        .import_external_memory(&mut n, 42, 1024, ExternalMemoryType::Windows)
        .unwrap();
    let v = m.mipmapped_array(&mut n, 16, 16).unwrap();
    assert_eq!(count_closes(&n, 42), 0);
    v.destroy(&mut n);
    assert_eq!(count_closes(&n, 42), 0);
    m.destroy(&mut n);
    assert_eq!(count_closes(&n, 42), 1);
}

#[test]
fn retaining_platform_closes_once_through_mapped_buffer() {
    let mut n = MockNative::new(PlatformFamily::HandleRetaining);
    let d = CudaDevice::new(0);
    let m = d
        .import_external_memory(&mut n, 42, 1024, ExternalMemoryType::WindowsKMT)
        .unwrap();
    let b = m.map_range(&mut n, 0, 512).unwrap();
    assert_eq!(count_closes(&n, 42), 0);
    b.destroy(&mut n);
    assert_eq!(count_closes(&n, 42), 1);
}

#[test]
fn mock_reports_exhausted_level_handle_space() {
    let mut n = MockNative::new(PlatformFamily::HandleTransferring);
    n.mip_levels = 4;
    let d = CudaDevice::new(0);
    let m = d
        .import_external_memory(&mut n, 7, 1024, ExternalMemoryType::FileDescriptor)
        .unwrap();
    let v = m.mipmapped_array(&mut n, 16, 16).unwrap();
    n.levels_handed_out = u64::MAX;
    let e = v.level(&mut n, 0).unwrap_err();
    assert_eq!(e.code, CODE_OUT_OF_MEMORY);
    n.levels_handed_out = 0;
    v.destroy(&mut n);
    m.destroy(&mut n);
}

#[test]
fn mock_rejects_out_of_range_mapping_directly() {
    let mut n = MockNative::new(PlatformFamily::HandleTransferring);
    let d = CudaDevice::new(0);
    let m = d
        .import_external_memory(&mut n, 7, 100, ExternalMemoryType::FileDescriptor)
        .unwrap();
    // The safe layer's precondition forbids this range, so drive the
    // native call directly to observe the mock's own rejection.
    let e = n.get_mapped_buffer(1, 50, 100).unwrap_err();
    assert_eq!(e.code, CODE_INVALID_VALUE);
    let e = n.get_mapped_buffer(1, u64::MAX, 1).unwrap_err();
    assert_eq!(e.code, CODE_INVALID_VALUE);
    m.destroy(&mut n);
}
