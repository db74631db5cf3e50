use external_memory::CudaDevice;
use external_memory::ExternalMemoryType;
use external_memory::MockNative;
use external_memory::PlatformFamily;
use external_memory::CODE_INVALID_CONTEXT;
use external_memory::CODE_INVALID_HANDLE;
use external_memory::CODE_INVALID_VALUE;
use external_memory::CODE_NOT_SUPPORTED;

#[test]
fn import_records_exact_size_for_valid_imports() {
    let sizes: Vec<u64> = vec![1, 16, 1024, 4096, u64::MAX];
    for &size in &sizes {
        let mut n = MockNative::new(PlatformFamily::HandleTransferring);
        let d = CudaDevice::new(0);
        let m = d
            .import_external_memory(&mut n, 7, size, ExternalMemoryType::FileDescriptor)
            .unwrap();
        assert_eq!(m.size(), size);
        m.destroy(&mut n);
    }
    for &size in &sizes {
        let mut n = MockNative::new(PlatformFamily::HandleRetaining);
        let d = CudaDevice::new(0);
        let m = d
            .import_external_memory(&mut n, 7, size, ExternalMemoryType::DirectX12Heap)
            .unwrap();
        assert_eq!(m.size(), size);
        m.destroy(&mut n);
    }
}

#[test]
fn import_rejects_null_handle() {
    let mut n = MockNative::new(PlatformFamily::HandleTransferring);
    let d = CudaDevice::new(0);
    let e = d
        .import_external_memory(&mut n, 0, 1024, ExternalMemoryType::FileDescriptor)
        .unwrap_err();
    assert_eq!(e.code, CODE_INVALID_HANDLE);
    assert!(n.ext_mem.is_empty());
}

#[test]
fn import_rejects_type_unsupported_on_platform() {
    let mut n = MockNative::new(PlatformFamily::HandleRetaining);
    let d = CudaDevice::new(0);
    let e = d
        .import_external_memory(&mut n, 7, 1024, ExternalMemoryType::FileDescriptor)
        .unwrap_err();
    assert_eq!(e.code, CODE_NOT_SUPPORTED);

    let mut n = MockNative::new(PlatformFamily::HandleTransferring);
    let e = d
        .import_external_memory(&mut n, 7, 1024, ExternalMemoryType::Windows)
        .unwrap_err();
    assert_eq!(e.code, CODE_NOT_SUPPORTED);

    // The cross-driver shared-buffer kind exists on both families.
    let mut n = MockNative::new(PlatformFamily::HandleTransferring);
    assert!(d
        .import_external_memory(&mut n, 7, 1024, ExternalMemoryType::NvSciBuf)
        .is_ok());
    let mut n = MockNative::new(PlatformFamily::HandleRetaining);
    assert!(d
        .import_external_memory(&mut n, 7, 1024, ExternalMemoryType::NvSciBuf)
        .is_ok());
}

#[test]
fn import_fails_when_context_invalid() {
    let mut n = MockNative::new(PlatformFamily::HandleTransferring);
    n.context_valid = false;
    let d = CudaDevice::new(0);
    let e = d
        .import_external_memory(&mut n, 7, 1024, ExternalMemoryType::FileDescriptor)
        .unwrap_err();
    assert_eq!(e.code, CODE_INVALID_CONTEXT);
    assert!(n.ext_mem.is_empty());
}

#[test]
fn import_zero_size_follows_mock_policy() {
    // Permissive policy: a zero-size import may succeed.
    let mut n = MockNative::new(PlatformFamily::HandleTransferring);
    let d = CudaDevice::new(0);
    let m = d
        .import_external_memory(&mut n, 7, 0, ExternalMemoryType::FileDescriptor)
        .unwrap();
    assert_eq!(m.size(), 0);
    m.destroy(&mut n);

    // Rejecting policy: the same import fails.
    let mut n = MockNative::new(PlatformFamily::HandleTransferring);
    n.reject_zero_size = true;
    let e = d
        .import_external_memory(&mut n, 7, 0, ExternalMemoryType::FileDescriptor)
        .unwrap_err();
    assert_eq!(e.code, CODE_INVALID_VALUE);
}

#[test]
fn import_never_closes_raw_handle() {
    for platform in [PlatformFamily::HandleTransferring, PlatformFamily::HandleRetaining] {
        let ty = match platform {
            PlatformFamily::HandleTransferring => ExternalMemoryType::FileDescriptor,
            PlatformFamily::HandleRetaining => ExternalMemoryType::Windows,
        };
        let mut n = MockNative::new(platform);
        let d = CudaDevice::new(0);
        let m = d.import_external_memory(&mut n, 7, 1024, ty).unwrap();
        assert!(n.closed_handles.is_empty());
        m.destroy(&mut n);
    }
}
