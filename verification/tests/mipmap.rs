use external_memory::CudaDevice;
use external_memory::ExternalMemoryType;
use external_memory::MockNative;
use external_memory::NativeCall;
use external_memory::PlatformFamily;
use external_memory::CODE_INVALID_VALUE;
use external_memory::CODE_UNKNOWN;

fn import_source(n: &mut MockNative, size: u64) -> external_memory::ExternalMemory {
    CudaDevice::new(0)
        .import_external_memory(n, 7, size, ExternalMemoryType::FileDescriptor)
        .unwrap()
}

#[test]
fn two_views_from_same_memory_are_independently_usable() {
    let mut n = MockNative::new(PlatformFamily::HandleTransferring);
    n.mip_levels = 4;
    let m = import_source(&mut n, 1024);
    let a = m.mipmapped_array(&mut n, 16, 16).unwrap();
    let b = m.mipmapped_array(&mut n, 8, 8).unwrap();
    assert_eq!(a.width(), 16);
    assert_eq!(a.height(), 16);
    assert_eq!(b.width(), 8);
    assert_eq!(b.height(), 8);
    let la = a.level(&mut n, 0).unwrap();
    let lb = b.level(&mut n, 3).unwrap();
    assert_ne!(la, 0);
    assert_ne!(lb, 0);
    // Destruction order between the two views is unconstrained.
    b.destroy(&mut n);
    assert_ne!(a.level(&mut n, 1).unwrap(), 0);
    a.destroy(&mut n);
    m.destroy(&mut n);
}

#[test]
fn two_views_destroyed_in_creation_order() {
    let mut n = MockNative::new(PlatformFamily::HandleTransferring);
    let m = import_source(&mut n, 1024);
    let a = m.mipmapped_array(&mut n, 4, 4).unwrap();
    let b = m.mipmapped_array(&mut n, 4, 4).unwrap();
    a.destroy(&mut n);
    assert_ne!(b.level(&mut n, 0).unwrap(), 0);
    b.destroy(&mut n);
    m.destroy(&mut n);
}

#[test]
fn scenario_levels_of_a_four_level_chain() {
    let mut n = MockNative::new(PlatformFamily::HandleTransferring);
    n.mip_levels = 4;
    let m = import_source(&mut n, 1024);
    let v = m.mipmapped_array(&mut n, 16, 16).unwrap();
    let level0 = v.level(&mut n, 0).unwrap();
    assert_ne!(level0, 0);
    let e = v.level(&mut n, 99).unwrap_err();
    assert_eq!(e.code, CODE_INVALID_VALUE);
    v.destroy(&mut n);
    m.destroy(&mut n);
}

#[test]
fn mipmapped_array_rejects_oversized_dimensions() {
    let mut n = MockNative::new(PlatformFamily::HandleTransferring);
    let m = import_source(&mut n, 1024);
    let e = m.mipmapped_array(&mut n, 64, 64).unwrap_err();
    assert_eq!(e.code, CODE_INVALID_VALUE);
    // The memory itself is only borrowed and stays usable.
    let v = m.mipmapped_array(&mut n, 16, 16).unwrap();
    v.destroy(&mut n);
    m.destroy(&mut n);
}

#[test]
fn mipmapped_array_reports_driver_failure() {
    let mut n = MockNative::new(PlatformFamily::HandleTransferring);
    let m = import_source(&mut n, 1024);
    n.fail_mipmapped = true;
    let e = m.mipmapped_array(&mut n, 16, 16).unwrap_err();
    assert_eq!(e.code, CODE_UNKNOWN);
    n.fail_mipmapped = false;
    m.destroy(&mut n);
}

#[test]
fn destruction_rebinds_context_except_for_mipmapped_arrays() {
    let mut n = MockNative::new(PlatformFamily::HandleTransferring);

    // External memory destruction re-binds first.
    let m = import_source(&mut n, 1024);
    let at = n.log.len();
    m.destroy(&mut n);
    assert!(matches!(n.log[at], NativeCall::BindToThread));
    assert!(matches!(n.log[at + 1], NativeCall::DestroyExternalMemory { .. }));

    // Mapped-buffer destruction re-binds before the free and again before
    // the destroy of the embedded memory.
    let m = import_source(&mut n, 1024);
    let b = m.map_all(&mut n).unwrap();
    let at = n.log.len();
    b.destroy(&mut n);
    assert!(matches!(n.log[at], NativeCall::BindToThread));
    assert!(matches!(n.log[at + 1], NativeCall::MemoryFree { .. }));
    assert!(matches!(n.log[at + 2], NativeCall::BindToThread));
    assert!(matches!(n.log[at + 3], NativeCall::DestroyExternalMemory { .. }));

    // The mipmapped-array destroy path deliberately does not re-bind:
    // its destruction appends exactly the one destroy call.
    let m = import_source(&mut n, 1024);
    let v = m.mipmapped_array(&mut n, 16, 16).unwrap();
    let at = n.log.len();
    v.destroy(&mut n);
    assert_eq!(n.log.len(), at + 1);
    assert!(matches!(n.log[at], NativeCall::DestroyMipmappedArray { .. }));
    m.destroy(&mut n);
}
