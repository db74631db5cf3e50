use external_memory::ExternalMemoryType;
use external_memory::PlatformFamily;

const ALL_TYPES: [ExternalMemoryType; 8] = [
    ExternalMemoryType::FileDescriptor,
    ExternalMemoryType::Windows,
    ExternalMemoryType::WindowsKMT,
    ExternalMemoryType::DirectX12Heap,
    ExternalMemoryType::DirectX12Resource,
    ExternalMemoryType::DirectX11Resource,
    ExternalMemoryType::DirectX11ResourceKMT,
    ExternalMemoryType::NvSciBuf,
];

#[test]
fn type_codes_round_trip() {
    for t in ALL_TYPES {
        let code: u32 = t.into();
        assert_eq!(ExternalMemoryType::from_code(code), Some(t));
    }
}

#[test]
fn into_u32_matches_the_fixed_table() {
    let expected: [u32; 8] = [1, 2, 3, 4, 5, 6, 7, 8];
    for (t, want) in ALL_TYPES.iter().zip(expected) {
        assert_eq!(u32::from(*t), want);
    }
}

#[test]
fn from_code_rejects_unknown_codes() {
    assert_eq!(ExternalMemoryType::from_code(0), None);
    assert_eq!(ExternalMemoryType::from_code(9), None);
    assert_eq!(ExternalMemoryType::from_code(100), None);
    assert_eq!(ExternalMemoryType::from_code(u32::MAX), None);
    for code in 1..=8u32 {
        let t = ExternalMemoryType::from_code(code).unwrap();
        assert_eq!(u32::from(t), code);
    }
}

#[test]
fn availability_follows_the_platform_family() {
    for t in ALL_TYPES {
        let on_transferring = t.available_on(PlatformFamily::HandleTransferring);
        let on_retaining = t.available_on(PlatformFamily::HandleRetaining);
        match t {
            ExternalMemoryType::FileDescriptor => {
                assert!(on_transferring);
                assert!(!on_retaining);
            }
            ExternalMemoryType::NvSciBuf => {
                assert!(on_transferring);
                assert!(on_retaining);
            }
            _ => {
                assert!(!on_transferring);
                assert!(on_retaining);
            }
        }
    }
}
