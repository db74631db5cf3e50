use vstd::prelude::*;

verus! {

/// The two handle-ownership regimes of the native driver.
///
/// On the transferring family a successful import passes ownership of the
/// raw OS handle to the driver, and closing it afterward is undefined
/// behaviour, so this layer must never close it.  On the retaining family
/// the driver leaves ownership with the caller, and this layer must close
/// the handle exactly once, when the imported memory is destroyed.
#[derive(Debug, Clone, Copy, PartialEq, Eq, Structural)]
pub enum PlatformFamily {
    /// The driver takes ownership of the raw handle on a successful import.
    HandleTransferring,
    /// The caller keeps ownership and must release the raw handle itself.
    HandleRetaining,
}

/// External memory handle descriptor: the kind of OS-level or cross-API
/// handle being imported.
///
/// The enumeration is closed and platform-filtered: each kind is meaningful
/// only on the platform families for which [`available_on`] holds, and it is
/// bidirectionally convertible to the native integer code space through
/// `u32::from` and [`from_code`].
///
/// [`available_on`]: ExternalMemoryType::available_on
/// [`from_code`]: ExternalMemoryType::from_code
#[derive(Debug, Clone, Copy, Hash, PartialOrd, Ord, PartialEq, Eq, Structural)]
pub enum ExternalMemoryType {
    /// A file descriptor referencing a memory object.  Ownership of the
    /// descriptor is transferred to the driver when the import succeeds.
    FileDescriptor,
    /// A shared NT handle referencing a memory object.  Ownership is not
    /// transferred; the application must release the handle itself.
    Windows,
    /// A globally shared KMT handle, holding no reference of its own to the
    /// underlying memory object.
    WindowsKMT,
    /// A shared NT handle referring to a Direct3D 12 heap object.
    DirectX12Heap,
    /// A shared NT handle referring to a Direct3D 12 resource object.
    DirectX12Resource,
    /// A shared NT handle referring to a Direct3D 11 resource object.
    DirectX11Resource,
    /// A shared KMT handle referring to a Direct3D 11 resource object.
    DirectX11ResourceKMT,
    /// A cross-driver shared buffer object, available on every platform.
    NvSciBuf,
}

impl ExternalMemoryType {
    /// The native integer code this handle kind maps to.
    pub open spec fn spec_code(self) -> u32 {
        match self {
            ExternalMemoryType::FileDescriptor => 1,
            ExternalMemoryType::Windows => 2,
            ExternalMemoryType::WindowsKMT => 3,
            ExternalMemoryType::DirectX12Heap => 4,
            ExternalMemoryType::DirectX12Resource => 5,
            ExternalMemoryType::DirectX11Resource => 6,
            ExternalMemoryType::DirectX11ResourceKMT => 7,
            ExternalMemoryType::NvSciBuf => 8,
        }
    }

    /// The reverse of the code mapping: `Some` exactly on the codes that
    /// name a handle kind, and then the kind whose code it is.
    pub open spec fn spec_from_code(code: u32) -> Option<ExternalMemoryType> {
        if code == 1 {
            Some(ExternalMemoryType::FileDescriptor)
        } else if code == 2 {
            Some(ExternalMemoryType::Windows)
        } else if code == 3 {
            Some(ExternalMemoryType::WindowsKMT)
        } else if code == 4 {
            Some(ExternalMemoryType::DirectX12Heap)
        } else if code == 5 {
            Some(ExternalMemoryType::DirectX12Resource)
        } else if code == 6 {
            Some(ExternalMemoryType::DirectX11Resource)
        } else if code == 7 {
            Some(ExternalMemoryType::DirectX11ResourceKMT)
        } else if code == 8 {
            Some(ExternalMemoryType::NvSciBuf)
        } else {
            None
        }
    }

    /// Whether this handle kind is meaningful on the given platform family.
    ///
    /// The file-descriptor kind exists only where the driver takes handle
    /// ownership; the OS-handle and graphics-API kinds exist only where it
    /// does not; the cross-driver shared-buffer kind exists everywhere.
    pub open spec fn spec_available_on(self, p: PlatformFamily) -> bool {
        match self {
            ExternalMemoryType::FileDescriptor => p is HandleTransferring,
            ExternalMemoryType::NvSciBuf => true,
            _ => p is HandleRetaining,
        }
    }

    /// Converts a native integer code back into a handle kind, failing on
    /// codes outside the fixed table.
    pub fn from_code(code: u32) -> (r: Option<ExternalMemoryType>)
        ensures
            r == Self::spec_from_code(code),
    {
        match code {
            1 => Some(ExternalMemoryType::FileDescriptor),
            2 => Some(ExternalMemoryType::Windows),
            3 => Some(ExternalMemoryType::WindowsKMT),
            4 => Some(ExternalMemoryType::DirectX12Heap),
            5 => Some(ExternalMemoryType::DirectX12Resource),
            6 => Some(ExternalMemoryType::DirectX11Resource),
            7 => Some(ExternalMemoryType::DirectX11ResourceKMT),
            8 => Some(ExternalMemoryType::NvSciBuf),
            _ => None,
        }
    }

    /// Whether this handle kind is meaningful on the given platform family.
    pub fn available_on(self, p: PlatformFamily) -> (b: bool)
        ensures
            b == self.spec_available_on(p),
    {
        match self {
            ExternalMemoryType::FileDescriptor => matches!(p, PlatformFamily::HandleTransferring),
            ExternalMemoryType::NvSciBuf => true,
            _ => matches!(p, PlatformFamily::HandleRetaining),
        }
    }
}

impl From<ExternalMemoryType> for u32 {
    /// The forward direction of the fixed code table.
    fn from(t: ExternalMemoryType) -> (r: u32)
        ensures
            r == t.spec_code(),
    {
        match t {
            ExternalMemoryType::FileDescriptor => 1,
            ExternalMemoryType::Windows => 2,
            ExternalMemoryType::WindowsKMT => 3,
            ExternalMemoryType::DirectX12Heap => 4,
            ExternalMemoryType::DirectX12Resource => 5,
            ExternalMemoryType::DirectX11Resource => 6,
            ExternalMemoryType::DirectX11ResourceKMT => 7,
            ExternalMemoryType::NvSciBuf => 8,
        }
    }
}

impl vstd::std_specs::convert::FromSpecImpl<ExternalMemoryType> for u32 {
    open spec fn obeys_from_spec() -> bool {
        true
    }

    open spec fn from_spec(t: ExternalMemoryType) -> u32 {
        t.spec_code()
    }
}

/// Law: converting a handle kind to its native code and back yields the
/// same kind, for every kind.
pub proof fn lemma_code_round_trip(t: ExternalMemoryType)
    ensures
        ExternalMemoryType::spec_from_code(t.spec_code()) == Some(t),
{
}

/// Law: every native code the reverse mapping recognises converts forward
/// to the same code, so the two directions form a bijection on the table.
pub proof fn lemma_from_code_inverse(code: u32)
    ensures
        (match ExternalMemoryType::spec_from_code(code) {
            Some(t) => t.spec_code() == code,
            None => true,
        }),
{
}

} // verus!
