use vstd::prelude::*;

use crate::error::DriverError;
use crate::error::CODE_INVALID_CONTEXT;
use crate::error::CODE_INVALID_HANDLE;
use crate::error::CODE_INVALID_VALUE;
use crate::error::CODE_NOT_SUPPORTED;
use crate::error::CODE_OUT_OF_MEMORY;
use crate::error::CODE_UNKNOWN;
use crate::handle_type::ExternalMemoryType;
use crate::handle_type::PlatformFamily;

verus! {

/// One invocation of a native entry point, as the mock records it.
///
/// The log of these calls is the observable behaviour of the native
/// boundary: which entry points ran, with which arguments, and in which
/// order.  Failed invocations are recorded too.
#[derive(Debug, Clone, Copy, PartialEq, Eq, Structural)]
pub enum NativeCall {
    /// The context-bind call of the driver context layer.
    BindToThread,
    /// The import call: raw OS handle, declared byte size, handle-type code.
    ImportExternalMemory { raw_handle: u64, size: u64, code: u32 },
    /// The destroy call for an imported external-memory object.
    DestroyExternalMemory { mem: u64 },
    /// The get-mapped-buffer call: memory object, byte offset, byte length.
    GetMappedBuffer { mem: u64, offset: u64, len: u64 },
    /// The free call for a mapped device pointer.
    MemoryFree { ptr: u64 },
    /// The get-mapped-mipmapped-array call: memory object and dimensions.
    GetMappedMipmappedArray { mem: u64, width: u64, height: u64 },
    /// The get-level call: mipmapped array and mip level index.
    GetMipmapLevel { array: u64, level: u32 },
    /// The destroy call for a mipmapped array.
    DestroyMipmappedArray { array: u64 },
    /// The OS call releasing a raw handle.
    CloseHandle { raw_handle: u64 },
}

/// The record the mock keeps for one imported external-memory object.
#[derive(Debug, Clone, Copy, PartialEq, Eq, Structural)]
pub struct ExtMemRecord {
    /// Declared byte size of the imported memory.
    pub size: u64,
    /// Whether the object has not yet been destroyed.
    pub live: bool,
}

/// The record the mock keeps for one mipmapped-array object.
#[derive(Debug, Clone, Copy, PartialEq, Eq, Structural)]
pub struct MipArrayRecord {
    /// Width in elements.
    pub width: u64,
    /// Height in elements.
    pub height: u64,
    /// Whether the array has not yet been destroyed.
    pub live: bool,
}

/// How many entries of `s` equal `x`.
pub open spec fn count_matches(s: Seq<u64>, x: u64) -> nat
    decreases s.len(),
{
    if s.len() == 0 {
        0
    } else {
        count_matches(s.drop_last(), x) + (if s.last() == x {
            1nat
        } else {
            0nat
        })
    }
}

/// Appending one entry raises the count of exactly that entry by one.
pub proof fn lemma_count_matches_push(s: Seq<u64>, v: u64, x: u64)
    ensures
        count_matches(s.push(v), x) == count_matches(s, x) + (if v == x {
            1nat
        } else {
            0nat
        }),
{
    assert(s.push(v).drop_last() =~= s);
    assert(s.push(v).last() == v);
}

/// The mock native layer: a deterministic model of the driver boundary.
///
/// Resource identifiers of each kind are handed out densely starting at 1,
/// so an identifier is never null and never reused.  Destruction marks a
/// record dead instead of removing it.  The policy fields decide which
/// calls the mock accepts; the call log records every invocation.
pub struct MockNative {
    /// The handle-ownership regime of the platform the mock stands for.
    pub platform: PlatformFamily,
    /// Whether the execution context is valid: binding fails when it is not.
    pub context_valid: bool,
    /// Policy: reject imports that declare a size of zero bytes.
    pub reject_zero_size: bool,
    /// Policy: report failure for every get-mapped-buffer call.
    pub fail_maps: bool,
    /// Policy: report failure for every get-mapped-mipmapped-array call.
    pub fail_mipmapped: bool,
    /// Number of mip levels each created array exposes.
    pub mip_levels: u32,
    /// Imported external-memory objects; object `i + 1` lives at index `i`.
    pub ext_mem: Vec<ExtMemRecord>,
    /// Mapped device pointers; pointer `i + 1` lives at index `i`.
    pub dev_ptrs: Vec<bool>,
    /// Mipmapped arrays; array `i + 1` lives at index `i`.
    pub mip_arrays: Vec<MipArrayRecord>,
    /// How many per-level array handles have been handed out.
    pub levels_handed_out: u64,
    /// Every raw OS handle released through the mock, in order.
    pub closed_handles: Vec<u64>,
    /// Every native call made, in order.
    pub log: Vec<NativeCall>,
}

/// The policy fields of `a` and `b` agree.  Native calls never change them.
pub open spec fn same_config(a: MockNative, b: MockNative) -> bool {
    &&& b.platform == a.platform
    &&& b.context_valid == a.context_valid
    &&& b.reject_zero_size == a.reject_zero_size
    &&& b.fail_maps == a.fail_maps
    &&& b.fail_mipmapped == a.fail_mipmapped
    &&& b.mip_levels == a.mip_levels
}

/// Whether `code` names a handle kind that exists on platform family `p`.
pub open spec fn code_supported(code: u32, p: PlatformFamily) -> bool {
    match ExternalMemoryType::spec_from_code(code) {
        Some(t) => t.spec_available_on(p),
        None => false,
    }
}

/// Executable counterpart of [`code_supported`].
fn code_supported_exec(code: u32, p: PlatformFamily) -> (b: bool)
    ensures
        b == code_supported(code, p),
{
    match ExternalMemoryType::from_code(code) {
        Some(t) => t.available_on(p),
        None => false,
    }
}

impl MockNative {
    /// A fresh mock: valid context, permissive policy, single-level arrays,
    /// no resources, empty log.
    pub fn new(platform: PlatformFamily) -> (n: MockNative)
        ensures
            n.platform == platform,
            n.context_valid,
            !n.reject_zero_size,
            !n.fail_maps,
            !n.fail_mipmapped,
            n.mip_levels == 1,
            n.ext_mem@ == Seq::<ExtMemRecord>::empty(),
            n.dev_ptrs@ == Seq::<bool>::empty(),
            n.mip_arrays@ == Seq::<MipArrayRecord>::empty(),
            n.levels_handed_out == 0,
            n.closed_handles@ == Seq::<u64>::empty(),
            n.log@ == Seq::<NativeCall>::empty(),
    {
        MockNative {
            platform,
            context_valid: true,
            reject_zero_size: false,
            fail_maps: false,
            fail_mipmapped: false,
            mip_levels: 1,
            ext_mem: Vec::new(),
            dev_ptrs: Vec::new(),
            mip_arrays: Vec::new(),
            levels_handed_out: 0,
            closed_handles: Vec::new(),
            log: Vec::new(),
        }
    }

    /// Whether external-memory object `id` exists and is not destroyed.
    pub open spec fn ext_live(self, id: u64) -> bool {
        &&& 1 <= id
        &&& id <= self.ext_mem@.len()
        &&& self.ext_mem@[id - 1].live
    }

    /// Declared byte size of external-memory object `id`.
    pub open spec fn ext_size(self, id: u64) -> u64 {
        self.ext_mem@[id - 1].size
    }

    /// Whether device pointer `ptr` is mapped and not freed.
    pub open spec fn ptr_live(self, ptr: u64) -> bool {
        &&& 1 <= ptr
        &&& ptr <= self.dev_ptrs@.len()
        &&& self.dev_ptrs@[ptr - 1]
    }

    /// Whether mipmapped array `id` exists and is not destroyed.
    pub open spec fn array_live(self, id: u64) -> bool {
        &&& 1 <= id
        &&& id <= self.mip_arrays@.len()
        &&& self.mip_arrays@[id - 1].live
    }

    /// Width of mipmapped array `id`.
    pub open spec fn array_width(self, id: u64) -> u64 {
        self.mip_arrays@[id - 1].width
    }

    /// Height of mipmapped array `id`.
    pub open spec fn array_height(self, id: u64) -> u64 {
        self.mip_arrays@[id - 1].height
    }

    /// How many times raw handle `raw_handle` has been released.
    pub open spec fn close_count(self, raw_handle: u64) -> nat {
        count_matches(self.closed_handles@, raw_handle)
    }

    /// The mock's import policy: the raw handle is non-null, the type code
    /// names a kind this platform supports, a zero declared size is allowed
    /// unless the policy rejects it, and identifier space remains.
    pub open spec fn import_accepted(self, raw_handle: u64, size: u64, code: u32) -> bool {
        &&& raw_handle != 0
        &&& code_supported(code, self.platform)
        &&& (size != 0 || !self.reject_zero_size)
        &&& self.ext_mem@.len() < u64::MAX
    }

    /// The error a rejected import reports, by the first policy clause that
    /// fails.
    pub open spec fn import_error(self, raw_handle: u64, size: u64, code: u32) -> DriverError {
        if raw_handle == 0 {
            DriverError { code: CODE_INVALID_HANDLE }
        } else if !code_supported(code, self.platform) {
            DriverError { code: CODE_NOT_SUPPORTED }
        } else if size == 0 && self.reject_zero_size {
            DriverError { code: CODE_INVALID_VALUE }
        } else {
            DriverError { code: CODE_OUT_OF_MEMORY }
        }
    }

    /// The mock's mapping policy: the memory object is live, the byte range
    /// fits in it, maps are not set to fail, and identifier space remains.
    pub open spec fn map_accepted(self, mem: u64, offset: u64, len: u64) -> bool {
        &&& self.ext_live(mem)
        &&& offset + len <= self.ext_size(mem)
        &&& !self.fail_maps
        &&& self.dev_ptrs@.len() < u64::MAX
    }

    /// The error a rejected get-mapped-buffer call reports.
    pub open spec fn map_error(self, mem: u64, offset: u64, len: u64) -> DriverError {
        if !self.ext_live(mem) {
            DriverError { code: CODE_INVALID_HANDLE }
        } else if !(offset + len <= self.ext_size(mem)) {
            DriverError { code: CODE_INVALID_VALUE }
        } else if self.fail_maps {
            DriverError { code: CODE_UNKNOWN }
        } else {
            DriverError { code: CODE_OUT_OF_MEMORY }
        }
    }

    /// The mock's mipmapped-array policy: the memory object is live, the
    /// array (at one byte per element) fits in the underlying allocation,
    /// array creation is not set to fail, and identifier space remains.
    pub open spec fn mip_accepted(self, mem: u64, width: u64, height: u64) -> bool {
        &&& self.ext_live(mem)
        &&& width * height <= self.ext_size(mem)
        &&& !self.fail_mipmapped
        &&& self.mip_arrays@.len() < u64::MAX
    }

    /// The error a rejected get-mapped-mipmapped-array call reports.
    pub open spec fn mip_error(self, mem: u64, width: u64, height: u64) -> DriverError {
        if !self.ext_live(mem) {
            DriverError { code: CODE_INVALID_HANDLE }
        } else if !(width * height <= self.ext_size(mem)) {
            DriverError { code: CODE_INVALID_VALUE }
        } else if self.fail_mipmapped {
            DriverError { code: CODE_UNKNOWN }
        } else {
            DriverError { code: CODE_OUT_OF_MEMORY }
        }
    }

    /// The mock's get-level policy: the array is live, the level index is
    /// within its mip chain, and identifier space remains.
    pub open spec fn level_accepted(self, array: u64, level: u32) -> bool {
        &&& self.array_live(array)
        &&& level < self.mip_levels
        &&& self.levels_handed_out < u64::MAX
    }

    /// The error a rejected get-level call reports.
    pub open spec fn level_error(self, array: u64, level: u32) -> DriverError {
        if !self.array_live(array) {
            DriverError { code: CODE_INVALID_HANDLE }
        } else if !(level < self.mip_levels) {
            DriverError { code: CODE_INVALID_VALUE }
        } else {
            DriverError { code: CODE_OUT_OF_MEMORY }
        }
    }

    /// The context-bind call: succeeds exactly when the context is valid.
    pub fn bind_to_thread(&mut self) -> (r: Result<(), DriverError>)
        ensures
            same_config(*old(self), *final(self)),
            final(self).ext_mem@ == old(self).ext_mem@,
            final(self).dev_ptrs@ == old(self).dev_ptrs@,
            final(self).mip_arrays@ == old(self).mip_arrays@,
            final(self).levels_handed_out == old(self).levels_handed_out,
            final(self).closed_handles@ == old(self).closed_handles@,
            final(self).log@ == old(self).log@.push(NativeCall::BindToThread),
            r is Ok <==> old(self).context_valid,
            r matches Err(e) ==> e == (DriverError { code: CODE_INVALID_CONTEXT }),
    {
        self.log.push(NativeCall::BindToThread);
        if self.context_valid {
            Ok(())
        } else {
            Err(DriverError { code: CODE_INVALID_CONTEXT })
        }
    }

    /// The native import call.  On success the new object records the
    /// declared size and gets the next dense identifier.
    pub fn import_external_memory(&mut self, raw_handle: u64, size: u64, code: u32) -> (r: Result<
        u64,
        DriverError,
    >)
        ensures
            same_config(*old(self), *final(self)),
            final(self).dev_ptrs@ == old(self).dev_ptrs@,
            final(self).mip_arrays@ == old(self).mip_arrays@,
            final(self).levels_handed_out == old(self).levels_handed_out,
            final(self).closed_handles@ == old(self).closed_handles@,
            final(self).log@ == old(self).log@.push(
                (NativeCall::ImportExternalMemory { raw_handle, size, code }),
            ),
            r is Ok <==> old(self).import_accepted(raw_handle, size, code),
            r matches Ok(id) ==> ({
                &&& id == old(self).ext_mem@.len() + 1
                &&& id != 0
                &&& !old(self).ext_live(id)
                &&& final(self).ext_mem@ == old(self).ext_mem@.push(
                    (ExtMemRecord { size, live: true }),
                )
                &&& final(self).ext_live(id)
                &&& final(self).ext_size(id) == size
            }),
            r is Err ==> final(self).ext_mem@ == old(self).ext_mem@,
            r matches Err(e) ==> e == old(self).import_error(raw_handle, size, code),
            forall|j: u64|
                j != old(self).ext_mem@.len() + 1 ==> final(self).ext_live(j) == old(self).ext_live(j) && (old(self).ext_live(j) ==> final(self).ext_size(j) == old(self).ext_size(j)),
    {
        self.log.push(NativeCall::ImportExternalMemory { raw_handle, size, code });
        if raw_handle == 0 {
            return Err(DriverError { code: CODE_INVALID_HANDLE });
        }
        if !code_supported_exec(code, self.platform) {
            return Err(DriverError { code: CODE_NOT_SUPPORTED });
        }
        if size == 0 && self.reject_zero_size {
            return Err(DriverError { code: CODE_INVALID_VALUE });
        }
        let n = self.ext_mem.len();
        if n as u64 == u64::MAX {
            return Err(DriverError { code: CODE_OUT_OF_MEMORY });
        }
        self.ext_mem.push(ExtMemRecord { size, live: true });
        Ok(n as u64 + 1)
    }

    /// The native destroy call for an external-memory object: succeeds
    /// exactly when the object is live, and marks it destroyed.
    pub fn destroy_external_memory(&mut self, mem: u64) -> (r: Result<(), DriverError>)
        ensures
            same_config(*old(self), *final(self)),
            final(self).dev_ptrs@ == old(self).dev_ptrs@,
            final(self).mip_arrays@ == old(self).mip_arrays@,
            final(self).levels_handed_out == old(self).levels_handed_out,
            final(self).closed_handles@ == old(self).closed_handles@,
            final(self).log@ == old(self).log@.push((NativeCall::DestroyExternalMemory { mem })),
            r is Ok <==> old(self).ext_live(mem),
            r is Ok ==> ({
                &&& final(self).ext_mem@ == old(self).ext_mem@.update(
                    mem - 1,
                    (ExtMemRecord { size: old(self).ext_size(mem), live: false }),
                )
                &&& !final(self).ext_live(mem)
            }),
            r is Err ==> final(self).ext_mem@ == old(self).ext_mem@,
            r matches Err(e) ==> e == (DriverError { code: CODE_INVALID_HANDLE }),
            forall|j: u64|
                j != mem ==> final(self).ext_live(j) == old(self).ext_live(j) && (old(self).ext_live(j) ==> final(self).ext_size(j) == old(self).ext_size(j)),
    {
        self.log.push(NativeCall::DestroyExternalMemory { mem });
        if mem >= 1 && mem <= self.ext_mem.len() as u64 && self.ext_mem[(mem - 1) as usize].live {
            let size = self.ext_mem[(mem - 1) as usize].size;
            self.ext_mem[(mem - 1) as usize] = ExtMemRecord { size, live: false };
            Ok(())
        } else {
            Err(DriverError { code: CODE_INVALID_HANDLE })
        }
    }

    /// The native get-mapped-buffer call.  On success the new device
    /// pointer gets the next dense identifier, which is never null.
    pub fn get_mapped_buffer(&mut self, mem: u64, offset: u64, len: u64) -> (r: Result<
        u64,
        DriverError,
    >)
        ensures
            same_config(*old(self), *final(self)),
            final(self).ext_mem@ == old(self).ext_mem@,
            final(self).mip_arrays@ == old(self).mip_arrays@,
            final(self).levels_handed_out == old(self).levels_handed_out,
            final(self).closed_handles@ == old(self).closed_handles@,
            final(self).log@ == old(self).log@.push((NativeCall::GetMappedBuffer { mem, offset, len })),
            r is Ok <==> old(self).map_accepted(mem, offset, len),
            r matches Ok(ptr) ==> ({
                &&& ptr == old(self).dev_ptrs@.len() + 1
                &&& ptr != 0
                &&& !old(self).ptr_live(ptr)
                &&& final(self).dev_ptrs@ == old(self).dev_ptrs@.push(true)
                &&& final(self).ptr_live(ptr)
            }),
            r is Err ==> final(self).dev_ptrs@ == old(self).dev_ptrs@,
            r matches Err(e) ==> e == old(self).map_error(mem, offset, len),
            forall|q: u64|
                q != old(self).dev_ptrs@.len() + 1 ==> final(self).ptr_live(q) == old(self).ptr_live(q),
    {
        self.log.push(NativeCall::GetMappedBuffer { mem, offset, len });
        if !(mem >= 1 && mem <= self.ext_mem.len() as u64 && self.ext_mem[(mem - 1) as usize].live) {
            return Err(DriverError { code: CODE_INVALID_HANDLE });
        }
        let size = self.ext_mem[(mem - 1) as usize].size;
        if offset > size || len > size - offset {
            return Err(DriverError { code: CODE_INVALID_VALUE });
        }
        if self.fail_maps {
            return Err(DriverError { code: CODE_UNKNOWN });
        }
        let n = self.dev_ptrs.len();
        if n as u64 == u64::MAX {
            return Err(DriverError { code: CODE_OUT_OF_MEMORY });
        }
        self.dev_ptrs.push(true);
        Ok(n as u64 + 1)
    }

    /// The native free call for a mapped device pointer: succeeds exactly
    /// when the pointer is live, and marks it freed.
    pub fn memory_free(&mut self, ptr: u64) -> (r: Result<(), DriverError>)
        ensures
            same_config(*old(self), *final(self)),
            final(self).ext_mem@ == old(self).ext_mem@,
            final(self).mip_arrays@ == old(self).mip_arrays@,
            final(self).levels_handed_out == old(self).levels_handed_out,
            final(self).closed_handles@ == old(self).closed_handles@,
            final(self).log@ == old(self).log@.push((NativeCall::MemoryFree { ptr })),
            r is Ok <==> old(self).ptr_live(ptr),
            r is Ok ==> ({
                &&& final(self).dev_ptrs@ == old(self).dev_ptrs@.update(ptr - 1, false)
                &&& !final(self).ptr_live(ptr)
            }),
            r is Err ==> final(self).dev_ptrs@ == old(self).dev_ptrs@,
            r matches Err(e) ==> e == (DriverError { code: CODE_INVALID_HANDLE }),
            forall|q: u64| q != ptr ==> final(self).ptr_live(q) == old(self).ptr_live(q),
    {
        self.log.push(NativeCall::MemoryFree { ptr });
        if ptr >= 1 && ptr <= self.dev_ptrs.len() as u64 && self.dev_ptrs[(ptr - 1) as usize] {
            self.dev_ptrs[(ptr - 1) as usize] = false;
            Ok(())
        } else {
            Err(DriverError { code: CODE_INVALID_HANDLE })
        }
    }

    /// The native get-mapped-mipmapped-array call.  On success the new
    /// array records the dimensions and gets the next dense identifier.
    pub fn get_mapped_mipmapped_array(&mut self, mem: u64, width: u64, height: u64) -> (r: Result<
        u64,
        DriverError,
    >)
        ensures
            same_config(*old(self), *final(self)),
            final(self).ext_mem@ == old(self).ext_mem@,
            final(self).dev_ptrs@ == old(self).dev_ptrs@,
            final(self).levels_handed_out == old(self).levels_handed_out,
            final(self).closed_handles@ == old(self).closed_handles@,
            final(self).log@ == old(self).log@.push(
                (NativeCall::GetMappedMipmappedArray { mem, width, height }),
            ),
            r is Ok <==> old(self).mip_accepted(mem, width, height),
            r matches Ok(id) ==> ({
                &&& id == old(self).mip_arrays@.len() + 1
                &&& id != 0
                &&& !old(self).array_live(id)
                &&& final(self).mip_arrays@ == old(self).mip_arrays@.push(
                    (MipArrayRecord { width, height, live: true }),
                )
                &&& final(self).array_live(id)
                &&& final(self).array_width(id) == width
                &&& final(self).array_height(id) == height
            }),
            r is Err ==> final(self).mip_arrays@ == old(self).mip_arrays@,
            r matches Err(e) ==> e == old(self).mip_error(mem, width, height),
            forall|j: u64|
                j != old(self).mip_arrays@.len() + 1 ==> final(self).array_live(j) == old(self).array_live(j) && (old(self).array_live(j) ==> final(self).array_width(j) == old(self).array_width(j) && final(self).array_height(j) == old(self).array_height(j)),
    {
        self.log.push(NativeCall::GetMappedMipmappedArray { mem, width, height });
        if !(mem >= 1 && mem <= self.ext_mem.len() as u64 && self.ext_mem[(mem - 1) as usize].live) {
            return Err(DriverError { code: CODE_INVALID_HANDLE });
        }
        let size = self.ext_mem[(mem - 1) as usize].size;
        let w = width as u128;
        let h = height as u128;
        proof {
            assert(w * h <= 0xFFFF_FFFF_FFFF_FFFFu128 * 0xFFFF_FFFF_FFFF_FFFFu128)
                by (nonlinear_arith)
                requires
                    w <= 0xFFFF_FFFF_FFFF_FFFFu128,
                    h <= 0xFFFF_FFFF_FFFF_FFFFu128,
            ;
        }
        if w * h > size as u128 {
            return Err(DriverError { code: CODE_INVALID_VALUE });
        }
        if self.fail_mipmapped {
            return Err(DriverError { code: CODE_UNKNOWN });
        }
        let n = self.mip_arrays.len();
        if n as u64 == u64::MAX {
            return Err(DriverError { code: CODE_OUT_OF_MEMORY });
        }
        self.mip_arrays.push(MipArrayRecord { width, height, live: true });
        Ok(n as u64 + 1)
    }

    /// The native get-level call.  On success it hands out the next
    /// per-level array handle, which is never null.
    pub fn get_mipmap_level(&mut self, array: u64, level: u32) -> (r: Result<u64, DriverError>)
        ensures
            same_config(*old(self), *final(self)),
            final(self).ext_mem@ == old(self).ext_mem@,
            final(self).dev_ptrs@ == old(self).dev_ptrs@,
            final(self).mip_arrays@ == old(self).mip_arrays@,
            final(self).closed_handles@ == old(self).closed_handles@,
            final(self).log@ == old(self).log@.push((NativeCall::GetMipmapLevel { array, level })),
            r is Ok <==> old(self).level_accepted(array, level),
            r matches Ok(handle) ==> ({
                &&& handle == old(self).levels_handed_out + 1
                &&& handle != 0
                &&& final(self).levels_handed_out == old(self).levels_handed_out + 1
            }),
            r is Err ==> final(self).levels_handed_out == old(self).levels_handed_out,
            r matches Err(e) ==> e == old(self).level_error(array, level),
    {
        self.log.push(NativeCall::GetMipmapLevel { array, level });
        if !(array >= 1 && array <= self.mip_arrays.len() as u64 && self.mip_arrays[(array
            - 1) as usize].live) {
            return Err(DriverError { code: CODE_INVALID_HANDLE });
        }
        if !(level < self.mip_levels) {
            return Err(DriverError { code: CODE_INVALID_VALUE });
        }
        if self.levels_handed_out == u64::MAX {
            return Err(DriverError { code: CODE_OUT_OF_MEMORY });
        }
        self.levels_handed_out = self.levels_handed_out + 1;
        Ok(self.levels_handed_out)
    }

    /// The native destroy call for a mipmapped array: succeeds exactly when
    /// the array is live, and marks it destroyed.
    pub fn destroy_mipmapped_array(&mut self, array: u64) -> (r: Result<(), DriverError>)
        ensures
            same_config(*old(self), *final(self)),
            final(self).ext_mem@ == old(self).ext_mem@,
            final(self).dev_ptrs@ == old(self).dev_ptrs@,
            final(self).levels_handed_out == old(self).levels_handed_out,
            final(self).closed_handles@ == old(self).closed_handles@,
            final(self).log@ == old(self).log@.push((NativeCall::DestroyMipmappedArray { array })),
            r is Ok <==> old(self).array_live(array),
            r is Ok ==> ({
                &&& final(self).mip_arrays@ == old(self).mip_arrays@.update(
                    array - 1,
                    (MipArrayRecord {
                        width: old(self).array_width(array),
                        height: old(self).array_height(array),
                        live: false,
                    }),
                )
                &&& !final(self).array_live(array)
            }),
            r is Err ==> final(self).mip_arrays@ == old(self).mip_arrays@,
            r matches Err(e) ==> e == (DriverError { code: CODE_INVALID_HANDLE }),
            forall|j: u64|
                j != array ==> final(self).array_live(j) == old(self).array_live(j) && (old(self).array_live(j) ==> final(self).array_width(j) == old(self).array_width(j) && final(self).array_height(j) == old(self).array_height(j)),
    {
        self.log.push(NativeCall::DestroyMipmappedArray { array });
        if array >= 1 && array <= self.mip_arrays.len() as u64 && self.mip_arrays[(array
            - 1) as usize].live {
            let width = self.mip_arrays[(array - 1) as usize].width;
            let height = self.mip_arrays[(array - 1) as usize].height;
            self.mip_arrays[(array - 1) as usize] = MipArrayRecord { width, height, live: false };
            Ok(())
        } else {
            Err(DriverError { code: CODE_INVALID_HANDLE })
        }
    }

    /// The OS call releasing a raw handle.  The mock records the release;
    /// it never fails.
    pub fn close_handle(&mut self, raw_handle: u64)
        ensures
            same_config(*old(self), *final(self)),
            final(self).ext_mem@ == old(self).ext_mem@,
            final(self).dev_ptrs@ == old(self).dev_ptrs@,
            final(self).mip_arrays@ == old(self).mip_arrays@,
            final(self).levels_handed_out == old(self).levels_handed_out,
            final(self).closed_handles@ == old(self).closed_handles@.push(raw_handle),
            final(self).log@ == old(self).log@.push((NativeCall::CloseHandle { raw_handle })),
            final(self).close_count(raw_handle) == old(self).close_count(raw_handle) + 1,
            forall|h: u64|
                h != raw_handle ==> final(self).close_count(h) == old(self).close_count(h),
    {
        self.closed_handles.push(raw_handle);
        self.log.push(NativeCall::CloseHandle { raw_handle });
        proof {
            assert forall|h: u64|
                count_matches(self.closed_handles@, h) == count_matches(
                    old(self).closed_handles@,
                    h,
                ) + (if h == raw_handle {
                    1nat
                } else {
                    0nat
                }) by {
                lemma_count_matches_push(old(self).closed_handles@, raw_handle, h);
            }
        }
    }
}

} // verus!
