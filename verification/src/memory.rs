use vstd::prelude::*;

use crate::error::DriverError;
use crate::error::CODE_INVALID_CONTEXT;
use crate::handle_type::ExternalMemoryType;
use crate::handle_type::PlatformFamily;
use crate::native::same_config;
use crate::native::ExtMemRecord;
use crate::native::MipArrayRecord;
use crate::native::MockNative;
use crate::native::NativeCall;

verus! {

/// The success condition of [`ExternalMemory::map_range`]: the memory is
/// well-formed in the native layer, the byte range is within bounds, maps
/// are not set to fail, and device-pointer identifier space remains.
pub open spec fn map_range_ok(n: MockNative, mem: ExternalMemory, start: u64, end: u64) -> bool {
    &&& mem.wf_in(n)
    &&& start <= end
    &&& end <= mem.spec_size()
    &&& !n.fail_maps
    &&& n.dev_ptrs@.len() < u64::MAX
}

/// The success condition of [`ExternalMemory::map_all`]: the memory is
/// well-formed in the native layer, maps are not set to fail, and
/// device-pointer identifier space remains.
pub open spec fn map_all_ok(n: MockNative, mem: ExternalMemory) -> bool {
    &&& mem.wf_in(n)
    &&& !n.fail_maps
    &&& n.dev_ptrs@.len() < u64::MAX
}

/// The success condition of [`ExternalMemory::mipmapped_array`]: the
/// memory is well-formed in the native layer, the array (at one byte per
/// element) fits in the underlying allocation, array creation is not set
/// to fail, and array identifier space remains.
pub open spec fn mip_view_ok(n: MockNative, mem: ExternalMemory, width: u64, height: u64) -> bool {
    &&& mem.wf_in(n)
    &&& width * height <= mem.spec_size()
    &&& !n.fail_mipmapped
    &&& n.mip_arrays@.len() < u64::MAX
}

/// What a failed mapping leaves behind: the consumed memory was destroyed
/// before the error returned, so the log records the failed mapping call
/// followed by the full destruction protocol — context re-bind, native
/// destroy, and, exactly on the retaining platform family, one release of
/// the raw OS handle.
pub open spec fn map_failure_cleanup(
    before: MockNative,
    after: MockNative,
    mem: ExternalMemory,
    offset: u64,
    len: u64,
) -> bool {
    &&& (before.platform is HandleRetaining ==> ({
        &&& after.closed_handles@ == before.closed_handles@.push(mem.spec_raw_handle())
        &&& after.close_count(mem.spec_raw_handle()) == before.close_count(mem.spec_raw_handle())
            + 1
        &&& after.log@ == before.log@ + seq![
            (NativeCall::GetMappedBuffer { mem: mem.spec_native_id(), offset, len }),
            NativeCall::BindToThread,
            (NativeCall::DestroyExternalMemory { mem: mem.spec_native_id() }),
            (NativeCall::CloseHandle { raw_handle: mem.spec_raw_handle() }),
        ]
    }))
    &&& (before.platform is HandleTransferring ==> ({
        &&& after.closed_handles@ == before.closed_handles@
        &&& after.log@ == before.log@ + seq![
            (NativeCall::GetMappedBuffer { mem: mem.spec_native_id(), offset, len }),
            NativeCall::BindToThread,
            (NativeCall::DestroyExternalMemory { mem: mem.spec_native_id() }),
        ]
    }))
}

/// A handle to the device whose context owns every resource created here.
///
/// The device is shared by copy among the resources derived from it; its
/// one operation is to make its context current on the calling thread.
#[derive(Debug, Clone, Copy, PartialEq, Eq, Structural)]
pub struct CudaDevice {
    /// Ordinal of the device.
    pub ordinal: u32,
}

/// An abstraction for imported external memory.
///
/// A value is created only by a successful
/// [`CudaDevice::import_external_memory`] and stands for one live native
/// external-memory object.  It is consumed either by a mapping operation
/// (exclusively, into a [`MappedBuffer`]) or by [`destroy`], which releases
/// the native object exactly once; mipmapped-array views merely borrow it.
///
/// [`destroy`]: ExternalMemory::destroy
#[derive(Debug)]
pub struct ExternalMemory {
    external_memory: u64,
    size: u64,
    device: CudaDevice,
    raw_handle: u64,
    platform: PlatformFamily,
}

/// An abstraction for a mapped buffer over some external memory.
///
/// A value is created by [`ExternalMemory::map_range`] or
/// [`ExternalMemory::map_all`], which consume the external memory, so at
/// most one mapped buffer per imported object can ever exist.  [`destroy`]
/// frees the device pointer and then destroys the embedded memory object.
///
/// [`destroy`]: MappedBuffer::destroy
#[derive(Debug)]
pub struct MappedBuffer {
    device_ptr: u64,
    len: u64,
    external_memory: ExternalMemory,
}

/// A borrowing view over external memory as a native mipmapped array.
///
/// The view borrows its source [`ExternalMemory`], so it cannot outlive it,
/// and any number of views of the same memory may exist at once.
#[derive(Debug)]
pub struct MipMappedArray<'a> {
    array: u64,
    width: u64,
    height: u64,
    _external_memory: &'a ExternalMemory,
}

impl CudaDevice {
    /// A device handle with the given ordinal.
    pub fn new(ordinal: u32) -> (d: CudaDevice)
        ensures
            d.ordinal == ordinal,
    {
        CudaDevice { ordinal }
    }

    /// Makes this device's context current on the calling thread, through
    /// the native context-bind call.
    pub fn bind_to_thread(&self, native: &mut MockNative) -> (r: Result<(), DriverError>)
        ensures
            same_config(*old(native), *final(native)),
            final(native).ext_mem@ == old(native).ext_mem@,
            final(native).dev_ptrs@ == old(native).dev_ptrs@,
            final(native).mip_arrays@ == old(native).mip_arrays@,
            final(native).levels_handed_out == old(native).levels_handed_out,
            final(native).closed_handles@ == old(native).closed_handles@,
            final(native).log@ == old(native).log@.push(NativeCall::BindToThread),
            r is Ok <==> old(native).context_valid,
            r matches Err(e) ==> e == (DriverError { code: CODE_INVALID_CONTEXT }),
    {
        native.bind_to_thread()
    }

    /// Imports external memory from a raw OS handle.
    ///
    /// Binds the context to the current thread, then performs the native
    /// import call with a descriptor assembled from the raw handle, the
    /// declared byte size and the handle type.  On success the returned
    /// [`ExternalMemory`] records the native object, the size, this device
    /// and the raw handle; on the platform family where the driver takes
    /// handle ownership the raw handle is retained but never closed.
    ///
    /// The declared size must equal the true size of the external memory
    /// object; that correspondence is the caller's contract with the
    /// driver and is not validated by this layer.
    pub fn import_external_memory(
        &self,
        native: &mut MockNative,
        raw_handle: u64,
        size: u64,
        type_: ExternalMemoryType,
    ) -> (r: Result<ExternalMemory, DriverError>)
        ensures
            same_config(*old(native), *final(native)),
            final(native).dev_ptrs@ == old(native).dev_ptrs@,
            final(native).mip_arrays@ == old(native).mip_arrays@,
            final(native).levels_handed_out == old(native).levels_handed_out,
            final(native).closed_handles@ == old(native).closed_handles@,
            r is Ok <==> (old(native).context_valid && old(native).import_accepted(
                raw_handle,
                size,
                type_.spec_code(),
            )),
            r matches Ok(m) ==> ({
                &&& m.spec_size() == size
                &&& m.spec_raw_handle() == raw_handle
                &&& m.spec_platform() == old(native).platform
                &&& m.spec_device() == *self
                &&& m.spec_native_id() == old(native).ext_mem@.len() + 1
                &&& !old(native).ext_live(m.spec_native_id())
                &&& m.wf_in(*final(native))
                &&& final(native).ext_mem@ == old(native).ext_mem@.push(
                    (ExtMemRecord { size, live: true }),
                )
                &&& final(native).log@ == old(native).log@ + seq![
                    NativeCall::BindToThread,
                    (NativeCall::ImportExternalMemory {
                        raw_handle,
                        size,
                        code: type_.spec_code(),
                    }),
                ]
            }),
            r is Err ==> final(native).ext_mem@ == old(native).ext_mem@,
            r matches Err(e) ==> (if !old(native).context_valid {
                &&& e == (DriverError { code: CODE_INVALID_CONTEXT })
                &&& final(native).log@ == old(native).log@.push(NativeCall::BindToThread)
            } else {
                &&& e == old(native).import_error(raw_handle, size, type_.spec_code())
                &&& final(native).log@ == old(native).log@ + seq![
                    NativeCall::BindToThread,
                    (NativeCall::ImportExternalMemory {
                        raw_handle,
                        size,
                        code: type_.spec_code(),
                    }),
                ]
            }),
            forall|j: u64|
                old(native).ext_live(j) ==> final(native).ext_live(j) && final(native).ext_size(j)
                    == old(native).ext_size(j),
    {
        self.bind_to_thread(native)?;
        let code = u32::from(type_);
        let id = match native.import_external_memory(raw_handle, size, code) {
            Ok(id) => id,
            Err(e) => {
                proof {
                    assert(native.log@ =~= old(native).log@ + seq![
                        NativeCall::BindToThread,
                        (NativeCall::ImportExternalMemory { raw_handle, size, code }),
                    ]);
                }
                return Err(e);
            },
        };
        proof {
            assert(native.log@ =~= old(native).log@ + seq![
                NativeCall::BindToThread,
                (NativeCall::ImportExternalMemory { raw_handle, size, code }),
            ]);
        }
        Ok(
            ExternalMemory {
                external_memory: id,
                size,
                device: *self,
                raw_handle,
                platform: native.platform,
            },
        )
    }
}

impl ExternalMemory {
    /// Identifier of the native external-memory object.
    pub closed spec fn spec_native_id(self) -> u64 {
        self.external_memory
    }

    /// Recorded total byte size of the imported memory.
    pub closed spec fn spec_size(self) -> u64 {
        self.size
    }

    /// The raw OS handle the memory was imported from.
    pub closed spec fn spec_raw_handle(self) -> u64 {
        self.raw_handle
    }

    /// The handle-ownership regime recorded at import time.
    pub closed spec fn spec_platform(self) -> PlatformFamily {
        self.platform
    }

    /// The owning device.
    pub closed spec fn spec_device(self) -> CudaDevice {
        self.device
    }

    /// Well-formedness relative to the native layer: the native object is
    /// live, its recorded size matches, and the value was imported under
    /// the native layer's own platform family.
    pub open spec fn wf_in(self, n: MockNative) -> bool {
        &&& n.ext_live(self.spec_native_id())
        &&& n.ext_size(self.spec_native_id()) == self.spec_size()
        &&& self.spec_platform() == n.platform
    }

    /// Recorded total byte size of the imported memory.
    pub fn size(&self) -> (s: u64)
        ensures
            s == self.spec_size(),
    {
        self.size
    }

    /// Maps the whole external memory to a mapped buffer.
    ///
    /// A convenience equal to mapping the full range `[0, size)`; see
    /// [`map_range`] for the contract, with `start == 0` and
    /// `end == size`.
    ///
    /// [`map_range`]: ExternalMemory::map_range
    pub fn map_all(self, native: &mut MockNative) -> (r: Result<MappedBuffer, DriverError>)
        requires
            self.wf_in(*old(native)),
            old(native).context_valid,
        ensures
            same_config(*old(native), *final(native)),
            final(native).mip_arrays@ == old(native).mip_arrays@,
            final(native).levels_handed_out == old(native).levels_handed_out,
            final(native).ext_mem@.len() == old(native).ext_mem@.len(),
            r is Ok <==> map_all_ok(*old(native), self),
            r matches Ok(b) ==> ({
                &&& b.spec_len() == self.spec_size()
                &&& b.spec_device_ptr() == old(native).dev_ptrs@.len() + 1
                &&& b.spec_device_ptr() != 0
                &&& b.spec_memory() == self
                &&& b.wf_in(*final(native))
                &&& final(native).ext_mem@ == old(native).ext_mem@
                &&& final(native).dev_ptrs@ == old(native).dev_ptrs@.push(true)
                &&& final(native).closed_handles@ == old(native).closed_handles@
                &&& final(native).log@ == old(native).log@.push(
                    (NativeCall::GetMappedBuffer {
                        mem: self.spec_native_id(),
                        offset: 0,
                        len: self.spec_size(),
                    }),
                )
            }),
            r matches Err(e) ==> ({
                &&& e == old(native).map_error(self.spec_native_id(), 0, self.spec_size())
                &&& !final(native).ext_live(self.spec_native_id())
                &&& final(native).dev_ptrs@ == old(native).dev_ptrs@
                &&& map_failure_cleanup(
                    *old(native),
                    *final(native),
                    self,
                    0,
                    self.spec_size(),
                )
            }),
            forall|j: u64|
                j != self.spec_native_id() && old(native).ext_live(j) ==> final(native).ext_live(j) && final(native).ext_size(j) == old(native).ext_size(j),
            forall|h: u64|
                h != self.spec_raw_handle() ==> final(native).close_count(h) == old(native).close_count(h),
    {
        let size = self.size;
        self.map_range(native, 0, size)
    }

    /// Maps a byte range of the external memory to a mapped buffer.
    ///
    /// Consumes the memory: the caller's binding to it is extinguished, so
    /// no second mapping of the same import can ever be expressed.  The
    /// range `[start, end)` must satisfy `start <= end <= size`; a caller
    /// that wants graceful handling of an invalid range must validate it
    /// before calling.  On native failure the consumed memory is destroyed
    /// (re-binding the context first) before the error is returned, so no
    /// partially-constructed resource is left behind.
    pub fn map_range(self, native: &mut MockNative, start: u64, end: u64) -> (r: Result<
        MappedBuffer,
        DriverError,
    >)
        requires
            self.wf_in(*old(native)),
            start <= end,
            end <= self.spec_size(),
            old(native).context_valid,
        ensures
            same_config(*old(native), *final(native)),
            final(native).mip_arrays@ == old(native).mip_arrays@,
            final(native).levels_handed_out == old(native).levels_handed_out,
            final(native).ext_mem@.len() == old(native).ext_mem@.len(),
            r is Ok <==> map_range_ok(*old(native), self, start, end),
            r matches Ok(b) ==> ({
                &&& b.spec_len() == end - start
                &&& b.spec_device_ptr() == old(native).dev_ptrs@.len() + 1
                &&& b.spec_device_ptr() != 0
                &&& b.spec_memory() == self
                &&& b.wf_in(*final(native))
                &&& final(native).ext_mem@ == old(native).ext_mem@
                &&& final(native).dev_ptrs@ == old(native).dev_ptrs@.push(true)
                &&& final(native).closed_handles@ == old(native).closed_handles@
                &&& final(native).log@ == old(native).log@.push(
                    (NativeCall::GetMappedBuffer {
                        mem: self.spec_native_id(),
                        offset: start,
                        len: (end - start) as u64,
                    }),
                )
            }),
            r matches Err(e) ==> ({
                &&& e == old(native).map_error(self.spec_native_id(), start, (end - start) as u64)
                &&& !final(native).ext_live(self.spec_native_id())
                &&& final(native).dev_ptrs@ == old(native).dev_ptrs@
                &&& map_failure_cleanup(
                    *old(native),
                    *final(native),
                    self,
                    start,
                    (end - start) as u64,
                )
            }),
            forall|j: u64|
                j != self.spec_native_id() && old(native).ext_live(j) ==> final(native).ext_live(j) && final(native).ext_size(j) == old(native).ext_size(j),
            forall|h: u64|
                h != self.spec_raw_handle() ==> final(native).close_count(h) == old(native).close_count(h),
    {
        let len = end - start;
        match native.get_mapped_buffer(self.external_memory, start, len) {
            Ok(device_ptr) => Ok(MappedBuffer { device_ptr, len, external_memory: self }),
            Err(e) => {
                self.destroy(native);
                proof {
                    if native.platform is HandleRetaining {
                        assert(native.log@ =~= old(native).log@ + seq![
                            (NativeCall::GetMappedBuffer {
                                mem: self.spec_native_id(),
                                offset: start,
                                len: (end - start) as u64,
                            }),
                            NativeCall::BindToThread,
                            (NativeCall::DestroyExternalMemory { mem: self.spec_native_id() }),
                            (NativeCall::CloseHandle { raw_handle: self.spec_raw_handle() }),
                        ]);
                    } else {
                        assert(native.log@ =~= old(native).log@ + seq![
                            (NativeCall::GetMappedBuffer {
                                mem: self.spec_native_id(),
                                offset: start,
                                len: (end - start) as u64,
                            }),
                            NativeCall::BindToThread,
                            (NativeCall::DestroyExternalMemory { mem: self.spec_native_id() }),
                        ]);
                    }
                }
                Err(e)
            },
        }
    }

    /// Borrows the external memory as a mipmapped array of the given
    /// dimensions.
    ///
    /// The memory is only borrowed, so this is repeatable: any number of
    /// views over the same memory may exist at once, and the memory stays
    /// usable afterward.  The returned view cannot outlive the borrowed
    /// memory.
    pub fn mipmapped_array<'a>(
        &'a self,
        native: &mut MockNative,
        width: u64,
        height: u64,
    ) -> (r: Result<MipMappedArray<'a>, DriverError>)
        requires
            self.wf_in(*old(native)),
        ensures
            same_config(*old(native), *final(native)),
            final(native).ext_mem@ == old(native).ext_mem@,
            final(native).dev_ptrs@ == old(native).dev_ptrs@,
            final(native).levels_handed_out == old(native).levels_handed_out,
            final(native).closed_handles@ == old(native).closed_handles@,
            final(native).log@ == old(native).log@.push(
                (NativeCall::GetMappedMipmappedArray {
                    mem: self.spec_native_id(),
                    width,
                    height,
                }),
            ),
            self.wf_in(*final(native)),
            r is Ok <==> mip_view_ok(*old(native), *self, width, height),
            r matches Ok(v) ==> ({
                &&& v.spec_width() == width
                &&& v.spec_height() == height
                &&& v.spec_array_id() == old(native).mip_arrays@.len() + 1
                &&& !old(native).array_live(v.spec_array_id())
                &&& v.spec_source() == *self
                &&& v.wf_in(*final(native))
                &&& final(native).mip_arrays@ == old(native).mip_arrays@.push(
                    (MipArrayRecord { width, height, live: true }),
                )
            }),
            r is Err ==> final(native).mip_arrays@ == old(native).mip_arrays@,
            r matches Err(e) ==> e == old(native).mip_error(self.spec_native_id(), width, height),
            forall|j: u64|
                j != old(native).mip_arrays@.len() + 1 ==> final(native).array_live(j) == old(native).array_live(j) && (old(native).array_live(j) ==> final(native).array_width(j)
                    == old(native).array_width(j) && final(native).array_height(j) == old(native).array_height(j)),
    {
        match native.get_mapped_mipmapped_array(self.external_memory, width, height) {
            Ok(id) => Ok(MipMappedArray { array: id, width, height, _external_memory: self }),
            Err(e) => Err(e),
        }
    }

    /// Destroys the imported external memory.
    ///
    /// Re-binds the context to the current thread, then issues the native
    /// destroy call; on the platform family where the driver did not take
    /// ownership of the raw handle, releases that handle, exactly once.
    /// On the transferring family the raw handle is never released: the
    /// driver owns it, and closing it would be undefined behaviour.
    /// Destruction-time native failures are assumed not to occur under
    /// correct usage; the preconditions here make them provably absent.
    pub fn destroy(self, native: &mut MockNative)
        requires
            self.wf_in(*old(native)),
            old(native).context_valid,
        ensures
            same_config(*old(native), *final(native)),
            final(native).dev_ptrs@ == old(native).dev_ptrs@,
            final(native).mip_arrays@ == old(native).mip_arrays@,
            final(native).levels_handed_out == old(native).levels_handed_out,
            final(native).ext_mem@.len() == old(native).ext_mem@.len(),
            !final(native).ext_live(self.spec_native_id()),
            forall|j: u64|
                j != self.spec_native_id() ==> final(native).ext_live(j) == old(native).ext_live(j) && (old(native).ext_live(j) ==> final(native).ext_size(j) == old(native).ext_size(j)),
            old(native).platform is HandleRetaining ==> ({
                &&& final(native).closed_handles@ == old(native).closed_handles@.push(
                    self.spec_raw_handle(),
                )
                &&& final(native).close_count(self.spec_raw_handle()) == old(native).close_count(
                    self.spec_raw_handle(),
                ) + 1
                &&& final(native).log@ == old(native).log@ + seq![
                    NativeCall::BindToThread,
                    (NativeCall::DestroyExternalMemory { mem: self.spec_native_id() }),
                    (NativeCall::CloseHandle { raw_handle: self.spec_raw_handle() }),
                ]
            }),
            old(native).platform is HandleTransferring ==> ({
                &&& final(native).closed_handles@ == old(native).closed_handles@
                &&& final(native).log@ == old(native).log@ + seq![
                    NativeCall::BindToThread,
                    (NativeCall::DestroyExternalMemory { mem: self.spec_native_id() }),
                ]
            }),
            forall|h: u64|
                h != self.spec_raw_handle() ==> final(native).close_count(h) == old(native).close_count(h),
    {
        self.device.bind_to_thread(native).unwrap();
        native.destroy_external_memory(self.external_memory).unwrap();
        match self.platform {
            PlatformFamily::HandleRetaining => {
                native.close_handle(self.raw_handle);
                proof {
                    assert(native.log@ =~= old(native).log@ + seq![
                        NativeCall::BindToThread,
                        (NativeCall::DestroyExternalMemory { mem: self.spec_native_id() }),
                        (NativeCall::CloseHandle { raw_handle: self.spec_raw_handle() }),
                    ]);
                }
            },
            PlatformFamily::HandleTransferring => {
                proof {
                    assert(native.log@ =~= old(native).log@ + seq![
                        NativeCall::BindToThread,
                        (NativeCall::DestroyExternalMemory { mem: self.spec_native_id() }),
                    ]);
                }
            },
        }
    }
}

impl MappedBuffer {
    /// The mapped native device pointer.
    pub closed spec fn spec_device_ptr(self) -> u64 {
        self.device_ptr
    }

    /// Byte length of the mapped range.
    pub closed spec fn spec_len(self) -> u64 {
        self.len
    }

    /// The external memory this buffer was produced from and now owns.
    pub closed spec fn spec_memory(self) -> ExternalMemory {
        self.external_memory
    }

    /// Well-formedness relative to the native layer: the device pointer is
    /// live and the embedded external memory is well-formed.
    pub open spec fn wf_in(self, n: MockNative) -> bool {
        &&& n.ptr_live(self.spec_device_ptr())
        &&& self.spec_memory().wf_in(n)
    }

    /// Byte length of the mapped range.
    pub fn len(&self) -> (l: u64)
        ensures
            l == self.spec_len(),
    {
        self.len
    }

    /// The mapped native device pointer.
    pub fn device_ptr(&self) -> (p: u64)
        ensures
            p == self.spec_device_ptr(),
    {
        self.device_ptr
    }

    /// Destroys the mapped buffer and the external memory it owns.
    ///
    /// Re-binds the context, frees the device pointer through the native
    /// free call, and then destroys the embedded external memory — which
    /// re-binds the context again, issues the native destroy call, and
    /// releases the raw handle exactly on the retaining platform family.
    /// The native free therefore always precedes the native destroy.
    /// Destruction-time native failures are assumed not to occur under
    /// correct usage; the preconditions here make them provably absent.
    pub fn destroy(self, native: &mut MockNative)
        requires
            self.wf_in(*old(native)),
            old(native).context_valid,
        ensures
            same_config(*old(native), *final(native)),
            final(native).mip_arrays@ == old(native).mip_arrays@,
            final(native).levels_handed_out == old(native).levels_handed_out,
            final(native).ext_mem@.len() == old(native).ext_mem@.len(),
            final(native).dev_ptrs@.len() == old(native).dev_ptrs@.len(),
            !final(native).ptr_live(self.spec_device_ptr()),
            forall|q: u64|
                q != self.spec_device_ptr() ==> final(native).ptr_live(q) == old(native).ptr_live(q),
            !final(native).ext_live(self.spec_memory().spec_native_id()),
            forall|j: u64|
                j != self.spec_memory().spec_native_id() ==> final(native).ext_live(j) == old(native).ext_live(j) && (old(native).ext_live(j) ==> final(native).ext_size(j) == old(native).ext_size(j)),
            old(native).platform is HandleRetaining ==> ({
                &&& final(native).closed_handles@ == old(native).closed_handles@.push(
                    self.spec_memory().spec_raw_handle(),
                )
                &&& final(native).close_count(self.spec_memory().spec_raw_handle()) == old(native).close_count(self.spec_memory().spec_raw_handle()) + 1
                &&& final(native).log@ == old(native).log@ + seq![
                    NativeCall::BindToThread,
                    (NativeCall::MemoryFree { ptr: self.spec_device_ptr() }),
                    NativeCall::BindToThread,
                    (NativeCall::DestroyExternalMemory {
                        mem: self.spec_memory().spec_native_id(),
                    }),
                    (NativeCall::CloseHandle {
                        raw_handle: self.spec_memory().spec_raw_handle(),
                    }),
                ]
            }),
            old(native).platform is HandleTransferring ==> ({
                &&& final(native).closed_handles@ == old(native).closed_handles@
                &&& final(native).log@ == old(native).log@ + seq![
                    NativeCall::BindToThread,
                    (NativeCall::MemoryFree { ptr: self.spec_device_ptr() }),
                    NativeCall::BindToThread,
                    (NativeCall::DestroyExternalMemory {
                        mem: self.spec_memory().spec_native_id(),
                    }),
                ]
            }),
            forall|h: u64|
                h != self.spec_memory().spec_raw_handle() ==> final(native).close_count(h) == old(native).close_count(h),
    {
        self.external_memory.device.bind_to_thread(native).unwrap();
        native.memory_free(self.device_ptr).unwrap();
        self.external_memory.destroy(native);
        proof {
            if old(native).platform is HandleRetaining {
                assert(native.log@ =~= old(native).log@ + seq![
                    NativeCall::BindToThread,
                    (NativeCall::MemoryFree { ptr: self.spec_device_ptr() }),
                    NativeCall::BindToThread,
                    (NativeCall::DestroyExternalMemory {
                        mem: self.spec_memory().spec_native_id(),
                    }),
                    (NativeCall::CloseHandle {
                        raw_handle: self.spec_memory().spec_raw_handle(),
                    }),
                ]);
            } else {
                assert(native.log@ =~= old(native).log@ + seq![
                    NativeCall::BindToThread,
                    (NativeCall::MemoryFree { ptr: self.spec_device_ptr() }),
                    NativeCall::BindToThread,
                    (NativeCall::DestroyExternalMemory {
                        mem: self.spec_memory().spec_native_id(),
                    }),
                ]);
            }
        }
    }
}

impl<'a> MipMappedArray<'a> {
    /// Identifier of the native mipmapped-array object.
    pub closed spec fn spec_array_id(self) -> u64 {
        self.array
    }

    /// Width the view was created with.
    pub closed spec fn spec_width(self) -> u64 {
        self.width
    }

    /// Height the view was created with.
    pub closed spec fn spec_height(self) -> u64 {
        self.height
    }

    /// The external memory the view borrows from.
    pub closed spec fn spec_source(self) -> ExternalMemory {
        *self._external_memory
    }

    /// Well-formedness relative to the native layer: the native array is
    /// live and records the dimensions the view was created with.
    pub open spec fn wf_in(self, n: MockNative) -> bool {
        &&& n.array_live(self.spec_array_id())
        &&& n.array_width(self.spec_array_id()) == self.spec_width()
        &&& n.array_height(self.spec_array_id()) == self.spec_height()
    }

    /// Width the view was created with.
    pub fn width(&self) -> (w: u64)
        ensures
            w == self.spec_width(),
    {
        self.width
    }

    /// Height the view was created with.
    pub fn height(&self) -> (h: u64)
        ensures
            h == self.spec_height(),
    {
        self.height
    }

    /// Gets a mip level of the array, as a native per-level array handle.
    ///
    /// Succeeds exactly when the level index is within the array's mip
    /// chain (whose depth the native driver determines; no local bound is
    /// enforced) and handle space remains; the handle is never null.
    pub fn level(&self, native: &mut MockNative, level: u32) -> (r: Result<u64, DriverError>)
        requires
            self.wf_in(*old(native)),
        ensures
            same_config(*old(native), *final(native)),
            final(native).ext_mem@ == old(native).ext_mem@,
            final(native).dev_ptrs@ == old(native).dev_ptrs@,
            final(native).mip_arrays@ == old(native).mip_arrays@,
            final(native).closed_handles@ == old(native).closed_handles@,
            final(native).log@ == old(native).log@.push(
                (NativeCall::GetMipmapLevel { array: self.spec_array_id(), level }),
            ),
            self.wf_in(*final(native)),
            r is Ok <==> (level < old(native).mip_levels && old(native).levels_handed_out
                < u64::MAX),
            r matches Ok(handle) ==> ({
                &&& handle == old(native).levels_handed_out + 1
                &&& handle != 0
                &&& final(native).levels_handed_out == old(native).levels_handed_out + 1
            }),
            r is Err ==> final(native).levels_handed_out == old(native).levels_handed_out,
            r matches Err(e) ==> e == old(native).level_error(self.spec_array_id(), level),
    {
        native.get_mipmap_level(self.array, level)
    }

    /// Destroys the mipmapped-array view.
    ///
    /// Issues the native mipmapped-array destroy call without re-binding
    /// the context first — a deliberate asymmetry with every other
    /// destruction path of this layer, preserved for compatibility; the
    /// log shows no bind call here.  The native failure case is provably
    /// absent, since the view's array is live.
    pub fn destroy(self, native: &mut MockNative)
        requires
            self.wf_in(*old(native)),
        ensures
            same_config(*old(native), *final(native)),
            final(native).ext_mem@ == old(native).ext_mem@,
            final(native).dev_ptrs@ == old(native).dev_ptrs@,
            final(native).levels_handed_out == old(native).levels_handed_out,
            final(native).closed_handles@ == old(native).closed_handles@,
            final(native).log@ == old(native).log@.push(
                (NativeCall::DestroyMipmappedArray { array: self.spec_array_id() }),
            ),
            !final(native).array_live(self.spec_array_id()),
            forall|j: u64|
                j != self.spec_array_id() ==> final(native).array_live(j) == old(native).array_live(j) && (old(native).array_live(j) ==> final(native).array_width(j)
                    == old(native).array_width(j) && final(native).array_height(j) == old(native).array_height(j)),
    {
        match native.destroy_mipmapped_array(self.array) {
            Ok(()) => (),
            Err(_) => (),
        }
    }
}

/// Law: mapping the whole memory is the mapping of the full range — it is
/// possible in exactly the states where mapping `[0, size)` is possible.
pub proof fn lemma_map_all_is_full_range(n: MockNative, mem: ExternalMemory)
    ensures
        map_all_ok(n, mem) == map_range_ok(n, mem, 0, mem.spec_size()),
{
}

/// Law: creating one mipmapped view disturbs neither the source memory
/// nor any other view.  After a successful creation — which appends one
/// live array record and changes nothing else — the source memory is
/// still well-formed, every previously live array keeps its dimensions,
/// and a second creation that was acceptable before is still acceptable,
/// provided array identifier space remains.
pub proof fn lemma_views_are_independent(
    n1: MockNative,
    n2: MockNative,
    mem: ExternalMemory,
    w1: u64,
    h1: u64,
    w2: u64,
    h2: u64,
)
    requires
        mip_view_ok(n1, mem, w1, h1),
        mip_view_ok(n1, mem, w2, h2),
        same_config(n1, n2),
        n2.ext_mem@ == n1.ext_mem@,
        n2.dev_ptrs@ == n1.dev_ptrs@,
        n2.mip_arrays@ == n1.mip_arrays@.push((MipArrayRecord { width: w1, height: h1, live: true })),
    ensures
        mem.wf_in(n2),
        n2.array_live((n1.mip_arrays@.len() + 1) as u64),
        forall|j: u64|
            n1.array_live(j) ==> n2.array_live(j) && n2.array_width(j) == n1.array_width(j)
                && n2.array_height(j) == n1.array_height(j),
        n2.mip_arrays@.len() < u64::MAX ==> mip_view_ok(n2, mem, w2, h2),
{
}

} // verus!
