//! Safe lifetime management for externally-allocated device memory.
//!
//! This library models the import of externally-allocated memory (a shared
//! file descriptor or OS handle) into a compute driver context, and the
//! mapping of sub-ranges of that memory into device pointers or mipmapped
//! array objects.  The native driver boundary is represented by a mock
//! native layer whose behaviour is fully specified, so that the
//! resource-lifetime protocol of the safe layer — context re-binding before
//! destruction, exactly-once destruction, and the platform-divergent
//! ownership of the raw OS handle — is machine-checked.

mod error;
mod handle_type;
mod memory;
mod native;

pub use error::DriverError;
pub use error::CODE_INVALID_CONTEXT;
pub use error::CODE_INVALID_HANDLE;
pub use error::CODE_INVALID_VALUE;
pub use error::CODE_NOT_SUPPORTED;
pub use error::CODE_OUT_OF_MEMORY;
pub use error::CODE_UNKNOWN;
pub use handle_type::lemma_code_round_trip;
pub use handle_type::lemma_from_code_inverse;
pub use handle_type::ExternalMemoryType;
pub use handle_type::PlatformFamily;
pub use memory::lemma_map_all_is_full_range;
pub use memory::lemma_views_are_independent;
pub use memory::map_all_ok;
pub use memory::map_failure_cleanup;
pub use memory::map_range_ok;
pub use memory::mip_view_ok;
pub use memory::CudaDevice;
pub use memory::ExternalMemory;
pub use memory::MappedBuffer;
pub use memory::MipMappedArray;
pub use native::code_supported;
pub use native::count_matches;
pub use native::lemma_count_matches_push;
pub use native::same_config;
pub use native::ExtMemRecord;
pub use native::MipArrayRecord;
pub use native::MockNative;
pub use native::NativeCall;
