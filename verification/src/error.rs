use vstd::prelude::*;

verus! {

/// Native status code for an argument outside the range the driver accepts.
pub const CODE_INVALID_VALUE: u32 = 1;

/// Native status code for an exhausted handle or memory space.
pub const CODE_OUT_OF_MEMORY: u32 = 2;

/// Native status code for a context that is invalid or has been destroyed.
pub const CODE_INVALID_CONTEXT: u32 = 201;

/// Native status code for a resource handle that is not live.
pub const CODE_INVALID_HANDLE: u32 = 400;

/// Native status code for an operation the platform does not support.
pub const CODE_NOT_SUPPORTED: u32 = 801;

/// Native status code for an otherwise unexplained driver failure.
pub const CODE_UNKNOWN: u32 = 999;

/// The structured error returned by every fallible driver operation.
///
/// It carries the native status code reported by the failed call; the
/// constants above name the codes the mock native layer uses.
#[derive(Debug, Clone, Copy, PartialEq, Eq, Hash, Structural)]
pub struct DriverError {
    /// The native status code of the failure.
    pub code: u32,
}

} // verus!
