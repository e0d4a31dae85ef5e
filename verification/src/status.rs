//! Status codes that the vendor's driver calls return.

use vstd::prelude::*;

verus! {

/// The call did what was asked.
pub const XST_SUCCESS: i32 = 0;

/// The call failed without a more specific reason.
pub const XST_FAILURE: i32 = 1;

/// A DMA channel reported an error.
pub const XST_DMA_ERROR: i32 = 9;

/// An argument of the call was not acceptable.
pub const XST_INVALID_PARAM: i32 = 15;

/// The operation needs scatter-gather mode and the engine is not built for it.
pub const XST_NOT_SGDMA: i32 = 16;

} // verus!
