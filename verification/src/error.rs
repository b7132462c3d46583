//! The engine's error taxonomy.
//!
//! An allocation failure means the device rejected a resource-creation
//! request (oversized, unsupported); a validation failure means a request
//! was ill-formed (an unsatisfiable bind group, ill-formed shader source, a
//! dispatch over the device's limits). Both carry the device's description
//! and are recoverable: the failed operation had no effect beyond the error.
//! A failed readback map is not an error but an absent result, reported as
//! `None` by the read itself.

use vstd::prelude::*;

verus! {

/// A recoverable failure reported by the device.
#[derive(Debug)]
pub enum EngineError {
    /// The device rejected an allocation (out of memory, oversized).
    Allocation(String),
    /// A request failed the device's validation; the description says why.
    Validation(String),
}

} // verus!
