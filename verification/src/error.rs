//! Why a workshop operation gave no result.

use vstd::prelude::*;

verus! {

/// The failure of a workshop operation. `E` is the platform's own error: the
/// library never looks inside it and hands it on as it came.
#[derive(Debug, Clone, PartialEq, Eq)]
pub enum WorkshopError<E> {
    /// The result will never arrive, or the user declined to go on.
    Cancelled,
    /// The platform has no item that fits the request.
    NoMatch,
    /// An error reported by the platform.
    Native(E),
}

} // verus!
