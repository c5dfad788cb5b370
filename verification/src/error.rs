//! The failures of the object model.

use vstd::prelude::*;
use crate::instance::Extensions;
use crate::registry::Id;

verus! {

/// Why an operation on the object model was refused. No operation aborts:
/// each failure is one of these values.
#[derive(Clone, Copy, Debug, PartialEq, Eq, Structural, Hash)]
pub enum Error {
    /// The handle names no object of its category.
    HandleNotFound,
    /// The instance enumerated no adapter at all.
    NoAdapterAvailable,
    /// The backend has no way to make a surface for the given window.
    UnsupportedPlatform,
    /// No queue family of the adapter is general and offers a queue.
    NoSuitableQueueFamily { adapter: Id },
    /// The adapter does not support an extension that was asked for.
    UnsupportedExtension { adapter: Id, requested: Extensions },
}

} // verus!
