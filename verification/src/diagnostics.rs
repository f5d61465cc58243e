//! Placeholder types for a forgotten strategy parameter.

use vstd::prelude::*;

verus! {

/// The strategy type a [`crate::SafeManuallyDrop`] falls back to when its
/// second type parameter is left out. No [`crate::DropManually`]
/// implementation exists for it, so a container type using it never compiles:
/// the fix is to name the containing struct (usually `Self`) as the second
/// parameter and implement the capability trait for it. Its one field is
/// private, so no value of this type is ever made.
pub struct MissingSecondTypeParam {
    never_made: (),
}

/// A marker trait that no type implements. It names what the placeholder
/// [`MissingSecondTypeParam`] waits for: a container's strategy parameter
/// that was explicitly provided rather than left to the default.
pub trait ExplicitlyProvided {
}

} // verus!
