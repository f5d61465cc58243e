//! A container that holds exactly one value and hands *owned* access to that
//! value to a caller-chosen finalization hook when the container is dropped.
//!
//! The two central items are the [`SafeManuallyDrop`] container and the
//! [`DropManually`] capability trait. A `SafeManuallyDrop<FieldTy, S>` owns one
//! `FieldTy`; when it is dropped, the hook `S::drop_manually` receives the held
//! value by value, superseding the value's default drop glue. Alternatively,
//! [`SafeManuallyDrop::into_inner_defusing_impl_Drop`] consumes the container
//! and returns the value to the caller, permanently disabling the hook for that
//! instance.
//!
//! The lifecycle of a container — alive, then terminated by exactly one of the
//! two terminal operations — is modelled in the [`lifecycle`] module, whose
//! lemmas prove the exactly-once discipline over that model.

pub mod container;
pub mod diagnostics;
pub mod lifecycle;

pub use container::DropManually;
pub use container::SafeManuallyDrop;
pub use diagnostics::ExplicitlyProvided;
pub use diagnostics::MissingSecondTypeParam;
pub use lifecycle::Lifecycle;
pub use lifecycle::TerminalEvent;
