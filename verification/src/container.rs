//! The owned-destruction container and its capability trait.

use core::marker::PhantomData;
use vstd::prelude::*;

use crate::diagnostics::MissingSecondTypeParam;
use crate::lifecycle::Lifecycle;
use crate::lifecycle::TerminalEvent;
use crate::lifecycle::step;

verus! {

/// The capability contract a strategy type implements to receive *owned*
/// access to a container's value when the container is dropped.
///
/// The hook receives the value itself, not a reference, so it may move the
/// value into any ownership-consuming operation, intentionally suppress its
/// disposal, or simply let it fall out of scope and receive its ordinary drop
/// glue. It sees only the value: any further context the hook needs must be
/// bundled into `FieldTy` itself.
///
/// Because the hook runs from a verified `Drop` implementation, it must not
/// unwind and must not open invariants.
pub trait DropManually<FieldTy> {
    /// What the strategy certifies of a value its hook has received: the
    /// one postcondition of [`Self::drop_manually`]. The default says
    /// nothing, so an implementation owes no proof beyond running. Its point
    /// is the container's promise at drop: there the strategy is an opaque
    /// parameter whose predicate may have been given meaning, so the verified
    /// drop can establish `finalized(v)` of the held value only by handing
    /// `v` itself to the hook.
    open spec fn finalized(value: FieldTy) -> bool {
        true
    }

    fn drop_manually(value: FieldTy)
        ensures
            Self::finalized(value),
        opens_invariants none
        no_unwind when true;
}

/// A slot for exactly one `FieldTy` whose disposition is owned by the
/// strategy type `ContainingType`: when the slot is dropped, the held value is
/// passed, owned, to `ContainingType::drop_manually`. The strategy parameter
/// is usually the struct the slot is a field of, so that the hook naturally
/// belongs to that struct; distinct marker types let two fields of the same
/// `FieldTy` get distinct hooks.
///
/// Exactly one of two mutually exclusive terminal operations disposes of the
/// value: the automatic hook at drop, or
/// [`Self::into_inner_defusing_impl_Drop`], which returns the value to the
/// caller and disables the hook for this instance. If the surrounding program
/// suppresses destruction altogether (for instance with `core::mem::forget`),
/// neither runs — a documented escape valve, not an error.
///
/// The value sits in a tagged slot that is full for the container's whole
/// observable lifetime; the tag is checked only while a terminal operation
/// runs, so that extraction needs no low-level reinterpretation of the
/// container's memory.
///
/// The view of a container is its [`Lifecycle`]: `Alive(v)` exactly when the
/// slot still holds `v`.
pub struct SafeManuallyDrop<FieldTy, ContainingType: DropManually<FieldTy> = MissingSecondTypeParam> {
    slot: Option<FieldTy>,
    strategy: PhantomData<ContainingType>,
}

impl<FieldTy, ContainingType: DropManually<FieldTy>> View for SafeManuallyDrop<
    FieldTy,
    ContainingType,
> {
    type V = Lifecycle<FieldTy>;

    closed spec fn view(&self) -> Lifecycle<FieldTy> {
        match self.slot {
            Some(v) => Lifecycle::Alive(v),
            None => Lifecycle::Terminated,
        }
    }
}

impl<FieldTy, ContainingType: DropManually<FieldTy>> SafeManuallyDrop<FieldTy, ContainingType> {
    /// Wraps a value. The new container is alive and holds exactly `value`.
    pub fn new(value: FieldTy) -> (result: Self)
        ensures
            result@ == Lifecycle::Alive(value),
        no_unwind
    {
        SafeManuallyDrop { slot: Some(value), strategy: PhantomData }
    }

    /// The defusing extraction: the inverse of [`Self::new`]. It consumes the
    /// container, returns the held value to the caller, and thereby
    /// permanently disables the automatic hook for this instance — the value
    /// reverts to its own default drop glue from this point on.
    #[allow(nonstandard_style)]
    pub fn into_inner_defusing_impl_Drop(self) -> (value: FieldTy)
        requires
            self@ is Alive,
        ensures
            self@ == Lifecycle::Alive(value),
            step(self@, TerminalEvent::Extracted(value), Lifecycle::Terminated),
        no_unwind
    {
        let mut shell = self;
        let taken = take_slot(&mut shell.slot);
        unwrap_full(taken)
    }

    /// Shared access to the held value.
    pub fn borrow(&self) -> (value: &FieldTy)
        requires
            self@ is Alive,
        ensures
            self@ == Lifecycle::Alive(*value),
        no_unwind
    {
        match &self.slot {
            Some(value) => value,
            None => vstd::pervasive::unreached(),
        }
    }

    /// Write access to the held value: stores `value` in its place and hands
    /// the previous value back to the caller. The container stays alive, so
    /// the hook will later receive `value` instead of what was held before.
    pub fn replace(&mut self, value: FieldTy) -> (previous: FieldTy)
        requires
            old(self)@ is Alive,
        ensures
            old(self)@ == Lifecycle::Alive(previous),
            final(self)@ == Lifecycle::Alive(value),
        no_unwind
    {
        let taken = take_slot(&mut self.slot);
        self.slot = Some(value);
        unwrap_full(taken)
    }
}

/// The constructor as a conversion, equivalent to [`SafeManuallyDrop::new`].
impl<FieldTy, ContainingType: DropManually<FieldTy>> From<FieldTy> for SafeManuallyDrop<FieldTy, ContainingType> {
    fn from(value: FieldTy) -> (result: Self)
        ensures
            result@ == Lifecycle::Alive(value),
    {
        SafeManuallyDrop::new(value)
    }
}

impl<FieldTy, ContainingType: DropManually<FieldTy>> vstd::std_specs::convert::FromSpecImpl<FieldTy> for SafeManuallyDrop<FieldTy, ContainingType> {
    closed spec fn obeys_from_spec() -> bool {
        true
    }

    closed spec fn from_spec(value: FieldTy) -> Self {
        SafeManuallyDrop { slot: Some(value), strategy: PhantomData }
    }
}

/// Unwraps a slot known to be full.
fn unwrap_full<FieldTy>(taken: Option<FieldTy>) -> (value: FieldTy)
    requires
        taken is Some,
    ensures
        taken == Some(value),
    no_unwind
{
    match taken {
        Some(value) => value,
        None => vstd::pervasive::unreached(),
    }
}

/// Empties a container's slot, returning what it held.
fn take_slot<FieldTy>(slot: &mut Option<FieldTy>) -> (taken: Option<FieldTy>)
    ensures
        taken == *old(slot),
        *final(slot) is None,
    opens_invariants none
    no_unwind
{
    let mut taken: Option<FieldTy> = None;
    core::mem::swap(slot, &mut taken);
    taken
}

/// The automatic terminal path: dropping the container extracts the held
/// value and passes it, owned, to the strategy's hook. The contract says so
/// through the strategy's certificate: an alive container's drop establishes
/// [`DropManually::finalized`] of exactly the held value, which, the strategy
/// being opaque here, only the hook call can provide. A shell already
/// emptied by the defusing extraction has nothing left to pass, so the hook
/// does not run again for that instance.
impl<FieldTy, ContainingType: DropManually<FieldTy>> Drop for SafeManuallyDrop<
    FieldTy,
    ContainingType,
> {
    fn drop(&mut self)
        ensures
            final(self)@ is Terminated,
            old(self)@ matches Lifecycle::Alive(v) ==> ContainingType::finalized(v) && step(
                old(self)@,
                TerminalEvent::Finalized(v),
                final(self)@,
            ),
        opens_invariants none
        no_unwind
    {
        let taken = take_slot(&mut self.slot);
        match taken {
            Some(value) => ContainingType::drop_manually(value),
            None => (),
        }
    }
}

} // verus!
