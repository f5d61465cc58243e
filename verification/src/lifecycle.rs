//! The abstract lifecycle of a container instance.
//!
//! A container is `Alive`, holding its value, from construction until exactly
//! one terminal event fires; afterwards it is `Terminated`. The exec container
//! uses [`Lifecycle`] as its view: construction yields `Alive(v)`, the
//! automatic hook at drop performs a [`TerminalEvent::Finalized`] step, and
//! the defusing extraction performs a [`TerminalEvent::Extracted`] step. The
//! lemmas below prove, over this model, the exactly-once discipline: every
//! run of one instance carries at most one terminal event, that event hands
//! over precisely the constructed value, and the two terminal paths exclude
//! one another.

use vstd::prelude::*;

verus! {

/// The abstract state of one container instance: either still holding its
/// value, or already past its single terminal event.
pub enum Lifecycle<FieldTy> {
    /// The container holds the value and no terminal operation has run.
    Alive(FieldTy),
    /// A terminal operation has run; the shell no longer holds a value.
    Terminated,
}

/// A terminal event of one container instance, carrying the value whose
/// ownership the event hands over.
pub enum TerminalEvent<FieldTy> {
    /// The automatic path: the strategy's hook received the value, owned.
    Finalized(FieldTy),
    /// The defusing path: the caller received the value back, owned.
    Extracted(FieldTy),
}

/// One step of a container instance: only an alive container can take a
/// step, the event hands over exactly the held value, and the instance is
/// terminated afterwards.
pub open spec fn step<FieldTy>(
    pre: Lifecycle<FieldTy>,
    event: TerminalEvent<FieldTy>,
    post: Lifecycle<FieldTy>,
) -> bool {
    &&& pre matches Lifecycle::Alive(v) && (event == TerminalEvent::Finalized(v) || event
        == TerminalEvent::Extracted(v))
    &&& post == Lifecycle::<FieldTy>::Terminated
}

/// The runs of one container instance: `reaches(start, events, end)` holds
/// when the instance can go from `start` to `end` through exactly the steps
/// of `events`, in order.
pub open spec fn reaches<FieldTy>(
    start: Lifecycle<FieldTy>,
    events: Seq<TerminalEvent<FieldTy>>,
    end: Lifecycle<FieldTy>,
) -> bool
    decreases events.len(),
{
    if events.len() == 0 {
        end == start
    } else {
        exists|mid: Lifecycle<FieldTy>|
            #[trigger] step(start, events[0], mid) && reaches(mid, events.skip(1), end)
    }
}

/// A terminated instance takes no further step: every run from `Terminated`
/// is empty and stays at `Terminated`.
pub proof fn lemma_terminated_is_final<FieldTy>(
    events: Seq<TerminalEvent<FieldTy>>,
    end: Lifecycle<FieldTy>,
)
    requires
        reaches(Lifecycle::Terminated, events, end),
    ensures
        events.len() == 0,
        end == Lifecycle::<FieldTy>::Terminated,
{
}

/// The exactly-once law. In every run of one container instance the number
/// of terminal events is at most one; it is one exactly when the instance is
/// terminated at the end, and zero exactly when the instance still holds its
/// value — the case of a caller who suppressed destruction altogether, where
/// neither the hook nor an extraction ever runs.
pub proof fn lemma_exactly_once<FieldTy>(
    v: FieldTy,
    events: Seq<TerminalEvent<FieldTy>>,
    end: Lifecycle<FieldTy>,
)
    requires
        reaches(Lifecycle::Alive(v), events, end),
    ensures
        events.len() <= 1,
        events.len() == 1 <==> end == Lifecycle::<FieldTy>::Terminated,
        events.len() == 0 <==> end == Lifecycle::Alive(v),
{
    if events.len() > 0 {
        let mid = choose|mid: Lifecycle<FieldTy>|
            #[trigger] step(Lifecycle::Alive(v), events[0], mid) && reaches(
                mid,
                events.skip(1),
                end,
            );
        lemma_terminated_is_final(events.skip(1), end);
    }
}

/// Whichever terminal event a run of one container instance carries, it is
/// the run's only event, it hands over precisely the value the container was
/// constructed from — not a copy, not a part — and the instance is
/// terminated afterwards.
pub proof fn lemma_sole_event_carries_value<FieldTy>(
    v: FieldTy,
    events: Seq<TerminalEvent<FieldTy>>,
    end: Lifecycle<FieldTy>,
    i: int,
)
    requires
        reaches(Lifecycle::Alive(v), events, end),
        0 <= i < events.len(),
    ensures
        i == 0,
        events =~= seq![events[i]],
        events[i] == TerminalEvent::Finalized(v) || events[i] == TerminalEvent::Extracted(v),
        end == Lifecycle::<FieldTy>::Terminated,
{
    lemma_exactly_once(v, events, end);
    let mid = choose|mid: Lifecycle<FieldTy>|
        #[trigger] step(Lifecycle::Alive(v), events[0], mid) && reaches(mid, events.skip(1), end);
}

/// Automatic finalization runs the hook exactly once, with the constructed
/// value: a run whose trace contains a `Finalized` event consists of that one
/// event, and the value it hands to the hook is the one the container was
/// constructed from.
pub proof fn lemma_finalization_exactly_once<FieldTy>(
    v: FieldTy,
    events: Seq<TerminalEvent<FieldTy>>,
    end: Lifecycle<FieldTy>,
    i: int,
)
    requires
        reaches(Lifecycle::Alive(v), events, end),
        0 <= i < events.len(),
        events[i] matches TerminalEvent::Finalized(_),
    ensures
        events =~= seq![TerminalEvent::Finalized(v)],
        end == Lifecycle::<FieldTy>::Terminated,
{
    lemma_sole_event_carries_value(v, events, end, i);
}

/// The round trip of construction and extraction. Construction yields a
/// container whose state is `Alive` at the constructed value, and the
/// defusing extraction of a container yields the value its `Alive` state
/// holds; so extracting from a freshly constructed container hands back
/// exactly the constructed value. That no finalization fires for such an
/// instance afterwards is [`lemma_extraction_defuses`].
pub proof fn lemma_extraction_round_trip<FieldTy>(
    v: FieldTy,
    constructed: Lifecycle<FieldTy>,
    extracted: FieldTy,
)
    requires
        constructed == Lifecycle::Alive(v),
        constructed == Lifecycle::Alive(extracted),
    ensures
        extracted == v,
{
}

/// The defusing extraction returns the constructed value and disables the
/// hook for good: a run whose trace contains an `Extracted` event consists of
/// that one event, the value handed back is the one the container was
/// constructed from, and no `Finalized` event occurs in the run.
pub proof fn lemma_extraction_defuses<FieldTy>(
    v: FieldTy,
    events: Seq<TerminalEvent<FieldTy>>,
    end: Lifecycle<FieldTy>,
    i: int,
)
    requires
        reaches(Lifecycle::Alive(v), events, end),
        0 <= i < events.len(),
        events[i] matches TerminalEvent::Extracted(_),
    ensures
        events =~= seq![TerminalEvent::Extracted(v)],
        forall|j: int| 0 <= j < events.len() ==> !(#[trigger] events[j] matches
            TerminalEvent::Finalized(_)),
        end == Lifecycle::<FieldTy>::Terminated,
{
    lemma_sole_event_carries_value(v, events, end, i);
}

} // verus!
