use vstd::prelude::*;

verus! {

/// An opaque identifier of a native object (its address, as an integer).
#[derive(PartialEq, Eq, Structural, Clone, Copy, Debug)]
pub struct Handle {
    pub id: u64,
}

/// The kinds of native objects whose references are counted.
#[derive(PartialEq, Eq, Structural, Clone, Copy, Debug)]
pub enum RefTarget {
    Context(Handle),
    Camera(Handle),
    Widget(Handle),
}

/// One change to a native reference count.
#[derive(PartialEq, Eq, Structural, Clone, Copy, Debug)]
pub enum RefEvent {
    RefContext(Handle),
    RefCamera(Handle),
    RefWidget(Handle),
    UnrefContext(Handle),
    UnrefCamera(Handle),
    UnrefWidget(Handle),
}

impl RefEvent {
    /// The object whose count the event changes.
    pub open spec fn target(self) -> RefTarget {
        match self {
            RefEvent::RefContext(h) | RefEvent::UnrefContext(h) => RefTarget::Context(h),
            RefEvent::RefCamera(h) | RefEvent::UnrefCamera(h) => RefTarget::Camera(h),
            RefEvent::RefWidget(h) | RefEvent::UnrefWidget(h) => RefTarget::Widget(h),
        }
    }

    /// `+1` for an increment, `-1` for a decrement.
    pub open spec fn delta(self) -> int {
        match self {
            RefEvent::RefContext(_) | RefEvent::RefCamera(_) | RefEvent::RefWidget(_) => 1,
            _ => -1,
        }
    }
}

/// The net change that a run of events makes to the count of `t`.
pub open spec fn net_change(events: Seq<RefEvent>, t: RefTarget) -> int
    decreases events.len(),
{
    if events.len() == 0 {
        0
    } else {
        net_change(events.drop_last(), t) + if events.last().target() == t {
            events.last().delta()
        } else {
            0
        }
    }
}

pub proof fn lemma_net_change_append(a: Seq<RefEvent>, b: Seq<RefEvent>, t: RefTarget)
    ensures
        net_change(a + b, t) == net_change(a, t) + net_change(b, t),
    decreases b.len(),
{
    if b.len() == 0 {
        assert(a + b =~= a);
    } else {
        lemma_net_change_append(a, b.drop_last(), t);
        assert((a + b).drop_last() =~= a + b.drop_last());
    }
}

} // verus!
