//! Single-occupancy handler slots, one per kind of engine event.
use vstd::prelude::*;

verus! {

/// Holds at most one handler. Registering replaces the occupant and hands it back.
pub struct Slot<H> {
    handler: Option<H>,
}

impl<H> View for Slot<H> {
    type V = Option<H>;

    closed spec fn view(&self) -> Option<H> {
        self.handler
    }
}

/// A slot holding `slot` after `h` is registered, and what registering hands back.
pub open spec fn register_step<H>(slot: Option<H>, h: H) -> (Option<H>, Option<H>) {
    (Some(h), slot)
}

/// A slot holding `start` after each of `hs` is registered in turn.
pub open spec fn after_all<H>(start: Option<H>, hs: Seq<H>) -> Option<H>
    decreases hs.len(),
{
    if hs.len() == 0 {
        start
    } else {
        register_step(after_all(start, hs.drop_last()), hs.last()).0
    }
}

/// What registering `hs[i]` hands back, when `hs` is registered in turn on a slot
/// holding `start`.
pub open spec fn handed_back<H>(start: Option<H>, hs: Seq<H>, i: int) -> Option<H> {
    register_step(after_all(start, hs.take(i)), hs[i]).1
}

impl<H> Slot<H> {
    /// An empty slot.
    pub fn new() -> (r: Slot<H>)
        ensures
            r@ is None,
    {
        Slot { handler: None }
    }

    /// Makes `h` the handler and returns the one it replaces, if any.
    pub fn register(&mut self, h: H) -> (prev: Option<H>)
        ensures
            (final(self)@, prev) == register_step(old(self)@, h),
    {
        let prev = self.handler.take();
        self.handler = Some(h);
        prev
    }

    /// The current handler, if any.
    pub fn handler(&self) -> (r: Option<&H>)
        ensures
            r is Some <==> self@ is Some,
            r matches Some(h) ==> self@ == Some(*h),
    {
        match &self.handler {
            Some(h) => Some(h),
            None => None,
        }
    }

    /// Calls the current handler with `arg`, at once, and says whether there was
    /// one. An empty slot does nothing. The slot is not changed.
    pub fn invoke<A>(&self, arg: A) -> (called: bool)
        where
            H: Fn(A),
        requires
            self@ matches Some(h) ==> call_requires(h, (arg,)),
        ensures
            called <==> self@ is Some,
            self@ matches Some(h) ==> call_ensures(h, (arg,), ()),
    {
        match &self.handler {
            Some(h) => {
                h(arg);
                true
            },
            None => false,
        }
    }
}

/// Registering `hs` in turn on a slot: each registration hands back the handler
/// registered just before it (the first hands back what the slot held), and
/// afterwards the slot holds the last one, which is the only one `invoke` calls.
pub proof fn lemma_last_registration_wins<H>(start: Option<H>, hs: Seq<H>)
    requires
        hs.len() >= 1,
    ensures
        after_all(start, hs) == Some(hs.last()),
        handed_back(start, hs, 0) == start,
        forall|i: int| 1 <= i < hs.len() ==> #[trigger] handed_back(start, hs, i) == Some(hs[i - 1]),
{
    assert(hs.take(0) =~= Seq::<H>::empty());
    assert forall|i: int| 1 <= i < hs.len() implies #[trigger] handed_back(start, hs, i) == Some(
        hs[i - 1],
    ) by {
        assert(hs.take(i).drop_last() =~= hs.take(i - 1));
    }
}

} // verus!
