//! The owner of the engine handle: one slot, lent to one call at a time.

use vstd::prelude::*;

verus! {

/// One constructed engine instance, named by the address the engine gave it.
/// The value is moved, never copied: whoever holds it is the one who must
/// release the instance.
pub struct SDContext(pub usize);

/// What happens to the owner.
pub enum OwnerEvent {
    /// Someone asks to be the one who constructs the engine.
    Claim,
    /// A constructed engine instance is handed over.
    Publish(usize),
    /// A job asks for the handle.
    Borrow,
    /// A job gives the handle back.
    Return,
    /// The owner is asked to give the handle up for good.
    Teardown,
}

/// The mathematical state of the owner, with a ledger of what it has done.
pub struct Owner {
    /// Address of the instance in the slot.
    pub slot: Option<usize>,
    /// A job holds the handle.
    pub lent: bool,
    /// Construction of the engine was claimed.
    pub init_claimed: bool,
    /// Handles taken into the slot so far.
    pub published: nat,
    /// Handles handed out for release so far.
    pub released: nat,
    /// Engine calls begun so far.
    pub calls_started: nat,
    /// Engine calls ended so far.
    pub calls_finished: nat,
}

impl Owner {
    /// The owner at process start.
    pub open spec fn empty() -> Owner {
        Owner {
            slot: None,
            lent: false,
            init_claimed: false,
            published: 0,
            released: 0,
            calls_started: 0,
            calls_finished: 0,
        }
    }

    /// Number of handles the owner holds.
    pub open spec fn live(self) -> nat {
        if self.slot is Some {
            1
        } else {
            0
        }
    }

    /// Engine calls begun and not yet ended.
    pub open spec fn calls_in_flight(self) -> int {
        self.calls_started - self.calls_finished
    }

    /// The ledger agrees with the slot and the lease.
    pub open spec fn consistent(self) -> bool {
        &&& self.calls_started == self.calls_finished + (if self.lent { 1nat } else { 0nat })
        &&& self.published == self.released + self.live()
        &&& self.lent ==> self.slot is Some
    }

    /// The first claim is granted, later ones are not.
    pub open spec fn claim(self) -> Owner {
        Owner { init_claimed: true, ..self }
    }

    /// A handle is taken into the slot unless the one in it is lent; the
    /// handle it replaces leaves for release.
    pub open spec fn publish(self, handle: usize) -> Owner {
        if self.lent {
            self
        } else {
            Owner {
                slot: Some(handle),
                published: self.published + 1,
                released: self.released + self.live(),
                ..self
            }
        }
    }

    /// The handle is lent if there is one and nobody holds it.
    pub open spec fn lend(self) -> Owner {
        if self.slot is Some && !self.lent {
            Owner { lent: true, calls_started: self.calls_started + 1, ..self }
        } else {
            self
        }
    }

    /// A lent handle comes back.
    pub open spec fn take_back(self) -> Owner {
        if self.lent {
            Owner { lent: false, calls_finished: self.calls_finished + 1, ..self }
        } else {
            self
        }
    }

    /// The handle leaves for release unless it is lent.
    pub open spec fn teardown(self) -> Owner {
        if self.lent {
            self
        } else {
            Owner { slot: None, released: self.released + self.live(), ..self }
        }
    }

    /// The state after one event.
    pub open spec fn next(self, event: OwnerEvent) -> Owner {
        match event {
            OwnerEvent::Claim => self.claim(),
            OwnerEvent::Publish(handle) => self.publish(handle),
            OwnerEvent::Borrow => self.lend(),
            OwnerEvent::Return => self.take_back(),
            OwnerEvent::Teardown => self.teardown(),
        }
    }

    /// The state after a run of events, starting from the empty owner.
    pub open spec fn after(events: Seq<OwnerEvent>) -> Owner
        decreases events.len(),
    {
        if events.len() == 0 {
            Owner::empty()
        } else {
            Owner::after(events.drop_last()).next(events.last())
        }
    }
}

/// What became of a handle offered to the owner.
pub enum PublishOutcome {
    /// The slot was empty and now holds the handle.
    Installed,
    /// The slot holds the handle; the one it held before must be released.
    Replaced(SDContext),
    /// The handle in the slot is lent, so the offered one comes back.
    Refused(SDContext),
}

/// What a job gets when it asks for the handle.
#[derive(Clone, Copy, Debug, PartialEq, Eq, Structural)]
pub enum Lease {
    /// The handle, for one engine call.
    Lent(usize),
    /// No engine has been published.
    NotReady,
    /// Another job holds the handle.
    Busy,
}

/// What a teardown gave.
pub enum TeardownOutcome {
    /// The handle left the slot and must be released.
    Released(SDContext),
    /// There was no handle.
    Empty,
    /// A job holds the handle; it stays.
    Busy,
}

/// The process-wide slot for the engine handle.
pub struct FluxState {
    slot: Option<SDContext>,
    lent: bool,
    init_claimed: bool,
    published: Ghost<nat>,
    released: Ghost<nat>,
    calls_started: Ghost<nat>,
    calls_finished: Ghost<nat>,
}

impl View for FluxState {
    type V = Owner;

    closed spec fn view(&self) -> Owner {
        Owner {
            slot: match self.slot {
                Some(ctx) => Some(ctx.0),
                None => None,
            },
            lent: self.lent,
            init_claimed: self.init_claimed,
            published: self.published@,
            released: self.released@,
            calls_started: self.calls_started@,
            calls_finished: self.calls_finished@,
        }
    }
}

impl FluxState {
    /// An empty slot.
    pub fn new() -> (state: FluxState)
        ensures
            state@ == Owner::empty(),
    {
        FluxState {
            slot: None,
            lent: false,
            init_claimed: false,
            published: Ghost(0),
            released: Ghost(0),
            calls_started: Ghost(0),
            calls_finished: Ghost(0),
        }
    }

    /// Whether the slot holds a handle.
    pub fn is_ready(&self) -> (ready: bool)
        ensures
            ready == (self@.slot is Some),
    {
        self.slot.is_some()
    }

    /// Whether a job holds the handle.
    pub fn is_lent(&self) -> (lent: bool)
        ensures
            lent == self@.lent,
    {
        self.lent
    }

    /// Claims the construction of the engine. Only the first claim is granted.
    pub fn claim_initialization(&mut self) -> (granted: bool)
        ensures
            granted == !old(self)@.init_claimed,
            final(self)@ == old(self)@.claim(),
    {
        let granted = !self.init_claimed;
        self.init_claimed = true;
        granted
    }

    /// Offers a handle to the slot.
    pub fn publish(&mut self, ctx: SDContext) -> (outcome: PublishOutcome)
        ensures
            final(self)@ == old(self)@.publish(ctx.0),
            outcome == (if old(self)@.lent {
                PublishOutcome::Refused(ctx)
            } else {
                match old(self)@.slot {
                    Some(prior) => PublishOutcome::Replaced(SDContext(prior)),
                    None => PublishOutcome::Installed,
                }
            }),
    {
        if self.lent {
            return PublishOutcome::Refused(ctx);
        }
        let prior = self.slot.take();
        self.slot = Some(ctx);
        proof {
            self.published@ = self.published@ + 1;
        }
        match prior {
            Some(old_ctx) => {
                proof {
                    self.released@ = self.released@ + 1;
                }
                PublishOutcome::Replaced(old_ctx)
            },
            None => PublishOutcome::Installed,
        }
    }

    /// Asks for the handle for one engine call.
    pub fn begin_call(&mut self) -> (lease: Lease)
        ensures
            final(self)@ == old(self)@.lend(),
            lease == (match old(self)@.slot {
                None => Lease::NotReady,
                Some(handle) => if old(self)@.lent {
                    Lease::Busy
                } else {
                    Lease::Lent(handle)
                },
            }),
    {
        match &self.slot {
            None => Lease::NotReady,
            Some(ctx) => {
                if self.lent {
                    Lease::Busy
                } else {
                    let handle = ctx.0;
                    self.lent = true;
                    proof {
                        self.calls_started@ = self.calls_started@ + 1;
                    }
                    Lease::Lent(handle)
                }
            },
        }
    }

    /// Gives the handle back after an engine call. Says whether it was lent.
    pub fn end_call(&mut self) -> (was_lent: bool)
        ensures
            final(self)@ == old(self)@.take_back(),
            was_lent == old(self)@.lent,
    {
        if self.lent {
            self.lent = false;
            proof {
                self.calls_finished@ = self.calls_finished@ + 1;
            }
            true
        } else {
            false
        }
    }

    /// Takes the handle out of the slot for release, unless it is lent.
    pub fn teardown(&mut self) -> (outcome: TeardownOutcome)
        ensures
            final(self)@ == old(self)@.teardown(),
            outcome == (if old(self)@.lent {
                TeardownOutcome::Busy
            } else {
                match old(self)@.slot {
                    Some(handle) => TeardownOutcome::Released(SDContext(handle)),
                    None => TeardownOutcome::Empty,
                }
            }),
    {
        if self.lent {
            return TeardownOutcome::Busy;
        }
        match self.slot.take() {
            Some(ctx) => {
                proof {
                    self.released@ = self.released@ + 1;
                }
                TeardownOutcome::Released(ctx)
            },
            None => TeardownOutcome::Empty,
        }
    }
}

/// No event brings a ledger that is in step with the slot and the lease out
/// of step.
pub proof fn lemma_next_preserves_consistency(owner: Owner, event: OwnerEvent)
    requires
        owner.consistent(),
    ensures
        owner.next(event).consistent(),
{
}

/// Every state the owner can reach keeps its ledger in step with the slot
/// and the lease.
pub proof fn lemma_reachable_is_consistent(events: Seq<OwnerEvent>)
    ensures
        Owner::after(events).consistent(),
    decreases events.len(),
{
    if events.len() > 0 {
        lemma_reachable_is_consistent(events.drop_last());
    }
}

/// Whatever is asked of the owner, in whatever order, at most one engine
/// call is in flight, and none while the handle is not lent.
pub proof fn lemma_calls_never_overlap(events: Seq<OwnerEvent>)
    ensures
        0 <= Owner::after(events).calls_in_flight() <= 1,
        Owner::after(events).calls_in_flight() == 1 <==> Owner::after(events).lent,
{
    lemma_reachable_is_consistent(events);
}

/// At most one handle is live, and every handle that was taken into the slot
/// and is no longer live has left for release exactly once.
pub proof fn lemma_each_handle_released_once(events: Seq<OwnerEvent>)
    ensures
        Owner::after(events).live() <= 1,
        Owner::after(events).published == Owner::after(events).released + Owner::after(
            events,
        ).live(),
{
    lemma_reachable_is_consistent(events);
}

/// A handle leaves for release only while no engine call is in flight, one
/// handle at a time, and it is the one that was in the slot.
pub proof fn lemma_release_waits_for_calls(events: Seq<OwnerEvent>, event: OwnerEvent)
    ensures
        ({
            let before = Owner::after(events);
            let after = before.next(event);
            after.released != before.released ==> {
                &&& after.released == before.released + 1
                &&& before.slot is Some
                &&& before.calls_in_flight() == 0
                &&& after.calls_in_flight() == 0
                &&& (event is Teardown || event is Publish)
            }
        }),
{
    lemma_reachable_is_consistent(events);
}

/// Once a teardown is carried out, every handle ever taken into the slot has
/// been released, and no call can begin until another handle is published.
pub proof fn lemma_teardown_releases_all(events: Seq<OwnerEvent>)
    requires
        !Owner::after(events).lent,
    ensures
        ({
            let end = Owner::after(events).teardown();
            &&& end.released == end.published
            &&& end.slot is None
            &&& end.lend() == end
        }),
{
    lemma_reachable_is_consistent(events);
}

/// Before the first handle is published the slot is empty, so a job that
/// asks for the handle gets none and no engine call has begun.
pub proof fn lemma_not_ready_before_publish(events: Seq<OwnerEvent>)
    requires
        forall|i: int| 0 <= i < events.len() ==> !(#[trigger] events[i] is Publish),
    ensures
        Owner::after(events).slot is None,
        Owner::after(events).calls_started == 0,
        Owner::after(events).lend() == Owner::after(events),
    decreases events.len(),
{
    if events.len() > 0 {
        let head = events.drop_last();
        assert forall|i: int| 0 <= i < head.len() implies !(#[trigger] head[i] is Publish) by {
            assert(head[i] == events[i]);
        }
        lemma_not_ready_before_publish(head);
        assert(!(events[events.len() - 1] is Publish));
    }
}

/// Construction of the engine is granted once: after any claim, no later
/// claim is granted.
pub proof fn lemma_claim_is_single_shot(events: Seq<OwnerEvent>, index: int)
    requires
        0 <= index < events.len(),
        events[index] is Claim,
    ensures
        Owner::after(events).init_claimed,
    decreases events.len(),
{
    if index < events.len() - 1 {
        let head = events.drop_last();
        assert(head[index] == events[index]);
        lemma_claim_is_single_shot(head, index);
    }
}

} // verus!
