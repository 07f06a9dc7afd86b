//! The pending-action queue: deferred mutations from the asynchronous side
//! to the simulation world.
//!
//! Callbacks running on asynchronous client threads may not touch the
//! simulation state; instead they schedule self-contained actions on a
//! process-wide, mutex-protected list. Once per tick, before the update
//! runs, the tick thread drains the list with a non-blocking lock attempt
//! and executes every action in schedule order. If the lock happens to be
//! held, the drain is skipped for that tick and the actions wait,
//! untouched, for the next one: the tick thread must never stall.

use vstd::prelude::*;
use crate::events::InstantiateEntityEvent;
use crate::events::PlayerInputEvent;
use crate::sim::SimState;

verus! {

/// An event a pending action wants delivered into the simulation world.
#[derive(Clone, Copy, Debug, PartialEq, Eq, Structural)]
pub enum SimEvent {
    /// Request to spawn an entity.
    Instantiate(InstantiateEntityEvent),
    /// Movement input for one player entity.
    PlayerInput(PlayerInputEvent),
}

/// A self-contained, deferred unit of work against the simulation world.
///
/// An action captures everything it needs, so any thread can create and
/// schedule one; the queue owns it from then until the tick thread
/// executes it exactly once.
#[derive(Clone, Copy, Debug, PartialEq, Eq, Structural)]
pub enum PendingAction {
    /// Deliver the carried event into the world's event buffers.
    SendEvent(SimEvent),
}

/// Wraps an event as a schedulable action that will deliver it.
pub fn create_send_event_action(event: SimEvent) -> (a: PendingAction)
    ensures
        a == PendingAction::SendEvent(event),
{
    PendingAction::SendEvent(event)
}

/// The spawn requests one action delivers: the payload itself for a spawn
/// request, nothing otherwise.
pub open spec fn action_instantiates(a: PendingAction) -> Seq<InstantiateEntityEvent> {
    match a {
        PendingAction::SendEvent(SimEvent::Instantiate(e)) => seq![e],
        _ => Seq::empty(),
    }
}

/// The movement inputs one action delivers.
pub open spec fn action_inputs(a: PendingAction) -> Seq<PlayerInputEvent> {
    match a {
        PendingAction::SendEvent(SimEvent::PlayerInput(e)) => seq![e],
        _ => Seq::empty(),
    }
}

/// The spawn requests a batch of actions delivers, in batch order.
pub open spec fn batch_instantiates(b: Seq<PendingAction>) -> Seq<InstantiateEntityEvent>
    decreases b.len(),
{
    if b.len() == 0 {
        Seq::empty()
    } else {
        batch_instantiates(b.drop_last()) + action_instantiates(b.last())
    }
}

/// The movement inputs a batch of actions delivers, in batch order.
pub open spec fn batch_inputs(b: Seq<PendingAction>) -> Seq<PlayerInputEvent>
    decreases b.len(),
{
    if b.len() == 0 {
        Seq::empty()
    } else {
        batch_inputs(b.drop_last()) + action_inputs(b.last())
    }
}

/// Whether `post` is `pre` with exactly the batch `b` delivered into its
/// event buffers and everything else untouched.
pub open spec fn sim_extended_by(pre: SimState, post: SimState, b: Seq<PendingAction>) -> bool {
    &&& post.instantiate_events@ == pre.instantiate_events@ + batch_instantiates(b)
    &&& post.input_events@ == pre.input_events@ + batch_inputs(b)
    &&& post.entities@ == pre.entities@
    &&& post.next_entity_index == pre.next_entity_index
    &&& post.commands.0@ == pre.commands.0@
}

impl PendingAction {
    /// Executes the action against the simulation world: the carried event
    /// is appended to the buffer its kind belongs to.
    pub fn execute(&self, sim: &mut SimState)
        ensures
            final(sim).instantiate_events@ == old(sim).instantiate_events@
                + action_instantiates(*self),
            final(sim).input_events@ == old(sim).input_events@ + action_inputs(*self),
            final(sim).entities@ == old(sim).entities@,
            final(sim).next_entity_index == old(sim).next_entity_index,
            final(sim).commands.0@ == old(sim).commands.0@,
    {
        match self {
            PendingAction::SendEvent(SimEvent::Instantiate(e)) => {
                sim.instantiate_events.push(*e);
            },
            PendingAction::SendEvent(SimEvent::PlayerInput(e)) => {
                sim.input_events.push(*e);
            },
        }
    }
}

/// Executes every action of `batch` against the world, in order, and
/// reports how many ran.
pub fn execute_actions(sim: &mut SimState, batch: &Vec<PendingAction>) -> (n: usize)
    ensures
        n == batch@.len(),
        sim_extended_by(*old(sim), *final(sim), batch@),
{
    let ghost b = batch@;
    let len = batch.len();
    let mut i: usize = 0;
    while i < len
        invariant
            len == b.len(),
            batch@ == b,
            i <= len,
            sim_extended_by(*old(sim), *sim, b.take(i as int)),
        decreases len - i,
    {
        proof {
            assert(b.take(i + 1).drop_last() =~= b.take(i as int));
            assert(b.take(i + 1).last() == b[i as int]);
        }
        batch[i].execute(sim);
        proof {
            assert(sim.instantiate_events@ =~= old(sim).instantiate_events@ + batch_instantiates(
                b.take(i + 1),
            ));
            assert(sim.input_events@ =~= old(sim).input_events@ + batch_inputs(b.take(i + 1)));
        }
        i += 1;
    }
    proof {
        assert(b.take(len as int) =~= b);
    }
    len
}

/// Law: a drained batch is delivered exactly once, in schedule order.
///
/// Delivering the first `i + 1` actions of a batch delivers the first `i`
/// and then exactly the payload of action `i`, nothing else — so each
/// action's event reaches the world once, and in the order the actions
/// were scheduled.
pub proof fn lemma_actions_fifo(b: Seq<PendingAction>, i: int)
    requires
        0 <= i < b.len(),
    ensures
        batch_instantiates(b.take(i + 1)) == batch_instantiates(b.take(i)) + action_instantiates(
            b[i],
        ),
        batch_inputs(b.take(i + 1)) == batch_inputs(b.take(i)) + action_inputs(b[i]),
{
    assert(b.take(i + 1).drop_last() =~= b.take(i));
    assert(b.take(i + 1).last() == b[i]);
}

/// What a drain attempt reported.
#[derive(Clone, Copy, Debug, PartialEq, Eq, Structural)]
pub enum DrainOutcome {
    /// The queue's lock was held; nothing was drained and the queue is
    /// unchanged.
    Skipped,
    /// The drain ran and executed this many actions.
    Executed(usize),
}

/// A deterministic picture of the mutex-protected action list, with the
/// lock made explicit.
///
/// `held` stands for a concurrent holder of the queue's lock at the moment
/// an operation runs; the tick coordinator's drain must tolerate one
/// defensively even though correct single-owner operation never produces
/// one.
pub struct PendingQueue {
    /// Whether some other party holds the queue's lock right now.
    pub held: bool,
    /// The scheduled actions, oldest first.
    pub items: Vec<PendingAction>,
}

impl PendingQueue {
    /// An empty, unlocked queue.
    pub fn new() -> (q: PendingQueue)
        ensures
            !q.held,
            q.items@ =~= Seq::<PendingAction>::empty(),
    {
        PendingQueue { held: false, items: Vec::new() }
    }

    /// Appends an action; it waits behind everything scheduled before it.
    ///
    /// Scheduling always succeeds for a well-formed action and blocks at
    /// most for the time a lock acquisition takes, which always ends.
    pub fn schedule(&mut self, action: PendingAction)
        ensures
            final(self).items@ == old(self).items@.push(action),
            final(self).held == old(self).held,
    {
        self.items.push(action);
    }

    /// Marks the lock as held by a concurrent party.
    pub fn acquire(&mut self)
        requires
            !old(self).held,
        ensures
            final(self).held,
            final(self).items@ == old(self).items@,
    {
        self.held = true;
    }

    /// Releases the concurrently held lock.
    pub fn release(&mut self)
        requires
            old(self).held,
        ensures
            !final(self).held,
            final(self).items@ == old(self).items@,
    {
        self.held = false;
    }

    /// Non-blocking drain attempt: everything queued, or nothing.
    ///
    /// If the lock is held the attempt returns at once, empty-handed, and
    /// the queue's contents are exactly what they were — no action is lost
    /// and none will run twice. Otherwise every queued action is removed,
    /// in order, and the queue is left empty.
    pub fn try_drain(&mut self) -> (r: Option<Vec<PendingAction>>)
        ensures
            old(self).held ==> r is None && final(self).held == old(self).held
                && final(self).items@ == old(self).items@,
            !old(self).held ==> match r {
                Some(batch) => batch@ == old(self).items@ && final(self).items@
                    =~= Seq::<PendingAction>::empty() && !final(self).held,
                None => false,
            },
    {
        if self.held {
            return None;
        }
        let mut taken: Vec<PendingAction> = Vec::new();
        core::mem::swap(&mut taken, &mut self.items);
        Some(taken)
    }

    /// Drains the queue non-blockingly and executes the drained batch, in
    /// schedule order, against the simulation world.
    ///
    /// Under contention the world and the queue are left exactly as they
    /// were and the skip is reported; otherwise every queued action runs
    /// exactly once and the queue ends empty.
    pub fn drain_and_execute(&mut self, sim: &mut SimState) -> (r: DrainOutcome)
        ensures
            old(self).held ==> r == DrainOutcome::Skipped && final(self).held == old(self).held
                && final(self).items@ == old(self).items@ && sim_extended_by(
                *old(sim),
                *final(sim),
                Seq::empty(),
            ),
            !old(self).held ==> r == DrainOutcome::Executed(old(self).items@.len() as usize)
                && final(self).items@ =~= Seq::<PendingAction>::empty() && !final(self).held
                && sim_extended_by(*old(sim), *final(sim), old(self).items@),
    {
        proof {
            assert(old(sim).instantiate_events@ + batch_instantiates(Seq::empty()) =~= old(
                sim,
            ).instantiate_events@);
            assert(old(sim).input_events@ + batch_inputs(Seq::empty()) =~= old(sim).input_events@);
        }
        match self.try_drain() {
            None => DrainOutcome::Skipped,
            Some(batch) => {
                let n = execute_actions(sim, &batch);
                DrainOutcome::Executed(n)
            },
        }
    }
}

/// The process-wide action list shared between the asynchronous client
/// threads and the tick thread, protected by a spinlock.
///
/// What the list holds at any instant depends on which threads got their
/// enqueues in first, so no contract tracks its contents; everything the
/// library promises about a drained batch is stated where verified code
/// receives the batch as a value.
#[verifier::external_body]
pub struct SharedPendingQueue {
    inner: spin::Mutex<Vec<PendingAction>>,
}

impl SharedPendingQueue {
    /// Relies on spin::Mutex::new: builds the shared list, initially
    /// empty and unlocked.
    #[verifier::external_body]
    pub fn new() -> SharedPendingQueue {
        SharedPendingQueue { inner: spin::Mutex::new(Vec::new()) }
    }

    /// Relies on spin::Mutex::try_lock: returns every queued action when
    /// the lock is free, and nothing, leaving the list untouched, when
    /// some other thread holds it.
    #[verifier::external_body]
    fn try_take_all(&self) -> Option<Vec<PendingAction>> {
        match self.inner.try_lock() {
            Some(mut guard) => Some(core::mem::take(&mut *guard)),
            None => None,
        }
    }
}

/// Schedules an action on the shared list, to run on the tick thread
/// before the next update.
///
/// Safe to call from any thread: it blocks only while acquiring the
/// spinlock, whose holders never sleep, and appending never fails.
///
/// Relies on spin::Mutex::lock for mutual exclusion with the tick
/// thread's drain and with other schedulers.
#[verifier::external_body]
pub fn schedule_bevy_action(queue: &SharedPendingQueue, action: PendingAction) {
    queue.inner.lock().push(action);
}

/// Drains the shared list with a non-blocking lock attempt and executes
/// the drained batch, in arrival order, against the simulation world.
///
/// When the lock is held by another thread the skip is reported, the
/// world is untouched and the queued actions wait for the next tick;
/// otherwise some batch — exactly what the list held at the drain — is
/// executed, every action of it once, and its delivery into the world is
/// pinned by `sim_extended_by`.
pub fn process_bevy_actions(queue: &SharedPendingQueue, sim: &mut SimState) -> (r: DrainOutcome)
    ensures
        r == DrainOutcome::Skipped ==> sim_extended_by(*old(sim), *final(sim), Seq::empty()),
        r matches DrainOutcome::Executed(n) ==> exists|b: Seq<PendingAction>|
            b.len() == n && #[trigger] sim_extended_by(*old(sim), *final(sim), b),
{
    proof {
        assert(old(sim).instantiate_events@ + batch_instantiates(Seq::empty())
            =~= old(sim).instantiate_events@);
        assert(old(sim).input_events@ + batch_inputs(Seq::empty()) =~= old(sim).input_events@);
    }
    match queue.try_take_all() {
        None => DrainOutcome::Skipped,
        Some(batch) => {
            let ghost b = batch@;
            let n = execute_actions(sim, &batch);
            proof {
                assert(sim_extended_by(*old(sim), *sim, b));
            }
            DrainOutcome::Executed(n)
        },
    }
}

} // verus!
