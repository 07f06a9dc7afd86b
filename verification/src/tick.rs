//! The tick coordinator: the canonical per-step sequence.
//!
//! Once per discrete step, and only here, the three queues are drained:
//! first the pending actions into the simulation world, then — after the
//! channel bridges have forwarded their buffered notifications — the
//! world advances by exactly one update step, and finally the commands
//! the step produced run against the database state. The ordering is
//! mandatory: an action requested by the asynchronous side is visible to
//! the step that immediately follows, and everything the step produces is
//! flushed before the next tick begins, bounding staleness to one tick in
//! both directions.

use vstd::prelude::*;
use vstd::pervasive::unreached;
use std::sync::mpsc::Sender;
use crate::channel::total_events;
use crate::channel::ChannelKind;
use crate::channel::EventBus;
use crate::command::lemma_run_outcomes_len;
use crate::command::process_bevy_commands;
use crate::command::run_db;
use crate::command::DbState;
use crate::events::Notification;
use crate::pending::batch_inputs;
use crate::pending::batch_instantiates;
use crate::pending::process_bevy_actions;
use crate::pending::sim_extended_by;
use crate::pending::DrainOutcome;
use crate::pending::PendingAction;
use crate::pending::SharedPendingQueue;
use crate::sim::add_single_entity_system;
use crate::sim::changed_cmds;
use crate::sim::clear_changed;
use crate::sim::instantiate_fold;
use crate::sim::move_fold;
use crate::sim::run_bevy_update;
use crate::sim::SimState;

verus! {

/// Everything the tick thread owns: the simulation world, the database
/// view the commands run against, and the registered channel bridges.
///
/// Initialized once, lazily, on first use; lives for the process. There
/// is no teardown: restarting requires a process restart.
pub struct CoreState {
    /// The simulation world.
    pub sim: SimState,
    /// The database state commands execute against.
    pub db: DbState,
    /// The registered notification channels.
    pub bus: EventBus,
}

impl CoreState {
    /// The pieces are well formed together when each is on its own.
    pub open spec fn wf(self) -> bool {
        self.sim.wf() && self.db.wf() && self.bus.wf()
    }
}

/// The senders for the three connection-lifecycle channels, handed to
/// the client's callbacks at wiring time.
pub struct LifecycleSenders {
    /// Feeds the connected channel.
    pub connected: Sender<Notification>,
    /// Feeds the disconnected channel.
    pub disconnected: Sender<Notification>,
    /// Feeds the connection-error channel.
    pub connection_error: Sender<Notification>,
}

/// Builds the process-wide state: an empty world whose entity indices
/// start at one, an empty database view, the three lifecycle channels,
/// each registered exactly once, and the shared pending-action queue.
///
/// Runs once at startup, before any tick; the senders go to the client's
/// connection callbacks, the queue to everything that schedules actions,
/// and the state to wherever the tick entry point can reach it.
pub fn init() -> (r: (CoreState, LifecycleSenders, SharedPendingQueue))
    ensures
        r.0.wf(),
        r.0.sim.next_entity_index == 1,
        r.0.sim.entities@.len() == 0,
        r.0.sim.instantiate_events@.len() == 0,
        r.0.sim.input_events@.len() == 0,
        r.0.sim.commands.0@.len() == 0,
        r.0.db.rows@.len() == 0,
        r.0.bus.channels@.len() == 3,
        r.0.bus.registered(ChannelKind::Connected),
        r.0.bus.registered(ChannelKind::Disconnected),
        r.0.bus.registered(ChannelKind::ConnectionError),
        r.0.bus.channels@[0].kind == ChannelKind::Connected,
        r.0.bus.channels@[1].kind == ChannelKind::Disconnected,
        r.0.bus.channels@[2].kind == ChannelKind::ConnectionError,
        forall|i: int| 0 <= i < 3 ==> r.0.bus.channels@[i].events@.len() == 0,
{
    let mut sim = SimState::new();
    add_single_entity_system(&mut sim);
    let db = DbState::new();
    let mut bus = EventBus::new();
    let connected = match bus.add_event_channel(ChannelKind::Connected) {
        Ok(tx) => tx,
        Err(_) => unreached(),
    };
    let disconnected = match bus.add_event_channel(ChannelKind::Disconnected) {
        Ok(tx) => tx,
        Err(_) => unreached(),
    };
    let connection_error = match bus.add_event_channel(ChannelKind::ConnectionError) {
        Ok(tx) => tx,
        Err(_) => unreached(),
    };
    (
        CoreState { sim, db, bus },
        LifecycleSenders { connected, disconnected, connection_error },
        SharedPendingQueue::new(),
    )
}

/// What one tick reported.
#[derive(Clone, Copy, Debug, PartialEq, Eq, Structural)]
pub struct TickSummary {
    /// Whether the pending-action drain was skipped under lock
    /// contention; the actions wait for the next tick.
    pub actions_skipped: bool,
    /// How many pending actions were executed.
    pub actions_executed: usize,
    /// How many notifications the channel bridges forwarded.
    pub notifications_forwarded: usize,
    /// How many commands were drained and executed.
    pub commands_processed: usize,
}

/// How one tick with drained batch `batch` relates the state it started
/// from to the state it left behind.
///
/// The batch's events land in the world's buffers; one update step runs
/// on the result; the commands the step produced — and nothing else —
/// run in order against the database; both event buffers and the command
/// queue end empty; the channel event sources only grow, in place.
pub open spec fn tick_rel_with(
    pre: CoreState,
    post: CoreState,
    s: TickSummary,
    batch: Seq<PendingAction>,
) -> bool {
    let inst1 = pre.sim.instantiate_events@ + batch_instantiates(batch);
    let inputs1 = pre.sim.input_events@ + batch_inputs(batch);
    let st = instantiate_fold(pre.sim.entities@, pre.sim.next_entity_index, pre.sim.commands.0@, inst1);
    let ents2 = move_fold(st.0, inputs1);
    let cmds2 = st.2 + changed_cmds(ents2);
    &&& s.actions_executed == batch.len()
    &&& post.sim.entities@ == clear_changed(ents2)
    &&& post.sim.next_entity_index == st.1
    &&& post.sim.instantiate_events@.len() == 0
    &&& post.sim.input_events@.len() == 0
    &&& post.sim.commands.0@.len() == 0
    &&& post.db.rows@ == run_db(pre.db.rows@, cmds2)
    &&& s.commands_processed == cmds2.len()
    &&& post.bus.channels@.len() == pre.bus.channels@.len()
    &&& forall|i: int|
        0 <= i < pre.bus.channels@.len()
            ==> post.bus.channels@[i].kind == pre.bus.channels@[i].kind
            && pre.bus.channels@[i].events@.is_prefix_of(post.bus.channels@[i].events@)
    &&& (s.notifications_forwarded == usize::MAX || s.notifications_forwarded == total_events(
        post.bus.channels@,
    ) - total_events(pre.bus.channels@))
}

/// How one tick relates its pre- and post-state: either the pending
/// drain was skipped under contention and the tick ran on an empty
/// batch, leaving the pending queue's contents for the next tick, or
/// some batch — exactly what the shared queue held — was drained and
/// delivered.
pub open spec fn tick_rel(pre: CoreState, post: CoreState, s: TickSummary) -> bool {
    if s.actions_skipped {
        tick_rel_with(pre, post, s, Seq::empty())
    } else {
        exists|batch: Seq<PendingAction>| #[trigger] tick_rel_with(pre, post, s, batch)
    }
}

/// The per-tick entry point: runs the canonical sequence once.
///
/// Fails, changing nothing, exactly when the process-wide state was
/// never initialized — a broken startup sequence, surfaced to the caller
/// rather than masked. Otherwise the tick runs to completion and the
/// summary reports what it did; a skipped pending drain or a failed
/// command is reported, never a lost step.
pub fn process_tick(state: &mut Option<CoreState>, pending: &SharedPendingQueue) -> (r: Result<
    TickSummary,
    String,
>)
    requires
        match *old(state) {
            Some(core) => core.wf(),
            None => true,
        },
    ensures
        *old(state) is None ==> r is Err && *final(state) is None,
        *old(state) is Some ==> match (r, *final(state)) {
            (Ok(s), Some(post)) => post.wf() && tick_rel(old(state).unwrap(), post, s),
            _ => false,
        },
{
    match state {
        None => Err("process-wide state is not initialized".to_string()),
        Some(core) => {
            let ghost pre = *core;
            let drained = process_bevy_actions(pending, &mut core.sim);
            let ghost sim1 = core.sim;
            let (skipped, executed): (bool, usize) = match drained {
                DrainOutcome::Skipped => (true, 0),
                DrainOutcome::Executed(n) => (false, n),
            };
            let forwarded = core.bus.drain_all();
            match run_bevy_update(&mut core.sim) {
                Ok(()) => {},
                Err(e) => {
                    return Err(e);
                },
            }
            let ghost sim2 = core.sim;
            let outs = process_bevy_commands(&mut core.sim.commands, &mut core.db);
            let summary = TickSummary {
                actions_skipped: skipped,
                actions_executed: executed,
                notifications_forwarded: forwarded,
                commands_processed: outs.len(),
            };
            proof {
                lemma_run_outcomes_len(pre.db.rows@, sim2.commands.0@);
                if skipped {
                    assert(sim_extended_by(pre.sim, sim1, Seq::empty()));
                    assert(tick_rel_with(pre, *core, summary, Seq::empty()));
                } else {
                    let batch = choose|b: Seq<PendingAction>|
                        b.len() == executed && #[trigger] sim_extended_by(pre.sim, sim1, b);
                    assert(tick_rel_with(pre, *core, summary, batch));
                }
            }
            Ok(summary)
        },
    }
}

} // verus!
