//! The simulation world and the update systems that run once per tick.
//!
//! The world is owned by the single tick thread; the asynchronous side
//! never touches it directly and can only request mutations through the
//! pending-action queue. Each update step runs three systems in a fixed
//! order: spawn requested entities, apply buffered movement input, then
//! queue a database update for every position that changed.

use vstd::prelude::*;
use crate::command::CommandQueue;
use crate::command::DbCommand;
use crate::events::InstantiateEntityEvent;
use crate::events::PlayerInputEvent;
use crate::Vec2;

verus! {

/// The position of a simulation entity in the game world.
#[derive(Clone, Copy, Debug, PartialEq, Eq, Structural)]
pub struct Position(pub Vec2);

/// One entity of the simulation world: its index, its position, and
/// whether the position changed since the database last saw it.
#[derive(Clone, Copy, Debug, PartialEq, Eq, Structural)]
pub struct SimEntity {
    /// The entity index; doubles as the primary key of the mirrored
    /// database row.
    pub id: u32,
    /// Where the entity currently is.
    pub position: Position,
    /// Set when the position changed (or the entity appeared) during the
    /// current tick and the database has not yet been told.
    pub changed: bool,
}

/// The tick loop's owned, mutable world.
///
/// Holds the buffered input events for the coming update, the live
/// entities, the allocator for entity indices, and the command queue that
/// simulation systems fill for the drain that follows the update.
pub struct SimState {
    /// Spawn requests waiting for the next update.
    pub instantiate_events: Vec<InstantiateEntityEvent>,
    /// Movement inputs waiting for the next update.
    pub input_events: Vec<PlayerInputEvent>,
    /// The live entities, in spawn order.
    pub entities: Vec<SimEntity>,
    /// The next free entity index.
    pub next_entity_index: u32,
    /// Deferred database operations produced by this tick's systems.
    pub commands: CommandQueue,
}

impl SimState {
    /// The world is well formed when entity indices are unique and every
    /// live index is below the allocator's next free one.
    pub open spec fn wf(self) -> bool {
        &&& forall|i: int, j: int|
            0 <= i < j < self.entities@.len() ==> self.entities@[i].id != self.entities@[j].id
        &&& forall|i: int|
            0 <= i < self.entities@.len() ==> self.entities@[i].id < self.next_entity_index
    }

    /// A world with nothing in it and index allocation starting at zero.
    pub fn new() -> (s: SimState)
        ensures
            s.wf(),
            s.instantiate_events@ =~= Seq::<InstantiateEntityEvent>::empty(),
            s.input_events@ =~= Seq::<PlayerInputEvent>::empty(),
            s.entities@ =~= Seq::<SimEntity>::empty(),
            s.next_entity_index == 0,
            s.commands.0@ =~= Seq::<DbCommand>::empty(),
    {
        SimState {
            instantiate_events: Vec::new(),
            input_events: Vec::new(),
            entities: Vec::new(),
            next_entity_index: 0,
            commands: CommandQueue::new(),
        }
    }
}

/// Consumes one entity index at startup so that entities spawned later
/// begin at index one, matching the database table whose keys start there.
pub fn add_single_entity_system(sim: &mut SimState)
    requires
        old(sim).wf(),
        old(sim).next_entity_index < u32::MAX,
    ensures
        final(sim).wf(),
        final(sim).next_entity_index == old(sim).next_entity_index + 1,
        final(sim).instantiate_events@ == old(sim).instantiate_events@,
        final(sim).input_events@ == old(sim).input_events@,
        final(sim).entities@ == old(sim).entities@,
        final(sim).commands.0@ == old(sim).commands.0@,
{
    sim.next_entity_index = sim.next_entity_index + 1;
}

/// Component-wise sum of two coordinate vectors, wrapping at the
/// representation edge.
pub open spec fn vec2_add(a: Vec2, b: Vec2) -> Vec2 {
    Vec2 {
        x: vstd::wrapping::i64_specs::wrapping_add(a.x, b.x),
        y: vstd::wrapping::i64_specs::wrapping_add(a.y, b.y),
    }
}

/// The entities, index allocator and command queue after one spawn request
/// has been honoured.
///
/// When every index is taken the request is dropped; otherwise the new
/// entity takes the next free index, appears marked changed, and a
/// creation command for its database row is queued.
pub open spec fn instantiate_step(
    ents: Seq<SimEntity>,
    next: u32,
    cmds: Seq<DbCommand>,
    e: InstantiateEntityEvent,
) -> (Seq<SimEntity>, u32, Seq<DbCommand>) {
    if next == u32::MAX {
        (ents, next, cmds)
    } else {
        (
            ents.push(SimEntity { id: next, position: Position(e.position), changed: true }),
            (next + 1) as u32,
            cmds.push(
                DbCommand::CreateEntity {
                    entity_id: next,
                    position: e.position,
                    owner_identity: e.owner_identity,
                },
            ),
        )
    }
}

/// The entities, index allocator and command queue after a sequence of
/// spawn requests has been honoured in order.
pub open spec fn instantiate_fold(
    ents: Seq<SimEntity>,
    next: u32,
    cmds: Seq<DbCommand>,
    evs: Seq<InstantiateEntityEvent>,
) -> (Seq<SimEntity>, u32, Seq<DbCommand>)
    decreases evs.len(),
{
    if evs.len() == 0 {
        (ents, next, cmds)
    } else {
        let st = instantiate_fold(ents, next, cmds, evs.drop_last());
        instantiate_step(st.0, st.1, st.2, evs.last())
    }
}

/// Spawns an entity for every buffered spawn request, in request order.
///
/// Each honoured request consumes one entity index, adds one entity marked
/// changed, and queues one database creation command; the requests are
/// consumed by the run.
pub fn instantiate_entity_system(sim: &mut SimState)
    requires
        old(sim).wf(),
    ensures
        final(sim).wf(),
        ({
            let st = instantiate_fold(
                old(sim).entities@,
                old(sim).next_entity_index,
                old(sim).commands.0@,
                old(sim).instantiate_events@,
            );
            &&& final(sim).entities@ == st.0
            &&& final(sim).next_entity_index == st.1
            &&& final(sim).commands.0@ == st.2
        }),
        final(sim).instantiate_events@ =~= Seq::<InstantiateEntityEvent>::empty(),
        final(sim).input_events@ == old(sim).input_events@,
{
    let ghost evs = sim.instantiate_events@;
    let ghost ents0 = sim.entities@;
    let ghost next0 = sim.next_entity_index;
    let ghost cmds0 = sim.commands.0@;
    let n = sim.instantiate_events.len();
    let mut i: usize = 0;
    while i < n
        invariant
            sim.wf(),
            n == sim.instantiate_events@.len(),
            sim.instantiate_events@ == evs,
            i <= n,
            ({
                let st = instantiate_fold(ents0, next0, cmds0, evs.take(i as int));
                &&& sim.entities@ == st.0
                &&& sim.next_entity_index == st.1
                &&& sim.commands.0@ == st.2
            }),
            sim.input_events@ == old(sim).input_events@,
        decreases n - i,
    {
        let e = sim.instantiate_events[i];
        proof {
            assert(evs.take(i + 1).drop_last() =~= evs.take(i as int));
            assert(evs.take(i + 1).last() == evs[i as int]);
        }
        if sim.next_entity_index < u32::MAX {
            let new_id = sim.next_entity_index;
            sim.entities.push(SimEntity { id: new_id, position: Position(e.position), changed: true });
            sim.next_entity_index = new_id + 1;
            sim.commands.push(
                DbCommand::CreateEntity {
                    entity_id: new_id,
                    position: e.position,
                    owner_identity: e.owner_identity,
                },
            );
        }
        i += 1;
    }
    proof {
        assert(evs.take(n as int) =~= evs);
    }
    sim.instantiate_events = Vec::new();
}

/// `s` moved by the input `e`, when the input addresses it.
pub open spec fn move_row(s: SimEntity, e: PlayerInputEvent) -> SimEntity {
    if s.id == e.player_id {
        SimEntity { id: s.id, position: Position(vec2_add(s.position.0, e.direction)), changed: true }
    } else {
        s
    }
}

/// Every entity of `ents` moved by the input `e` where it addresses one.
pub open spec fn move_rows(ents: Seq<SimEntity>, e: PlayerInputEvent) -> Seq<SimEntity>
    decreases ents.len(),
{
    if ents.len() == 0 {
        Seq::empty()
    } else {
        move_rows(ents.drop_last(), e).push(move_row(ents.last(), e))
    }
}

/// The entities after a sequence of movement inputs has been applied in
/// order.
pub open spec fn move_fold(ents: Seq<SimEntity>, evs: Seq<PlayerInputEvent>) -> Seq<SimEntity>
    decreases evs.len(),
{
    if evs.len() == 0 {
        ents
    } else {
        move_rows(move_fold(ents, evs.drop_last()), evs.last())
    }
}

proof fn lemma_move_rows_index(ents: Seq<SimEntity>, e: PlayerInputEvent)
    ensures
        move_rows(ents, e).len() == ents.len(),
        forall|j: int| 0 <= j < ents.len() ==> move_rows(ents, e)[j] == move_row(ents[j], e),
    decreases ents.len(),
{
    if ents.len() > 0 {
        lemma_move_rows_index(ents.drop_last(), e);
    }
}

proof fn lemma_move_fold_ids(ents: Seq<SimEntity>, evs: Seq<PlayerInputEvent>)
    ensures
        move_fold(ents, evs).len() == ents.len(),
        forall|j: int| 0 <= j < ents.len() ==> move_fold(ents, evs)[j].id == ents[j].id,
    decreases evs.len(),
{
    if evs.len() > 0 {
        lemma_move_fold_ids(ents, evs.drop_last());
        lemma_move_rows_index(move_fold(ents, evs.drop_last()), evs.last());
    }
}

/// Applies every buffered movement input, in input order, to the entity it
/// addresses.
///
/// An input moves at most the one entity carrying its index; inputs whose
/// index matches no entity change nothing. The inputs are consumed by the
/// run.
pub fn apply_player_movement_system(sim: &mut SimState)
    requires
        old(sim).wf(),
    ensures
        final(sim).wf(),
        final(sim).entities@ == move_fold(old(sim).entities@, old(sim).input_events@),
        final(sim).input_events@ =~= Seq::<PlayerInputEvent>::empty(),
        final(sim).instantiate_events@ == old(sim).instantiate_events@,
        final(sim).next_entity_index == old(sim).next_entity_index,
        final(sim).commands.0@ == old(sim).commands.0@,
{
    let ghost evs = sim.input_events@;
    let ghost ents0 = sim.entities@;
    let n = sim.input_events.len();
    let mut i: usize = 0;
    while i < n
        invariant
            sim.wf(),
            n == sim.input_events@.len(),
            sim.input_events@ == evs,
            i <= n,
            sim.entities@ == move_fold(ents0, evs.take(i as int)),
            sim.instantiate_events@ == old(sim).instantiate_events@,
            sim.next_entity_index == old(sim).next_entity_index,
            sim.commands.0@ == old(sim).commands.0@,
        decreases n - i,
    {
        let e = sim.input_events[i];
        proof {
            assert(evs.take(i + 1).drop_last() =~= evs.take(i as int));
            assert(evs.take(i + 1).last() == evs[i as int]);
        }
        let ghost before = sim.entities@;
        let m = sim.entities.len();
        let mut k: usize = 0;
        let mut moved: bool = false;
        while k < m
            invariant
                m == sim.entities@.len(),
                before.len() == m,
                k <= m,
                sim.wf(),
                sim.input_events@ == evs,
                sim.instantiate_events@ == old(sim).instantiate_events@,
                sim.next_entity_index == old(sim).next_entity_index,
                sim.commands.0@ == old(sim).commands.0@,
                forall|i2: int, j2: int|
                    0 <= i2 < j2 < before.len() ==> before[i2].id != before[j2].id,
                !moved ==> sim.entities@ == before,
                !moved ==> forall|j: int| 0 <= j < k ==> before[j].id != e.player_id,
                moved ==> exists|j: int|
                    0 <= j < k && before[j].id == e.player_id && sim.entities@ =~= before.update(
                        j,
                        move_row(before[j], e),
                    ),
            decreases m - k,
        {
            if !moved && sim.entities[k].id == e.player_id {
                let cur = sim.entities[k];
                let updated = SimEntity {
                    id: cur.id,
                    position: Position(Vec2 {
                        x: cur.position.0.x.wrapping_add(e.direction.x),
                        y: cur.position.0.y.wrapping_add(e.direction.y),
                    }),
                    changed: true,
                };
                sim.entities.set(k, updated);
                moved = true;
                proof {
                    assert(sim.entities@ =~= before.update(k as int, move_row(before[k as int], e)));
                }
            }
            k += 1;
        }
        proof {
            lemma_move_rows_index(before, e);
            if moved {
                let j = choose|j: int|
                    0 <= j < m && before[j].id == e.player_id && sim.entities@ =~= before.update(
                        j,
                        move_row(before[j], e),
                    );
                assert forall|l: int| 0 <= l < m implies sim.entities@[l] == move_row(
                    before[l],
                    e,
                ) by {
                    if l != j {
                        assert(before[l].id != before[j].id);
                    }
                }
                assert(sim.entities@ =~= move_rows(before, e));
            } else {
                assert forall|l: int| 0 <= l < m implies sim.entities@[l] == move_row(
                    before[l],
                    e,
                ) by {}
                assert(sim.entities@ =~= move_rows(before, e));
            }
        }
        i += 1;
    }
    proof {
        assert(evs.take(n as int) =~= evs);
    }
    sim.input_events = Vec::new();
}

/// The database update queued for each entity of `ents` whose position
/// changed, in entity order.
pub open spec fn changed_cmds(ents: Seq<SimEntity>) -> Seq<DbCommand>
    decreases ents.len(),
{
    if ents.len() == 0 {
        Seq::empty()
    } else {
        changed_cmds(ents.drop_last()) + (if ents.last().changed {
            seq![
                DbCommand::UpdatePosition {
                    entity_id: ents.last().id,
                    position: ents.last().position.0,
                },
            ]
        } else {
            Seq::empty()
        })
    }
}

/// Every entity of `ents` with its change mark cleared.
pub open spec fn clear_changed(ents: Seq<SimEntity>) -> Seq<SimEntity>
    decreases ents.len(),
{
    if ents.len() == 0 {
        Seq::empty()
    } else {
        clear_changed(ents.drop_last()).push(
            SimEntity {
                id: ents.last().id,
                position: ents.last().position,
                changed: false,
            },
        )
    }
}

proof fn lemma_clear_changed_index(ents: Seq<SimEntity>)
    ensures
        clear_changed(ents).len() == ents.len(),
        forall|j: int|
            0 <= j < ents.len() ==> clear_changed(ents)[j] == (SimEntity {
                id: ents[j].id,
                position: ents[j].position,
                changed: false,
            }),
    decreases ents.len(),
{
    if ents.len() > 0 {
        lemma_clear_changed_index(ents.drop_last());
    }
}

/// Queues one position update for every entity whose position changed this
/// tick, in entity order, and clears the change marks.
pub fn update_stdb_position_system(sim: &mut SimState)
    requires
        old(sim).wf(),
    ensures
        final(sim).wf(),
        final(sim).entities@ == clear_changed(old(sim).entities@),
        final(sim).commands.0@ == old(sim).commands.0@ + changed_cmds(old(sim).entities@),
        final(sim).instantiate_events@ == old(sim).instantiate_events@,
        final(sim).input_events@ == old(sim).input_events@,
        final(sim).next_entity_index == old(sim).next_entity_index,
{
    let ghost ents0 = sim.entities@;
    let ghost cmds0 = sim.commands.0@;
    let n = sim.entities.len();
    let mut i: usize = 0;
    while i < n
        invariant
            n == sim.entities@.len(),
            ents0.len() == n,
            i <= n,
            old(sim).wf(),
            sim.wf(),
            forall|j: int| 0 <= j < n ==> sim.entities@[j].id == ents0[j].id,
            forall|j: int|
                0 <= j < i ==> sim.entities@[j] == (SimEntity {
                    id: ents0[j].id,
                    position: ents0[j].position,
                    changed: false,
                }),
            forall|j: int| i <= j < n ==> sim.entities@[j] == ents0[j],
            sim.commands.0@ == cmds0 + changed_cmds(ents0.take(i as int)),
            sim.instantiate_events@ == old(sim).instantiate_events@,
            sim.input_events@ == old(sim).input_events@,
            sim.next_entity_index == old(sim).next_entity_index,
        decreases n - i,
    {
        proof {
            assert(ents0.take(i + 1).drop_last() =~= ents0.take(i as int));
            assert(ents0.take(i + 1).last() == ents0[i as int]);
        }
        let cur = sim.entities[i];
        if cur.changed {
            sim.commands.push(
                DbCommand::UpdatePosition { entity_id: cur.id, position: cur.position.0 },
            );
            proof {
                assert(sim.commands.0@ =~= cmds0 + changed_cmds(ents0.take(i + 1)));
            }
        }
        let cleared = SimEntity { id: cur.id, position: cur.position, changed: false };
        sim.entities.set(i, cleared);
        proof {
            if !ents0[i as int].changed {
                assert(sim.commands.0@ =~= cmds0 + changed_cmds(ents0.take(i + 1)));
            }
        }
        i += 1;
    }
    proof {
        assert(ents0.take(n as int) =~= ents0);
        lemma_clear_changed_index(ents0);
        assert(sim.entities@ =~= clear_changed(ents0));
    }
}

/// The entities after one whole update step of `s`.
pub open spec fn update_entities_spec(s: SimState) -> Seq<SimEntity> {
    let st = instantiate_fold(s.entities@, s.next_entity_index, s.commands.0@, s.instantiate_events@);
    clear_changed(move_fold(st.0, s.input_events@))
}

/// The next free entity index after one whole update step of `s`.
pub open spec fn update_next_spec(s: SimState) -> u32 {
    instantiate_fold(s.entities@, s.next_entity_index, s.commands.0@, s.instantiate_events@).1
}

/// The command queue after one whole update step of `s`.
pub open spec fn update_commands_spec(s: SimState) -> Seq<DbCommand> {
    let st = instantiate_fold(s.entities@, s.next_entity_index, s.commands.0@, s.instantiate_events@);
    st.2 + changed_cmds(move_fold(st.0, s.input_events@))
}

/// Advances the simulation by exactly one discrete step: spawns requested
/// entities, applies buffered movement, then queues a database update for
/// every changed position, in that fixed order.
///
/// Both event buffers are consumed; the commands the step produced sit at
/// the tail of the queue, ready for the drain that follows the update.
pub fn run_bevy_update(sim: &mut SimState) -> (r: Result<(), String>)
    requires
        old(sim).wf(),
    ensures
        r is Ok,
        final(sim).wf(),
        final(sim).entities@ == update_entities_spec(*old(sim)),
        final(sim).next_entity_index == update_next_spec(*old(sim)),
        final(sim).commands.0@ == update_commands_spec(*old(sim)),
        final(sim).instantiate_events@ =~= Seq::<InstantiateEntityEvent>::empty(),
        final(sim).input_events@ =~= Seq::<PlayerInputEvent>::empty(),
{
    instantiate_entity_system(sim);
    apply_player_movement_system(sim);
    update_stdb_position_system(sim);
    Ok(())
}

} // verus!
