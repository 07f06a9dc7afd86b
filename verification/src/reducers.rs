//! The reducer surface: entry points the asynchronous client invokes on
//! its own threads.
//!
//! A reducer never touches the simulation world. It reads the database
//! view, decides, and at most schedules one pending action; the action is
//! delivered to the world by the next tick's drain.

use vstd::prelude::*;
use crate::command::DbState;
use crate::events::InstantiateEntityEvent;
use crate::events::PlayerInputEvent;
use crate::pending::schedule_bevy_action;
use crate::pending::PendingAction;
use crate::pending::SharedPendingQueue;
use crate::pending::SimEvent;
use crate::Entity;
use crate::Vec2;

verus! {

/// Whether some row of `rows` is owned by `owner`.
pub open spec fn owner_has_entity(rows: Seq<Entity>, owner: u64) -> bool {
    exists|i: int| 0 <= i < rows.len() && rows[i].owner_identity == owner
}

/// Finds the first row owned by `owner`, if any; models the table's
/// unique-index lookup on the owner identity.
pub fn find_owner_entity(db: &DbState, owner: u64) -> (r: Option<Entity>)
    ensures
        r is Some <==> owner_has_entity(db.rows@, owner),
        match r {
            Some(e) => e.owner_identity == owner && db.rows@.contains(e),
            None => true,
        },
{
    let n = db.rows.len();
    let mut i: usize = 0;
    while i < n
        invariant
            n == db.rows@.len(),
            i <= n,
            forall|j: int| 0 <= j < i ==> db.rows@[j].owner_identity != owner,
        decreases n - i,
    {
        if db.rows[i].owner_identity == owner {
            return Some(db.rows[i]);
        }
        i += 1;
    }
    None
}

/// The action a join request gives rise to: a spawn request at the
/// origin for a client that has no entity yet, nothing for one that does.
pub fn enter_game_decision(db: &DbState, sender: u64) -> (r: Option<PendingAction>)
    ensures
        r is Some <==> !owner_has_entity(db.rows@, sender),
        match r {
            Some(a) => a == PendingAction::SendEvent(
                SimEvent::Instantiate(
                    InstantiateEntityEvent {
                        owner_identity: sender,
                        position: Vec2 { x: 0, y: 0 },
                    },
                ),
            ),
            None => true,
        },
{
    match find_owner_entity(db, sender) {
        Some(_) => None,
        None => Some(
            PendingAction::SendEvent(
                SimEvent::Instantiate(
                    InstantiateEntityEvent { owner_identity: sender, position: Vec2 { x: 0, y: 0 } },
                ),
            ),
        ),
    }
}

/// A client's request to join the game.
///
/// If the client already owns an entity the request is ignored;
/// otherwise a spawn action is scheduled for the next tick. The request
/// itself always succeeds: this is a decision, not a mutation.
pub fn enter_game(
    db: &DbState,
    queue: &SharedPendingQueue,
    sender: u64,
    _name: String,
) -> (r: Result<(), String>)
    ensures
        r is Ok,
{
    match enter_game_decision(db, sender) {
        None => Ok(()),
        Some(action) => {
            schedule_bevy_action(queue, action);
            Ok(())
        },
    }
}

/// The action a movement input gives rise to: input for the sender's
/// entity, or nothing when the sender has none.
pub fn receive_player_input_decision(db: &DbState, sender: u64, x: i64, y: i64) -> (r: Option<
    PendingAction,
>)
    ensures
        r is Some <==> owner_has_entity(db.rows@, sender),
        match r {
            Some(a) => exists|e: Entity|
                #[trigger] db.rows@.contains(e) && e.owner_identity == sender && a
                    == PendingAction::SendEvent(
                    SimEvent::PlayerInput(
                        PlayerInputEvent {
                            player_id: e.entity_id,
                            direction: Vec2 { x, y },
                        },
                    ),
                ),
            None => true,
        },
{
    match find_owner_entity(db, sender) {
        None => None,
        Some(e) => Some(
            PendingAction::SendEvent(
                SimEvent::PlayerInput(
                    PlayerInputEvent { player_id: e.entity_id, direction: Vec2 { x, y } },
                ),
            ),
        ),
    }
}

/// A client's movement input.
///
/// Input from a client with no entity is ignored with a warning, as the
/// original table lookup misses; otherwise a movement action for the
/// client's entity is scheduled for the next tick. Always succeeds.
pub fn receive_player_input(
    db: &DbState,
    queue: &SharedPendingQueue,
    sender: u64,
    x: i64,
    y: i64,
) -> (r: Result<(), String>)
    ensures
        r is Ok,
{
    match receive_player_input_decision(db, sender, x, y) {
        None => Ok(()),
        Some(action) => {
            schedule_bevy_action(queue, action);
            Ok(())
        },
    }
}

} // verus!
