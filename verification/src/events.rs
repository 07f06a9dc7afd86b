//! Immutable notification payloads.
//!
//! Each value describes one observed change reported by the asynchronous
//! client: a connection state change, a row change, or a procedure result.
//! A notification is produced exactly once per underlying event and consumed
//! exactly once by the tick loop that reads it.

use vstd::prelude::*;
use crate::Entity;
use crate::Vec2;

verus! {

/// An event that is triggered when a connection to the database is
/// established.
#[derive(Clone, Copy, Debug, PartialEq, Eq, Structural)]
pub struct StdbConnectedEvent;

/// An event that is triggered when a connection to the database is lost.
#[derive(Debug)]
pub struct StdbDisconnectedEvent {
    /// The error that caused the disconnection, if any.
    pub err: Option<String>,
}

/// An event that is triggered when a connection to the database encounters
/// an error.
#[derive(Debug)]
pub struct StdbConnectionErrorEvent {
    /// The error that occurred.
    pub err: String,
}

/// An event that is triggered when a row is inserted into a table.
#[derive(Clone, Copy, Debug, PartialEq, Eq, Structural)]
pub struct InsertEvent<T> {
    /// The row that was inserted.
    pub row: T,
}

/// An event that is triggered when a row is deleted from a table.
#[derive(Clone, Copy, Debug, PartialEq, Eq, Structural)]
pub struct DeleteEvent<T> {
    /// The row that was deleted.
    pub row: T,
}

/// An event that is triggered when a row is updated in a table.
#[derive(Clone, Copy, Debug, PartialEq, Eq, Structural)]
pub struct UpdateEvent<T> {
    /// The old row.
    pub old: T,
    /// The new row.
    pub new: T,
}

/// An event that is triggered when a row is inserted or updated in a table.
#[derive(Clone, Copy, Debug, PartialEq, Eq, Structural)]
pub struct InsertUpdateEvent<T> {
    /// The previous value of the row if it was updated.
    pub old: Option<T>,
    /// The new value of the row or the inserted value.
    pub new: T,
}

/// An event that is triggered when a reducer is invoked.
#[derive(Clone, Copy, Debug, PartialEq, Eq, Structural)]
pub struct ReducerResultEvent<T> {
    /// The result of the reducer invocation.
    pub result: T,
}

impl<T> ReducerResultEvent<T> {
    /// Creates a new reducer result event.
    pub fn new(result: T) -> (r: Self)
        ensures
            r.result == result,
    {
        Self { result }
    }
}

/// A request, raised by the asynchronous side, to spawn a new entity in the
/// simulation world.
#[derive(Clone, Copy, Debug, PartialEq, Eq, Structural)]
pub struct InstantiateEntityEvent {
    /// Identity of the client the entity will belong to.
    pub owner_identity: u64,
    /// Where the entity appears.
    pub position: Vec2,
}

/// A movement input reported for one player entity.
#[derive(Clone, Copy, Debug, PartialEq, Eq, Structural)]
pub struct PlayerInputEvent {
    /// The simulation entity the input applies to.
    pub player_id: u32,
    /// The input direction vector.
    pub direction: Vec2,
}

/// One observed change delivered by the asynchronous client.
///
/// Exactly one variant per kind of callback the client invokes; the payload
/// carries everything the consumer needs, so a notification can cross
/// threads as a self-contained value.
#[derive(Debug)]
pub enum Notification {
    /// The connection was established.
    Connected(StdbConnectedEvent),
    /// The connection was closed, with the error that ended it, if any.
    Disconnected(StdbDisconnectedEvent),
    /// The connection failed.
    ConnectionError(StdbConnectionErrorEvent),
    /// A row appeared in the `entity` table.
    Inserted(InsertEvent<Entity>),
    /// A row left the `entity` table.
    Deleted(DeleteEvent<Entity>),
    /// A row of the `entity` table changed.
    Updated(UpdateEvent<Entity>),
    /// A row was inserted into or updated in the `entity` table.
    InsertedOrUpdated(InsertUpdateEvent<Entity>),
    /// A reducer finished; the payload is its correlation value.
    ReducerResult(ReducerResultEvent<u64>),
}

impl Notification {
    /// The notification an established connection produces.
    pub fn connected() -> (n: Notification)
        ensures
            n == Notification::Connected(StdbConnectedEvent),
    {
        Notification::Connected(StdbConnectedEvent)
    }

    /// The notification a closed connection produces, carrying the error
    /// that ended it, if any.
    pub fn disconnected(err: Option<String>) -> (n: Notification)
        ensures
            n == Notification::Disconnected(StdbDisconnectedEvent { err }),
    {
        Notification::Disconnected(StdbDisconnectedEvent { err })
    }

    /// The notification a failed connection produces.
    pub fn connection_error(err: String) -> (n: Notification)
        ensures
            n == Notification::ConnectionError(StdbConnectionErrorEvent { err }),
    {
        Notification::ConnectionError(StdbConnectionErrorEvent { err })
    }

    /// The notification a row insertion produces.
    pub fn inserted(row: Entity) -> (n: Notification)
        ensures
            n == Notification::Inserted(InsertEvent { row }),
    {
        Notification::Inserted(InsertEvent { row })
    }

    /// The notification a row deletion produces.
    pub fn deleted(row: Entity) -> (n: Notification)
        ensures
            n == Notification::Deleted(DeleteEvent { row }),
    {
        Notification::Deleted(DeleteEvent { row })
    }

    /// The notification a row update produces: the replaced row and the
    /// one that took its place.
    pub fn updated(before: Entity, after: Entity) -> (n: Notification)
        ensures
            n == Notification::Updated(UpdateEvent { old: before, new: after }),
    {
        Notification::Updated(UpdateEvent { old: before, new: after })
    }

    /// The notification of the combined insert-or-update kind: the
    /// replaced row is present exactly when the change was an update.
    pub fn inserted_or_updated(before: Option<Entity>, after: Entity) -> (n: Notification)
        ensures
            n == Notification::InsertedOrUpdated(InsertUpdateEvent { old: before, new: after }),
    {
        Notification::InsertedOrUpdated(InsertUpdateEvent { old: before, new: after })
    }

    /// The notification a finished reducer produces, carrying its
    /// correlation value.
    pub fn reducer_result(result: u64) -> (n: Notification)
        ensures
            n == Notification::ReducerResult(ReducerResultEvent { result }),
    {
        Notification::ReducerResult(ReducerResultEvent::new(result))
    }
}

} // verus!
