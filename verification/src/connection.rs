//! The connection façade: the bridge's view of the asynchronous client's
//! connection.
//!
//! A thin accessor over the client's read-only state replica and
//! lifecycle flags. The simulation side reads it during its tick; it is
//! never shared with the asynchronous domain once a tick has begun.

use vstd::prelude::*;
use vstd::pervasive::unreached;
use crate::command::DbState;

verus! {

/// A connection to the database server, as seen from the tick thread.
pub struct StdbConnection {
    /// The client cache: a read-only replica of the remote table state.
    pub db: DbState,
    /// The identity the server assigned this connection, once known.
    pub identity: Option<u64>,
    /// The connection identifier.
    pub connection_id: u64,
    /// Whether the connection has not yet disconnected.
    pub active: bool,
}

impl StdbConnection {
    /// Wraps a freshly established connection.
    pub fn new(db: DbState, connection_id: u64) -> (c: StdbConnection)
        ensures
            c.db == db,
            c.identity is None,
            c.connection_id == connection_id,
            c.active,
    {
        StdbConnection { db, identity: None, connection_id, active: true }
    }

    /// Access to the table replica.
    pub fn db(&self) -> (r: &DbState)
        ensures
            r == &self.db,
    {
        &self.db
    }

    /// The identity of this connection; the caller must know it has been
    /// assigned.
    pub fn identity(&self) -> (r: u64)
        requires
            self.identity is Some,
        ensures
            self.identity == Some(r),
    {
        match &self.identity {
            Some(id) => *id,
            None => unreached(),
        }
    }

    /// The identity of this connection, if the server has assigned one
    /// yet.
    pub fn try_identity(&self) -> (r: Option<u64>)
        ensures
            r == self.identity,
    {
        self.identity
    }

    /// Whether the connection is active, i.e. has not yet disconnected.
    pub fn is_active(&self) -> (r: bool)
        ensures
            r == self.active,
    {
        self.active
    }

    /// The connection identifier.
    pub fn connection_id(&self) -> (r: u64)
        ensures
            r == self.connection_id,
    {
        self.connection_id
    }

    /// Closes the connection; closing one that is already closed reports
    /// an error and changes nothing.
    pub fn disconnect(&mut self) -> (r: Result<(), ()>)
        ensures
            !final(self).active,
            r is Ok <==> old(self).active,
            final(self).db == old(self).db,
            final(self).identity == old(self).identity,
            final(self).connection_id == old(self).connection_id,
    {
        if self.active {
            self.active = false;
            Ok(())
        } else {
            Err(())
        }
    }
}

} // verus!
