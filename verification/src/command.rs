//! The command queue: deferred operations from the simulation side to the
//! database context.
//!
//! Simulation systems push commands during a tick; once the update has run,
//! the tick coordinator drains the queue in FIFO order and executes every
//! command against the database state. Each command yields at most one
//! correlation value (the key of a newly created row) or a failure; a
//! failure is reported in the drain's outcomes and never halts the drain,
//! since commands are independent unless a caller encodes a dependency.

use vstd::prelude::*;
use crate::Entity;
use crate::Vec2;

verus! {

/// One deferred operation against the database context.
///
/// A command captures everything needed to perform the operation, so it can
/// wait in the queue as a self-contained value until the context in which
/// it may run comes round.
#[derive(Clone, Copy, Debug, PartialEq, Eq, Structural)]
pub enum DbCommand {
    /// Insert a new row into the `entity` table.
    CreateEntity {
        /// Primary key of the new row.
        entity_id: u32,
        /// Initial position.
        position: Vec2,
        /// Identity of the owning client.
        owner_identity: u64,
    },
    /// Overwrite the position of the row keyed `entity_id`, if it exists.
    UpdatePosition {
        /// Primary key of the row to update.
        entity_id: u32,
        /// The new position.
        position: Vec2,
    },
}

/// What executing one command reported.
#[derive(Clone, Copy, Debug, PartialEq, Eq, Structural)]
pub enum CommandOutcome {
    /// The command succeeded and created the row with this key.
    Created(u32),
    /// The command succeeded without creating anything.
    Done,
    /// The command failed; the database state is unchanged.
    Failed,
}

/// An ordered buffer of commands owned by the simulation state.
///
/// Only simulation systems push, and only the tick coordinator drains, both
/// from the single tick thread, so the buffer needs no lock: the
/// simulation's single-writer-per-tick guarantee protects it.
pub struct CommandQueue(pub Vec<DbCommand>);

impl CommandQueue {
    /// An empty queue.
    pub fn new() -> (q: CommandQueue)
        ensures
            q.0@ =~= Seq::<DbCommand>::empty(),
    {
        CommandQueue(Vec::new())
    }

    /// Appends a command; it will run on the next drain, after everything
    /// queued before it. Callable only from simulation systems: the
    /// buffer's safety rests on the single tick thread being the only
    /// writer.
    pub fn push(&mut self, cmd: DbCommand)
        ensures
            final(self).0@ == old(self).0@.push(cmd),
    {
        self.0.push(cmd);
    }
}

impl Default for CommandQueue {
    /// An empty queue, as the simulation state starts with.
    fn default() -> (q: CommandQueue)
        ensures
            q.0@ =~= Seq::<DbCommand>::empty(),
    {
        CommandQueue(Vec::new())
    }
}

/// The bridge's view of the remote database: the rows of the `entity`
/// table, keyed by `entity_id`.
pub struct DbState {
    /// The rows, in insertion order.
    pub rows: Vec<Entity>,
}

impl DbState {
    /// Rows are well formed when no key occurs twice.
    pub open spec fn wf(self) -> bool {
        forall|i: int, j: int|
            0 <= i < j < self.rows@.len() ==> self.rows@[i].entity_id != self.rows@[j].entity_id
    }

    /// An empty table.
    pub fn new() -> (db: DbState)
        ensures
            db.rows@ =~= Seq::<Entity>::empty(),
            db.wf(),
    {
        DbState { rows: Vec::new() }
    }

    /// How many rows the table holds.
    pub fn count(&self) -> (r: usize)
        ensures
            r == self.rows@.len(),
    {
        self.rows.len()
    }

    /// Whether some row carries the key `entity_id`.
    pub fn contains_id(&self, entity_id: u32) -> (r: bool)
        ensures
            r == db_contains_id(self.rows@, entity_id),
    {
        let n = self.rows.len();
        let mut i: usize = 0;
        while i < n
            invariant
                n == self.rows@.len(),
                i <= n,
                forall|j: int| 0 <= j < i ==> self.rows@[j].entity_id != entity_id,
            decreases n - i,
        {
            if self.rows[i].entity_id == entity_id {
                return true;
            }
            i += 1;
        }
        false
    }

    /// Finds the row with the key `entity_id`, if one is present.
    pub fn find_row(&self, entity_id: u32) -> (r: Option<Entity>)
        ensures
            r is Some <==> db_contains_id(self.rows@, entity_id),
            match r {
                Some(e) => e.entity_id == entity_id && self.rows@.contains(e),
                None => true,
            },
    {
        let n = self.rows.len();
        let mut i: usize = 0;
        while i < n
            invariant
                n == self.rows@.len(),
                i <= n,
                forall|j: int| 0 <= j < i ==> self.rows@[j].entity_id != entity_id,
            decreases n - i,
        {
            if self.rows[i].entity_id == entity_id {
                return Some(self.rows[i]);
            }
            i += 1;
        }
        None
    }
}

/// Whether `rows` holds a row keyed `id`.
pub open spec fn db_contains_id(rows: Seq<Entity>, id: u32) -> bool {
    exists|i: int| 0 <= i < rows.len() && rows[i].entity_id == id
}

/// `r` with its position overwritten when it carries the key `id`.
pub open spec fn reposition_row(r: Entity, id: u32, p: Vec2) -> Entity {
    if r.entity_id == id {
        Entity { entity_id: r.entity_id, position: p, owner_identity: r.owner_identity }
    } else {
        r
    }
}

/// Every row of `rows`, repositioned where it carries the key `id`.
pub open spec fn reposition_rows(rows: Seq<Entity>, id: u32, p: Vec2) -> Seq<Entity>
    decreases rows.len(),
{
    if rows.len() == 0 {
        Seq::empty()
    } else {
        reposition_rows(rows.drop_last(), id, p).push(reposition_row(rows.last(), id, p))
    }
}

/// The table after one command has run against `rows`.
pub open spec fn step_db(rows: Seq<Entity>, c: DbCommand) -> Seq<Entity> {
    match c {
        DbCommand::CreateEntity { entity_id, position, owner_identity } => {
            if db_contains_id(rows, entity_id) {
                rows
            } else {
                rows.push(Entity { entity_id, position, owner_identity })
            }
        },
        DbCommand::UpdatePosition { entity_id, position } => {
            reposition_rows(rows, entity_id, position)
        },
    }
}

/// What one command run against `rows` reports.
///
/// Creating a row that already exists fails, as the table's unique-key
/// insert does; updating an absent row is a reported success that changes
/// nothing, mirroring an update that found no row to touch.
pub open spec fn step_outcome(rows: Seq<Entity>, c: DbCommand) -> CommandOutcome {
    match c {
        DbCommand::CreateEntity { entity_id, .. } => {
            if db_contains_id(rows, entity_id) {
                CommandOutcome::Failed
            } else {
                CommandOutcome::Created(entity_id)
            }
        },
        DbCommand::UpdatePosition { .. } => CommandOutcome::Done,
    }
}

/// The table after every command of `cmds` has run in order against `rows`.
pub open spec fn run_db(rows: Seq<Entity>, cmds: Seq<DbCommand>) -> Seq<Entity>
    decreases cmds.len(),
{
    if cmds.len() == 0 {
        rows
    } else {
        step_db(run_db(rows, cmds.drop_last()), cmds.last())
    }
}

/// The outcome each command of `cmds` reports when the sequence runs in
/// order against `rows`.
pub open spec fn run_outcomes(rows: Seq<Entity>, cmds: Seq<DbCommand>) -> Seq<CommandOutcome>
    decreases cmds.len(),
{
    if cmds.len() == 0 {
        Seq::empty()
    } else {
        run_outcomes(rows, cmds.drop_last()).push(
            step_outcome(run_db(rows, cmds.drop_last()), cmds.last()),
        )
    }
}

proof fn lemma_reposition_rows_index(rows: Seq<Entity>, id: u32, p: Vec2)
    ensures
        reposition_rows(rows, id, p).len() == rows.len(),
        forall|j: int|
            0 <= j < rows.len() ==> reposition_rows(rows, id, p)[j] == reposition_row(
                rows[j],
                id,
                p,
            ),
    decreases rows.len(),
{
    if rows.len() > 0 {
        lemma_reposition_rows_index(rows.drop_last(), id, p);
    }
}

/// Executes one command against the table, reporting its outcome.
///
/// A failed command leaves the table exactly as it was; a `Created`
/// outcome is tagged with the key of the one row the command added.
pub fn execute_command(db: &mut DbState, cmd: &DbCommand) -> (r: CommandOutcome)
    requires
        old(db).wf(),
    ensures
        final(db).wf(),
        final(db).rows@ == step_db(old(db).rows@, *cmd),
        r == step_outcome(old(db).rows@, *cmd),
{
    match cmd {
        DbCommand::CreateEntity { entity_id, position, owner_identity } => {
            if db.contains_id(*entity_id) {
                CommandOutcome::Failed
            } else {
                db.rows.push(Entity {
                    entity_id: *entity_id,
                    position: *position,
                    owner_identity: *owner_identity,
                });
                CommandOutcome::Created(*entity_id)
            }
        },
        DbCommand::UpdatePosition { entity_id, position } => {
            let ghost rows0 = db.rows@;
            let n = db.rows.len();
            let mut i: usize = 0;
            while i < n
                invariant
                    n == db.rows@.len(),
                    rows0.len() == n,
                    i <= n,
                    forall|j: int|
                        0 <= j < i ==> db.rows@[j] == reposition_row(rows0[j], *entity_id, *position),
                    forall|j: int| i <= j < n ==> db.rows@[j] == rows0[j],
                decreases n - i,
            {
                if db.rows[i].entity_id == *entity_id {
                    let updated = Entity {
                        entity_id: db.rows[i].entity_id,
                        position: *position,
                        owner_identity: db.rows[i].owner_identity,
                    };
                    db.rows.set(i, updated);
                }
                i += 1;
            }
            proof {
                lemma_reposition_rows_index(rows0, *entity_id, *position);
                assert(db.rows@ =~= reposition_rows(rows0, *entity_id, *position));
            }
            CommandOutcome::Done
        },
    }
}

/// Removes every queued command in FIFO order and executes each against the
/// database state, continuing past failures.
///
/// The returned vector reports one outcome per drained command, in queue
/// order; after the call the queue is empty, and the table holds exactly
/// the result of running the whole backlog in order.
pub fn process_bevy_commands(queue: &mut CommandQueue, db: &mut DbState) -> (outs: Vec<
    CommandOutcome,
>)
    requires
        old(db).wf(),
    ensures
        final(db).wf(),
        final(queue).0@ =~= Seq::<DbCommand>::empty(),
        final(db).rows@ == run_db(old(db).rows@, old(queue).0@),
        outs@ == run_outcomes(old(db).rows@, old(queue).0@),
{
    let ghost rows0 = db.rows@;
    let ghost cmds = queue.0@;
    let n = queue.0.len();
    let mut outs: Vec<CommandOutcome> = Vec::new();
    let mut i: usize = 0;
    while i < n
        invariant
            old(db).wf(),
            db.wf(),
            n == queue.0@.len(),
            queue.0@ == cmds,
            i <= n,
            db.rows@ == run_db(rows0, cmds.take(i as int)),
            outs@ == run_outcomes(rows0, cmds.take(i as int)),
        decreases n - i,
    {
        let cmd = queue.0[i];
        let out = execute_command(db, &cmd);
        outs.push(out);
        proof {
            assert(cmds.take(i + 1).drop_last() =~= cmds.take(i as int));
            assert(cmds.take(i + 1).last() == cmds[i as int]);
        }
        i += 1;
    }
    proof {
        assert(cmds.take(n as int) =~= cmds);
    }
    queue.0 = Vec::new();
    outs
}

/// Law: a drain handles every queued command exactly once, in FIFO order.
///
/// For each position `i` of the backlog, the drain's `i`-th outcome is the
/// result of running the `i`-th command against the table produced by the
/// commands before it, and the table advances by exactly that command —
/// whatever the backlog and wherever the commands came from.
pub proof fn lemma_commands_fifo(rows: Seq<Entity>, cmds: Seq<DbCommand>, i: int)
    requires
        0 <= i < cmds.len(),
    ensures
        run_outcomes(rows, cmds).len() == cmds.len(),
        run_outcomes(rows, cmds)[i] == step_outcome(run_db(rows, cmds.take(i)), cmds[i]),
        run_db(rows, cmds.take(i + 1)) == step_db(run_db(rows, cmds.take(i)), cmds[i]),
    decreases cmds.len(),
{
    lemma_run_outcomes_len(rows, cmds);
    if i == cmds.len() - 1 {
        assert(cmds.take(i) =~= cmds.drop_last());
        assert(cmds.take(i + 1) =~= cmds);
    } else {
        lemma_commands_fifo(rows, cmds.drop_last(), i);
        assert(cmds.drop_last().take(i) =~= cmds.take(i));
        assert(cmds.drop_last().take(i + 1) =~= cmds.take(i + 1));
    }
}

/// The drain reports exactly one outcome per queued command.
pub proof fn lemma_run_outcomes_len(rows: Seq<Entity>, cmds: Seq<DbCommand>)
    ensures
        run_outcomes(rows, cmds).len() == cmds.len(),
    decreases cmds.len(),
{
    if cmds.len() > 0 {
        lemma_run_outcomes_len(rows, cmds.drop_last());
    }
}

/// Law: a command that reports a correlation identifier has exactly one
/// observable effect, tagged with that identifier; a command that fails
/// changes nothing.
///
/// If a step reports `Created(id)`, the table gained exactly one row, its
/// key is `id`, and no row carried `id` before; if a step reports
/// `Failed`, the table is unchanged.
pub proof fn lemma_command_effect(rows: Seq<Entity>, c: DbCommand, id: u32)
    ensures
        step_outcome(rows, c) == CommandOutcome::Created(id) ==> {
            &&& !db_contains_id(rows, id)
            &&& step_db(rows, c).len() == rows.len() + 1
            &&& step_db(rows, c).drop_last() == rows
            &&& step_db(rows, c).last().entity_id == id
        },
        step_outcome(rows, c) == CommandOutcome::Failed ==> step_db(rows, c) == rows,
{
    if step_outcome(rows, c) == CommandOutcome::Created(id) {
        match c {
            DbCommand::CreateEntity { entity_id, position, owner_identity } => {
                let pushed = rows.push(Entity { entity_id, position, owner_identity });
                assert(pushed.drop_last() =~= rows);
            },
            DbCommand::UpdatePosition { .. } => {},
        }
    }
}

} // verus!
