//! The typed channel bridge: asynchronous callback notifications turned
//! into a synchronously drainable, ordered event source.
//!
//! For each notification kind the system cares about, registration
//! installs one unbounded multi-producer channel. Client callbacks, on
//! whatever thread the client uses, construct a notification and send it
//! without ever blocking; once per tick the sole consumer drains whatever
//! is buffered, without blocking, and forwards it in arrival order into
//! the kind's event buffer, which observers read synchronously.
//! Registering the same kind twice is a fatal configuration error.

use vstd::prelude::*;
use std::sync::mpsc::Receiver;
use std::sync::mpsc::Sender;
use crate::events::Notification;
use crate::ConfigError;
use crate::Entity;

verus! {

#[verifier::external_type_specification]
#[verifier::external_body]
#[verifier::reject_recursive_types(T)]
/// The sending half of the standard library's mpsc channel, opaque to
/// verification; notifications travel through it between threads.
pub struct ExSender<T>(Sender<T>);

#[verifier::external_type_specification]
#[verifier::external_body]
#[verifier::reject_recursive_types(T)]
/// The receiving half of the standard library's mpsc channel, opaque to
/// verification.
pub struct ExReceiver<T>(Receiver<T>);

/// Relies on std::sync::mpsc::channel: creates a connected
/// sender/receiver pair for an unbounded channel.
#[verifier::external_body]
fn channel_pair<T>() -> (Sender<T>, Receiver<T>) {
    std::sync::mpsc::channel()
}

/// Relies on std::sync::mpsc::Sender::send: queues the value for the
/// receiver without blocking; it fails only when the receiving end has
/// been dropped. Values sent on one sender arrive in the order they were
/// sent.
#[verifier::external_body]
fn send_raw<T>(tx: &Sender<T>, value: T) -> bool {
    tx.send(value).is_ok()
}

/// Relies on std::sync::mpsc::Receiver::try_iter: collects everything
/// currently buffered, in arrival order, without blocking — per sender in
/// send order, interleaved in arrival order across senders.
#[verifier::external_body]
fn recv_all<T>(rx: &Receiver<T>) -> Vec<T> {
    rx.try_iter().collect()
}

/// The notification kinds a channel can be registered for; at most one
/// channel exists per kind.
#[derive(Clone, Copy, Debug, PartialEq, Eq, Structural)]
pub enum ChannelKind {
    /// Connection established.
    Connected,
    /// Connection closed.
    Disconnected,
    /// Connection failed.
    ConnectionError,
    /// Row inserted into the `entity` table.
    RowInserted,
    /// Row deleted from the `entity` table.
    RowDeleted,
    /// Row updated in the `entity` table.
    RowUpdated,
    /// Row inserted or updated in the `entity` table.
    RowInsertedOrUpdated,
    /// Reducer finished.
    ReducerResult,
}

/// One registered channel: the receiving end of its transport and the
/// synchronous event buffer its notifications are forwarded into.
///
/// The bridge owns the receiver outright, so the single-consumer
/// discipline holds by construction: only a caller holding the bridge
/// mutably can drain, and observers read `events`, never the transport.
pub struct ChannelBridge {
    /// Which notification kind this channel carries.
    pub kind: ChannelKind,
    /// The receiving end of the transport. Draining through the bridge is
    /// the only intended use; observers read `events` instead.
    pub rx: Receiver<Notification>,
    /// The synchronous event source: every notification drained so far,
    /// in arrival order.
    pub events: Vec<Notification>,
}

impl ChannelBridge {
    /// Forwards one drained batch into the event buffer: appended whole,
    /// in batch order, behind everything already forwarded — nothing
    /// dropped, duplicated, reordered or invented.
    pub fn forward_batch(&mut self, batch: Vec<Notification>) -> (n: usize)
        ensures
            final(self).kind == old(self).kind,
            final(self).events@ == old(self).events@ + batch@,
            n == batch@.len(),
    {
        let ghost b = batch@;
        let ghost evs0 = self.events@;
        let len = batch.len();
        let mut moved: usize = 0;
        let mut source = batch;
        while moved < len
            invariant
                len == b.len(),
                moved <= len,
                source@ == b.skip(moved as int),
                self.events@ == evs0 + b.take(moved as int),
                self.kind == old(self).kind,
            decreases len - moved,
        {
            let next = source.remove(0);
            self.events.push(next);
            proof {
                assert(source@ =~= b.skip(moved + 1));
                assert(b.skip(moved as int)[0] == b[moved as int]);
                assert(b.take(moved + 1) =~= b.take(moved as int).push(b[moved as int]));
                assert(self.events@ =~= evs0 + b.take(moved + 1));
            }
            moved += 1;
        }
        proof {
            assert(b.skip(0) =~= b);
            assert(b.take(len as int) =~= b);
            assert(self.events@ =~= evs0 + b);
        }
        moved
    }

    /// Drains everything currently buffered on the transport, without
    /// blocking, and appends it in arrival order to the event buffer.
    ///
    /// Already-forwarded events are never reordered or dropped: the old
    /// buffer is a prefix of the new one, and exactly the drained batch
    /// follows it — `forward_batch` pins what is done with whatever the
    /// transport yielded.
    pub fn channel_to_event(&mut self) -> (n: usize)
        ensures
            final(self).kind == old(self).kind,
            old(self).events@.is_prefix_of(final(self).events@),
            final(self).events@.len() == old(self).events@.len() + n,
    {
        let batch = recv_all(&self.rx);
        let ghost b0 = batch@;
        let n = self.forward_batch(batch);
        proof {
            assert((old(self).events@ + b0).subrange(0, old(self).events@.len() as int)
                =~= old(self).events@);
        }
        n
    }
}

/// The registry of typed channels: one bridge per registered notification
/// kind, created at wiring time and alive for the process.
pub struct EventBus {
    /// The registered bridges, in registration order.
    pub channels: Vec<ChannelBridge>,
}

impl EventBus {
    /// A registry is well formed when no kind is registered twice.
    pub open spec fn wf(self) -> bool {
        forall|i: int, j: int|
            0 <= i < j < self.channels@.len() ==> self.channels@[i].kind != self.channels@[j].kind
    }

    /// Whether a channel for `kind` is installed.
    pub open spec fn registered(self, kind: ChannelKind) -> bool {
        exists|i: int| 0 <= i < self.channels@.len() && self.channels@[i].kind == kind
    }

    /// An empty registry.
    pub fn new() -> (bus: EventBus)
        ensures
            bus.wf(),
            bus.channels@ =~= Seq::<ChannelBridge>::empty(),
    {
        EventBus { channels: Vec::new() }
    }

    /// Installs a channel and a synchronous event source for `kind` and
    /// hands back the sender that producer callbacks will feed.
    ///
    /// Registering a kind that is already installed is a one-time wiring
    /// mistake: it fails with a configuration error and changes nothing.
    pub fn add_event_channel(&mut self, kind: ChannelKind) -> (r: Result<
        Sender<Notification>,
        ConfigError,
    >)
        requires
            old(self).wf(),
        ensures
            final(self).wf(),
            old(self).registered(kind) ==> r == Result::<Sender<Notification>, ConfigError>::Err(
                ConfigError::DuplicateRegistration,
            ) && final(self).channels@ == old(self).channels@,
            !old(self).registered(kind) ==> r is Ok && registration_added(
                *old(self),
                *final(self),
                kind,
            ),
            final(self).registered(kind),
    {
        let n = self.channels.len();
        let mut i: usize = 0;
        while i < n
            invariant
                old(self).wf(),
                self.channels@ == old(self).channels@,
                n == self.channels@.len(),
                i <= n,
                forall|j: int| 0 <= j < i ==> self.channels@[j].kind != kind,
            decreases n - i,
        {
            if self.channels[i].kind == kind {
                proof {
                    assert(0 <= i < self.channels@.len() && self.channels@[i as int].kind == kind);
                    assert(old(self).registered(kind));
                }
                return Err(ConfigError::DuplicateRegistration);
            }
            i += 1;
        }
        proof {
            assert(!old(self).registered(kind));
        }
        let (tx, rx) = channel_pair();
        self.channels.push(ChannelBridge { kind, rx, events: Vec::new() });
        proof {
            let last = self.channels@.len() - 1;
            assert(self.channels@[last].kind == kind);
            assert(self.registered(kind));
        }
        Ok(tx)
    }

    /// Drains every registered channel once, in registration order, and
    /// reports how many notifications were forwarded in all.
    ///
    /// Each event buffer only grows, by exactly what its channel had
    /// buffered; kinds and registration order are untouched. The count is
    /// the total growth across all channels, saturating at the largest
    /// representable value.
    pub fn drain_all(&mut self) -> (n: usize)
        requires
            old(self).wf(),
        ensures
            final(self).wf(),
            final(self).channels@.len() == old(self).channels@.len(),
            forall|i: int|
                0 <= i < old(self).channels@.len()
                    ==> final(self).channels@[i].kind == old(self).channels@[i].kind
                    && old(self).channels@[i].events@.is_prefix_of(final(self).channels@[i].events@),
            n == usize::MAX || n == total_events(final(self).channels@) - total_events(
                old(self).channels@,
            ),
    {
        let n = self.channels.len();
        let mut total: usize = 0;
        let mut i: usize = 0;
        while i < n
            invariant
                n == self.channels@.len(),
                n == old(self).channels@.len(),
                i <= n,
                self.wf(),
                forall|j: int|
                    0 <= j < n ==> self.channels@[j].kind == old(self).channels@[j].kind
                        && old(self).channels@[j].events@.is_prefix_of(self.channels@[j].events@),
                forall|j: int| i <= j < n ==> self.channels@[j] == old(self).channels@[j],
                total == usize::MAX || total == total_events(self.channels@.take(i as int))
                    - total_events(old(self).channels@.take(i as int)),
            decreases n - i,
        {
            let ghost pre = self.channels@;
            let forwarded = self.channels[i].channel_to_event();
            proof {
                assert(forall|j: int|
                    0 <= j < n && j != i ==> self.channels@[j] == pre[j]);
                lemma_total_events_take(self.channels@, i as int);
                lemma_total_events_take(old(self).channels@, i as int);
                assert(self.channels@.take(i as int) =~= pre.take(i as int));
            }
            total = if total <= usize::MAX - forwarded {
                total + forwarded
            } else {
                usize::MAX
            };
            i += 1;
        }
        proof {
            assert(self.channels@.take(n as int) =~= self.channels@);
            assert(old(self).channels@.take(n as int) =~= old(self).channels@);
        }
        total
    }

    /// The event buffer of the channel registered for `kind`, if one is.
    pub fn events_for(&self, kind: ChannelKind) -> (r: Option<&Vec<Notification>>)
        requires
            self.wf(),
        ensures
            r is Some <==> self.registered(kind),
            match r {
                Some(events) => exists|i: int|
                    0 <= i < self.channels@.len() && #[trigger] self.channels@[i].kind == kind
                        && events@ == self.channels@[i].events@,
                None => true,
            },
    {
        let n = self.channels.len();
        let mut i: usize = 0;
        while i < n
            invariant
                n == self.channels@.len(),
                i <= n,
                forall|j: int| 0 <= j < i ==> self.channels@[j].kind != kind,
            decreases n - i,
        {
            if self.channels[i].kind == kind {
                proof {
                    assert(0 <= i < self.channels@.len() && self.channels@[i as int].kind == kind);
                    assert(self.registered(kind));
                }
                return Some(&self.channels[i].events);
            }
            i += 1;
        }
        None
    }

    /// Registers the insert-notification channel for the `entity` table;
    /// the producer side wires the returned sender into the client's
    /// on-insert callback.
    pub fn on_insert(&mut self) -> (r: Result<Sender<Notification>, ConfigError>)
        requires
            old(self).wf(),
        ensures
            final(self).wf(),
            final(self).registered(ChannelKind::RowInserted),
            old(self).registered(ChannelKind::RowInserted) ==> r == Result::<
                Sender<Notification>,
                ConfigError,
            >::Err(ConfigError::DuplicateRegistration) && final(self).channels@
                == old(self).channels@,
            !old(self).registered(ChannelKind::RowInserted) ==> r is Ok && registration_added(
                *old(self),
                *final(self),
                ChannelKind::RowInserted,
            ),
    {
        let r = self.add_event_channel(ChannelKind::RowInserted);
        r
    }

    /// Registers the delete-notification channel for the `entity` table.
    pub fn on_delete(&mut self) -> (r: Result<Sender<Notification>, ConfigError>)
        requires
            old(self).wf(),
        ensures
            final(self).wf(),
            final(self).registered(ChannelKind::RowDeleted),
            old(self).registered(ChannelKind::RowDeleted) ==> r == Result::<
                Sender<Notification>,
                ConfigError,
            >::Err(ConfigError::DuplicateRegistration) && final(self).channels@
                == old(self).channels@,
            !old(self).registered(ChannelKind::RowDeleted) ==> r is Ok && registration_added(
                *old(self),
                *final(self),
                ChannelKind::RowDeleted,
            ),
    {
        let r = self.add_event_channel(ChannelKind::RowDeleted);
        r
    }

    /// Registers the update-notification channel for the `entity` table.
    pub fn on_update(&mut self) -> (r: Result<Sender<Notification>, ConfigError>)
        requires
            old(self).wf(),
        ensures
            final(self).wf(),
            final(self).registered(ChannelKind::RowUpdated),
            old(self).registered(ChannelKind::RowUpdated) ==> r == Result::<
                Sender<Notification>,
                ConfigError,
            >::Err(ConfigError::DuplicateRegistration) && final(self).channels@
                == old(self).channels@,
            !old(self).registered(ChannelKind::RowUpdated) ==> r is Ok && registration_added(
                *old(self),
                *final(self),
                ChannelKind::RowUpdated,
            ),
    {
        let r = self.add_event_channel(ChannelKind::RowUpdated);
        r
    }

    /// Registers the combined insert-or-update channel for the `entity`
    /// table; the producer side feeds it from both callbacks.
    pub fn on_insert_update(&mut self) -> (r: Result<Sender<Notification>, ConfigError>)
        requires
            old(self).wf(),
        ensures
            final(self).wf(),
            final(self).registered(ChannelKind::RowInsertedOrUpdated),
            old(self).registered(ChannelKind::RowInsertedOrUpdated) ==> r == Result::<
                Sender<Notification>,
                ConfigError,
            >::Err(ConfigError::DuplicateRegistration) && final(self).channels@
                == old(self).channels@,
            !old(self).registered(ChannelKind::RowInsertedOrUpdated) ==> r is Ok && registration_added(
                *old(self),
                *final(self),
                ChannelKind::RowInsertedOrUpdated,
            ),
    {
        let r = self.add_event_channel(ChannelKind::RowInsertedOrUpdated);
        r
    }

    /// Registers the reducer-result channel and hands back the sender the
    /// reducer callback will feed.
    pub fn reducer_event(&mut self) -> (r: Result<Sender<Notification>, ConfigError>)
        requires
            old(self).wf(),
        ensures
            final(self).wf(),
            final(self).registered(ChannelKind::ReducerResult),
            old(self).registered(ChannelKind::ReducerResult) ==> r == Result::<
                Sender<Notification>,
                ConfigError,
            >::Err(ConfigError::DuplicateRegistration) && final(self).channels@
                == old(self).channels@,
            !old(self).registered(ChannelKind::ReducerResult) ==> r is Ok && registration_added(
                *old(self),
                *final(self),
                ChannelKind::ReducerResult,
            ),
    {
        let r = self.add_event_channel(ChannelKind::ReducerResult);
        r
    }
}

/// How a successful registration of `kind` relates the registry before
/// and after it: one channel appended for `kind`, its event buffer empty,
/// and every channel already installed kept exactly in place.
pub open spec fn registration_added(pre: EventBus, post: EventBus, kind: ChannelKind) -> bool {
    &&& post.channels@.len() == pre.channels@.len() + 1
    &&& post.channels@.last().kind == kind
    &&& post.channels@.last().events@.len() == 0
    &&& forall|i: int| 0 <= i < pre.channels@.len() ==> post.channels@[i] == pre.channels@[i]
}

/// The notifications forwarded so far across all of `cs`, in total.
pub open spec fn total_events(cs: Seq<ChannelBridge>) -> int
    decreases cs.len(),
{
    if cs.len() == 0 {
        0
    } else {
        total_events(cs.drop_last()) + cs.last().events@.len()
    }
}

proof fn lemma_total_events_take(cs: Seq<ChannelBridge>, i: int)
    requires
        0 <= i < cs.len(),
    ensures
        total_events(cs.take(i + 1)) == total_events(cs.take(i)) + cs[i].events@.len(),
{
    assert(cs.take(i + 1).drop_last() =~= cs.take(i));
    assert(cs.take(i + 1).last() == cs[i]);
}

/// Sends one notification on a registered channel's sender, as a producer
/// callback does from the client's thread.
///
/// Sending never blocks; it fails only when the receiving end is gone,
/// which is a broken wiring, reported as a fatal configuration error.
pub fn publish(tx: &Sender<Notification>, n: Notification) -> (r: Result<(), ConfigError>)
    ensures
        r is Err ==> r == Result::<(), ConfigError>::Err(ConfigError::SendFailed),
{
    if send_raw(tx, n) {
        Ok(())
    } else {
        Err(ConfigError::SendFailed)
    }
}

/// Producer callback body for a row insertion: sends exactly
/// `Notification::inserted(row)`, whose contract pins the built value.
pub fn forward_insert(tx: &Sender<Notification>, row: Entity) -> (r: Result<(), ConfigError>)
    ensures
        r is Err ==> r == Result::<(), ConfigError>::Err(ConfigError::SendFailed),
{
    publish(tx, Notification::inserted(row))
}

/// Producer callback body for a row deletion: sends exactly
/// `Notification::deleted(row)`.
pub fn forward_delete(tx: &Sender<Notification>, row: Entity) -> (r: Result<(), ConfigError>)
    ensures
        r is Err ==> r == Result::<(), ConfigError>::Err(ConfigError::SendFailed),
{
    publish(tx, Notification::deleted(row))
}

/// Producer callback body for a row update: sends exactly
/// `Notification::updated(before, after)`.
pub fn forward_update(tx: &Sender<Notification>, before: Entity, after: Entity) -> (r: Result<
    (),
    ConfigError,
>)
    ensures
        r is Err ==> r == Result::<(), ConfigError>::Err(ConfigError::SendFailed),
{
    publish(tx, Notification::updated(before, after))
}

/// Producer callback body for the combined insert-or-update channel:
/// sends exactly `Notification::inserted_or_updated(before, after)`, the
/// replaced row present exactly when the change was an update.
pub fn forward_insert_update(
    tx: &Sender<Notification>,
    before: Option<Entity>,
    after: Entity,
) -> (r: Result<(), ConfigError>)
    ensures
        r is Err ==> r == Result::<(), ConfigError>::Err(ConfigError::SendFailed),
{
    publish(tx, Notification::inserted_or_updated(before, after))
}

/// Producer callback body for a finished reducer: sends exactly
/// `Notification::reducer_result(result)`.
pub fn forward_reducer_result(tx: &Sender<Notification>, result: u64) -> (r: Result<
    (),
    ConfigError,
>)
    ensures
        r is Err ==> r == Result::<(), ConfigError>::Err(ConfigError::SendFailed),
{
    publish(tx, Notification::reducer_result(result))
}

/// Producer callback body for an established connection: sends exactly
/// `Notification::connected()`.
pub fn forward_connected(tx: &Sender<Notification>) -> (r: Result<(), ConfigError>)
    ensures
        r is Err ==> r == Result::<(), ConfigError>::Err(ConfigError::SendFailed),
{
    publish(tx, Notification::connected())
}

/// Producer callback body for a closed connection: sends exactly
/// `Notification::disconnected(err)`.
pub fn forward_disconnected(tx: &Sender<Notification>, err: Option<String>) -> (r: Result<
    (),
    ConfigError,
>)
    ensures
        r is Err ==> r == Result::<(), ConfigError>::Err(ConfigError::SendFailed),
{
    publish(tx, Notification::disconnected(err))
}

/// Producer callback body for a failed connection: sends exactly
/// `Notification::connection_error(err)`.
pub fn forward_connection_error(tx: &Sender<Notification>, err: String) -> (r: Result<
    (),
    ConfigError,
>)
    ensures
        r is Err ==> r == Result::<(), ConfigError>::Err(ConfigError::SendFailed),
{
    publish(tx, Notification::connection_error(err))
}

/// What one drain yields: everything buffered at the moment it runs.
pub open spec fn drain_result(buffered: Seq<Notification>) -> Seq<Notification> {
    buffered
}

/// What one drain leaves buffered: nothing.
pub open spec fn drain_rest(buffered: Seq<Notification>) -> Seq<Notification> {
    Seq::empty()
}

/// A deterministic picture of one channel's transport, used to state and
/// prove the drain's ordering and idempotence properties that the
/// cross-thread transport provides but verification cannot see into.
pub struct ChannelModel {
    /// The values sent and not yet drained, oldest first.
    pub buffered: Vec<Notification>,
}

impl ChannelModel {
    /// An empty transport.
    pub fn new() -> (c: ChannelModel)
        ensures
            c.buffered@ =~= Seq::<Notification>::empty(),
    {
        ChannelModel { buffered: Vec::new() }
    }

    /// A send appends behind everything already buffered and never
    /// blocks.
    pub fn send(&mut self, n: Notification)
        ensures
            final(self).buffered@ == old(self).buffered@.push(n),
    {
        self.buffered.push(n);
    }

    /// A drain yields exactly what was buffered, in order, and leaves the
    /// transport empty.
    pub fn drain(&mut self) -> (out: Vec<Notification>)
        ensures
            out@ == drain_result(old(self).buffered@),
            final(self).buffered@ == drain_rest(old(self).buffered@),
    {
        let mut taken: Vec<Notification> = Vec::new();
        core::mem::swap(&mut taken, &mut self.buffered);
        proof {
            assert(taken@ =~= drain_result(old(self).buffered@));
            assert(self.buffered@ =~= drain_rest(old(self).buffered@));
        }
        taken
    }
}

/// Law: draining is idempotent when the channel is empty.
///
/// A drain leaves nothing buffered, so a second drain with no sends in
/// between yields zero events; and on an empty channel the first drain
/// yields zero as well — draining twice yields zero both times.
pub proof fn lemma_drain_idempotent_when_empty(buffered: Seq<Notification>)
    ensures
        drain_result(drain_rest(buffered)).len() == 0,
        buffered.len() == 0 ==> drain_result(buffered).len() == 0,
{
}

} // verus!
