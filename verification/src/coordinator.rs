//! The commit coordinator: one unit of work, one transaction, and outbound
//! notifications deferred until the transaction durably commits.
//!
//! A unit of work begins by taking a private copy of the durable state and
//! an empty notification buffer. Mutations touch only the copy. On commit
//! the copy becomes the durable state and the buffered notifications are
//! flushed, in enqueue order, to the bus; if the storage layer refused the
//! commit, the copy and the buffer are discarded and nothing is sent. This
//! ordering removes the dual-write hazard: nothing is announced that was
//! not durably written. The cost is best-effort delivery: a failure between
//! commit and flush loses the notifications, never the data.

use vstd::prelude::*;

use crate::database::Database;
use crate::error::ModelError;
use crate::history::HistoryActor;
use crate::tenancy::TenancyScope;
use crate::timestamp::now_millis;
use crate::visibility::Visibility;

verus! {

/// What an outbound event announces.
#[derive(Clone, Copy, Debug, PartialEq, Eq, Structural, Hash)]
pub enum NotificationKind {
    ChangeSetCreated,
    ChangeSetWritten,
    ChangeSetApplied,
    ChangeSetAbandoned,
    EditSessionCreated,
    EditSessionSaved,
    EditSessionCanceled,
}

/// One outbound event: a kind tag and the identifiers it concerns.
#[derive(Clone, Copy, Debug, PartialEq, Eq, Structural, Hash)]
pub struct Notification {
    pub kind: NotificationKind,
    pub change_set_pk: i64,
    pub edit_session_pk: i64,
}

/// The delivery side of the message bus, as this model sees it: a recorder
/// of everything flushed, in order. The transport behind it lives outside
/// the model; `fail_delivery` stands for a transport that refuses writes.
#[derive(Debug)]
pub struct NotificationBus {
    pub delivered: Vec<Notification>,
    pub fail_delivery: bool,
}

impl NotificationBus {
    pub fn new() -> (bus: NotificationBus)
        ensures
            bus.delivered@ =~= Seq::<Notification>::empty(),
            !bus.fail_delivery,
    {
        NotificationBus { delivered: Vec::new(), fail_delivery: false }
    }

    /// A bus whose transport refuses every write.
    pub fn failing() -> (bus: NotificationBus)
        ensures
            bus.delivered@ =~= Seq::<Notification>::empty(),
            bus.fail_delivery,
    {
        NotificationBus { delivered: Vec::new(), fail_delivery: true }
    }

    /// Delivers one event, or refuses it without recording anything.
    pub fn publish(&mut self, event: Notification) -> (res: Result<(), ModelError>)
        ensures
            old(self).fail_delivery ==> res == Err::<(), ModelError>(
                ModelError::NotificationDeliveryFailure,
            ) && *final(self) == *old(self),
            !old(self).fail_delivery ==> res == Ok::<(), ModelError>(()) && final(self).delivered@
                == old(self).delivered@.push(event) && !final(self).fail_delivery,
    {
        if self.fail_delivery {
            Err(ModelError::NotificationDeliveryFailure)
        } else {
            self.delivered.push(event);
            Ok(())
        }
    }

    pub fn delivered_count(&self) -> (n: usize)
        ensures
            n == self.delivered@.len(),
    {
        self.delivered.len()
    }

    pub fn delivered_at(&self, index: usize) -> (res: Option<&Notification>)
        ensures
            index < self.delivered@.len() ==> res == Some(&self.delivered@[index as int]),
            index >= self.delivered@.len() ==> res is None,
    {
        if index < self.delivered.len() {
            Some(&self.delivered[index])
        } else {
            None
        }
    }
}

/// One unit of work: a private copy of the durable state, the caller's
/// request parameters, and the notifications enqueued so far.
#[derive(Debug)]
pub struct WorkContext {
    pub db: Database,
    pub notifications: Vec<Notification>,
    pub scope: TenancyScope,
    pub visibility: Visibility,
    pub actor: HistoryActor,
    pub now: i64,
}

impl WorkContext {
    /// Buffers an outbound event; no I/O happens before commit.
    pub fn enqueue_notification(&mut self, event: Notification)
        ensures
            final(self).notifications@ == old(self).notifications@.push(event),
            final(self).db == old(self).db,
            final(self).scope == old(self).scope,
            final(self).visibility == old(self).visibility,
            final(self).actor == old(self).actor,
            final(self).now == old(self).now,
    {
        self.notifications.push(event);
    }

    /// Points the rest of the unit of work at another visibility context.
    pub fn update_visibility(&mut self, visibility: Visibility)
        ensures
            *final(self) == (WorkContext { visibility, ..*old(self) }),
    {
        self.visibility = visibility;
    }

    /// Discards the unit of work: its writes and its buffered
    /// notifications vanish, and the durable state is untouched.
    pub fn rollback(self) {
    }
}

/// Equal database states satisfy the same well-formedness invariant.
pub proof fn lemma_state_eq_inv(a: Database, b: Database)
    requires
        a.inv(),
        a.state_eq(b),
    ensures
        b.inv(),
{
    assert(forall|i: int| 0 <= i < b.rows@.len() ==> b.rows@[i] == a.rows@[i]);
    assert(forall|i: int| 0 <= i < b.relations@.len() ==> b.relations@[i] == a.relations@[i]);
    assert(forall|i: int| 0 <= i < b.change_sets@.len() ==> b.change_sets@[i] == a.change_sets@[i]);
    assert(forall|i: int|
        0 <= i < b.edit_sessions@.len() ==> b.edit_sessions@[i] == a.edit_sessions@[i]);
}

/// Owns the durable state and the commit-then-notify policy.
#[derive(Debug)]
pub struct CommitCoordinator {
    pub durable: Database,
}

impl CommitCoordinator {
    pub fn new() -> (c: CommitCoordinator)
        ensures
            c.durable.inv(),
            c.durable.rows@.len() == 0,
            c.durable.relations@.len() == 0,
            c.durable.change_sets@.len() == 0,
            c.durable.edit_sessions@.len() == 0,
            c.durable.history.events@.len() == 0,
            c.durable.next_pk == 1,
            c.durable.next_id == 1,
    {
        CommitCoordinator { durable: Database::new() }
    }

    /// Opens a unit of work over a copy of the durable state.
    pub fn begin(
        &self,
        scope: TenancyScope,
        visibility: Visibility,
        actor: HistoryActor,
        now: i64,
    ) -> (ctx: WorkContext)
        ensures
            ctx.db.state_eq(self.durable),
            self.durable.inv() ==> ctx.db.inv(),
            ctx.notifications@ =~= Seq::<Notification>::empty(),
            ctx.scope == scope,
            ctx.visibility == visibility,
            ctx.actor == actor,
            ctx.now == now,
    {
        let db = self.durable.clone();
        proof {
            if self.durable.inv() {
                lemma_state_eq_inv(self.durable, db);
            }
            assert(db.state_eq(self.durable));
        }
        WorkContext {
            db,
            notifications: Vec::new(),
            scope,
            visibility,
            actor,
            now,
        }
    }

    /// Opens a unit of work stamped with the wall clock.
    pub fn begin_now(
        &self,
        scope: TenancyScope,
        visibility: Visibility,
        actor: HistoryActor,
    ) -> (ctx: WorkContext)
        ensures
            ctx.db.state_eq(self.durable),
            self.durable.inv() ==> ctx.db.inv(),
            ctx.notifications@ =~= Seq::<Notification>::empty(),
            ctx.scope == scope,
            ctx.visibility == visibility,
            ctx.actor == actor,
    {
        let now = now_millis();
        self.begin(scope, visibility, actor, now)
    }

    /// Ends a unit of work given the storage layer's verdict on the
    /// transaction. On success the work's state becomes durable and every
    /// buffered notification is flushed, in enqueue order, exactly once;
    /// on refusal nothing is installed and nothing is sent.
    #[verifier::loop_isolation(false)]
    pub fn finish(
        &mut self,
        ctx: WorkContext,
        storage_committed: bool,
        bus: &mut NotificationBus,
    ) -> (res: Result<(), ModelError>)
        ensures
            !storage_committed ==> res == Err::<(), ModelError>(ModelError::StorageError)
                && *final(self) == *old(self) && *final(bus) == *old(bus),
            storage_committed ==> final(self).durable == ctx.db,
            storage_committed && old(bus).fail_delivery && ctx.notifications@.len() > 0 ==> res
                == Err::<(), ModelError>(ModelError::NotificationDeliveryFailure) && *final(bus)
                == *old(bus),
            storage_committed && (!old(bus).fail_delivery || ctx.notifications@.len() == 0) ==> res
                == Ok::<(), ModelError>(()) && final(bus).delivered@ == old(bus).delivered@
                + ctx.notifications@ && final(bus).fail_delivery == old(bus).fail_delivery,
    {
        let ghost orig_ctx = ctx;
        if !storage_committed {
            ctx.rollback();
            return Err(ModelError::StorageError);
        }
        let notifications = ctx.notifications;
        self.durable = ctx.db;
        let n = notifications.len();
        let mut i: usize = 0;
        while i < n
            invariant
                i <= n,
                storage_committed,
                n == notifications@.len(),
                notifications@ == orig_ctx.notifications@,
                self.durable == orig_ctx.db,
                bus.fail_delivery == old(bus).fail_delivery,
                0 < i ==> !bus.fail_delivery,
                bus.fail_delivery ==> *bus == *old(bus),
                !bus.fail_delivery ==> bus.delivered@ == old(bus).delivered@ + notifications@.take(
                    i as int,
                ),
            decreases n - i,
        {
            match bus.publish(notifications[i]) {
                Ok(_) => {}
                Err(e) => {
                    return Err(e);
                }
            }
            proof {
                assert(notifications@.take(i as int + 1) =~= notifications@.take(i as int).push(
                    notifications@[i as int],
                ));
            }
            i = i + 1;
        }
        proof {
            if !old(bus).fail_delivery {
                assert(notifications@.take(n as int) =~= notifications@);
            }
        }
        Ok(())
    }

    /// Commits the unit of work: the storage layer accepted the write-back,
    /// so the state is installed and the notifications flushed.
    pub fn commit(&mut self, ctx: WorkContext, bus: &mut NotificationBus) -> (res: Result<
        (),
        ModelError,
    >)
        ensures
            final(self).durable == ctx.db,
            old(bus).fail_delivery && ctx.notifications@.len() > 0 ==> res == Err::<(), ModelError>(
                ModelError::NotificationDeliveryFailure,
            ) && *final(bus) == *old(bus),
            !old(bus).fail_delivery || ctx.notifications@.len() == 0 ==> res == Ok::<(), ModelError>(
                (),
            ) && final(bus).delivered@ == old(bus).delivered@ + ctx.notifications@
                && final(bus).fail_delivery == old(bus).fail_delivery,
    {
        self.finish(ctx, true, bus)
    }
}

} // verus!
