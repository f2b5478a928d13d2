//! Lifecycle of change sets and edit sessions.
//!
//! Both are created Open inside a unit of work. An edit session ends Saved
//! (its drafts become the change set's pending content) or Canceled (its
//! drafts are orphaned); a change set ends Applied (its pending content is
//! promoted to head) or Abandoned (orphaned). All terminal states reject
//! further lifecycle operations and further writes.

use vstd::prelude::*;
use vstd::string::StringExecFns;

use crate::change_set::ChangeSet;
use crate::change_set::ChangeSetStatus;
use crate::coordinator::Notification;
use crate::coordinator::NotificationKind;
use crate::coordinator::WorkContext;
use crate::database::change_set_of;
use crate::database::change_set_status_of;
use crate::database::edit_session_of;
use crate::database::edit_session_status_of;
use crate::database::Database;
use crate::edit_session::EditSession;
use crate::edit_session::EditSessionStatus;
use crate::error::ModelError;
use crate::history::HistoryEvent;
use crate::history::HistorySnapshot;
use crate::tenancy::Tenancy;
use crate::timestamp::Timestamp;
use crate::visibility::NO_EDIT_SESSION_PK;

verus! {

/// The session as `save` leaves it: Saved, with the update time refreshed.
pub open spec fn saved_session(es: EditSession, now: i64) -> EditSession {
    EditSession {
        status: EditSessionStatus::Saved,
        timestamp: Timestamp { created_at: es.timestamp.created_at, updated_at: now },
        ..es
    }
}

/// The session as `cancel` leaves it: Canceled, update time refreshed.
pub open spec fn canceled_session(es: EditSession, now: i64) -> EditSession {
    EditSession {
        status: EditSessionStatus::Canceled,
        timestamp: Timestamp { created_at: es.timestamp.created_at, updated_at: now },
        ..es
    }
}

/// The change set as a terminal transition leaves it.
pub open spec fn finished_change_set(cs: ChangeSet, status: ChangeSetStatus, now: i64) -> ChangeSet {
    ChangeSet {
        status,
        timestamp: Timestamp { created_at: cs.timestamp.created_at, updated_at: now },
        finished_at: Some(now),
        ..cs
    }
}

impl Database {
    /// The index of the change set stored under `pk`.
    pub(crate) fn change_set_index(&self, pk: i64) -> (res: Option<usize>)
        requires
            self.inv(),
        ensures
            match res {
                Some(i) => i < self.change_sets@.len() && self.change_sets@[i as int].pk == pk
                    && change_set_of(self.change_sets@, pk) == Some(self.change_sets@[i as int])
                    && forall|j: int|
                    0 <= j < self.change_sets@.len() && j != i ==> (
                    #[trigger] self.change_sets@[j].pk) != pk,
                None => change_set_of(self.change_sets@, pk) is None,
            },
    {
        let n = self.change_sets.len();
        let mut i = n;
        while i > 0
            invariant
                self.inv(),
                i <= n,
                n == self.change_sets@.len(),
                forall|j: int| i <= j < n ==> (#[trigger] self.change_sets@[j].pk) != pk,
            decreases i,
        {
            i = i - 1;
            if self.change_sets[i].pk == pk {
                proof {
                    crate::database::lemma_latest_matching_some(
                        self.change_sets@,
                        crate::database::cs_pk_pred(pk),
                        i as int,
                    );
                    assert forall|j: int|
                        0 <= j < self.change_sets@.len() && j != i implies (
                    #[trigger] self.change_sets@[j].pk) != pk by {
                        if j < i {
                            assert(self.change_sets@[j].pk < self.change_sets@[i as int].pk);
                        }
                    }
                }
                return Some(i);
            }
        }
        proof {
            crate::database::lemma_latest_matching_none(
                self.change_sets@,
                crate::database::cs_pk_pred(pk),
            );
        }
        None
    }

    /// The index of the edit session stored under `pk`.
    pub(crate) fn edit_session_index(&self, pk: i64) -> (res: Option<usize>)
        requires
            self.inv(),
        ensures
            match res {
                Some(i) => i < self.edit_sessions@.len() && self.edit_sessions@[i as int].pk == pk
                    && edit_session_of(self.edit_sessions@, pk) == Some(
                    self.edit_sessions@[i as int],
                ) && forall|j: int|
                    0 <= j < self.edit_sessions@.len() && j != i ==> (
                    #[trigger] self.edit_sessions@[j].pk) != pk,
                None => edit_session_of(self.edit_sessions@, pk) is None,
            },
    {
        let n = self.edit_sessions.len();
        let mut i = n;
        while i > 0
            invariant
                self.inv(),
                i <= n,
                n == self.edit_sessions@.len(),
                forall|j: int| i <= j < n ==> (#[trigger] self.edit_sessions@[j].pk) != pk,
            decreases i,
        {
            i = i - 1;
            if self.edit_sessions[i].pk == pk {
                proof {
                    crate::database::lemma_latest_matching_some(
                        self.edit_sessions@,
                        crate::database::es_pk_pred(pk),
                        i as int,
                    );
                    assert forall|j: int|
                        0 <= j < self.edit_sessions@.len() && j != i implies (
                    #[trigger] self.edit_sessions@[j].pk) != pk by {
                        if j < i {
                            assert(self.edit_sessions@[j].pk < self.edit_sessions@[i as int].pk);
                        }
                    }
                }
                return Some(i);
            }
        }
        proof {
            crate::database::lemma_latest_matching_none(
                self.edit_sessions@,
                crate::database::es_pk_pred(pk),
            );
        }
        None
    }
}

impl ChangeSet {
    /// Opens a named change set, Open, with no finish time.
    pub fn new(
        ctx: &mut WorkContext,
        tenancy: &Tenancy,
        name: &str,
        note: Option<&str>,
    ) -> (res: Result<ChangeSet, ModelError>)
        requires
            old(ctx).db.inv(),
            old(ctx).db.next_pk < i64::MAX,
        ensures
            final(ctx).db.inv(),
            res matches Ok(cs) && ({
                &&& cs.pk == old(ctx).db.next_pk
                &&& cs.name@ == name@
                &&& (note matches Some(s) ==> cs.note matches Some(ns) && ns@ == s@)
                &&& (note is None ==> cs.note is None)
                &&& cs.status == ChangeSetStatus::Open
                &&& cs.tenancy == *tenancy
                &&& cs.timestamp == (Timestamp {
                    created_at: old(ctx).now,
                    updated_at: old(ctx).now,
                })
                &&& cs.finished_at is None
                &&& final(ctx).db.change_sets@ == old(ctx).db.change_sets@.push(cs)
            }),
            final(ctx).db.rows@ == old(ctx).db.rows@,
            final(ctx).db.relations@ == old(ctx).db.relations@,
            final(ctx).db.edit_sessions@ == old(ctx).db.edit_sessions@,
            final(ctx).db.next_pk == old(ctx).db.next_pk + 1,
            final(ctx).db.next_id == old(ctx).db.next_id,
            final(ctx).db.history.events@ == old(ctx).db.history.events@.push(
                final(ctx).db.history.events@.last(),
            ),
            ({
                let ev = final(ctx).db.history.events@.last();
                &&& ev.label@ == "change_set.create"@
                &&& ev.actor == old(ctx).actor
                &&& ev.snapshot == Some(HistorySnapshot::ChangeSet(
                    final(ctx).db.change_sets@.last(),
                ))
                &&& ev.tenancy == *tenancy
                &&& ev.at == old(ctx).now
            }),
            final(ctx).notifications@ == old(ctx).notifications@.push(
                Notification {
                    kind: NotificationKind::ChangeSetCreated,
                    change_set_pk: old(ctx).db.next_pk,
                    edit_session_pk: NO_EDIT_SESSION_PK,
                },
            ),
            final(ctx).scope == old(ctx).scope,
            final(ctx).visibility == old(ctx).visibility,
            final(ctx).actor == old(ctx).actor,
            final(ctx).now == old(ctx).now,
    {
        let pk = ctx.db.next_pk;
        let cs = ChangeSet {
            pk,
            name: name.to_owned(),
            note: match note {
                Some(s) => Some(s.to_owned()),
                None => None,
            },
            status: ChangeSetStatus::Open,
            tenancy: *tenancy,
            timestamp: Timestamp::assigned(ctx.now),
            finished_at: None,
        };
        let returned = cs.clone();
        ctx.db.change_sets.push(cs);
        ctx.db.next_pk = ctx.db.next_pk + 1;
        let event = HistoryEvent {
            label: "change_set.create".to_owned(),
            message: "change set created".to_owned(),
            actor: ctx.actor,
            snapshot: Some(HistorySnapshot::ChangeSet(returned.clone())),
            tenancy: *tenancy,
            at: ctx.now,
        };
        ctx.db.history.record(event);
        ctx.enqueue_notification(
            Notification {
                kind: NotificationKind::ChangeSetCreated,
                change_set_pk: pk,
                edit_session_pk: NO_EDIT_SESSION_PK,
            },
        );
        Ok(returned)
    }

    /// Abandons the change set: Open becomes Abandoned, a terminal state;
    /// nothing is promoted, and its drafted rows become unreachable.
    pub fn abandon(&mut self, ctx: &mut WorkContext) -> (res: Result<(), ModelError>)
        requires
            old(ctx).db.inv(),
        ensures
            final(ctx).db.inv(),
            res is Ok <==> change_set_status_of(old(ctx).db.change_sets@, old(self).pk) == Some(
                ChangeSetStatus::Open,
            ),
            change_set_of(old(ctx).db.change_sets@, old(self).pk) is None ==> res == Err::<
                (),
                ModelError,
            >(ModelError::NotFound) && *final(ctx) == *old(ctx) && *final(self) == *old(self),
            change_set_of(old(ctx).db.change_sets@, old(self).pk) matches Some(cs) && cs.status
                != ChangeSetStatus::Open ==> res == Err::<(), ModelError>(
                ModelError::InvalidTransition,
            ) && *final(ctx) == *old(ctx) && *final(self) == *old(self),
            res is Ok ==> {
                &&& final(ctx).db.change_sets@.len() == old(ctx).db.change_sets@.len()
                &&& forall|i: int|
                    0 <= i < old(ctx).db.change_sets@.len() ==> final(ctx).db.change_sets@[i] == (
                    if old(ctx).db.change_sets@[i].pk == old(self).pk {
                        finished_change_set(
                            old(ctx).db.change_sets@[i],
                            ChangeSetStatus::Abandoned,
                            old(ctx).now,
                        )
                    } else {
                        old(ctx).db.change_sets@[i]
                    })
                &&& final(ctx).db.rows@ == old(ctx).db.rows@
                &&& final(ctx).db.relations@ == old(ctx).db.relations@
                &&& final(ctx).db.edit_sessions@ == old(ctx).db.edit_sessions@
                &&& final(ctx).db.next_pk == old(ctx).db.next_pk
                &&& final(ctx).db.next_id == old(ctx).db.next_id
                &&& *final(self) == (ChangeSet {
                    status: ChangeSetStatus::Abandoned,
                    finished_at: Some(old(ctx).now),
                    timestamp: Timestamp {
                        created_at: old(self).timestamp.created_at,
                        updated_at: old(ctx).now,
                    },
                    ..*old(self)
                })
                &&& final(ctx).db.history.events@ == old(ctx).db.history.events@.push(
                    final(ctx).db.history.events@.last(),
                )
                &&& {
                    let ev = final(ctx).db.history.events@.last();
                    &&& ev.label@ == "change_set.abandon"@
                    &&& ev.actor == old(ctx).actor
                    &&& ev.snapshot == Some(HistorySnapshot::ChangeSet(
                        finished_change_set(
                            change_set_of(old(ctx).db.change_sets@, old(self).pk).unwrap(),
                            ChangeSetStatus::Abandoned,
                            old(ctx).now,
                        ),
                    ))
                    &&& ev.at == old(ctx).now
                }
                &&& final(ctx).notifications@ == old(ctx).notifications@.push(
                    Notification {
                        kind: NotificationKind::ChangeSetAbandoned,
                        change_set_pk: old(self).pk,
                        edit_session_pk: NO_EDIT_SESSION_PK,
                    },
                )
                &&& final(ctx).scope == old(ctx).scope
                &&& final(ctx).visibility == old(ctx).visibility
                &&& final(ctx).actor == old(ctx).actor
                &&& final(ctx).now == old(ctx).now
            },
    {
        let idx = match ctx.db.change_set_index(self.pk) {
            Some(i) => i,
            None => {
                return Err(ModelError::NotFound);
            }
        };
        let open = matches!(ctx.db.change_sets[idx].status, ChangeSetStatus::Open);
        if !open {
            return Err(ModelError::InvalidTransition);
        }
        let tenancy = ctx.db.change_sets[idx].tenancy;
        let updated = ChangeSet {
            status: ChangeSetStatus::Abandoned,
            timestamp: Timestamp {
                created_at: ctx.db.change_sets[idx].timestamp.created_at,
                updated_at: ctx.now,
            },
            finished_at: Some(ctx.now),
            ..ctx.db.change_sets[idx].clone()
        };
        let snapshot = updated.clone();
        ctx.db.change_sets[idx] = updated;
        self.status = ChangeSetStatus::Abandoned;
        self.finished_at = Some(ctx.now);
        self.timestamp.updated_at = ctx.now;
        let event = HistoryEvent {
            label: "change_set.abandon".to_owned(),
            message: "change set abandoned".to_owned(),
            actor: ctx.actor,
            snapshot: Some(HistorySnapshot::ChangeSet(snapshot)),
            tenancy,
            at: ctx.now,
        };
        ctx.db.history.record(event);
        ctx.enqueue_notification(
            Notification {
                kind: NotificationKind::ChangeSetAbandoned,
                change_set_pk: self.pk,
                edit_session_pk: NO_EDIT_SESSION_PK,
            },
        );
        Ok(())
    }
}

impl EditSession {
    /// Opens an edit session, Open, nested inside an Open change set.
    pub fn new(
        ctx: &mut WorkContext,
        tenancy: &Tenancy,
        change_set_pk: i64,
        name: &str,
        note: Option<&str>,
    ) -> (res: Result<EditSession, ModelError>)
        requires
            old(ctx).db.inv(),
            old(ctx).db.next_pk < i64::MAX,
        ensures
            final(ctx).db.inv(),
            res is Ok <==> change_set_status_of(old(ctx).db.change_sets@, change_set_pk) == Some(
                ChangeSetStatus::Open,
            ),
            change_set_of(old(ctx).db.change_sets@, change_set_pk) is None ==> res == Err::<
                EditSession,
                ModelError,
            >(ModelError::NotFound) && *final(ctx) == *old(ctx),
            change_set_of(old(ctx).db.change_sets@, change_set_pk) matches Some(cs) && cs.status
                != ChangeSetStatus::Open ==> res == Err::<EditSession, ModelError>(
                ModelError::InvalidTransition,
            ) && *final(ctx) == *old(ctx),
            res matches Ok(es) ==> {
                &&& es.pk == old(ctx).db.next_pk
                &&& es.id == old(ctx).db.next_pk
                &&& es.name@ == name@
                &&& (note matches Some(s) ==> es.note matches Some(ns) && ns@ == s@)
                &&& (note is None ==> es.note is None)
                &&& es.status == EditSessionStatus::Open
                &&& es.change_set_pk == change_set_pk
                &&& es.tenancy == *tenancy
                &&& es.timestamp == (Timestamp {
                    created_at: old(ctx).now,
                    updated_at: old(ctx).now,
                })
                &&& final(ctx).db.edit_sessions@ == old(ctx).db.edit_sessions@.push(es)
                &&& final(ctx).db.rows@ == old(ctx).db.rows@
                &&& final(ctx).db.relations@ == old(ctx).db.relations@
                &&& final(ctx).db.change_sets@ == old(ctx).db.change_sets@
                &&& final(ctx).db.next_pk == old(ctx).db.next_pk + 1
                &&& final(ctx).db.next_id == old(ctx).db.next_id
                &&& final(ctx).db.history.events@ == old(ctx).db.history.events@.push(
                    final(ctx).db.history.events@.last(),
                )
                &&& {
                    let ev = final(ctx).db.history.events@.last();
                    &&& ev.label@ == "edit_session.create"@
                    &&& ev.actor == old(ctx).actor
                    &&& ev.snapshot == Some(HistorySnapshot::EditSession(
                        final(ctx).db.edit_sessions@.last(),
                    ))
                    &&& ev.tenancy == *tenancy
                    &&& ev.at == old(ctx).now
                }
                &&& final(ctx).notifications@ == old(ctx).notifications@.push(
                    Notification {
                        kind: NotificationKind::EditSessionCreated,
                        change_set_pk,
                        edit_session_pk: es.pk,
                    },
                )
                &&& final(ctx).scope == old(ctx).scope
                &&& final(ctx).visibility == old(ctx).visibility
                &&& final(ctx).actor == old(ctx).actor
                &&& final(ctx).now == old(ctx).now
            },
    {
        let open = match ctx.db.change_set_record(change_set_pk) {
            Some(cs) => matches!(cs.status, ChangeSetStatus::Open),
            None => {
                return Err(ModelError::NotFound);
            }
        };
        if !open {
            return Err(ModelError::InvalidTransition);
        }
        let pk = ctx.db.next_pk;
        let es = EditSession {
            pk,
            id: pk,
            name: name.to_owned(),
            note: match note {
                Some(s) => Some(s.to_owned()),
                None => None,
            },
            status: EditSessionStatus::Open,
            change_set_pk,
            tenancy: *tenancy,
            timestamp: Timestamp::assigned(ctx.now),
        };
        let returned = es.clone();
        ctx.db.edit_sessions.push(es);
        ctx.db.next_pk = ctx.db.next_pk + 1;
        let event = HistoryEvent {
            label: "edit_session.create".to_owned(),
            message: "edit session created".to_owned(),
            actor: ctx.actor,
            snapshot: Some(HistorySnapshot::EditSession(returned.clone())),
            tenancy: *tenancy,
            at: ctx.now,
        };
        ctx.db.history.record(event);
        ctx.enqueue_notification(
            Notification {
                kind: NotificationKind::EditSessionCreated,
                change_set_pk,
                edit_session_pk: pk,
            },
        );
        Ok(returned)
    }

    /// Saves the edit session: Open becomes Saved, a terminal state. The
    /// rows drafted under it stay physically unchanged; from here on,
    /// change-set-level resolution counts them as pending content.
    pub fn save(&mut self, ctx: &mut WorkContext) -> (res: Result<(), ModelError>)
        requires
            old(ctx).db.inv(),
        ensures
            final(ctx).db.inv(),
            res is Ok <==> edit_session_status_of(old(ctx).db.edit_sessions@, old(self).pk) == Some(
                EditSessionStatus::Open,
            ),
            edit_session_of(old(ctx).db.edit_sessions@, old(self).pk) is None ==> res == Err::<
                (),
                ModelError,
            >(ModelError::NotFound) && *final(ctx) == *old(ctx) && *final(self) == *old(self),
            edit_session_of(old(ctx).db.edit_sessions@, old(self).pk) matches Some(es) && es.status
                != EditSessionStatus::Open ==> res == Err::<(), ModelError>(
                ModelError::InvalidTransition,
            ) && *final(ctx) == *old(ctx) && *final(self) == *old(self),
            res is Ok ==> {
                &&& final(ctx).db.edit_sessions@.len() == old(ctx).db.edit_sessions@.len()
                &&& forall|i: int|
                    0 <= i < old(ctx).db.edit_sessions@.len() ==> final(ctx).db.edit_sessions@[i]
                        == (if old(ctx).db.edit_sessions@[i].pk == old(self).pk {
                        saved_session(old(ctx).db.edit_sessions@[i], old(ctx).now)
                    } else {
                        old(ctx).db.edit_sessions@[i]
                    })
                &&& final(ctx).db.rows@ == old(ctx).db.rows@
                &&& final(ctx).db.relations@ == old(ctx).db.relations@
                &&& final(ctx).db.change_sets@ == old(ctx).db.change_sets@
                &&& final(ctx).db.next_pk == old(ctx).db.next_pk
                &&& final(ctx).db.next_id == old(ctx).db.next_id
                &&& edit_session_status_of(final(ctx).db.edit_sessions@, old(self).pk) == Some(
                    EditSessionStatus::Saved,
                )
                &&& *final(self) == (EditSession {
                    status: EditSessionStatus::Saved,
                    timestamp: Timestamp {
                        created_at: old(self).timestamp.created_at,
                        updated_at: old(ctx).now,
                    },
                    ..*old(self)
                })
                &&& final(ctx).db.history.events@ == old(ctx).db.history.events@.push(
                    final(ctx).db.history.events@.last(),
                )
                &&& {
                    let ev = final(ctx).db.history.events@.last();
                    &&& ev.label@ == "edit_session.save"@
                    &&& ev.actor == old(ctx).actor
                    &&& ev.snapshot == Some(HistorySnapshot::EditSession(
                        saved_session(
                            edit_session_of(old(ctx).db.edit_sessions@, old(self).pk).unwrap(),
                            old(ctx).now,
                        ),
                    ))
                    &&& ev.at == old(ctx).now
                }
                &&& final(ctx).notifications@ == old(ctx).notifications@.push(
                    Notification {
                        kind: NotificationKind::EditSessionSaved,
                        change_set_pk: old(self).change_set_pk,
                        edit_session_pk: old(self).pk,
                    },
                )
                &&& final(ctx).scope == old(ctx).scope
                &&& final(ctx).visibility == old(ctx).visibility
                &&& final(ctx).actor == old(ctx).actor
                &&& final(ctx).now == old(ctx).now
            },
    {
        let idx = match ctx.db.edit_session_index(self.pk) {
            Some(i) => i,
            None => {
                return Err(ModelError::NotFound);
            }
        };
        let open = matches!(ctx.db.edit_sessions[idx].status, EditSessionStatus::Open);
        if !open {
            return Err(ModelError::InvalidTransition);
        }
        let tenancy = ctx.db.edit_sessions[idx].tenancy;
        let updated = EditSession {
            status: EditSessionStatus::Saved,
            timestamp: Timestamp {
                created_at: ctx.db.edit_sessions[idx].timestamp.created_at,
                updated_at: ctx.now,
            },
            ..ctx.db.edit_sessions[idx].clone()
        };
        let snapshot = updated.clone();
        ctx.db.edit_sessions[idx] = updated;
        proof {
            crate::database::lemma_latest_matching_some(
                ctx.db.edit_sessions@,
                crate::database::es_pk_pred(self.pk),
                idx as int,
            );
        }
        self.status = EditSessionStatus::Saved;
        self.timestamp.updated_at = ctx.now;
        let event = HistoryEvent {
            label: "edit_session.save".to_owned(),
            message: "edit session saved".to_owned(),
            actor: ctx.actor,
            snapshot: Some(HistorySnapshot::EditSession(snapshot)),
            tenancy,
            at: ctx.now,
        };
        ctx.db.history.record(event);
        ctx.enqueue_notification(
            Notification {
                kind: NotificationKind::EditSessionSaved,
                change_set_pk: self.change_set_pk,
                edit_session_pk: self.pk,
            },
        );
        Ok(())
    }

    /// Cancels the edit session: Open becomes Canceled, a terminal state.
    /// The rows drafted under it become unreachable by every resolution
    /// path.
    pub fn cancel(&mut self, ctx: &mut WorkContext) -> (res: Result<(), ModelError>)
        requires
            old(ctx).db.inv(),
        ensures
            final(ctx).db.inv(),
            res is Ok <==> edit_session_status_of(old(ctx).db.edit_sessions@, old(self).pk) == Some(
                EditSessionStatus::Open,
            ),
            edit_session_of(old(ctx).db.edit_sessions@, old(self).pk) is None ==> res == Err::<
                (),
                ModelError,
            >(ModelError::NotFound) && *final(ctx) == *old(ctx) && *final(self) == *old(self),
            edit_session_of(old(ctx).db.edit_sessions@, old(self).pk) matches Some(es) && es.status
                != EditSessionStatus::Open ==> res == Err::<(), ModelError>(
                ModelError::InvalidTransition,
            ) && *final(ctx) == *old(ctx) && *final(self) == *old(self),
            res is Ok ==> {
                &&& final(ctx).db.edit_sessions@.len() == old(ctx).db.edit_sessions@.len()
                &&& forall|i: int|
                    0 <= i < old(ctx).db.edit_sessions@.len() ==> final(ctx).db.edit_sessions@[i]
                        == (if old(ctx).db.edit_sessions@[i].pk == old(self).pk {
                        canceled_session(old(ctx).db.edit_sessions@[i], old(ctx).now)
                    } else {
                        old(ctx).db.edit_sessions@[i]
                    })
                &&& final(ctx).db.rows@ == old(ctx).db.rows@
                &&& final(ctx).db.relations@ == old(ctx).db.relations@
                &&& final(ctx).db.change_sets@ == old(ctx).db.change_sets@
                &&& final(ctx).db.next_pk == old(ctx).db.next_pk
                &&& final(ctx).db.next_id == old(ctx).db.next_id
                &&& edit_session_status_of(final(ctx).db.edit_sessions@, old(self).pk) == Some(
                    EditSessionStatus::Canceled,
                )
                &&& *final(self) == (EditSession {
                    status: EditSessionStatus::Canceled,
                    timestamp: Timestamp {
                        created_at: old(self).timestamp.created_at,
                        updated_at: old(ctx).now,
                    },
                    ..*old(self)
                })
                &&& final(ctx).db.history.events@ == old(ctx).db.history.events@.push(
                    final(ctx).db.history.events@.last(),
                )
                &&& {
                    let ev = final(ctx).db.history.events@.last();
                    &&& ev.label@ == "edit_session.cancel"@
                    &&& ev.actor == old(ctx).actor
                    &&& ev.snapshot == Some(HistorySnapshot::EditSession(
                        canceled_session(
                            edit_session_of(old(ctx).db.edit_sessions@, old(self).pk).unwrap(),
                            old(ctx).now,
                        ),
                    ))
                    &&& ev.at == old(ctx).now
                }
                &&& final(ctx).notifications@ == old(ctx).notifications@.push(
                    Notification {
                        kind: NotificationKind::EditSessionCanceled,
                        change_set_pk: old(self).change_set_pk,
                        edit_session_pk: old(self).pk,
                    },
                )
                &&& final(ctx).scope == old(ctx).scope
                &&& final(ctx).visibility == old(ctx).visibility
                &&& final(ctx).actor == old(ctx).actor
                &&& final(ctx).now == old(ctx).now
            },
    {
        let idx = match ctx.db.edit_session_index(self.pk) {
            Some(i) => i,
            None => {
                return Err(ModelError::NotFound);
            }
        };
        let open = matches!(ctx.db.edit_sessions[idx].status, EditSessionStatus::Open);
        if !open {
            return Err(ModelError::InvalidTransition);
        }
        let tenancy = ctx.db.edit_sessions[idx].tenancy;
        let updated = EditSession {
            status: EditSessionStatus::Canceled,
            timestamp: Timestamp {
                created_at: ctx.db.edit_sessions[idx].timestamp.created_at,
                updated_at: ctx.now,
            },
            ..ctx.db.edit_sessions[idx].clone()
        };
        let snapshot = updated.clone();
        ctx.db.edit_sessions[idx] = updated;
        proof {
            crate::database::lemma_latest_matching_some(
                ctx.db.edit_sessions@,
                crate::database::es_pk_pred(self.pk),
                idx as int,
            );
        }
        self.status = EditSessionStatus::Canceled;
        self.timestamp.updated_at = ctx.now;
        let event = HistoryEvent {
            label: "edit_session.cancel".to_owned(),
            message: "edit session canceled".to_owned(),
            actor: ctx.actor,
            snapshot: Some(HistorySnapshot::EditSession(snapshot)),
            tenancy,
            at: ctx.now,
        };
        ctx.db.history.record(event);
        ctx.enqueue_notification(
            Notification {
                kind: NotificationKind::EditSessionCanceled,
                change_set_pk: self.change_set_pk,
                edit_session_pk: self.pk,
            },
        );
        Ok(())
    }
}

} // verus!
