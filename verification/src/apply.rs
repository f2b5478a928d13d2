//! Applying a change set: promoting its pending content to head.
//!
//! The pending content of a change set is, per record, the newest reachable
//! version written at `(change_set, no draft)` or under one of its saved
//! edit sessions, provided that version is live. Apply first checks every
//! pending record against head: if head's deciding version was written by a
//! different, already-applied change set after this one was opened, the
//! whole apply fails with a conflict and nothing is written — there are no
//! partial merges. Otherwise every pending version is copied to head with
//! its payload unchanged, stamped with this change set as its origin, the
//! change set's pending relation versions are copied to head the same way,
//! and the change set ends Applied. The conflict gate is the record check;
//! relation rows carry no origin marker and follow their records.

use vstd::prelude::*;
use vstd::string::StringExecFns;

use crate::change_set::ChangeSet;
use crate::change_set::ChangeSetStatus;
use crate::coordinator::Notification;
use crate::coordinator::NotificationKind;
use crate::coordinator::WorkContext;
use crate::database::change_set_of;
use crate::database::change_set_status_of;
use crate::database::head_pred;
use crate::database::latest_matching;
use crate::database::lemma_latest_matching_add;
use crate::database::lemma_latest_matching_some;
use crate::database::Database;
use crate::edit_session::EditSessionStatus;
use crate::error::ModelError;
use crate::history::HistoryEvent;
use crate::history::HistorySnapshot;
use crate::lifecycle::finished_change_set;
use crate::payload::EntityKind;
use crate::relations::link_head_pred;
use crate::relations::link_key_match;
use crate::relations::link_self_target;
use crate::row::RelationKind;
use crate::row::RelationRow;
use crate::row::Row;
use crate::timestamp::Timestamp;
use crate::visibility::Visibility;
use crate::visibility::NO_CHANGE_SET_PK;
use crate::visibility::NO_EDIT_SESSION_PK;

verus! {

/// The head-baseline visibility context.
pub open spec fn head_visibility(deleted: bool) -> Visibility {
    Visibility {
        change_set_pk: NO_CHANGE_SET_PK,
        edit_session_pk: NO_EDIT_SESSION_PK,
        deleted,
    }
}

/// The head version that apply writes for one pending version.
pub open spec fn promoted_row(r: Row, cs_pk: i64, pk: i64, now: i64) -> Row {
    Row {
        pk,
        id: r.id,
        kind: r.kind,
        tenancy: r.tenancy,
        visibility: head_visibility(false),
        origin_change_set_pk: cs_pk,
        timestamp: Timestamp { created_at: r.timestamp.created_at, updated_at: now },
        payload: r.payload,
    }
}

/// The head versions apply writes for a sequence of pending versions, with
/// surrogate keys assigned in order from `base_pk`.
pub open spec fn promoted_seq(pending: Seq<Row>, cs_pk: i64, base_pk: int, now: i64) -> Seq<Row>
    decreases pending.len(),
{
    if pending.len() == 0 {
        Seq::empty()
    } else {
        promoted_seq(pending.drop_last(), cs_pk, base_pk, now).push(
            promoted_row(pending.last(), cs_pk, (base_pk + pending.len() - 1) as i64, now),
        )
    }
}

/// Length and elements of a promoted sequence.
pub proof fn lemma_promoted_seq_index(pending: Seq<Row>, cs_pk: i64, base_pk: int, now: i64)
    ensures
        promoted_seq(pending, cs_pk, base_pk, now).len() == pending.len(),
        forall|k: int|
            0 <= k < pending.len() ==> #[trigger] promoted_seq(pending, cs_pk, base_pk, now)[k]
                == promoted_row(pending[k], cs_pk, (base_pk + k) as i64, now),
    decreases pending.len(),
{
    if pending.len() > 0 {
        lemma_promoted_seq_index(pending.drop_last(), cs_pk, base_pk, now);
    }
}

impl Database {
    /// Row `m` is part of the change set's pending content: the newest
    /// version of its record at change-set level, and live.
    pub open spec fn pending_at(self, cs_pk: i64, m: int) -> bool {
        let r = self.rows@[m];
        &&& self.change_set_match(r, r.kind, r.id, cs_pk)
        &&& !r.visibility.deleted
        &&& forall|l: int|
            m < l < self.rows@.len() ==> !self.change_set_match(
                #[trigger] self.rows@[l],
                r.kind,
                r.id,
                cs_pk,
            )
    }

    /// The indices of the pending rows below `upto`, in order.
    pub open spec fn pending_index_seq(self, cs_pk: i64, upto: int) -> Seq<int>
        decreases upto,
    {
        if upto <= 0 {
            Seq::empty()
        } else if self.pending_at(cs_pk, upto - 1) {
            self.pending_index_seq(cs_pk, upto - 1).push(upto - 1)
        } else {
            self.pending_index_seq(cs_pk, upto - 1)
        }
    }

    /// The pending rows below `upto`, in storage order.
    pub open spec fn pending_rows(self, cs_pk: i64, upto: int) -> Seq<Row> {
        self.pending_index_seq(cs_pk, upto).map_values(|m: int| self.rows@[m])
    }

    /// Head has moved under this record: its deciding head version was
    /// promoted by a different change set after this one was opened.
    pub open spec fn head_conflict(self, cs_pk: i64, kind: EntityKind, id: i64) -> bool {
        match latest_matching(self.rows@, head_pred(kind, id)) {
            Some(h) => h.pk > cs_pk && h.origin_change_set_pk != NO_CHANGE_SET_PK
                && h.origin_change_set_pk != cs_pk,
            None => false,
        }
    }

    /// Some pending record of the change set conflicts with head.
    pub open spec fn apply_conflict(self, cs_pk: i64) -> bool {
        exists|m: int|
            0 <= m < self.rows@.len() && #[trigger] self.pending_at(cs_pk, m) && self.head_conflict(
                cs_pk,
                self.rows@[m].kind,
                self.rows@[m].id,
            )
    }

    /// Relation row `m` is pending content of the change set: the newest
    /// change-set-level version of its own link, and live.
    pub open spec fn pending_link_at(self, cs_pk: i64, m: int) -> bool {
        let l = self.relations@[m];
        &&& self.link_change_set_pred(l.kind, l.object_id, link_self_target(l), cs_pk)(l)
        &&& !l.visibility.deleted
        &&& forall|q: int|
            m < q < self.relations@.len() ==> !(self.link_change_set_pred(
                l.kind,
                l.object_id,
                link_self_target(l),
                cs_pk,
            )(#[trigger] self.relations@[q]))
    }

    /// The indices of the pending links below `upto`, in order.
    pub open spec fn pending_link_index_seq(self, cs_pk: i64, upto: int) -> Seq<int>
        decreases upto,
    {
        if upto <= 0 {
            Seq::empty()
        } else if self.pending_link_at(cs_pk, upto - 1) {
            self.pending_link_index_seq(cs_pk, upto - 1).push(upto - 1)
        } else {
            self.pending_link_index_seq(cs_pk, upto - 1)
        }
    }

    /// The pending links below `upto`, in storage order.
    pub open spec fn pending_links(self, cs_pk: i64, upto: int) -> Seq<RelationRow> {
        self.pending_link_index_seq(cs_pk, upto).map_values(|m: int| self.relations@[m])
    }

    /// Whether relation row `q` is a change-set-level version of the link
    /// keyed `(kind, object_id, target)`.
    fn link_cs_match_at(
        &self,
        q: usize,
        kind: RelationKind,
        object_id: i64,
        target: Option<i64>,
        cs_pk: i64,
    ) -> (b: bool)
        requires
            q < self.relations@.len(),
        ensures
            b == self.link_change_set_pred(kind, object_id, target, cs_pk)(
                self.relations@[q as int],
            ),
    {
        let l = &self.relations[q];
        let key_ok = l.kind == kind && l.object_id == object_id && (match target {
            Some(t) => l.target_id == t,
            None => true,
        });
        let saved_or_none = if l.visibility.edit_session_pk == NO_EDIT_SESSION_PK {
            true
        } else {
            match self.edit_session_record(l.visibility.edit_session_pk) {
                Some(es) => matches!(es.status, EditSessionStatus::Saved),
                None => false,
            }
        };
        key_ok && l.visibility.change_set_pk == cs_pk && saved_or_none && self.link_reachable_x(l)
    }

    /// Whether relation row `m` is pending content of the change set.
    fn pending_link_at_x(&self, cs_pk: i64, m: usize) -> (b: bool)
        requires
            m < self.relations@.len(),
        ensures
            b == self.pending_link_at(cs_pk, m as int),
    {
        let l_kind = self.relations[m].kind;
        let l_object_id = self.relations[m].object_id;
        let l_target = if l_kind.is_many() {
            Some(self.relations[m].target_id)
        } else {
            None
        };
        proof {
            assert(l_target == link_self_target(self.relations@[m as int]));
        }
        if !self.link_cs_match_at(m, l_kind, l_object_id, l_target, cs_pk) {
            return false;
        }
        if self.relations[m].visibility.deleted {
            return false;
        }
        let n = self.relations.len();
        let mut q = m + 1;
        while q < n
            invariant
                m < q <= n,
                n == self.relations@.len(),
                l_kind == self.relations@[m as int].kind,
                l_object_id == self.relations@[m as int].object_id,
                l_target == link_self_target(self.relations@[m as int]),
                forall|p: int|
                    m < p < q ==> !(self.link_change_set_pred(
                        l_kind,
                        l_object_id,
                        l_target,
                        cs_pk,
                    )(#[trigger] self.relations@[p])),
            decreases n - q,
        {
            if self.link_cs_match_at(q, l_kind, l_object_id, l_target, cs_pk) {
                return false;
            }
            q = q + 1;
        }
        true
    }

    /// Whether row `m` is a change-set-level match for `(kind, id)`.
    fn change_set_match_at(&self, m: usize, kind: EntityKind, id: i64, cs_pk: i64) -> (b: bool)
        requires
            m < self.rows@.len(),
        ensures
            b == self.change_set_match(self.rows@[m as int], kind, id, cs_pk),
    {
        let r = &self.rows[m];
        let saved_or_none = if r.visibility.edit_session_pk == NO_EDIT_SESSION_PK {
            true
        } else {
            match self.edit_session_record(r.visibility.edit_session_pk) {
                Some(es) => matches!(es.status, EditSessionStatus::Saved),
                None => false,
            }
        };
        r.kind == kind && r.id == id && r.visibility.change_set_pk == cs_pk && saved_or_none
            && self.row_reachable_x(r)
    }

    /// Whether row `m` is pending content of the change set.
    fn pending_at_x(&self, cs_pk: i64, m: usize) -> (b: bool)
        requires
            m < self.rows@.len(),
        ensures
            b == self.pending_at(cs_pk, m as int),
    {
        let r_kind = self.rows[m].kind;
        let r_id = self.rows[m].id;
        if !self.change_set_match_at(m, r_kind, r_id, cs_pk) {
            return false;
        }
        if self.rows[m].visibility.deleted {
            return false;
        }
        let n = self.rows.len();
        let mut l = m + 1;
        while l < n
            invariant
                m < l <= n,
                n == self.rows@.len(),
                r_kind == self.rows@[m as int].kind,
                r_id == self.rows@[m as int].id,
                forall|q: int|
                    m < q < l ==> !self.change_set_match(
                        #[trigger] self.rows@[q],
                        r_kind,
                        r_id,
                        cs_pk,
                    ),
            decreases n - l,
        {
            if self.change_set_match_at(l, r_kind, r_id, cs_pk) {
                return false;
            }
            l = l + 1;
        }
        true
    }

    /// Whether `(kind, id)`'s deciding head version conflicts.
    fn head_conflict_x(&self, cs_pk: i64, kind: EntityKind, id: i64) -> (b: bool)
        ensures
            b == self.head_conflict(cs_pk, kind, id),
    {
        match self.latest_head_index(kind, id) {
            Some(i) => {
                let h = &self.rows[i];
                h.pk > cs_pk && h.origin_change_set_pk != NO_CHANGE_SET_PK
                    && h.origin_change_set_pk != cs_pk
            }
            None => false,
        }
    }

    /// Whether any pending record of the change set conflicts with head.
    pub fn has_apply_conflict(&self, cs_pk: i64) -> (b: bool)
        ensures
            b == self.apply_conflict(cs_pk),
    {
        let n = self.rows.len();
        let mut m: usize = 0;
        while m < n
            invariant
                m <= n,
                n == self.rows@.len(),
                forall|q: int|
                    0 <= q < m ==> !(#[trigger] self.pending_at(cs_pk, q) && self.head_conflict(
                        cs_pk,
                        self.rows@[q].kind,
                        self.rows@[q].id,
                    )),
            decreases n - m,
        {
            if self.pending_at_x(cs_pk, m) {
                let kind = self.rows[m].kind;
                let id = self.rows[m].id;
                if self.head_conflict_x(cs_pk, kind, id) {
                    return true;
                }
            }
            m = m + 1;
        }
        false
    }
}

/// The head version apply writes for one pending link version.
pub open spec fn promoted_link(l: RelationRow, pk: i64, now: i64) -> RelationRow {
    RelationRow {
        pk,
        kind: l.kind,
        object_id: l.object_id,
        target_id: l.target_id,
        tenancy: l.tenancy,
        visibility: head_visibility(false),
        timestamp: Timestamp { created_at: l.timestamp.created_at, updated_at: now },
    }
}

/// The head versions apply writes for a sequence of pending links, with
/// surrogate keys assigned in order from `base_pk`.
pub open spec fn promoted_link_seq(pending: Seq<RelationRow>, base_pk: int, now: i64) -> Seq<
    RelationRow,
>
    decreases pending.len(),
{
    if pending.len() == 0 {
        Seq::empty()
    } else {
        promoted_link_seq(pending.drop_last(), base_pk, now).push(
            promoted_link(pending.last(), (base_pk + pending.len() - 1) as i64, now),
        )
    }
}

/// Length and elements of a promoted link sequence.
pub proof fn lemma_promoted_link_seq_index(pending: Seq<RelationRow>, base_pk: int, now: i64)
    ensures
        promoted_link_seq(pending, base_pk, now).len() == pending.len(),
        forall|k: int|
            0 <= k < pending.len() ==> #[trigger] promoted_link_seq(pending, base_pk, now)[k]
                == promoted_link(pending[k], (base_pk + k) as i64, now),
    decreases pending.len(),
{
    if pending.len() > 0 {
        lemma_promoted_link_seq_index(pending.drop_last(), base_pk, now);
    }
}

/// Pending rows of one change set concern pairwise distinct records.
pub proof fn lemma_pending_records_distinct(db: Database, cs_pk: i64, m1: int, m2: int)
    requires
        0 <= m1 < m2 < db.rows@.len(),
        db.pending_at(cs_pk, m1),
        db.pending_at(cs_pk, m2),
    ensures
        db.rows@[m1].kind != db.rows@[m2].kind || db.rows@[m1].id != db.rows@[m2].id,
{
}

/// Pending links of one change set have pairwise distinct keys.
pub proof fn lemma_pending_links_distinct(db: Database, cs_pk: i64, m1: int, m2: int)
    requires
        0 <= m1 < m2 < db.relations@.len(),
        db.pending_link_at(cs_pk, m1),
        db.pending_link_at(cs_pk, m2),
    ensures
        !link_key_match(
            db.relations@[m2],
            db.relations@[m1].kind,
            db.relations@[m1].object_id,
            link_self_target(db.relations@[m1]),
        ),
{
    let l1 = db.relations@[m1];
    let l2 = db.relations@[m2];
    if link_key_match(l2, l1.kind, l1.object_id, link_self_target(l1)) {
        assert(db.link_change_set_pred(
            l1.kind,
            l1.object_id,
            link_self_target(l1),
            cs_pk,
        )(l2));
    }
}

/// The pending link index sequence lists, in increasing order, exactly
/// indices of pending links.
pub proof fn lemma_pending_link_index_seq_props(db: Database, cs_pk: i64, upto: int)
    ensures
        db.pending_link_index_seq(cs_pk, upto).len() <= (if upto >= 0 {
            upto
        } else {
            0
        }),
        forall|k: int|
            0 <= k < db.pending_link_index_seq(cs_pk, upto).len() ==> 0 <= (
            #[trigger] db.pending_link_index_seq(cs_pk, upto)[k]) < upto && db.pending_link_at(
                cs_pk,
                db.pending_link_index_seq(cs_pk, upto)[k],
            ),
        forall|k1: int, k2: int|
            0 <= k1 < k2 < db.pending_link_index_seq(cs_pk, upto).len() ==> (
            #[trigger] db.pending_link_index_seq(cs_pk, upto)[k1]) < (
            #[trigger] db.pending_link_index_seq(cs_pk, upto)[k2]),
    decreases upto,
{
    if upto > 0 {
        lemma_pending_link_index_seq_props(db, cs_pk, upto - 1);
        let prev = db.pending_link_index_seq(cs_pk, upto - 1);
        let cur = db.pending_link_index_seq(cs_pk, upto);
        if db.pending_link_at(cs_pk, upto - 1) {
            assert(cur == prev.push(upto - 1));
            assert forall|k: int|
                0 <= k < cur.len() implies 0 <= (#[trigger] cur[k]) < upto && db.pending_link_at(
                cs_pk,
                cur[k],
            ) by {
                if k < prev.len() {
                    assert(cur[k] == prev[k]);
                } else {
                    assert(cur[k] == upto - 1);
                }
            }
            assert forall|k1: int, k2: int|
                0 <= k1 < k2 < cur.len() implies (#[trigger] cur[k1]) < (#[trigger] cur[k2]) by {
                if k2 < prev.len() {
                    assert(cur[k1] == prev[k1] && cur[k2] == prev[k2]);
                } else {
                    assert(cur[k2] == upto - 1);
                    assert(cur[k1] == prev[k1]);
                    assert(prev[k1] < upto - 1);
                }
            }
        } else {
            assert(cur == prev);
        }
    }
}

/// The pending index sequence lists, in increasing order, exactly indices
/// of pending rows.
pub proof fn lemma_pending_index_seq_props(db: Database, cs_pk: i64, upto: int)
    ensures
        db.pending_index_seq(cs_pk, upto).len() <= (if upto >= 0 { upto } else { 0 }),
        forall|k: int|
            0 <= k < db.pending_index_seq(cs_pk, upto).len() ==> 0 <= (
            #[trigger] db.pending_index_seq(cs_pk, upto)[k]) < upto && db.pending_at(
                cs_pk,
                db.pending_index_seq(cs_pk, upto)[k],
            ),
        forall|k1: int, k2: int|
            0 <= k1 < k2 < db.pending_index_seq(cs_pk, upto).len() ==> (
            #[trigger] db.pending_index_seq(cs_pk, upto)[k1]) < (#[trigger] db.pending_index_seq(
                cs_pk,
                upto,
            )[k2]),
    decreases upto,
{
    if upto > 0 {
        lemma_pending_index_seq_props(db, cs_pk, upto - 1);
        let prev = db.pending_index_seq(cs_pk, upto - 1);
        let cur = db.pending_index_seq(cs_pk, upto);
        if db.pending_at(cs_pk, upto - 1) {
            assert(cur == prev.push(upto - 1));
            assert forall|k: int|
                0 <= k < cur.len() implies 0 <= (#[trigger] cur[k]) < upto && db.pending_at(
                cs_pk,
                cur[k],
            ) by {
                if k < prev.len() {
                    assert(cur[k] == prev[k]);
                } else {
                    assert(cur[k] == upto - 1);
                }
            }
            assert forall|k1: int, k2: int|
                0 <= k1 < k2 < cur.len() implies (#[trigger] cur[k1]) < (#[trigger] cur[k2]) by {
                if k2 < prev.len() {
                    assert(cur[k1] == prev[k1] && cur[k2] == prev[k2]);
                } else {
                    assert(cur[k2] == upto - 1);
                    assert(cur[k1] == prev[k1]);
                    assert(prev[k1] < upto - 1);
                }
            }
        } else {
            assert(cur == prev);
        }
    }
}

impl ChangeSet {
    /// Applies the change set: checks every pending record for a head
    /// conflict, then promotes all pending versions to head with their
    /// payloads unchanged, and ends the change set Applied. A conflict
    /// aborts the whole apply; nothing is promoted.
    #[verifier::loop_isolation(false)]
    #[verifier::rlimit(100)]
    pub fn apply(&mut self, ctx: &mut WorkContext) -> (res: Result<(), ModelError>)
        requires
            old(ctx).db.inv(),
            old(ctx).db.next_pk + old(ctx).db.rows@.len() + old(ctx).db.relations@.len()
                < i64::MAX,
        ensures
            final(ctx).db.inv(),
            res is Ok <==> change_set_status_of(old(ctx).db.change_sets@, old(self).pk) == Some(
                ChangeSetStatus::Open,
            ) && !old(ctx).db.apply_conflict(old(self).pk),
            change_set_of(old(ctx).db.change_sets@, old(self).pk) is None ==> res == Err::<
                (),
                ModelError,
            >(ModelError::NotFound) && *final(ctx) == *old(ctx) && *final(self) == *old(self),
            change_set_of(old(ctx).db.change_sets@, old(self).pk) matches Some(cs) && cs.status
                != ChangeSetStatus::Open ==> res == Err::<(), ModelError>(
                ModelError::InvalidTransition,
            ) && *final(ctx) == *old(ctx) && *final(self) == *old(self),
            change_set_status_of(old(ctx).db.change_sets@, old(self).pk) == Some(
                ChangeSetStatus::Open,
            ) && old(ctx).db.apply_conflict(old(self).pk) ==> res == Err::<(), ModelError>(
                ModelError::ApplyConflict,
            ) && *final(ctx) == *old(ctx) && *final(self) == *old(self),
            res is Ok ==> ({
                let pend = old(ctx).db.pending_rows(
                    old(self).pk,
                    old(ctx).db.rows@.len() as int,
                );
                let promo = promoted_seq(
                    pend,
                    old(self).pk,
                    old(ctx).db.next_pk as int,
                    old(ctx).now,
                );
                let lpend = old(ctx).db.pending_links(
                    old(self).pk,
                    old(ctx).db.relations@.len() as int,
                );
                let lpromo = promoted_link_seq(
                    lpend,
                    old(ctx).db.next_pk + pend.len(),
                    old(ctx).now,
                );
                &&& final(ctx).db.rows@ == old(ctx).db.rows@ + promo
                &&& final(ctx).db.next_pk == old(ctx).db.next_pk + pend.len() + lpend.len()
                &&& final(ctx).db.next_id == old(ctx).db.next_id
                &&& final(ctx).db.relations@ == old(ctx).db.relations@ + lpromo
                &&& final(ctx).db.edit_sessions@ == old(ctx).db.edit_sessions@
                &&& final(ctx).db.change_sets@.len() == old(ctx).db.change_sets@.len()
                &&& (forall|i: int|
                    0 <= i < old(ctx).db.change_sets@.len() ==> final(ctx).db.change_sets@[i] == (
                    if old(ctx).db.change_sets@[i].pk == old(self).pk {
                        finished_change_set(
                            old(ctx).db.change_sets@[i],
                            ChangeSetStatus::Applied,
                            old(ctx).now,
                        )
                    } else {
                        old(ctx).db.change_sets@[i]
                    }))
                &&& *final(self) == (ChangeSet {
                    status: ChangeSetStatus::Applied,
                    finished_at: Some(old(ctx).now),
                    timestamp: Timestamp {
                        created_at: old(self).timestamp.created_at,
                        updated_at: old(ctx).now,
                    },
                    ..*old(self)
                })
                &&& (forall|k: int|
                    0 <= k < pend.len() ==> final(ctx).db.resolve(
                        head_visibility(false),
                        (#[trigger] pend[k]).kind,
                        pend[k].id,
                    ) == Some(promo[k]))
                &&& (forall|k: int|
                    0 <= k < lpend.len() ==> final(ctx).db.resolve_link(
                        head_visibility(false),
                        (#[trigger] lpend[k]).kind,
                        lpend[k].object_id,
                        link_self_target(lpend[k]),
                    ) == Some(lpromo[k]))
                &&& final(ctx).db.history.events@ == old(ctx).db.history.events@.push(
                    final(ctx).db.history.events@.last(),
                )
                &&& ({
                    let ev = final(ctx).db.history.events@.last();
                    &&& ev.label@ == "change_set.apply"@
                    &&& ev.actor == old(ctx).actor
                    &&& ev.snapshot == Some(HistorySnapshot::ChangeSet(
                        finished_change_set(
                            change_set_of(old(ctx).db.change_sets@, old(self).pk).unwrap(),
                            ChangeSetStatus::Applied,
                            old(ctx).now,
                        ),
                    ))
                    &&& ev.at == old(ctx).now
                })
                &&& final(ctx).notifications@ == old(ctx).notifications@.push(
                    Notification {
                        kind: NotificationKind::ChangeSetApplied,
                        change_set_pk: old(self).pk,
                        edit_session_pk: NO_EDIT_SESSION_PK,
                    },
                )
                &&& final(ctx).scope == old(ctx).scope
                &&& final(ctx).visibility == old(ctx).visibility
                &&& final(ctx).actor == old(ctx).actor
                &&& final(ctx).now == old(ctx).now
            }),
    {
        let cs_pk = self.pk;
        let idx = match ctx.db.change_set_index(cs_pk) {
            Some(i) => i,
            None => {
                return Err(ModelError::NotFound);
            }
        };
        let open = matches!(ctx.db.change_sets[idx].status, ChangeSetStatus::Open);
        if !open {
            return Err(ModelError::InvalidTransition);
        }
        if ctx.db.has_apply_conflict(cs_pk) {
            return Err(ModelError::ApplyConflict);
        }
        let ghost pre = ctx.db;
        let n = ctx.db.rows.len();
        let base = ctx.db.next_pk;
        let now = ctx.now;

        // Phase one: collect the promoted head versions, without writing.
        let mut promoted: Vec<Row> = Vec::new();
        let mut m: usize = 0;
        while m < n
            invariant
                m <= n,
                promoted@ == promoted_seq(
                    ctx.db.pending_rows(cs_pk, m as int),
                    cs_pk,
                    base as int,
                    now,
                ),
                promoted@.len() == ctx.db.pending_rows(cs_pk, m as int).len(),
                promoted@.len() <= m,
            decreases n - m,
        {
            let ghost pend_m = ctx.db.pending_rows(cs_pk, m as int);
            if ctx.db.pending_at_x(cs_pk, m) {
                let r = &ctx.db.rows[m];
                let nr = Row {
                    pk: base + (promoted.len() as i64),
                    id: r.id,
                    kind: r.kind,
                    tenancy: r.tenancy,
                    visibility: Visibility {
                        change_set_pk: NO_CHANGE_SET_PK,
                        edit_session_pk: NO_EDIT_SESSION_PK,
                        deleted: false,
                    },
                    origin_change_set_pk: cs_pk,
                    timestamp: Timestamp {
                        created_at: r.timestamp.created_at,
                        updated_at: now,
                    },
                    payload: r.payload.clone(),
                };
                promoted.push(nr);
                proof {
                    let pend_m1 = ctx.db.pending_rows(cs_pk, m as int + 1);
                    assert(ctx.db.pending_index_seq(cs_pk, m as int + 1)
                        == ctx.db.pending_index_seq(cs_pk, m as int).push(m as int));
                    assert(pend_m1 =~= pend_m.push(ctx.db.rows@[m as int]));
                    assert(pend_m1.drop_last() =~= pend_m);
                    assert(promoted_seq(pend_m1, cs_pk, base as int, now) == promoted_seq(
                        pend_m,
                        cs_pk,
                        base as int,
                        now,
                    ).push(
                        promoted_row(
                            ctx.db.rows@[m as int],
                            cs_pk,
                            (base + pend_m.len()) as i64,
                            now,
                        ),
                    ));
                    assert(nr == promoted_row(
                        ctx.db.rows@[m as int],
                        cs_pk,
                        (base + pend_m.len()) as i64,
                        now,
                    ));
                }
            } else {
                proof {
                    assert(ctx.db.pending_rows(cs_pk, m as int + 1) =~= pend_m);
                }
            }
            m = m + 1;
        }

        // Phase one, continued: collect the promoted link versions.
        let promoted_count = promoted.len();
        let link_base = base + (promoted_count as i64);
        let ln = ctx.db.relations.len();
        let mut promoted_links: Vec<RelationRow> = Vec::new();
        let mut m2: usize = 0;
        while m2 < ln
            invariant
                m2 <= ln,
                promoted_links@ == promoted_link_seq(
                    ctx.db.pending_links(cs_pk, m2 as int),
                    link_base as int,
                    now,
                ),
                promoted_links@.len() == ctx.db.pending_links(cs_pk, m2 as int).len(),
                promoted_links@.len() <= m2,
            decreases ln - m2,
        {
            let ghost lpend_m = ctx.db.pending_links(cs_pk, m2 as int);
            if ctx.db.pending_link_at_x(cs_pk, m2) {
                let l = ctx.db.relations[m2];
                let nl = RelationRow {
                    pk: link_base + (promoted_links.len() as i64),
                    kind: l.kind,
                    object_id: l.object_id,
                    target_id: l.target_id,
                    tenancy: l.tenancy,
                    visibility: Visibility {
                        change_set_pk: NO_CHANGE_SET_PK,
                        edit_session_pk: NO_EDIT_SESSION_PK,
                        deleted: false,
                    },
                    timestamp: Timestamp {
                        created_at: l.timestamp.created_at,
                        updated_at: now,
                    },
                };
                promoted_links.push(nl);
                proof {
                    let lpend_m1 = ctx.db.pending_links(cs_pk, m2 as int + 1);
                    assert(ctx.db.pending_link_index_seq(cs_pk, m2 as int + 1)
                        == ctx.db.pending_link_index_seq(cs_pk, m2 as int).push(m2 as int));
                    assert(lpend_m1 =~= lpend_m.push(ctx.db.relations@[m2 as int]));
                    assert(lpend_m1.drop_last() =~= lpend_m);
                    assert(promoted_link_seq(lpend_m1, link_base as int, now)
                        == promoted_link_seq(lpend_m, link_base as int, now).push(
                        promoted_link(
                            ctx.db.relations@[m2 as int],
                            (link_base + lpend_m.len()) as i64,
                            now,
                        ),
                    ));
                    assert(nl == promoted_link(
                        ctx.db.relations@[m2 as int],
                        (link_base + lpend_m.len()) as i64,
                        now,
                    ));
                }
            } else {
                proof {
                    assert(ctx.db.pending_links(cs_pk, m2 as int + 1) =~= lpend_m);
                }
            }
            m2 = m2 + 1;
        }

        // Phase two: append the promoted versions and close the change set.
        let ghost pend = pre.pending_rows(cs_pk, n as int);
        let ghost promo = promoted_seq(pend, cs_pk, base as int, now);
        ctx.db.rows.append(&mut promoted);
        ctx.db.next_pk = base + promoted_count as i64;
        proof {
            lemma_promoted_seq_index(pend, cs_pk, base as int, now);
            lemma_pending_index_seq_props(pre, cs_pk, n as int);
            assert(ctx.db.rows@ == pre.rows@ + promo);
            assert forall|i: int, j: int|
                0 <= i < j < ctx.db.rows@.len() implies (#[trigger] ctx.db.rows@[i].pk) < (
            #[trigger] ctx.db.rows@[j].pk) by {
                if j >= pre.rows@.len() {
                    let kj = j - pre.rows@.len();
                    assert(ctx.db.rows@[j] == promo[kj]);
                    assert(promo[kj].pk == base + kj);
                    if i >= pre.rows@.len() {
                        let ki = i - pre.rows@.len();
                        assert(ctx.db.rows@[i] == promo[ki]);
                    } else {
                        assert(pre.rows@[i].pk < base);
                    }
                }
            }
            assert forall|i: int|
                0 <= i < ctx.db.rows@.len() implies 0 <= (#[trigger] ctx.db.rows@[i].pk)
                < ctx.db.next_pk by {
                if i >= pre.rows@.len() {
                    let ki = i - pre.rows@.len();
                    assert(ctx.db.rows@[i] == promo[ki]);
                    assert(promo[ki].pk == base + ki);
                }
            }
            assert forall|i: int|
                0 <= i < ctx.db.rows@.len() implies 0 <= (#[trigger] ctx.db.rows@[i].id)
                < ctx.db.next_id by {
                if i >= pre.rows@.len() {
                    let ki = i - pre.rows@.len();
                    assert(ctx.db.rows@[i] == promo[ki]);
                    let mi = pre.pending_index_seq(cs_pk, n as int)[ki];
                    assert(pend[ki] == pre.rows@[mi]);
                    assert(0 <= pre.rows@[mi].id < pre.next_id);
                }
            }
        }
        let link_count = promoted_links.len();
        let ghost lpend = pre.pending_links(cs_pk, ln as int);
        let ghost lpromo = promoted_link_seq(lpend, link_base as int, now);
        ctx.db.relations.append(&mut promoted_links);
        ctx.db.next_pk = link_base + link_count as i64;
        proof {
            lemma_promoted_link_seq_index(lpend, link_base as int, now);
            lemma_pending_link_index_seq_props(pre, cs_pk, ln as int);
            assert(ctx.db.relations@ == pre.relations@ + lpromo);
            assert forall|i: int, j: int|
                0 <= i < j < ctx.db.relations@.len() implies (#[trigger] ctx.db.relations@[i].pk)
                < (#[trigger] ctx.db.relations@[j].pk) by {
                if j >= pre.relations@.len() {
                    let kj = j - pre.relations@.len();
                    assert(ctx.db.relations@[j] == lpromo[kj]);
                    assert(lpromo[kj].pk == link_base + kj);
                    if i >= pre.relations@.len() {
                        let ki = i - pre.relations@.len();
                        assert(ctx.db.relations@[i] == lpromo[ki]);
                    } else {
                        assert(pre.relations@[i].pk < pre.next_pk);
                    }
                }
            }
            assert forall|i: int|
                0 <= i < ctx.db.relations@.len() implies 0 <= (#[trigger] ctx.db.relations@[i].pk)
                < ctx.db.next_pk by {
                if i >= pre.relations@.len() {
                    let ki = i - pre.relations@.len();
                    assert(ctx.db.relations@[i] == lpromo[ki]);
                    assert(lpromo[ki].pk == link_base + ki);
                } else {
                    assert(ctx.db.relations@[i] == pre.relations@[i]);
                    assert(0 <= pre.relations@[i].pk < pre.next_pk);
                }
            }
            assert forall|i: int|
                0 <= i < ctx.db.relations@.len() implies (
            #[trigger] ctx.db.relations@[i].visibility.change_set_pk) < ctx.db.next_pk
                && ctx.db.relations@[i].visibility.edit_session_pk < ctx.db.next_pk by {
                if i >= pre.relations@.len() {
                    let ki = i - pre.relations@.len();
                    assert(ctx.db.relations@[i] == lpromo[ki]);
                } else {
                    assert(ctx.db.relations@[i] == pre.relations@[i]);
                    assert(pre.relations@[i].visibility.change_set_pk < pre.next_pk);
                    assert(pre.relations@[i].visibility.edit_session_pk < pre.next_pk);
                }
            }
        }
        let tenancy = ctx.db.change_sets[idx].tenancy;
        let updated = ChangeSet {
            status: ChangeSetStatus::Applied,
            timestamp: Timestamp {
                created_at: ctx.db.change_sets[idx].timestamp.created_at,
                updated_at: now,
            },
            finished_at: Some(now),
            ..ctx.db.change_sets[idx].clone()
        };
        let cs_snapshot = updated.clone();
        ctx.db.change_sets[idx] = updated;
        proof {
            assert forall|i: int|
                0 <= i < ctx.db.change_sets@.len() implies (
            #[trigger] ctx.db.change_sets@[i]).pk == pre.change_sets@[i].pk by {
                if i != idx as int {
                    assert(ctx.db.change_sets@[i] == pre.change_sets@[i]);
                }
            }
        }
        self.status = ChangeSetStatus::Applied;
        self.finished_at = Some(now);
        self.timestamp.updated_at = now;
        let event = HistoryEvent {
            label: "change_set.apply".to_owned(),
            message: "change set applied".to_owned(),
            actor: ctx.actor,
            snapshot: Some(HistorySnapshot::ChangeSet(cs_snapshot)),
            tenancy,
            at: now,
        };
        ctx.db.history.record(event);
        ctx.enqueue_notification(
            Notification {
                kind: NotificationKind::ChangeSetApplied,
                change_set_pk: cs_pk,
                edit_session_pk: NO_EDIT_SESSION_PK,
            },
        );
        proof {
            lemma_promoted_seq_index(pend, cs_pk, base as int, now);
            lemma_pending_index_seq_props(pre, cs_pk, n as int);
            assert forall|k: int| 0 <= k < pend.len() implies ctx.db.resolve(
                head_visibility(false),
                (#[trigger] pend[k]).kind,
                pend[k].id,
            ) == Some(promo[k]) by {
                let kind = pend[k].kind;
                let id = pend[k].id;
                let mk = pre.pending_index_seq(cs_pk, n as int)[k];
                assert(pend[k] == pre.rows@[mk]);
                assert(head_pred(kind, id)(promo[k]));
                assert forall|l: int| k < l < promo.len() implies !(head_pred(kind, id)(
                    #[trigger] promo[l],
                )) by {
                    let ml = pre.pending_index_seq(cs_pk, n as int)[l];
                    assert(pend[l] == pre.rows@[ml]);
                    lemma_pending_records_distinct(pre, cs_pk, mk, ml);
                }
                lemma_latest_matching_some(promo, head_pred(kind, id), k);
                lemma_latest_matching_add(pre.rows@, promo, head_pred(kind, id));
                assert(ctx.db.rows@ == pre.rows@ + promo);
                assert(latest_matching(ctx.db.rows@, head_pred(kind, id)) == Some(promo[k]));
            }
            lemma_promoted_link_seq_index(lpend, link_base as int, now);
            lemma_pending_link_index_seq_props(pre, cs_pk, ln as int);
            assert forall|k: int| 0 <= k < lpend.len() implies ctx.db.resolve_link(
                head_visibility(false),
                (#[trigger] lpend[k]).kind,
                lpend[k].object_id,
                link_self_target(lpend[k]),
            ) == Some(lpromo[k]) by {
                let lk = lpend[k];
                let key = link_self_target(lk);
                let mk = pre.pending_link_index_seq(cs_pk, ln as int)[k];
                assert(lpend[k] == pre.relations@[mk]);
                assert(link_head_pred(lk.kind, lk.object_id, key)(lpromo[k]));
                assert forall|q: int| k < q < lpromo.len() implies !(link_head_pred(
                    lk.kind,
                    lk.object_id,
                    key,
                )(#[trigger] lpromo[q])) by {
                    let mq = pre.pending_link_index_seq(cs_pk, ln as int)[q];
                    assert(lpend[q] == pre.relations@[mq]);
                    lemma_pending_links_distinct(pre, cs_pk, mk, mq);
                }
                lemma_latest_matching_some(lpromo, link_head_pred(lk.kind, lk.object_id, key), k);
                lemma_latest_matching_add(
                    pre.relations@,
                    lpromo,
                    link_head_pred(lk.kind, lk.object_id, key),
                );
                assert(ctx.db.relations@ == pre.relations@ + lpromo);
                assert(latest_matching(
                    ctx.db.relations@,
                    link_head_pred(lk.kind, lk.object_id, key),
                ) == Some(lpromo[k]));
            }
            assert(ctx.db.inv());
        }
        Ok(())
    }
}

} // verus!
