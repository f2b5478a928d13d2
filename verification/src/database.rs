//! The store's state and the visibility-resolution model.
//!
//! All tables live in one [`Database`] value: record rows, relation rows,
//! change set and edit session lifecycle rows, and the history ledger. One
//! shared surrogate-key sequence stamps every insert, so "newer" is the same
//! order everywhere.
//!
//! Resolution of a record under a visibility context walks three tiers and
//! returns the first tier that holds any version of the record:
//!
//! 1. the context's own edit session draft `(change_set, edit_session)`;
//! 2. the change set's pending content: rows at `(change_set, no draft)`
//!    together with rows drafted under an edit session of that change set
//!    that has since been saved;
//! 3. the head baseline `(no change set, no draft)`.
//!
//! Within a tier the newest version decides. If the deciding version is
//! tombstoned and the context does not ask for deleted rows, the record is
//! absent — resolution does not fall through to an older tier, so a deletion
//! drafted in a change set hides the record there while head still shows it.
//! Rows under an abandoned change set or a canceled edit session are
//! unreachable by every tier.

use vstd::prelude::*;

use crate::change_set::ChangeSet;
use crate::change_set::ChangeSetStatus;
use crate::edit_session::EditSession;
use crate::edit_session::EditSessionStatus;
use crate::history::HistoryEventLog;
use crate::payload::EntityKind;
use crate::row::RelationRow;
use crate::row::Row;
use crate::visibility::Visibility;
use crate::visibility::NO_CHANGE_SET_PK;
use crate::visibility::NO_EDIT_SESSION_PK;

verus! {

/// The newest element of `s` satisfying `pred`, if any.
pub open spec fn latest_matching<A>(s: Seq<A>, pred: spec_fn(A) -> bool) -> Option<A>
    decreases s.len(),
{
    if s.len() == 0 {
        None
    } else if pred(s.last()) {
        Some(s.last())
    } else {
        latest_matching(s.drop_last(), pred)
    }
}

/// If `s[i]` matches and nothing after it does, `s[i]` is the latest match.
pub proof fn lemma_latest_matching_some<A>(s: Seq<A>, pred: spec_fn(A) -> bool, i: int)
    requires
        0 <= i < s.len(),
        pred(s[i]),
        forall|j: int| i < j < s.len() ==> !pred(#[trigger] s[j]),
    ensures
        latest_matching(s, pred) == Some(s[i]),
    decreases s.len(),
{
    if i == s.len() - 1 {
    } else {
        lemma_latest_matching_some(s.drop_last(), pred, i);
    }
}

/// If nothing matches, there is no latest match.
pub proof fn lemma_latest_matching_none<A>(s: Seq<A>, pred: spec_fn(A) -> bool)
    requires
        forall|j: int| 0 <= j < s.len() ==> !pred(#[trigger] s[j]),
    ensures
        latest_matching(s, pred) is None,
    decreases s.len(),
{
    if s.len() > 0 {
        lemma_latest_matching_none(s.drop_last(), pred);
    }
}

/// The latest match, when it exists, is an element of `s` that matches,
/// with no later match; when there is none, nothing matches.
pub proof fn lemma_latest_matching_is_match<A>(s: Seq<A>, pred: spec_fn(A) -> bool)
    ensures
        match latest_matching(s, pred) {
            Some(r) => pred(r) && exists|i: int|
                0 <= i < s.len() && s[i] == r && (forall|j: int|
                    i < j < s.len() ==> !pred(#[trigger] s[j])),
            None => forall|j: int| 0 <= j < s.len() ==> !pred(#[trigger] s[j]),
        },
    decreases s.len(),
{
    if s.len() > 0 {
        if pred(s.last()) {
            assert(s[s.len() - 1] == s.last());
        } else {
            lemma_latest_matching_is_match(s.drop_last(), pred);
            match latest_matching(s.drop_last(), pred) {
                Some(r) => {
                    let i = choose|i: int|
                        0 <= i < s.drop_last().len() && s.drop_last()[i] == r && (forall|j: int|
                            i < j < s.drop_last().len() ==> !pred(#[trigger] s.drop_last()[j]));
                    assert(s[i] == s.drop_last()[i]);
                    assert(forall|j: int| i < j < s.len() - 1 ==> s[j] == s.drop_last()[j]);
                    assert(forall|j: int| i < j < s.len() ==> !pred(#[trigger] s[j]));
                }
                None => {
                    assert(forall|j: int| 0 <= j < s.len() - 1 ==> s[j] == s.drop_last()[j]);
                }
            }
        }
    }
}

/// Appending elements that do not match leaves the latest match unchanged.
pub proof fn lemma_latest_matching_push_no_match<A>(s: Seq<A>, pred: spec_fn(A) -> bool, elt: A)
    requires
        !pred(elt),
    ensures
        latest_matching(s.push(elt), pred) == latest_matching(s, pred),
{
    assert(s.push(elt).drop_last() =~= s);
}

/// Appending a matching element makes it the latest match.
pub proof fn lemma_latest_matching_push_match<A>(s: Seq<A>, pred: spec_fn(A) -> bool, elt: A)
    requires
        pred(elt),
    ensures
        latest_matching(s.push(elt), pred) == Some(elt),
{
}

/// Over a concatenation, the latest match of the suffix wins when there is
/// one, else the prefix's latest match stands.
pub proof fn lemma_latest_matching_add<A>(s: Seq<A>, t: Seq<A>, pred: spec_fn(A) -> bool)
    ensures
        latest_matching(s + t, pred) == (match latest_matching(t, pred) {
            Some(r) => Some(r),
            None => latest_matching(s, pred),
        }),
    decreases t.len(),
{
    if t.len() == 0 {
        assert(s + t =~= s);
    } else {
        assert((s + t).drop_last() =~= s + t.drop_last());
        assert((s + t).last() == t.last());
        lemma_latest_matching_add(s, t.drop_last(), pred);
    }
}

/// Selects a lifecycle row of a change set table by primary key.
pub open spec fn cs_pk_pred(pk: i64) -> spec_fn(ChangeSet) -> bool {
    |c: ChangeSet| c.pk == pk
}

/// Selects a lifecycle row of an edit session table by primary key.
pub open spec fn es_pk_pred(pk: i64) -> spec_fn(EditSession) -> bool {
    |e: EditSession| e.pk == pk
}

/// The change set stored under `pk`, if any.
pub open spec fn change_set_of(css: Seq<ChangeSet>, pk: i64) -> Option<ChangeSet> {
    latest_matching(css, cs_pk_pred(pk))
}

/// The edit session stored under `pk`, if any.
pub open spec fn edit_session_of(ess: Seq<EditSession>, pk: i64) -> Option<EditSession> {
    latest_matching(ess, es_pk_pred(pk))
}

/// The status of the change set stored under `pk`, if any.
pub open spec fn change_set_status_of(css: Seq<ChangeSet>, pk: i64) -> Option<ChangeSetStatus> {
    match change_set_of(css, pk) {
        Some(cs) => Some(cs.status),
        None => None,
    }
}

/// The status of the edit session stored under `pk`, if any.
pub open spec fn edit_session_status_of(ess: Seq<EditSession>, pk: i64) -> Option<
    EditSessionStatus,
> {
    match edit_session_of(ess, pk) {
        Some(es) => Some(es.status),
        None => None,
    }
}

/// A head-baseline version of record `(kind, id)`.
pub open spec fn head_pred(kind: EntityKind, id: i64) -> spec_fn(Row) -> bool {
    |r: Row|
        r.kind == kind && r.id == id && r.visibility.change_set_pk == NO_CHANGE_SET_PK
            && r.visibility.edit_session_pk == NO_EDIT_SESSION_PK
}

/// Every table of the model, in one transactional unit of state.
#[derive(Debug)]
pub struct Database {
    pub rows: Vec<Row>,
    pub relations: Vec<RelationRow>,
    pub change_sets: Vec<ChangeSet>,
    pub edit_sessions: Vec<EditSession>,
    pub history: HistoryEventLog,
    /// The next surrogate key, shared by all tables.
    pub next_pk: i64,
    /// The next logical record id.
    pub next_id: i64,
}

impl Database {
    /// Two database values carrying the same state.
    pub open spec fn state_eq(self, other: Database) -> bool {
        &&& self.rows@ == other.rows@
        &&& self.relations@ == other.relations@
        &&& self.change_sets@ == other.change_sets@
        &&& self.edit_sessions@ == other.edit_sessions@
        &&& self.history.events@ == other.history.events@
        &&& self.next_pk == other.next_pk
        &&& self.next_id == other.next_id
    }

    /// Well-formedness: surrogate keys increase with insertion order in
    /// every table, stay below the shared counter, logical ids stay below
    /// the id counter, and no stored version references a change set or
    /// edit session that has not been allocated yet.
    pub open spec fn inv(self) -> bool {
        &&& 0 <= self.next_pk
        &&& 0 <= self.next_id
        &&& forall|i: int, j: int|
            0 <= i < j < self.rows@.len() ==> (#[trigger] self.rows@[i].pk) < (
            #[trigger] self.rows@[j].pk)
        &&& forall|i: int|
            0 <= i < self.rows@.len() ==> 0 <= (#[trigger] self.rows@[i].pk) < self.next_pk
        &&& forall|i: int|
            0 <= i < self.rows@.len() ==> 0 <= (#[trigger] self.rows@[i].id) < self.next_id
        &&& forall|i: int|
            0 <= i < self.rows@.len() ==> (#[trigger] self.rows@[i].visibility.change_set_pk)
                < self.next_pk && self.rows@[i].visibility.edit_session_pk < self.next_pk
        &&& forall|i: int, j: int|
            0 <= i < j < self.relations@.len() ==> (#[trigger] self.relations@[i].pk) < (
            #[trigger] self.relations@[j].pk)
        &&& forall|i: int|
            0 <= i < self.relations@.len() ==> 0 <= (#[trigger] self.relations@[i].pk)
                < self.next_pk
        &&& forall|i: int|
            0 <= i < self.relations@.len() ==> (
            #[trigger] self.relations@[i].visibility.change_set_pk) < self.next_pk
                && self.relations@[i].visibility.edit_session_pk < self.next_pk
        &&& forall|i: int, j: int|
            0 <= i < j < self.change_sets@.len() ==> (#[trigger] self.change_sets@[i].pk) < (
            #[trigger] self.change_sets@[j].pk)
        &&& forall|i: int|
            0 <= i < self.change_sets@.len() ==> 0 <= (#[trigger] self.change_sets@[i].pk)
                < self.next_pk
        &&& forall|i: int, j: int|
            0 <= i < j < self.edit_sessions@.len() ==> (#[trigger] self.edit_sessions@[i].pk) < (
            #[trigger] self.edit_sessions@[j].pk)
        &&& forall|i: int|
            0 <= i < self.edit_sessions@.len() ==> 0 <= (#[trigger] self.edit_sessions@[i].pk)
                < self.next_pk
    }

    /// A row under an abandoned change set or a canceled edit session is
    /// orphaned: no resolution path reaches it.
    pub open spec fn row_reachable(self, r: Row) -> bool {
        &&& (r.visibility.change_set_pk == NO_CHANGE_SET_PK || change_set_status_of(
            self.change_sets@,
            r.visibility.change_set_pk,
        ) != Some(ChangeSetStatus::Abandoned))
        &&& (r.visibility.edit_session_pk == NO_EDIT_SESSION_PK || edit_session_status_of(
            self.edit_sessions@,
            r.visibility.edit_session_pk,
        ) != Some(EditSessionStatus::Canceled))
    }

    /// Tier 1: a reachable version drafted at exactly `(cs, es)`.
    pub open spec fn draft_match(self, r: Row, kind: EntityKind, id: i64, cs: i64, es: i64) -> bool {
        &&& r.kind == kind
        &&& r.id == id
        &&& r.visibility.change_set_pk == cs
        &&& r.visibility.edit_session_pk == es
        &&& self.row_reachable(r)
    }

    pub open spec fn draft_pred(self, kind: EntityKind, id: i64, cs: i64, es: i64) -> spec_fn(
        Row,
    ) -> bool {
        |r: Row| self.draft_match(r, kind, id, cs, es)
    }

    /// Tier 2: a reachable version that is the change set's pending content:
    /// written at `(cs, no draft)`, or drafted under an edit session that
    /// has since been saved.
    pub open spec fn change_set_match(self, r: Row, kind: EntityKind, id: i64, cs: i64) -> bool {
        &&& r.kind == kind
        &&& r.id == id
        &&& r.visibility.change_set_pk == cs
        &&& (r.visibility.edit_session_pk == NO_EDIT_SESSION_PK || edit_session_status_of(
            self.edit_sessions@,
            r.visibility.edit_session_pk,
        ) == Some(EditSessionStatus::Saved))
        &&& self.row_reachable(r)
    }

    pub open spec fn change_set_pred(self, kind: EntityKind, id: i64, cs: i64) -> spec_fn(
        Row,
    ) -> bool {
        |r: Row| self.change_set_match(r, kind, id, cs)
    }

    /// The version of `(kind, id)` that decides resolution under `vis`:
    /// the newest version in the first tier that holds any, tombstones
    /// included.
    pub open spec fn deciding_row(self, vis: Visibility, kind: EntityKind, id: i64) -> Option<
        Row,
    > {
        let t1 = if vis.edit_session_pk != NO_EDIT_SESSION_PK {
            latest_matching(
                self.rows@,
                self.draft_pred(kind, id, vis.change_set_pk, vis.edit_session_pk),
            )
        } else {
            None
        };
        if t1 is Some {
            t1
        } else {
            let t2 = if vis.change_set_pk != NO_CHANGE_SET_PK {
                latest_matching(self.rows@, self.change_set_pred(kind, id, vis.change_set_pk))
            } else {
                None
            };
            if t2 is Some {
                t2
            } else {
                latest_matching(self.rows@, head_pred(kind, id))
            }
        }
    }

    /// Full resolution: the deciding version if it is live under the
    /// context's tombstone filter, else nothing.
    pub open spec fn resolve(self, vis: Visibility, kind: EntityKind, id: i64) -> Option<Row> {
        match self.deciding_row(vis, kind, id) {
            Some(r) => if vis.deleted || !r.visibility.deleted {
                Some(r)
            } else {
                None
            },
            None => None,
        }
    }

    pub fn new() -> (db: Database)
        ensures
            db.inv(),
            db.rows@ =~= Seq::<Row>::empty(),
            db.relations@ =~= Seq::<RelationRow>::empty(),
            db.change_sets@ =~= Seq::<ChangeSet>::empty(),
            db.edit_sessions@ =~= Seq::<EditSession>::empty(),
            db.history.events@.len() == 0,
            db.next_pk == 1,
            db.next_id == 1,
    {
        Database {
            rows: Vec::new(),
            relations: Vec::new(),
            change_sets: Vec::new(),
            edit_sessions: Vec::new(),
            history: HistoryEventLog::new(),
            next_pk: 1,
            next_id: 1,
        }
    }

    /// Looks a change set up by primary key.
    pub fn change_set_record(&self, pk: i64) -> (res: Option<&ChangeSet>)
        ensures
            match res {
                Some(cs) => change_set_of(self.change_sets@, pk) == Some(*cs),
                None => change_set_of(self.change_sets@, pk) is None,
            },
    {
        let n = self.change_sets.len();
        let mut i = n;
        while i > 0
            invariant
                i <= n,
                n == self.change_sets@.len(),
                forall|j: int| i <= j < n ==> !(cs_pk_pred(pk)(#[trigger] self.change_sets@[j])),
            decreases i,
        {
            i = i - 1;
            if self.change_sets[i].pk == pk {
                proof {
                    lemma_latest_matching_some(self.change_sets@, cs_pk_pred(pk), i as int);
                }
                return Some(&self.change_sets[i]);
            }
        }
        proof {
            lemma_latest_matching_none(self.change_sets@, cs_pk_pred(pk));
        }
        None
    }

    /// Looks an edit session up by primary key.
    pub fn edit_session_record(&self, pk: i64) -> (res: Option<&EditSession>)
        ensures
            match res {
                Some(es) => edit_session_of(self.edit_sessions@, pk) == Some(*es),
                None => edit_session_of(self.edit_sessions@, pk) is None,
            },
    {
        let n = self.edit_sessions.len();
        let mut i = n;
        while i > 0
            invariant
                i <= n,
                n == self.edit_sessions@.len(),
                forall|j: int| i <= j < n ==> !(es_pk_pred(pk)(#[trigger] self.edit_sessions@[j])),
            decreases i,
        {
            i = i - 1;
            if self.edit_sessions[i].pk == pk {
                proof {
                    lemma_latest_matching_some(self.edit_sessions@, es_pk_pred(pk), i as int);
                }
                return Some(&self.edit_sessions[i]);
            }
        }
        proof {
            lemma_latest_matching_none(self.edit_sessions@, es_pk_pred(pk));
        }
        None
    }

    /// Whether the row can be reached by any resolution path.
    pub fn row_reachable_x(&self, r: &Row) -> (b: bool)
        ensures
            b == self.row_reachable(*r),
    {
        let cs_ok = if r.visibility.change_set_pk == NO_CHANGE_SET_PK {
            true
        } else {
            match self.change_set_record(r.visibility.change_set_pk) {
                Some(cs) => !matches!(cs.status, ChangeSetStatus::Abandoned),
                None => true,
            }
        };
        let es_ok = if r.visibility.edit_session_pk == NO_EDIT_SESSION_PK {
            true
        } else {
            match self.edit_session_record(r.visibility.edit_session_pk) {
                Some(es) => !matches!(es.status, EditSessionStatus::Canceled),
                None => true,
            }
        };
        cs_ok && es_ok
    }
}

impl Clone for Database {
    fn clone(&self) -> (res: Self)
        ensures
            res.state_eq(*self),
    {
        let rows = self.rows.clone();
        let relations = self.relations.clone();
        let change_sets = self.change_sets.clone();
        let edit_sessions = self.edit_sessions.clone();
        proof {
            assert(rows@ =~= self.rows@);
            assert(relations@ =~= self.relations@);
            assert(change_sets@ =~= self.change_sets@);
            assert(edit_sessions@ =~= self.edit_sessions@);
        }
        Database {
            rows,
            relations,
            change_sets,
            edit_sessions,
            history: self.history.clone(),
            next_pk: self.next_pk,
            next_id: self.next_id,
        }
    }
}

} // verus!
