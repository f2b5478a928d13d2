//! The generic versioned-record engine shared by every entity kind.
//!
//! Each operation is filtered through the caller's tenancy scope and
//! visibility context, writes by appending a new row version, and pairs
//! every successful mutation with one history event in the same unit of
//! work.

use vstd::prelude::*;
use vstd::string::StringExecFns;

use crate::database::latest_matching;
use crate::database::lemma_latest_matching_none;
use crate::database::lemma_latest_matching_some;
use crate::database::Database;
use crate::error::ModelError;
use crate::history::HistoryActor;
use crate::history::HistoryEvent;
use crate::history::HistorySnapshot;
use crate::payload::EntityKind;
use crate::payload::Payload;
use crate::row::Row;
use crate::tenancy::Tenancy;
use crate::tenancy::TenancyScope;
use crate::timestamp::Timestamp;
use crate::visibility::Visibility;
use crate::visibility::NO_CHANGE_SET_PK;
use crate::visibility::NO_EDIT_SESSION_PK;

verus! {

/// A history label `<table>.<op>`, e.g. `props.create`.
pub open spec fn op_label_spec(kind: EntityKind, op: Seq<char>) -> Seq<char> {
    kind.table_name_spec() + op
}

fn op_label(kind: EntityKind, op: &str) -> (s: String)
    ensures
        s@ == op_label_spec(kind, op@),
{
    let mut s = kind.table_name().to_owned();
    s.append(op);
    s
}

impl Database {
    /// A context admits writes only when its references are live: the
    /// change set Open, the edit session Open and belonging to that change
    /// set. The head/no-draft sentinels are always writable.
    pub open spec fn context_writable(self, vis: Visibility) -> bool {
        &&& (vis.edit_session_pk != NO_EDIT_SESSION_PK ==> vis.change_set_pk != NO_CHANGE_SET_PK)
        &&& (vis.change_set_pk != NO_CHANGE_SET_PK ==> crate::database::change_set_status_of(
            self.change_sets@,
            vis.change_set_pk,
        ) == Some(crate::change_set::ChangeSetStatus::Open))
        &&& (vis.edit_session_pk != NO_EDIT_SESSION_PK ==> match crate::database::edit_session_of(
            self.edit_sessions@,
            vis.edit_session_pk,
        ) {
            Some(es) => es.status == crate::edit_session::EditSessionStatus::Open
                && es.change_set_pk == vis.change_set_pk,
            None => false,
        })
    }

    pub fn context_writable_x(&self, vis: &Visibility) -> (b: bool)
        ensures
            b == self.context_writable(*vis),
    {
        if vis.edit_session_pk != NO_EDIT_SESSION_PK && vis.change_set_pk == NO_CHANGE_SET_PK {
            return false;
        }
        if vis.change_set_pk != NO_CHANGE_SET_PK {
            let open = match self.change_set_record(vis.change_set_pk) {
                Some(cs) => matches!(cs.status, crate::change_set::ChangeSetStatus::Open),
                None => false,
            };
            if !open {
                return false;
            }
        }
        if vis.edit_session_pk != NO_EDIT_SESSION_PK {
            let ok = match self.edit_session_record(vis.edit_session_pk) {
                Some(es) => matches!(es.status, crate::edit_session::EditSessionStatus::Open)
                    && es.change_set_pk == vis.change_set_pk,
                None => false,
            };
            if !ok {
                return false;
            }
        }
        true
    }

    /// Row `l` is a version of record `(kind, id)` stored at exactly the
    /// triple `(cs, es)`.
    pub open spec fn same_record_at_triple(
        self,
        l: int,
        kind: EntityKind,
        id: i64,
        cs: i64,
        es: i64,
    ) -> bool {
        &&& self.rows@[l].kind == kind
        &&& self.rows@[l].id == id
        &&& self.rows@[l].visibility.change_set_pk == cs
        &&& self.rows@[l].visibility.edit_session_pk == es
    }

    /// Row `i` blocks `payload`'s name at the write triple of `vis`: it is
    /// the newest version of its record there, it is live, and it carries
    /// the same kind and name.
    pub open spec fn name_conflict_at(self, i: int, vis: Visibility, payload: Payload) -> bool {
        let r = self.rows@[i];
        &&& r.visibility.change_set_pk == vis.change_set_pk
        &&& r.visibility.edit_session_pk == vis.edit_session_pk
        &&& !r.visibility.deleted
        &&& r.payload.same_name_spec(payload)
        &&& forall|l: int|
            i < l < self.rows@.len() ==> !self.same_record_at_triple(
                l,
                r.kind,
                r.id,
                vis.change_set_pk,
                vis.edit_session_pk,
            )
    }

    /// The store's unique-name constraint: some live newest-version row at
    /// the write triple already carries this kind and name.
    pub open spec fn name_taken(self, vis: Visibility, payload: Payload) -> bool {
        exists|i: int| 0 <= i < self.rows@.len() && #[trigger] self.name_conflict_at(i, vis, payload)
    }

    /// `name_conflict_at`, phrased over the colliding kind and name alone.
    pub open spec fn name_conflict_view_at(
        self,
        i: int,
        vis: Visibility,
        kind: EntityKind,
        name: Seq<char>,
    ) -> bool {
        let r = self.rows@[i];
        &&& r.visibility.change_set_pk == vis.change_set_pk
        &&& r.visibility.edit_session_pk == vis.edit_session_pk
        &&& !r.visibility.deleted
        &&& r.payload.entity_kind_spec() == kind
        &&& r.payload.has_name_spec()
        &&& r.payload.name_spec() == name
        &&& forall|l: int|
            i < l < self.rows@.len() ==> !self.same_record_at_triple(
                l,
                r.kind,
                r.id,
                vis.change_set_pk,
                vis.edit_session_pk,
            )
    }

    /// The unique-name constraint, phrased over a kind and a name alone.
    pub open spec fn name_taken_view(
        self,
        vis: Visibility,
        kind: EntityKind,
        name: Seq<char>,
    ) -> bool {
        exists|i: int|
            0 <= i < self.rows@.len() && #[trigger] self.name_conflict_view_at(i, vis, kind, name)
    }

    /// Whether creating a payload of `kind` named `name` under `vis`, in
    /// the caller's own tenancy, must succeed.
    pub open spec fn create_named_ok(
        self,
        vis: Visibility,
        kind: EntityKind,
        name: Seq<char>,
    ) -> bool {
        self.context_writable(vis) && !self.name_taken_view(vis, kind, name)
    }

    /// Whether a newer version of row `i`'s record exists at `(cs, es)`.
    fn has_newer_version_at_triple(&self, i: usize, cs: i64, es: i64) -> (b: bool)
        requires
            i < self.rows@.len(),
        ensures
            b == exists|l: int|
                i < l < self.rows@.len() && #[trigger] self.same_record_at_triple(
                    l,
                    self.rows@[i as int].kind,
                    self.rows@[i as int].id,
                    cs,
                    es,
                ),
    {
        let n = self.rows.len();
        let r = &self.rows[i];
        let mut j: usize = i + 1;
        while j < n
            invariant
                i < j <= n,
                i < n,
                n == self.rows@.len(),
                *r == self.rows@[i as int],
                forall|l: int|
                    i < l < j ==> !(#[trigger] self.same_record_at_triple(
                        l,
                        self.rows@[i as int].kind,
                        self.rows@[i as int].id,
                        cs,
                        es,
                    )),
            decreases n - j,
        {
            let s = &self.rows[j];
            if s.id == r.id && s.kind == r.kind && s.visibility.change_set_pk == cs
                && s.visibility.edit_session_pk == es {
                proof {
                    assert(self.same_record_at_triple(
                        j as int,
                        self.rows@[i as int].kind,
                        self.rows@[i as int].id,
                        cs,
                        es,
                    ));
                }
                return true;
            }
            j = j + 1;
        }
        false
    }

    pub fn name_taken_x(&self, vis: &Visibility, payload: &Payload) -> (b: bool)
        ensures
            b == self.name_taken(*vis, *payload),
    {
        let n = self.rows.len();
        let mut i: usize = 0;
        while i < n
            invariant
                i <= n,
                n == self.rows@.len(),
                forall|k: int| 0 <= k < i ==> !(#[trigger] self.name_conflict_at(k, *vis, *payload)),
            decreases n - i,
        {
            let candidate = {
                let r = &self.rows[i];
                r.visibility.change_set_pk == vis.change_set_pk
                    && r.visibility.edit_session_pk == vis.edit_session_pk
                    && !r.visibility.deleted && r.payload.same_name(payload)
            };
            if candidate {
                let superseded = self.has_newer_version_at_triple(
                    i,
                    vis.change_set_pk,
                    vis.edit_session_pk,
                );
                if !superseded {
                    proof {
                        assert(self.name_conflict_at(i as int, *vis, *payload));
                    }
                    return true;
                }
            }
            i = i + 1;
        }
        false
    }

    /// Tier-1 scan: the newest reachable draft at exactly `(cs, es)`.
    pub(crate) fn latest_draft_index(&self, kind: EntityKind, id: i64, cs: i64, es: i64) -> (res: Option<
        usize,
    >)
        ensures
            match res {
                Some(i) => i < self.rows@.len() && latest_matching(
                    self.rows@,
                    self.draft_pred(kind, id, cs, es),
                ) == Some(self.rows@[i as int]),
                None => latest_matching(self.rows@, self.draft_pred(kind, id, cs, es)) is None,
            },
    {
        let n = self.rows.len();
        let mut i = n;
        while i > 0
            invariant
                i <= n,
                n == self.rows@.len(),
                forall|j: int|
                    i <= j < n ==> !self.draft_match(#[trigger] self.rows@[j], kind, id, cs, es),
            decreases i,
        {
            i = i - 1;
            let r = &self.rows[i];
            if r.kind == kind && r.id == id && r.visibility.change_set_pk == cs
                && r.visibility.edit_session_pk == es && self.row_reachable_x(r) {
                proof {
                    lemma_latest_matching_some(
                        self.rows@,
                        self.draft_pred(kind, id, cs, es),
                        i as int,
                    );
                }
                return Some(i);
            }
        }
        proof {
            lemma_latest_matching_none(self.rows@, self.draft_pred(kind, id, cs, es));
        }
        None
    }

    /// Tier-2 scan: the newest reachable pending-content version in `cs`.
    pub(crate) fn latest_change_set_index(&self, kind: EntityKind, id: i64, cs: i64) -> (res: Option<usize>)
        ensures
            match res {
                Some(i) => i < self.rows@.len() && latest_matching(
                    self.rows@,
                    self.change_set_pred(kind, id, cs),
                ) == Some(self.rows@[i as int]),
                None => latest_matching(self.rows@, self.change_set_pred(kind, id, cs)) is None,
            },
    {
        let n = self.rows.len();
        let mut i = n;
        while i > 0
            invariant
                i <= n,
                n == self.rows@.len(),
                forall|j: int|
                    i <= j < n ==> !self.change_set_match(#[trigger] self.rows@[j], kind, id, cs),
            decreases i,
        {
            i = i - 1;
            let r = &self.rows[i];
            let saved_or_none = if r.visibility.edit_session_pk == NO_EDIT_SESSION_PK {
                true
            } else {
                match self.edit_session_record(r.visibility.edit_session_pk) {
                    Some(es) => matches!(
                        es.status,
                        crate::edit_session::EditSessionStatus::Saved
                    ),
                    None => false,
                }
            };
            if r.kind == kind && r.id == id && r.visibility.change_set_pk == cs && saved_or_none
                && self.row_reachable_x(r) {
                proof {
                    lemma_latest_matching_some(
                        self.rows@,
                        self.change_set_pred(kind, id, cs),
                        i as int,
                    );
                }
                return Some(i);
            }
        }
        proof {
            lemma_latest_matching_none(self.rows@, self.change_set_pred(kind, id, cs));
        }
        None
    }

    /// Tier-3 scan: the newest head-baseline version.
    pub(crate) fn latest_head_index(&self, kind: EntityKind, id: i64) -> (res: Option<usize>)
        ensures
            match res {
                Some(i) => i < self.rows@.len() && latest_matching(
                    self.rows@,
                    crate::database::head_pred(kind, id),
                ) == Some(self.rows@[i as int]),
                None => latest_matching(self.rows@, crate::database::head_pred(kind, id)) is None,
            },
    {
        let n = self.rows.len();
        let mut i = n;
        while i > 0
            invariant
                i <= n,
                n == self.rows@.len(),
                forall|j: int|
                    i <= j < n ==> !(crate::database::head_pred(kind, id)(
                        #[trigger] self.rows@[j],
                    )),
            decreases i,
        {
            i = i - 1;
            let r = &self.rows[i];
            if r.kind == kind && r.id == id && r.visibility.change_set_pk == NO_CHANGE_SET_PK
                && r.visibility.edit_session_pk == NO_EDIT_SESSION_PK {
                proof {
                    lemma_latest_matching_some(
                        self.rows@,
                        crate::database::head_pred(kind, id),
                        i as int,
                    );
                }
                return Some(i);
            }
        }
        proof {
            lemma_latest_matching_none(self.rows@, crate::database::head_pred(kind, id));
        }
        None
    }

    /// The index of the version that decides resolution under `vis`.
    pub fn deciding_index(&self, vis: &Visibility, kind: EntityKind, id: i64) -> (res: Option<
        usize,
    >)
        ensures
            match res {
                Some(i) => i < self.rows@.len() && self.deciding_row(*vis, kind, id) == Some(
                    self.rows@[i as int],
                ),
                None => self.deciding_row(*vis, kind, id) is None,
            },
    {
        if vis.edit_session_pk != NO_EDIT_SESSION_PK {
            match self.latest_draft_index(kind, id, vis.change_set_pk, vis.edit_session_pk) {
                Some(i) => {
                    return Some(i);
                }
                None => {}
            }
        }
        if vis.change_set_pk != NO_CHANGE_SET_PK {
            match self.latest_change_set_index(kind, id, vis.change_set_pk) {
                Some(i) => {
                    return Some(i);
                }
                None => {}
            }
        }
        self.latest_head_index(kind, id)
    }

    /// What a point lookup answers: the resolved row, if its tenancy is
    /// within the caller's read scope.
    pub open spec fn find_spec(
        self,
        scope: TenancyScope,
        vis: Visibility,
        kind: EntityKind,
        id: i64,
    ) -> Option<Row> {
        match self.resolve(vis, kind, id) {
            Some(r) => if scope.read_ok(r.tenancy) {
                Some(r)
            } else {
                None
            },
            None => None,
        }
    }

    /// Point lookup: tenancy read filter plus visibility resolution.
    pub fn find(&self, scope: &TenancyScope, vis: &Visibility, kind: EntityKind, id: i64) -> (res:
        Option<&Row>)
        ensures
            match res {
                Some(r) => self.find_spec(*scope, *vis, kind, id) == Some(*r),
                None => self.find_spec(*scope, *vis, kind, id) is None,
            },
    {
        match self.deciding_index(vis, kind, id) {
            Some(i) => {
                let r = &self.rows[i];
                if (vis.deleted || !r.visibility.deleted) && scope.applies_to_read(&r.tenancy) {
                    Some(r)
                } else {
                    None
                }
            }
            None => None,
        }
    }

    /// The rows of `kind` that the given ids resolve to, in id order,
    /// skipping ids that do not resolve to a row of that kind.
    pub open spec fn resolved_rows(
        self,
        scope: TenancyScope,
        vis: Visibility,
        kind: EntityKind,
        ids: Seq<i64>,
    ) -> Seq<Row>
        decreases ids.len(),
    {
        if ids.len() == 0 {
            Seq::empty()
        } else {
            let prev = self.resolved_rows(scope, vis, kind, ids.drop_last());
            match self.find_spec(scope, vis, kind, ids.last()) {
                Some(r) => if r.payload.entity_kind_spec() == kind {
                    prev.push(r)
                } else {
                    prev
                },
                None => prev,
            }
        }
    }

    /// Every resolved row carries the requested kind, in its column and in
    /// its payload.
    pub proof fn lemma_resolved_rows_kinds(
        self,
        scope: TenancyScope,
        vis: Visibility,
        kind: EntityKind,
        ids: Seq<i64>,
    )
        ensures
            forall|k: int|
                0 <= k < self.resolved_rows(scope, vis, kind, ids).len() ==> (
                #[trigger] self.resolved_rows(scope, vis, kind, ids)[k]).payload.entity_kind_spec()
                    == kind && self.resolved_rows(scope, vis, kind, ids)[k].kind == kind,
        decreases ids.len(),
    {
        if ids.len() > 0 {
            self.lemma_resolved_rows_kinds(scope, vis, kind, ids.drop_last());
            lemma_deciding_row_in_rows(self, vis, kind, ids.last());
        }
    }

    /// Resolves each id to its row of `kind`, skipping the rest.
    pub fn resolve_all(
        &self,
        scope: &TenancyScope,
        vis: &Visibility,
        kind: EntityKind,
        ids: &Vec<i64>,
    ) -> (res: Vec<Row>)
        ensures
            res@ == self.resolved_rows(*scope, *vis, kind, ids@),
    {
        let n = ids.len();
        let mut res: Vec<Row> = Vec::new();
        let mut i: usize = 0;
        while i < n
            invariant
                i <= n,
                n == ids@.len(),
                res@ == self.resolved_rows(*scope, *vis, kind, ids@.take(i as int)),
            decreases n - i,
        {
            let ghost prefix = ids@.take(i as int);
            match self.find(scope, vis, kind, ids[i]) {
                Some(row) => {
                    if row.payload.entity_kind() == kind {
                        res.push(row.clone());
                    }
                }
                None => {}
            }
            proof {
                assert(ids@.take(i as int + 1).drop_last() =~= prefix);
                assert(ids@.take(i as int + 1).last() == ids@[i as int]);
            }
            i = i + 1;
        }
        proof {
            assert(ids@.take(n as int) =~= ids@);
        }
        res
    }

    /// Whether a create under this context and payload must succeed.
    pub open spec fn create_ok(
        self,
        scope: TenancyScope,
        vis: Visibility,
        tenancy: Tenancy,
        payload: Payload,
    ) -> bool {
        &&& scope.write_ok(tenancy)
        &&& self.context_writable(vis)
        &&& !self.name_taken(vis, payload)
    }

    /// The first version a create writes.
    pub open spec fn created_row(
        self,
        vis: Visibility,
        tenancy: Tenancy,
        payload: Payload,
        now: i64,
    ) -> Row {
        Row {
            pk: self.next_pk,
            id: self.next_id,
            kind: payload.entity_kind_spec(),
            tenancy,
            visibility: Visibility {
                change_set_pk: vis.change_set_pk,
                edit_session_pk: vis.edit_session_pk,
                deleted: false,
            },
            origin_change_set_pk: NO_CHANGE_SET_PK,
            timestamp: Timestamp { created_at: now, updated_at: now },
            payload,
        }
    }

    /// The version a mutation of an existing record appends: the record's
    /// identity and creation time carried forward, the triple stamped from
    /// the context, the update time refreshed.
    pub open spec fn next_version_row(
        self,
        base: Row,
        vis: Visibility,
        payload: Payload,
        deleted: bool,
        now: i64,
    ) -> Row {
        Row {
            pk: self.next_pk,
            id: base.id,
            kind: base.kind,
            tenancy: base.tenancy,
            visibility: Visibility {
                change_set_pk: vis.change_set_pk,
                edit_session_pk: vis.edit_session_pk,
                deleted,
            },
            origin_change_set_pk: NO_CHANGE_SET_PK,
            timestamp: Timestamp { created_at: base.timestamp.created_at, updated_at: now },
            payload,
        }
    }

    /// Creates a record: allocates a fresh logical id and writes its first
    /// version under the context's triple, appending one history event.
    pub fn create(
        &mut self,
        scope: &TenancyScope,
        vis: &Visibility,
        actor: &HistoryActor,
        tenancy: &Tenancy,
        payload: Payload,
        now: i64,
    ) -> (res: Result<Row, ModelError>)
        requires
            old(self).inv(),
            old(self).next_pk < i64::MAX,
            old(self).next_id < i64::MAX,
        ensures
            final(self).inv(),
            res is Ok <==> old(self).create_ok(*scope, *vis, *tenancy, payload),
            !scope.write_ok(*tenancy) ==> res == Err::<Row, ModelError>(
                ModelError::TenancyViolation,
            ) && *final(self) == *old(self),
            scope.write_ok(*tenancy) && !old(self).context_writable(*vis) ==> res == Err::<
                Row,
                ModelError,
            >(ModelError::InvalidTransition) && *final(self) == *old(self),
            scope.write_ok(*tenancy) && old(self).context_writable(*vis) && old(self).name_taken(
                *vis,
                payload,
            ) ==> res == Err::<Row, ModelError>(ModelError::StorageError) && *final(self) == *old(
                self,
            ),
            res is Ok ==> {
                let row = old(self).created_row(*vis, *tenancy, payload, now);
                &&& res == Ok::<Row, ModelError>(row)
                &&& final(self).rows@ == old(self).rows@.push(row)
                &&& final(self).relations@ == old(self).relations@
                &&& final(self).change_sets@ == old(self).change_sets@
                &&& final(self).edit_sessions@ == old(self).edit_sessions@
                &&& final(self).next_pk == old(self).next_pk + 1
                &&& final(self).next_id == old(self).next_id + 1
                &&& final(self).history.events@ == old(self).history.events@.push(
                    final(self).history.events@.last(),
                )
                &&& {
                    let ev = final(self).history.events@.last();
                    &&& ev.label@ == op_label_spec(payload.entity_kind_spec(), ".create"@)
                    &&& ev.actor == *actor
                    &&& ev.snapshot == Some(HistorySnapshot::Row(row))
                    &&& ev.tenancy == *tenancy
                    &&& ev.at == now
                }
            },
    {
        if !scope.applies_to_write(tenancy) {
            return Err(ModelError::TenancyViolation);
        }
        if !self.context_writable_x(vis) {
            return Err(ModelError::InvalidTransition);
        }
        if self.name_taken_x(vis, &payload) {
            return Err(ModelError::StorageError);
        }
        let kind = payload.entity_kind();
        let row = Row {
            pk: self.next_pk,
            id: self.next_id,
            kind,
            tenancy: *tenancy,
            visibility: Visibility {
                change_set_pk: vis.change_set_pk,
                edit_session_pk: vis.edit_session_pk,
                deleted: false,
            },
            origin_change_set_pk: NO_CHANGE_SET_PK,
            timestamp: Timestamp::assigned(now),
            payload,
        };
        let returned = row.clone();
        let snapshot = row.clone();
        proof {
            lemma_writable_context_refs_bounded(*self, *vis);
        }
        self.rows.push(row);
        self.next_pk = self.next_pk + 1;
        self.next_id = self.next_id + 1;
        let event = HistoryEvent {
            label: op_label(kind, ".create"),
            message: "record created".to_owned(),
            actor: *actor,
            snapshot: Some(HistorySnapshot::Row(snapshot)),
            tenancy: *tenancy,
            at: now,
        };
        self.history.record(event);
        Ok(returned)
    }
}

/// The two phrasings of the unique-name constraint agree: a payload
/// collides exactly when its kind and name collide.
pub proof fn lemma_name_taken_view(db: Database, vis: Visibility, payload: Payload)
    requires
        payload.has_name_spec(),
    ensures
        db.name_taken(vis, payload) == db.name_taken_view(
            vis,
            payload.entity_kind_spec(),
            payload.name_spec(),
        ),
{
    let kind = payload.entity_kind_spec();
    let name = payload.name_spec();
    if db.name_taken(vis, payload) {
        let i = choose|i: int|
            0 <= i < db.rows@.len() && #[trigger] db.name_conflict_at(i, vis, payload);
        assert(db.name_conflict_view_at(i, vis, kind, name));
    }
    if db.name_taken_view(vis, kind, name) {
        let i = choose|i: int|
            0 <= i < db.rows@.len() && #[trigger] db.name_conflict_view_at(i, vis, kind, name);
        assert(db.name_conflict_at(i, vis, payload));
    }
}

/// The deciding row of `(kind, id)`, when there is one, is a stored version
/// of exactly that record.
pub proof fn lemma_deciding_row_in_rows(db: Database, vis: Visibility, kind: EntityKind, id: i64)
    ensures
        db.deciding_row(vis, kind, id) matches Some(r) ==> r.kind == kind && r.id == id && exists|
            i: int,
        | 0 <= i < db.rows@.len() && db.rows@[i] == r,
{
    if vis.edit_session_pk != NO_EDIT_SESSION_PK {
        crate::database::lemma_latest_matching_is_match(
            db.rows@,
            db.draft_pred(kind, id, vis.change_set_pk, vis.edit_session_pk),
        );
    }
    if vis.change_set_pk != NO_CHANGE_SET_PK {
        crate::database::lemma_latest_matching_is_match(
            db.rows@,
            db.change_set_pred(kind, id, vis.change_set_pk),
        );
    }
    crate::database::lemma_latest_matching_is_match(db.rows@, crate::database::head_pred(kind, id));
}

/// What creating one entity record does to a unit of work: the stamped
/// first version is appended, both counters advance, one create event with
/// the row as snapshot is logged, and nothing else moves.
pub open spec fn entity_created(
    pre: crate::coordinator::WorkContext,
    post: crate::coordinator::WorkContext,
    row: Row,
    kind: EntityKind,
) -> bool {
    &&& row.pk == pre.db.next_pk
    &&& row.id == pre.db.next_id
    &&& row.kind == kind
    &&& row.tenancy == pre.scope.scope
    &&& row.visibility == (Visibility {
        change_set_pk: pre.visibility.change_set_pk,
        edit_session_pk: pre.visibility.edit_session_pk,
        deleted: false,
    })
    &&& row.origin_change_set_pk == NO_CHANGE_SET_PK
    &&& row.timestamp == (Timestamp { created_at: pre.now, updated_at: pre.now })
    &&& post.db.rows@ == pre.db.rows@.push(row)
    &&& post.db.next_pk == pre.db.next_pk + 1
    &&& post.db.next_id == pre.db.next_id + 1
    &&& post.db.relations@ == pre.db.relations@
    &&& post.db.change_sets@ == pre.db.change_sets@
    &&& post.db.edit_sessions@ == pre.db.edit_sessions@
    &&& post.db.history.events@ == pre.db.history.events@.push(post.db.history.events@.last())
    &&& ({
        let ev = post.db.history.events@.last();
        &&& ev.label@ == op_label_spec(kind, ".create"@)
        &&& ev.actor == pre.actor
        &&& ev.snapshot == Some(HistorySnapshot::Row(row))
        &&& ev.tenancy == pre.scope.scope
        &&& ev.at == pre.now
    })
    &&& post.notifications@ == pre.notifications@
    &&& post.scope == pre.scope
    &&& post.visibility == pre.visibility
    &&& post.actor == pre.actor
    &&& post.now == pre.now
}

/// A writable context's references are already-allocated lifecycle rows,
/// so they lie below the shared surrogate-key counter.
pub proof fn lemma_writable_context_refs_bounded(db: Database, vis: Visibility)
    requires
        db.inv(),
        db.context_writable(vis),
    ensures
        vis.change_set_pk < db.next_pk,
        vis.edit_session_pk < db.next_pk,
{
    if vis.change_set_pk != NO_CHANGE_SET_PK {
        crate::database::lemma_latest_matching_is_match(
            db.change_sets@,
            crate::database::cs_pk_pred(vis.change_set_pk),
        );
        let r = crate::database::change_set_of(db.change_sets@, vis.change_set_pk).unwrap();
        let i = choose|i: int| 0 <= i < db.change_sets@.len() && db.change_sets@[i] == r;
        assert(db.change_sets@[i].pk < db.next_pk);
    }
    if vis.edit_session_pk != NO_EDIT_SESSION_PK {
        crate::database::lemma_latest_matching_is_match(
            db.edit_sessions@,
            crate::database::es_pk_pred(vis.edit_session_pk),
        );
        let r = crate::database::edit_session_of(db.edit_sessions@, vis.edit_session_pk).unwrap();
        let i = choose|i: int| 0 <= i < db.edit_sessions@.len() && db.edit_sessions@[i] == r;
        assert(db.edit_sessions@[i].pk < db.next_pk);
    }
}

/// Appending a version of one record leaves every other record's deciding
/// version unchanged.
pub proof fn lemma_decides_preserved_after_append(
    pre: Database,
    post: Database,
    vis: Visibility,
    nr: Row,
    kind: EntityKind,
    id: i64,
)
    requires
        post.rows@ == pre.rows@.push(nr),
        post.change_sets@ == pre.change_sets@,
        post.edit_sessions@ == pre.edit_sessions@,
        !(nr.kind == kind && nr.id == id),
    ensures
        post.deciding_row(vis, kind, id) == pre.deciding_row(vis, kind, id),
{
    let cs = vis.change_set_pk;
    let es = vis.edit_session_pk;
    assert(post.draft_pred(kind, id, cs, es) =~= pre.draft_pred(kind, id, cs, es));
    assert(post.change_set_pred(kind, id, cs) =~= pre.change_set_pred(kind, id, cs));
    if es != NO_EDIT_SESSION_PK {
        crate::database::lemma_latest_matching_push_no_match(
            pre.rows@,
            pre.draft_pred(kind, id, cs, es),
            nr,
        );
    }
    if cs != NO_CHANGE_SET_PK {
        crate::database::lemma_latest_matching_push_no_match(
            pre.rows@,
            pre.change_set_pred(kind, id, cs),
            nr,
        );
    }
    crate::database::lemma_latest_matching_push_no_match(
        pre.rows@,
        crate::database::head_pred(kind, id),
        nr,
    );
}

/// In a context whose references are live, a row stamped with the context's
/// triple is reachable.
pub proof fn lemma_writable_context_row_reachable(db: Database, vis: Visibility, nr: Row)
    requires
        db.context_writable(vis),
        nr.visibility.change_set_pk == vis.change_set_pk,
        nr.visibility.edit_session_pk == vis.edit_session_pk,
    ensures
        db.row_reachable(nr),
{
}

/// Appending a version stamped with the context's triple makes it the
/// deciding version of its record under that context.
pub proof fn lemma_decides_after_append(pre: Database, post: Database, vis: Visibility, nr: Row)
    requires
        post.rows@ == pre.rows@.push(nr),
        post.change_sets@ == pre.change_sets@,
        post.edit_sessions@ == pre.edit_sessions@,
        nr.visibility.change_set_pk == vis.change_set_pk,
        nr.visibility.edit_session_pk == vis.edit_session_pk,
        post.row_reachable(nr),
    ensures
        post.deciding_row(vis, nr.kind, nr.id) == Some(nr),
{
    let kind = nr.kind;
    let id = nr.id;
    if vis.edit_session_pk != NO_EDIT_SESSION_PK {
        assert(post.draft_match(nr, kind, id, vis.change_set_pk, vis.edit_session_pk));
        crate::database::lemma_latest_matching_push_match(
            pre.rows@,
            post.draft_pred(kind, id, vis.change_set_pk, vis.edit_session_pk),
            nr,
        );
    } else if vis.change_set_pk != NO_CHANGE_SET_PK {
        assert(post.change_set_match(nr, kind, id, vis.change_set_pk));
        crate::database::lemma_latest_matching_push_match(
            pre.rows@,
            post.change_set_pred(kind, id, vis.change_set_pk),
            nr,
        );
    } else {
        assert(crate::database::head_pred(kind, id)(nr));
        crate::database::lemma_latest_matching_push_match(
            pre.rows@,
            crate::database::head_pred(kind, id),
            nr,
        );
    }
}

impl Database {
    /// Whether an update or soft-delete of `(kind, id)` must succeed.
    pub open spec fn mutate_ok(
        self,
        scope: TenancyScope,
        vis: Visibility,
        kind: EntityKind,
        id: i64,
    ) -> bool {
        &&& self.context_writable(vis)
        &&& self.resolve(vis, kind, id) is Some
        &&& scope.write_ok(self.resolve(vis, kind, id).unwrap().tenancy)
    }

    /// Updates a record: resolves its current live version and appends a
    /// new version with the given payload under the context's triple.
    pub fn update(
        &mut self,
        scope: &TenancyScope,
        vis: &Visibility,
        actor: &HistoryActor,
        kind: EntityKind,
        id: i64,
        payload: Payload,
        now: i64,
    ) -> (res: Result<Row, ModelError>)
        requires
            old(self).inv(),
            old(self).next_pk < i64::MAX,
            payload.entity_kind_spec() == kind,
        ensures
            final(self).inv(),
            res is Ok <==> old(self).mutate_ok(*scope, *vis, kind, id),
            !old(self).context_writable(*vis) ==> res == Err::<Row, ModelError>(
                ModelError::InvalidTransition,
            ) && *final(self) == *old(self),
            old(self).context_writable(*vis) && old(self).resolve(*vis, kind, id) is None ==> res
                == Err::<Row, ModelError>(ModelError::NotFound) && *final(self) == *old(self),
            old(self).resolve(*vis, kind, id) matches Some(base) && old(self).context_writable(*vis)
                && !scope.write_ok(base.tenancy) ==> res == Err::<Row, ModelError>(
                ModelError::TenancyViolation,
            ) && *final(self) == *old(self),
            res is Ok ==> {
                let base = old(self).resolve(*vis, kind, id).unwrap();
                let row = old(self).next_version_row(base, *vis, payload, false, now);
                &&& res == Ok::<Row, ModelError>(row)
                &&& final(self).rows@ == old(self).rows@.push(row)
                &&& final(self).relations@ == old(self).relations@
                &&& final(self).change_sets@ == old(self).change_sets@
                &&& final(self).edit_sessions@ == old(self).edit_sessions@
                &&& final(self).next_pk == old(self).next_pk + 1
                &&& final(self).next_id == old(self).next_id
                &&& final(self).resolve(*vis, kind, id) == Some(row)
                &&& final(self).history.events@ == old(self).history.events@.push(
                    final(self).history.events@.last(),
                )
                &&& {
                    let ev = final(self).history.events@.last();
                    &&& ev.label@ == op_label_spec(kind, ".update"@)
                    &&& ev.actor == *actor
                    &&& ev.snapshot == Some(HistorySnapshot::Row(row))
                    &&& ev.tenancy == base.tenancy
                    &&& ev.at == now
                }
            },
    {
        if !self.context_writable_x(vis) {
            return Err(ModelError::InvalidTransition);
        }
        let base_index = match self.deciding_index(vis, kind, id) {
            Some(i) => {
                let live = vis.deleted || !self.rows[i].visibility.deleted;
                if !live {
                    return Err(ModelError::NotFound);
                }
                i
            }
            None => {
                return Err(ModelError::NotFound);
            }
        };
        proof {
            lemma_deciding_row_in_rows(*self, *vis, kind, id);
            let r = self.deciding_row(*vis, kind, id).unwrap();
            let wi = choose|w: int| 0 <= w < self.rows@.len() && self.rows@[w] == r;
            assert(self.rows@[wi].id < self.next_id);
            assert(self.rows@[wi].pk < self.next_pk);
        }
        let base_tenancy = self.rows[base_index].tenancy;
        let base_created_at = self.rows[base_index].timestamp.created_at;
        if !scope.applies_to_write(&base_tenancy) {
            return Err(ModelError::TenancyViolation);
        }
        let row = Row {
            pk: self.next_pk,
            id,
            kind,
            tenancy: base_tenancy,
            visibility: Visibility {
                change_set_pk: vis.change_set_pk,
                edit_session_pk: vis.edit_session_pk,
                deleted: false,
            },
            origin_change_set_pk: NO_CHANGE_SET_PK,
            timestamp: Timestamp { created_at: base_created_at, updated_at: now },
            payload,
        };
        let returned = row.clone();
        let snapshot = row.clone();
        let ghost pre = *self;
        proof {
            lemma_writable_context_refs_bounded(*self, *vis);
        }
        self.rows.push(row);
        self.next_pk = self.next_pk + 1;
        let event = HistoryEvent {
            label: op_label(kind, ".update"),
            message: "record updated".to_owned(),
            actor: *actor,
            snapshot: Some(HistorySnapshot::Row(snapshot)),
            tenancy: base_tenancy,
            at: now,
        };
        self.history.record(event);
        proof {
            let nr = pre.next_version_row(
                pre.resolve(*vis, kind, id).unwrap(),
                *vis,
                returned.payload,
                false,
                now,
            );
            lemma_writable_context_row_reachable(*self, *vis, nr);
            lemma_decides_after_append(pre, *self, *vis, nr);
        }
        Ok(returned)
    }

    /// Soft-deletes a record: appends a tombstoned version carrying the
    /// resolved payload unchanged, preserving full history.
    pub fn soft_delete(
        &mut self,
        scope: &TenancyScope,
        vis: &Visibility,
        actor: &HistoryActor,
        kind: EntityKind,
        id: i64,
        now: i64,
    ) -> (res: Result<(), ModelError>)
        requires
            old(self).inv(),
            old(self).next_pk < i64::MAX,
        ensures
            final(self).inv(),
            res is Ok <==> old(self).mutate_ok(*scope, *vis, kind, id),
            !old(self).context_writable(*vis) ==> res == Err::<(), ModelError>(
                ModelError::InvalidTransition,
            ) && *final(self) == *old(self),
            old(self).context_writable(*vis) && old(self).resolve(*vis, kind, id) is None ==> res
                == Err::<(), ModelError>(ModelError::NotFound) && *final(self) == *old(self),
            old(self).resolve(*vis, kind, id) matches Some(base) && old(self).context_writable(*vis)
                && !scope.write_ok(base.tenancy) ==> res == Err::<(), ModelError>(
                ModelError::TenancyViolation,
            ) && *final(self) == *old(self),
            res is Ok ==> {
                let base = old(self).resolve(*vis, kind, id).unwrap();
                let row = old(self).next_version_row(base, *vis, base.payload, true, now);
                &&& final(self).rows@ == old(self).rows@.push(row)
                &&& final(self).relations@ == old(self).relations@
                &&& final(self).change_sets@ == old(self).change_sets@
                &&& final(self).edit_sessions@ == old(self).edit_sessions@
                &&& final(self).next_pk == old(self).next_pk + 1
                &&& final(self).next_id == old(self).next_id
                &&& final(self).resolve(vis.with_deleted_spec(false), kind, id) is None
                &&& final(self).resolve(vis.with_deleted_spec(true), kind, id) == Some(row)
                &&& final(self).history.events@ == old(self).history.events@.push(
                    final(self).history.events@.last(),
                )
                &&& {
                    let ev = final(self).history.events@.last();
                    &&& ev.label@ == op_label_spec(kind, ".delete"@)
                    &&& ev.actor == *actor
                    &&& ev.snapshot == Some(HistorySnapshot::Row(row))
                    &&& ev.tenancy == base.tenancy
                    &&& ev.at == now
                }
            },
    {
        if !self.context_writable_x(vis) {
            return Err(ModelError::InvalidTransition);
        }
        let base_index = match self.deciding_index(vis, kind, id) {
            Some(i) => {
                let live = vis.deleted || !self.rows[i].visibility.deleted;
                if !live {
                    return Err(ModelError::NotFound);
                }
                i
            }
            None => {
                return Err(ModelError::NotFound);
            }
        };
        proof {
            lemma_deciding_row_in_rows(*self, *vis, kind, id);
            let r = self.deciding_row(*vis, kind, id).unwrap();
            let wi = choose|w: int| 0 <= w < self.rows@.len() && self.rows@[w] == r;
            assert(self.rows@[wi].id < self.next_id);
            assert(self.rows@[wi].pk < self.next_pk);
        }
        let base_tenancy = self.rows[base_index].tenancy;
        let base_created_at = self.rows[base_index].timestamp.created_at;
        if !scope.applies_to_write(&base_tenancy) {
            return Err(ModelError::TenancyViolation);
        }
        let payload = self.rows[base_index].payload.clone();
        let row = Row {
            pk: self.next_pk,
            id,
            kind,
            tenancy: base_tenancy,
            visibility: Visibility {
                change_set_pk: vis.change_set_pk,
                edit_session_pk: vis.edit_session_pk,
                deleted: true,
            },
            origin_change_set_pk: NO_CHANGE_SET_PK,
            timestamp: Timestamp { created_at: base_created_at, updated_at: now },
            payload,
        };
        let snapshot = row.clone();
        let ghost pre = *self;
        let ghost nr = row;
        proof {
            lemma_writable_context_refs_bounded(*self, *vis);
        }
        self.rows.push(row);
        self.next_pk = self.next_pk + 1;
        let event = HistoryEvent {
            label: op_label(kind, ".delete"),
            message: "record deleted".to_owned(),
            actor: *actor,
            snapshot: Some(HistorySnapshot::Row(snapshot)),
            tenancy: base_tenancy,
            at: now,
        };
        self.history.record(event);
        proof {
            lemma_writable_context_row_reachable(*self, vis.with_deleted_spec(false), nr);
            lemma_decides_after_append(pre, *self, vis.with_deleted_spec(false), nr);
            lemma_decides_after_append(pre, *self, vis.with_deleted_spec(true), nr);
        }
        Ok(())
    }

    /// Restores a record: resolves its deciding version even when
    /// tombstoned, and appends a live version carrying the payload
    /// unchanged.
    pub fn restore(
        &mut self,
        scope: &TenancyScope,
        vis: &Visibility,
        actor: &HistoryActor,
        kind: EntityKind,
        id: i64,
        now: i64,
    ) -> (res: Result<Row, ModelError>)
        requires
            old(self).inv(),
            old(self).next_pk < i64::MAX,
        ensures
            final(self).inv(),
            res is Ok <==> {
                &&& old(self).context_writable(*vis)
                &&& old(self).deciding_row(*vis, kind, id) is Some
                &&& scope.write_ok(old(self).deciding_row(*vis, kind, id).unwrap().tenancy)
            },
            !old(self).context_writable(*vis) ==> res == Err::<Row, ModelError>(
                ModelError::InvalidTransition,
            ) && *final(self) == *old(self),
            old(self).context_writable(*vis) && old(self).deciding_row(*vis, kind, id) is None
                ==> res == Err::<Row, ModelError>(ModelError::NotFound) && *final(self) == *old(
                self,
            ),
            old(self).deciding_row(*vis, kind, id) matches Some(base) && old(self).context_writable(*vis) && !scope.write_ok(base.tenancy) ==> res == Err::<Row, ModelError>(
                ModelError::TenancyViolation,
            ) && *final(self) == *old(self),
            res is Ok ==> {
                let base = old(self).deciding_row(*vis, kind, id).unwrap();
                let row = old(self).next_version_row(base, *vis, base.payload, false, now);
                &&& res == Ok::<Row, ModelError>(row)
                &&& final(self).rows@ == old(self).rows@.push(row)
                &&& final(self).relations@ == old(self).relations@
                &&& final(self).change_sets@ == old(self).change_sets@
                &&& final(self).edit_sessions@ == old(self).edit_sessions@
                &&& final(self).next_pk == old(self).next_pk + 1
                &&& final(self).next_id == old(self).next_id
                &&& final(self).resolve(vis.with_deleted_spec(false), kind, id) == Some(row)
                &&& final(self).history.events@ == old(self).history.events@.push(
                    final(self).history.events@.last(),
                )
                &&& {
                    let ev = final(self).history.events@.last();
                    &&& ev.label@ == op_label_spec(kind, ".restore"@)
                    &&& ev.actor == *actor
                    &&& ev.snapshot == Some(HistorySnapshot::Row(row))
                    &&& ev.tenancy == base.tenancy
                    &&& ev.at == now
                }
            },
    {
        if !self.context_writable_x(vis) {
            return Err(ModelError::InvalidTransition);
        }
        let base_index = match self.deciding_index(vis, kind, id) {
            Some(i) => i,
            None => {
                return Err(ModelError::NotFound);
            }
        };
        proof {
            lemma_deciding_row_in_rows(*self, *vis, kind, id);
            let r = self.deciding_row(*vis, kind, id).unwrap();
            let wi = choose|w: int| 0 <= w < self.rows@.len() && self.rows@[w] == r;
            assert(self.rows@[wi].id < self.next_id);
            assert(self.rows@[wi].pk < self.next_pk);
        }
        let base_tenancy = self.rows[base_index].tenancy;
        let base_created_at = self.rows[base_index].timestamp.created_at;
        if !scope.applies_to_write(&base_tenancy) {
            return Err(ModelError::TenancyViolation);
        }
        let payload = self.rows[base_index].payload.clone();
        let row = Row {
            pk: self.next_pk,
            id,
            kind,
            tenancy: base_tenancy,
            visibility: Visibility {
                change_set_pk: vis.change_set_pk,
                edit_session_pk: vis.edit_session_pk,
                deleted: false,
            },
            origin_change_set_pk: NO_CHANGE_SET_PK,
            timestamp: Timestamp { created_at: base_created_at, updated_at: now },
            payload,
        };
        let returned = row.clone();
        let snapshot = row.clone();
        let ghost pre = *self;
        let ghost nr = row;
        proof {
            lemma_writable_context_refs_bounded(*self, *vis);
        }
        self.rows.push(row);
        self.next_pk = self.next_pk + 1;
        let event = HistoryEvent {
            label: op_label(kind, ".restore"),
            message: "record restored".to_owned(),
            actor: *actor,
            snapshot: Some(HistorySnapshot::Row(snapshot)),
            tenancy: base_tenancy,
            at: now,
        };
        self.history.record(event);
        proof {
            lemma_writable_context_row_reachable(*self, vis.with_deleted_spec(false), nr);
            lemma_decides_after_append(pre, *self, vis.with_deleted_spec(false), nr);
        }
        Ok(returned)
    }
}

} // verus!
