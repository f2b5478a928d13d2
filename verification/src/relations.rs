//! Belongs-to and many-to-many relations between records.
//!
//! A relation is stored as versioned join-table rows under the same
//! tenancy and visibility discipline as record rows. A belongs-to link is
//! identified by `(kind, object)` — a newer version repoints or tombstones
//! it; a many-to-many link is identified by the full `(kind, object,
//! target)` pair. Resolution walks the same three tiers as record
//! resolution, and the newest version within the deciding tier wins.

use vstd::prelude::*;

use crate::database::latest_matching;
use crate::database::lemma_latest_matching_none;
use crate::database::lemma_latest_matching_push_no_match;
use crate::database::lemma_latest_matching_push_match;
use crate::database::lemma_latest_matching_some;
use crate::database::Database;
use crate::edit_session::EditSessionStatus;
use crate::error::ModelError;
use crate::history::HistoryActor;
use crate::history::HistoryEvent;
use crate::history::HistorySnapshot;
use crate::payload::Payload;
use crate::row::RelationKind;
use crate::row::RelationRow;
use crate::tenancy::TenancyScope;
use crate::timestamp::Timestamp;
use crate::visibility::Visibility;
use crate::visibility::NO_CHANGE_SET_PK;
use crate::visibility::NO_EDIT_SESSION_PK;

verus! {

/// Whether `l` is a version of the link identified by `(kind, object_id)`
/// and, where given, the target.
pub open spec fn link_key_match(
    l: RelationRow,
    kind: RelationKind,
    object_id: i64,
    target: Option<i64>,
) -> bool {
    &&& l.kind == kind
    &&& l.object_id == object_id
    &&& (target matches Some(t) ==> l.target_id == t)
}

/// The key that identifies the link a stored relation row belongs to.
pub open spec fn link_self_target(l: RelationRow) -> Option<i64> {
    if l.kind.is_many_spec() {
        Some(l.target_id)
    } else {
        None
    }
}

/// A head-baseline version of a link.
pub open spec fn link_head_pred(kind: RelationKind, object_id: i64, target: Option<i64>) -> spec_fn(
    RelationRow,
) -> bool {
    |l: RelationRow|
        link_key_match(l, kind, object_id, target) && l.visibility.change_set_pk
            == NO_CHANGE_SET_PK && l.visibility.edit_session_pk == NO_EDIT_SESSION_PK
}

/// The structural constraint a relation kind imposes on its target: a
/// parent property must be of a container kind.
pub open spec fn relation_structure_ok(kind: RelationKind, target_payload: Payload) -> bool {
    match kind {
        RelationKind::PropParentProp => target_payload matches Payload::Prop { kind: pk, .. }
            && pk.is_container_spec(),
        _ => true,
    }
}

impl Database {
    /// A link under an abandoned change set or canceled edit session is
    /// orphaned.
    pub open spec fn link_reachable(self, l: RelationRow) -> bool {
        &&& (l.visibility.change_set_pk == NO_CHANGE_SET_PK
            || crate::database::change_set_status_of(
            self.change_sets@,
            l.visibility.change_set_pk,
        ) != Some(crate::change_set::ChangeSetStatus::Abandoned))
        &&& (l.visibility.edit_session_pk == NO_EDIT_SESSION_PK
            || crate::database::edit_session_status_of(
            self.edit_sessions@,
            l.visibility.edit_session_pk,
        ) != Some(EditSessionStatus::Canceled))
    }

    /// Tier 1: a reachable link version drafted at exactly `(cs, es)`.
    pub open spec fn link_draft_pred(
        self,
        kind: RelationKind,
        object_id: i64,
        target: Option<i64>,
        cs: i64,
        es: i64,
    ) -> spec_fn(RelationRow) -> bool {
        |l: RelationRow|
            link_key_match(l, kind, object_id, target) && l.visibility.change_set_pk == cs
                && l.visibility.edit_session_pk == es && self.link_reachable(l)
    }

    /// Tier 2: a reachable link version that is change-set pending content.
    pub open spec fn link_change_set_pred(
        self,
        kind: RelationKind,
        object_id: i64,
        target: Option<i64>,
        cs: i64,
    ) -> spec_fn(RelationRow) -> bool {
        |l: RelationRow|
            link_key_match(l, kind, object_id, target) && l.visibility.change_set_pk == cs && (
            l.visibility.edit_session_pk == NO_EDIT_SESSION_PK
                || crate::database::edit_session_status_of(
                self.edit_sessions@,
                l.visibility.edit_session_pk,
            ) == Some(EditSessionStatus::Saved)) && self.link_reachable(l)
    }

    /// The link version that decides resolution under `vis`.
    pub open spec fn deciding_link(
        self,
        vis: Visibility,
        kind: RelationKind,
        object_id: i64,
        target: Option<i64>,
    ) -> Option<RelationRow> {
        let t1 = if vis.edit_session_pk != NO_EDIT_SESSION_PK {
            latest_matching(
                self.relations@,
                self.link_draft_pred(
                    kind,
                    object_id,
                    target,
                    vis.change_set_pk,
                    vis.edit_session_pk,
                ),
            )
        } else {
            None
        };
        if t1 is Some {
            t1
        } else {
            let t2 = if vis.change_set_pk != NO_CHANGE_SET_PK {
                latest_matching(
                    self.relations@,
                    self.link_change_set_pred(kind, object_id, target, vis.change_set_pk),
                )
            } else {
                None
            };
            if t2 is Some {
                t2
            } else {
                latest_matching(self.relations@, link_head_pred(kind, object_id, target))
            }
        }
    }

    /// Full link resolution: the deciding version if it is live.
    pub open spec fn resolve_link(
        self,
        vis: Visibility,
        kind: RelationKind,
        object_id: i64,
        target: Option<i64>,
    ) -> Option<RelationRow> {
        match self.deciding_link(vis, kind, object_id, target) {
            Some(l) => if vis.deleted || !l.visibility.deleted {
                Some(l)
            } else {
                None
            },
            None => None,
        }
    }

    /// Whether the link can be reached by any resolution path.
    pub(crate) fn link_reachable_x(&self, l: &RelationRow) -> (b: bool)
        ensures
            b == self.link_reachable(*l),
    {
        let cs_ok = if l.visibility.change_set_pk == NO_CHANGE_SET_PK {
            true
        } else {
            match self.change_set_record(l.visibility.change_set_pk) {
                Some(cs) => !matches!(cs.status, crate::change_set::ChangeSetStatus::Abandoned),
                None => true,
            }
        };
        let es_ok = if l.visibility.edit_session_pk == NO_EDIT_SESSION_PK {
            true
        } else {
            match self.edit_session_record(l.visibility.edit_session_pk) {
                Some(es) => !matches!(es.status, EditSessionStatus::Canceled),
                None => true,
            }
        };
        cs_ok && es_ok
    }

    /// Whether relation row `m` matches the key `(kind, object_id, target)`.
    fn link_key_match_at(
        &self,
        m: usize,
        kind: RelationKind,
        object_id: i64,
        target: Option<i64>,
    ) -> (b: bool)
        requires
            m < self.relations@.len(),
        ensures
            b == link_key_match(self.relations@[m as int], kind, object_id, target),
    {
        let l = &self.relations[m];
        let target_ok = match target {
            Some(t) => l.target_id == t,
            None => true,
        };
        l.kind == kind && l.object_id == object_id && target_ok
    }

    /// Tier-1 scan over the relation table.
    fn latest_link_draft_index(
        &self,
        kind: RelationKind,
        object_id: i64,
        target: Option<i64>,
        cs: i64,
        es: i64,
    ) -> (res: Option<usize>)
        ensures
            match res {
                Some(i) => i < self.relations@.len() && latest_matching(
                    self.relations@,
                    self.link_draft_pred(kind, object_id, target, cs, es),
                ) == Some(self.relations@[i as int]),
                None => latest_matching(
                    self.relations@,
                    self.link_draft_pred(kind, object_id, target, cs, es),
                ) is None,
            },
    {
        let n = self.relations.len();
        let mut i = n;
        while i > 0
            invariant
                i <= n,
                n == self.relations@.len(),
                forall|j: int|
                    i <= j < n ==> !(self.link_draft_pred(kind, object_id, target, cs, es)(
                        #[trigger] self.relations@[j],
                    )),
            decreases i,
        {
            i = i - 1;
            let key_ok = self.link_key_match_at(i, kind, object_id, target);
            let l = &self.relations[i];
            if key_ok && l.visibility.change_set_pk == cs && l.visibility.edit_session_pk == es
                && self.link_reachable_x(l) {
                proof {
                    lemma_latest_matching_some(
                        self.relations@,
                        self.link_draft_pred(kind, object_id, target, cs, es),
                        i as int,
                    );
                }
                return Some(i);
            }
        }
        proof {
            lemma_latest_matching_none(
                self.relations@,
                self.link_draft_pred(kind, object_id, target, cs, es),
            );
        }
        None
    }

    /// Tier-2 scan over the relation table.
    fn latest_link_change_set_index(
        &self,
        kind: RelationKind,
        object_id: i64,
        target: Option<i64>,
        cs: i64,
    ) -> (res: Option<usize>)
        ensures
            match res {
                Some(i) => i < self.relations@.len() && latest_matching(
                    self.relations@,
                    self.link_change_set_pred(kind, object_id, target, cs),
                ) == Some(self.relations@[i as int]),
                None => latest_matching(
                    self.relations@,
                    self.link_change_set_pred(kind, object_id, target, cs),
                ) is None,
            },
    {
        let n = self.relations.len();
        let mut i = n;
        while i > 0
            invariant
                i <= n,
                n == self.relations@.len(),
                forall|j: int|
                    i <= j < n ==> !(self.link_change_set_pred(kind, object_id, target, cs)(
                        #[trigger] self.relations@[j],
                    )),
            decreases i,
        {
            i = i - 1;
            let key_ok = self.link_key_match_at(i, kind, object_id, target);
            let l = &self.relations[i];
            let saved_or_none = if l.visibility.edit_session_pk == NO_EDIT_SESSION_PK {
                true
            } else {
                match self.edit_session_record(l.visibility.edit_session_pk) {
                    Some(es) => matches!(es.status, EditSessionStatus::Saved),
                    None => false,
                }
            };
            if key_ok && l.visibility.change_set_pk == cs && saved_or_none
                && self.link_reachable_x(l) {
                proof {
                    lemma_latest_matching_some(
                        self.relations@,
                        self.link_change_set_pred(kind, object_id, target, cs),
                        i as int,
                    );
                }
                return Some(i);
            }
        }
        proof {
            lemma_latest_matching_none(
                self.relations@,
                self.link_change_set_pred(kind, object_id, target, cs),
            );
        }
        None
    }

    /// Tier-3 scan over the relation table.
    fn latest_link_head_index(
        &self,
        kind: RelationKind,
        object_id: i64,
        target: Option<i64>,
    ) -> (res: Option<usize>)
        ensures
            match res {
                Some(i) => i < self.relations@.len() && latest_matching(
                    self.relations@,
                    link_head_pred(kind, object_id, target),
                ) == Some(self.relations@[i as int]),
                None => latest_matching(
                    self.relations@,
                    link_head_pred(kind, object_id, target),
                ) is None,
            },
    {
        let n = self.relations.len();
        let mut i = n;
        while i > 0
            invariant
                i <= n,
                n == self.relations@.len(),
                forall|j: int|
                    i <= j < n ==> !(link_head_pred(kind, object_id, target)(
                        #[trigger] self.relations@[j],
                    )),
            decreases i,
        {
            i = i - 1;
            let key_ok = self.link_key_match_at(i, kind, object_id, target);
            let l = &self.relations[i];
            if key_ok && l.visibility.change_set_pk == NO_CHANGE_SET_PK
                && l.visibility.edit_session_pk == NO_EDIT_SESSION_PK {
                proof {
                    lemma_latest_matching_some(
                        self.relations@,
                        link_head_pred(kind, object_id, target),
                        i as int,
                    );
                }
                return Some(i);
            }
        }
        proof {
            lemma_latest_matching_none(self.relations@, link_head_pred(kind, object_id, target));
        }
        None
    }

    /// The index of the link version that decides resolution under `vis`.
    pub(crate) fn deciding_link_index(
        &self,
        vis: &Visibility,
        kind: RelationKind,
        object_id: i64,
        target: Option<i64>,
    ) -> (res: Option<usize>)
        ensures
            match res {
                Some(i) => i < self.relations@.len() && self.deciding_link(
                    *vis,
                    kind,
                    object_id,
                    target,
                ) == Some(self.relations@[i as int]),
                None => self.deciding_link(*vis, kind, object_id, target) is None,
            },
    {
        if vis.edit_session_pk != NO_EDIT_SESSION_PK {
            match self.latest_link_draft_index(
                kind,
                object_id,
                target,
                vis.change_set_pk,
                vis.edit_session_pk,
            ) {
                Some(i) => {
                    return Some(i);
                }
                None => {}
            }
        }
        if vis.change_set_pk != NO_CHANGE_SET_PK {
            match self.latest_link_change_set_index(kind, object_id, target, vis.change_set_pk) {
                Some(i) => {
                    return Some(i);
                }
                None => {}
            }
        }
        self.latest_link_head_index(kind, object_id, target)
    }
}

/// The deciding link version, when there is one, matches the key it was
/// resolved for.
pub proof fn lemma_deciding_link_matches(
    db: Database,
    vis: Visibility,
    kind: RelationKind,
    object_id: i64,
    target: Option<i64>,
)
    ensures
        db.deciding_link(vis, kind, object_id, target) matches Some(l) ==> link_key_match(
            l,
            kind,
            object_id,
            target,
        ),
{
    if vis.edit_session_pk != NO_EDIT_SESSION_PK {
        crate::database::lemma_latest_matching_is_match(
            db.relations@,
            db.link_draft_pred(kind, object_id, target, vis.change_set_pk, vis.edit_session_pk),
        );
    }
    if vis.change_set_pk != NO_CHANGE_SET_PK {
        crate::database::lemma_latest_matching_is_match(
            db.relations@,
            db.link_change_set_pred(kind, object_id, target, vis.change_set_pk),
        );
    }
    crate::database::lemma_latest_matching_is_match(
        db.relations@,
        link_head_pred(kind, object_id, target),
    );
}

/// What relating one link does to a unit of work: the stamped link version
/// is appended, the counter advances, one relation event carrying the link
/// as snapshot is logged, the link resolves under the context, and nothing
/// else moves.
pub open spec fn link_related(
    pre: crate::coordinator::WorkContext,
    post: crate::coordinator::WorkContext,
    kind: RelationKind,
    object_id: i64,
    target_id: i64,
) -> bool {
    let nl = pre.db.related_link(pre.visibility, kind, object_id, target_id, pre.now);
    &&& post.db.relations@ == pre.db.relations@.push(nl)
    &&& post.db.rows@ == pre.db.rows@
    &&& post.db.change_sets@ == pre.db.change_sets@
    &&& post.db.edit_sessions@ == pre.db.edit_sessions@
    &&& post.db.next_pk == pre.db.next_pk + 1
    &&& post.db.next_id == pre.db.next_id
    &&& post.db.resolve_link(
        pre.visibility,
        kind,
        object_id,
        if kind.is_many_spec() {
            Some(target_id)
        } else {
            None
        },
    ) == Some(nl)
    &&& post.db.history.events@ == pre.db.history.events@.push(post.db.history.events@.last())
    &&& ({
        let ev = post.db.history.events@.last();
        &&& ev.label@ == "relation.set"@
        &&& ev.actor == pre.actor
        &&& ev.snapshot == Some(HistorySnapshot::Relation(nl))
        &&& ev.at == pre.now
    })
    &&& post.notifications@ == pre.notifications@
    &&& post.scope == pre.scope
    &&& post.visibility == pre.visibility
    &&& post.actor == pre.actor
    &&& post.now == pre.now
}

/// What unrelating one link does to a unit of work: a tombstoned version
/// of the resolved link is appended, the counter advances, one relation
/// event carrying it as snapshot is logged, the link no longer resolves,
/// and nothing else moves.
pub open spec fn link_unrelated(
    pre: crate::coordinator::WorkContext,
    post: crate::coordinator::WorkContext,
    kind: RelationKind,
    object_id: i64,
    target: Option<i64>,
) -> bool {
    &&& post.db.relations@ == pre.db.relations@.push(post.db.relations@.last())
    &&& post.db.relations@.last().visibility.deleted
    &&& post.db.rows@ == pre.db.rows@
    &&& post.db.change_sets@ == pre.db.change_sets@
    &&& post.db.edit_sessions@ == pre.db.edit_sessions@
    &&& post.db.next_pk == pre.db.next_pk + 1
    &&& post.db.next_id == pre.db.next_id
    &&& post.db.resolve_link(
        pre.visibility.with_deleted_spec(false),
        kind,
        object_id,
        target,
    ) is None
    &&& post.db.history.events@ == pre.db.history.events@.push(post.db.history.events@.last())
    &&& ({
        let ev = post.db.history.events@.last();
        &&& ev.label@ == "relation.unset"@
        &&& ev.actor == pre.actor
        &&& ev.snapshot == Some(HistorySnapshot::Relation(post.db.relations@.last()))
        &&& ev.at == pre.now
    })
    &&& post.notifications@ == pre.notifications@
    &&& post.scope == pre.scope
    &&& post.visibility == pre.visibility
    &&& post.actor == pre.actor
    &&& post.now == pre.now
}

/// Appending a version of one link leaves every other link's deciding
/// version unchanged.
pub proof fn lemma_link_decides_preserved_after_append(
    pre: Database,
    post: Database,
    vis: Visibility,
    nl: RelationRow,
    kind: RelationKind,
    object_id: i64,
    target: Option<i64>,
)
    requires
        post.relations@ == pre.relations@.push(nl),
        post.change_sets@ == pre.change_sets@,
        post.edit_sessions@ == pre.edit_sessions@,
        !link_key_match(nl, kind, object_id, target),
    ensures
        post.deciding_link(vis, kind, object_id, target) == pre.deciding_link(
            vis,
            kind,
            object_id,
            target,
        ),
{
    let cs = vis.change_set_pk;
    let es = vis.edit_session_pk;
    assert(post.link_draft_pred(kind, object_id, target, cs, es) =~= pre.link_draft_pred(
        kind,
        object_id,
        target,
        cs,
        es,
    ));
    assert(post.link_change_set_pred(kind, object_id, target, cs) =~= pre.link_change_set_pred(
        kind,
        object_id,
        target,
        cs,
    ));
    if es != NO_EDIT_SESSION_PK {
        lemma_latest_matching_push_no_match(
            pre.relations@,
            pre.link_draft_pred(kind, object_id, target, cs, es),
            nl,
        );
    }
    if cs != NO_CHANGE_SET_PK {
        lemma_latest_matching_push_no_match(
            pre.relations@,
            pre.link_change_set_pred(kind, object_id, target, cs),
            nl,
        );
    }
    lemma_latest_matching_push_no_match(
        pre.relations@,
        link_head_pred(kind, object_id, target),
        nl,
    );
}

/// In a context whose references are live, a link stamped with the
/// context's triple is reachable.
pub proof fn lemma_writable_context_link_reachable(db: Database, vis: Visibility, nl: RelationRow)
    requires
        db.context_writable(vis),
        nl.visibility.change_set_pk == vis.change_set_pk,
        nl.visibility.edit_session_pk == vis.edit_session_pk,
    ensures
        db.link_reachable(nl),
{
}

/// Appending a link version stamped with the context's triple makes it the
/// deciding version of its link under that context.
pub proof fn lemma_link_decides_after_append(
    pre: Database,
    post: Database,
    vis: Visibility,
    nl: RelationRow,
    target: Option<i64>,
)
    requires
        post.relations@ == pre.relations@.push(nl),
        post.change_sets@ == pre.change_sets@,
        post.edit_sessions@ == pre.edit_sessions@,
        nl.visibility.change_set_pk == vis.change_set_pk,
        nl.visibility.edit_session_pk == vis.edit_session_pk,
        post.link_reachable(nl),
        link_key_match(nl, nl.kind, nl.object_id, target),
    ensures
        post.deciding_link(vis, nl.kind, nl.object_id, target) == Some(nl),
{
    let kind = nl.kind;
    let object_id = nl.object_id;
    if vis.edit_session_pk != NO_EDIT_SESSION_PK {
        lemma_latest_matching_push_match(
            pre.relations@,
            post.link_draft_pred(kind, object_id, target, vis.change_set_pk, vis.edit_session_pk),
            nl,
        );
    } else if vis.change_set_pk != NO_CHANGE_SET_PK {
        lemma_latest_matching_push_match(
            pre.relations@,
            post.link_change_set_pred(kind, object_id, target, vis.change_set_pk),
            nl,
        );
    } else {
        lemma_latest_matching_push_match(
            pre.relations@,
            link_head_pred(kind, object_id, target),
            nl,
        );
    }
}

impl Database {
    /// Whether a relate of this link must succeed.
    pub open spec fn relate_ok(
        self,
        scope: TenancyScope,
        vis: Visibility,
        kind: RelationKind,
        object_id: i64,
        target_id: i64,
    ) -> bool {
        &&& self.context_writable(vis)
        &&& self.resolve(vis, kind.object_kind_spec(), object_id) is Some
        &&& self.resolve(vis, kind.target_kind_spec(), target_id) is Some
        &&& relation_structure_ok(
            kind,
            self.resolve(vis, kind.target_kind_spec(), target_id).unwrap().payload,
        )
        &&& scope.write_ok(self.resolve(vis, kind.object_kind_spec(), object_id).unwrap().tenancy)
    }

    /// The link version a relate appends.
    pub open spec fn related_link(
        self,
        vis: Visibility,
        kind: RelationKind,
        object_id: i64,
        target_id: i64,
        now: i64,
    ) -> RelationRow {
        RelationRow {
            pk: self.next_pk,
            kind,
            object_id,
            target_id,
            tenancy: self.resolve(vis, kind.object_kind_spec(), object_id).unwrap().tenancy,
            visibility: Visibility {
                change_set_pk: vis.change_set_pk,
                edit_session_pk: vis.edit_session_pk,
                deleted: false,
            },
            timestamp: Timestamp { created_at: now, updated_at: now },
        }
    }

    /// Writes a link version joining `object_id` to `target_id`, after
    /// checking that both records resolve, that the relation's structural
    /// constraint holds, and that the object is writable.
    pub fn relate(
        &mut self,
        scope: &TenancyScope,
        vis: &Visibility,
        actor: &HistoryActor,
        kind: RelationKind,
        object_id: i64,
        target_id: i64,
        now: i64,
    ) -> (res: Result<(), ModelError>)
        requires
            old(self).inv(),
            old(self).next_pk < i64::MAX,
        ensures
            final(self).inv(),
            res is Ok <==> old(self).relate_ok(*scope, *vis, kind, object_id, target_id),
            res is Err ==> *final(self) == *old(self),
            !old(self).context_writable(*vis) ==> res == Err::<(), ModelError>(
                ModelError::InvalidTransition,
            ) && *final(self) == *old(self),
            old(self).context_writable(*vis) && (old(self).resolve(
                *vis,
                kind.object_kind_spec(),
                object_id,
            ) is None || old(self).resolve(*vis, kind.target_kind_spec(), target_id) is None)
                ==> res == Err::<(), ModelError>(ModelError::NotFound) && *final(self) == *old(
                self,
            ),
            old(self).resolve(*vis, kind.target_kind_spec(), target_id) matches Some(t) && old(
                self,
            ).context_writable(*vis) && old(self).resolve(
                *vis,
                kind.object_kind_spec(),
                object_id,
            ) is Some && !relation_structure_ok(kind, t.payload) ==> res == Err::<(), ModelError>(
                ModelError::InvalidRelation,
            ) && *final(self) == *old(self),
            res is Ok ==> ({
                let nl = old(self).related_link(*vis, kind, object_id, target_id, now);
                let key = (if kind.is_many_spec() {
                    Some(target_id)
                } else {
                    Option::<i64>::None
                });
                &&& final(self).relations@ == old(self).relations@.push(nl)
                &&& final(self).rows@ == old(self).rows@
                &&& final(self).change_sets@ == old(self).change_sets@
                &&& final(self).edit_sessions@ == old(self).edit_sessions@
                &&& final(self).next_pk == old(self).next_pk + 1
                &&& final(self).next_id == old(self).next_id
                &&& final(self).resolve_link(*vis, kind, object_id, key) == Some(nl)
                &&& final(self).history.events@ == old(self).history.events@.push(
                    final(self).history.events@.last(),
                )
                &&& ({
                    let ev = final(self).history.events@.last();
                    &&& ev.label@ == "relation.set"@
                    &&& ev.actor == *actor
                    &&& ev.snapshot == Some(HistorySnapshot::Relation(nl))
                    &&& ev.at == now
                })
            }),
    {
        if !self.context_writable_x(vis) {
            return Err(ModelError::InvalidTransition);
        }
        let object_tenancy = match self.deciding_index(vis, kind.object_kind(), object_id) {
            Some(i) => {
                if !(vis.deleted || !self.rows[i].visibility.deleted) {
                    return Err(ModelError::NotFound);
                }
                self.rows[i].tenancy
            }
            None => {
                return Err(ModelError::NotFound);
            }
        };
        let structure_ok = match self.deciding_index(vis, kind.target_kind(), target_id) {
            Some(i) => {
                if !(vis.deleted || !self.rows[i].visibility.deleted) {
                    return Err(ModelError::NotFound);
                }
                match (&kind, &self.rows[i].payload) {
                    (RelationKind::PropParentProp, Payload::Prop { kind: pk, .. }) => {
                        pk.is_container()
                    }
                    (RelationKind::PropParentProp, _) => false,
                    _ => true,
                }
            }
            None => {
                return Err(ModelError::NotFound);
            }
        };
        if !structure_ok {
            return Err(ModelError::InvalidRelation);
        }
        if !scope.applies_to_write(&object_tenancy) {
            return Err(ModelError::TenancyViolation);
        }
        let nl = RelationRow {
            pk: self.next_pk,
            kind,
            object_id,
            target_id,
            tenancy: object_tenancy,
            visibility: Visibility {
                change_set_pk: vis.change_set_pk,
                edit_session_pk: vis.edit_session_pk,
                deleted: false,
            },
            timestamp: Timestamp::assigned(now),
        };
        let ghost pre = *self;
        proof {
            crate::standard_model::lemma_writable_context_refs_bounded(*self, *vis);
        }
        self.relations.push(nl);
        self.next_pk = self.next_pk + 1;
        let event = HistoryEvent {
            label: "relation.set".to_owned(),
            message: "relation written".to_owned(),
            actor: *actor,
            snapshot: Some(HistorySnapshot::Relation(nl)),
            tenancy: object_tenancy,
            at: now,
        };
        self.history.record(event);
        proof {
            let key = (if kind.is_many_spec() {
                Some(target_id)
            } else {
                Option::<i64>::None
            });
            lemma_writable_context_link_reachable(*self, *vis, nl);
            lemma_link_decides_after_append(pre, *self, *vis, nl, key);
        }
        Ok(())
    }

    /// Whether an unrelate of this link must succeed.
    pub open spec fn unrelate_ok(
        self,
        scope: TenancyScope,
        vis: Visibility,
        kind: RelationKind,
        object_id: i64,
        target: Option<i64>,
    ) -> bool {
        &&& self.context_writable(vis)
        &&& self.resolve_link(vis, kind, object_id, target) is Some
        &&& scope.write_ok(self.resolve_link(vis, kind, object_id, target).unwrap().tenancy)
    }

    /// Tombstones the resolved link version, leaving its history intact.
    pub fn unrelate(
        &mut self,
        scope: &TenancyScope,
        vis: &Visibility,
        actor: &HistoryActor,
        kind: RelationKind,
        object_id: i64,
        target: Option<i64>,
        now: i64,
    ) -> (res: Result<(), ModelError>)
        requires
            old(self).inv(),
            old(self).next_pk < i64::MAX,
        ensures
            final(self).inv(),
            res is Ok <==> old(self).unrelate_ok(*scope, *vis, kind, object_id, target),
            res is Err ==> *final(self) == *old(self),
            !old(self).context_writable(*vis) ==> res == Err::<(), ModelError>(
                ModelError::InvalidTransition,
            ) && *final(self) == *old(self),
            old(self).context_writable(*vis) && old(self).resolve_link(
                *vis,
                kind,
                object_id,
                target,
            ) is None ==> res == Err::<(), ModelError>(ModelError::NotFound) && *final(self)
                == *old(self),
            res is Ok ==> ({
                let base = old(self).resolve_link(*vis, kind, object_id, target).unwrap();
                let nl = RelationRow {
                    pk: old(self).next_pk,
                    visibility: Visibility {
                        change_set_pk: vis.change_set_pk,
                        edit_session_pk: vis.edit_session_pk,
                        deleted: true,
                    },
                    timestamp: Timestamp {
                        created_at: base.timestamp.created_at,
                        updated_at: now,
                    },
                    ..base
                };
                &&& final(self).relations@ == old(self).relations@.push(nl)
                &&& final(self).rows@ == old(self).rows@
                &&& final(self).change_sets@ == old(self).change_sets@
                &&& final(self).edit_sessions@ == old(self).edit_sessions@
                &&& final(self).next_pk == old(self).next_pk + 1
                &&& final(self).next_id == old(self).next_id
                &&& final(self).resolve_link(
                    vis.with_deleted_spec(false),
                    kind,
                    object_id,
                    target,
                ) is None
                &&& final(self).history.events@ == old(self).history.events@.push(
                    final(self).history.events@.last(),
                )
                &&& ({
                    let ev = final(self).history.events@.last();
                    &&& ev.label@ == "relation.unset"@
                    &&& ev.actor == *actor
                    &&& ev.snapshot == Some(HistorySnapshot::Relation(nl))
                    &&& ev.at == now
                })
            }),
    {
        if !self.context_writable_x(vis) {
            return Err(ModelError::InvalidTransition);
        }
        let base_index = match self.deciding_link_index(vis, kind, object_id, target) {
            Some(i) => {
                if !(vis.deleted || !self.relations[i].visibility.deleted) {
                    return Err(ModelError::NotFound);
                }
                i
            }
            None => {
                return Err(ModelError::NotFound);
            }
        };
        proof {
            lemma_deciding_link_matches(*self, *vis, kind, object_id, target);
        }
        let base = self.relations[base_index];
        if !scope.applies_to_write(&base.tenancy) {
            return Err(ModelError::TenancyViolation);
        }
        let nl = RelationRow {
            pk: self.next_pk,
            visibility: Visibility {
                change_set_pk: vis.change_set_pk,
                edit_session_pk: vis.edit_session_pk,
                deleted: true,
            },
            timestamp: Timestamp { created_at: base.timestamp.created_at, updated_at: now },
            ..base
        };
        let ghost pre = *self;
        proof {
            crate::standard_model::lemma_writable_context_refs_bounded(*self, *vis);
        }
        self.relations.push(nl);
        self.next_pk = self.next_pk + 1;
        let event = HistoryEvent {
            label: "relation.unset".to_owned(),
            message: "relation tombstoned".to_owned(),
            actor: *actor,
            snapshot: Some(HistorySnapshot::Relation(nl)),
            tenancy: base.tenancy,
            at: now,
        };
        self.history.record(event);
        proof {
            lemma_writable_context_link_reachable(
                *self,
                vis.with_deleted_spec(false),
                nl,
            );
            lemma_link_decides_after_append(
                pre,
                *self,
                vis.with_deleted_spec(false),
                nl,
                target,
            );
        }
        Ok(())
    }

    /// What a belongs-to lookup answers: the resolved live link's target,
    /// if its tenancy is within the caller's read scope.
    pub open spec fn belongs_to_spec(
        self,
        scope: TenancyScope,
        vis: Visibility,
        kind: RelationKind,
        object_id: i64,
    ) -> Option<i64> {
        match self.resolve_link(vis, kind, object_id, None) {
            Some(l) => if scope.read_ok(l.tenancy) {
                Some(l.target_id)
            } else {
                None
            },
            None => None,
        }
    }

    /// Whether relation row `m` is the resolved live version of its own
    /// link under `vis`.
    fn link_decides_x(&self, scope: &TenancyScope, vis: &Visibility, m: usize) -> (b: bool)
        requires
            self.inv(),
            m < self.relations@.len(),
        ensures
            b == (self.resolve_link(
                *vis,
                self.relations@[m as int].kind,
                self.relations@[m as int].object_id,
                link_self_target(self.relations@[m as int]),
            ) == Some(self.relations@[m as int]) && scope.read_ok(
                self.relations@[m as int].tenancy,
            )),
    {
        let l_kind = self.relations[m].kind;
        let l_object_id = self.relations[m].object_id;
        let key = if l_kind.is_many() {
            Some(self.relations[m].target_id)
        } else {
            None
        };
        proof {
            assert(key == link_self_target(self.relations@[m as int]));
        }
        match self.deciding_link_index(vis, l_kind, l_object_id, key) {
            Some(i) => {
                if i == m {
                    let l = &self.relations[m];
                    (vis.deleted || !l.visibility.deleted) && scope.applies_to_read(&l.tenancy)
                } else {
                    proof {
                        if i < m {
                            assert(self.relations@[i as int].pk < self.relations@[m as int].pk);
                        } else {
                            assert(self.relations@[m as int].pk < self.relations@[i as int].pk);
                        }
                    }
                    false
                }
            }
            None => false,
        }
    }

    /// The records related to `target_id` under `kind`, oldest link first:
    /// each object whose resolved live link points at the target and is
    /// within the caller's read scope.
    pub open spec fn linked_objects_seq(
        self,
        scope: TenancyScope,
        vis: Visibility,
        kind: RelationKind,
        target_id: i64,
        upto: int,
    ) -> Seq<i64>
        decreases upto,
    {
        if upto <= 0 {
            Seq::empty()
        } else {
            let prev = self.linked_objects_seq(scope, vis, kind, target_id, upto - 1);
            let l = self.relations@[upto - 1];
            if l.kind == kind && l.target_id == target_id && self.resolve_link(
                vis,
                l.kind,
                l.object_id,
                link_self_target(l),
            ) == Some(l) && scope.read_ok(l.tenancy) {
                prev.push(l.object_id)
            } else {
                prev
            }
        }
    }

    /// Lists the records that belong to `target_id` under `kind`.
    pub fn linked_objects(
        &self,
        scope: &TenancyScope,
        vis: &Visibility,
        kind: RelationKind,
        target_id: i64,
    ) -> (res: Vec<i64>)
        requires
            self.inv(),
        ensures
            res@ == self.linked_objects_seq(
                *scope,
                *vis,
                kind,
                target_id,
                self.relations@.len() as int,
            ),
    {
        let n = self.relations.len();
        let mut res: Vec<i64> = Vec::new();
        let mut m: usize = 0;
        while m < n
            invariant
                m <= n,
                n == self.relations@.len(),
                self.inv(),
                res@ == self.linked_objects_seq(*scope, *vis, kind, target_id, m as int),
            decreases n - m,
        {
            let take = self.relations[m].kind == kind && self.relations[m].target_id == target_id
                && self.link_decides_x(scope, vis, m);
            if take {
                res.push(self.relations[m].object_id);
            }
            m = m + 1;
        }
        res
    }

    /// The targets related to `object_id` under `kind`, oldest link first:
    /// each target whose resolved live link is within read scope.
    pub open spec fn linked_targets_seq(
        self,
        scope: TenancyScope,
        vis: Visibility,
        kind: RelationKind,
        object_id: i64,
        upto: int,
    ) -> Seq<i64>
        decreases upto,
    {
        if upto <= 0 {
            Seq::empty()
        } else {
            let prev = self.linked_targets_seq(scope, vis, kind, object_id, upto - 1);
            let l = self.relations@[upto - 1];
            if l.kind == kind && l.object_id == object_id && self.resolve_link(
                vis,
                l.kind,
                l.object_id,
                link_self_target(l),
            ) == Some(l) && scope.read_ok(l.tenancy) {
                prev.push(l.target_id)
            } else {
                prev
            }
        }
    }

    /// Lists the records that `object_id` is related to under `kind`.
    pub fn linked_targets(
        &self,
        scope: &TenancyScope,
        vis: &Visibility,
        kind: RelationKind,
        object_id: i64,
    ) -> (res: Vec<i64>)
        requires
            self.inv(),
        ensures
            res@ == self.linked_targets_seq(
                *scope,
                *vis,
                kind,
                object_id,
                self.relations@.len() as int,
            ),
    {
        let n = self.relations.len();
        let mut res: Vec<i64> = Vec::new();
        let mut m: usize = 0;
        while m < n
            invariant
                m <= n,
                n == self.relations@.len(),
                self.inv(),
                res@ == self.linked_targets_seq(*scope, *vis, kind, object_id, m as int),
            decreases n - m,
        {
            let take = self.relations[m].kind == kind && self.relations[m].object_id == object_id
                && self.link_decides_x(scope, vis, m);
            if take {
                res.push(self.relations[m].target_id);
            }
            m = m + 1;
        }
        res
    }

    /// Looks up the record that `object_id` belongs to under `kind`.
    pub fn belongs_to(
        &self,
        scope: &TenancyScope,
        vis: &Visibility,
        kind: RelationKind,
        object_id: i64,
    ) -> (res: Option<i64>)
        ensures
            res == self.belongs_to_spec(*scope, *vis, kind, object_id),
    {
        match self.deciding_link_index(vis, kind, object_id, None) {
            Some(i) => {
                let l = &self.relations[i];
                if (vis.deleted || !l.visibility.deleted) && scope.applies_to_read(&l.tenancy) {
                    Some(l.target_id)
                } else {
                    None
                }
            }
            None => None,
        }
    }
}

} // verus!
