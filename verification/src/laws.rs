//! Laws of the versioned record model, stated over the resolution model and
//! proved from the operations' contracts.
//!
//! Each law composes the exact postconditions of the engine's operations:
//! the hypotheses describe a state those postconditions produce, and the
//! conclusion is what resolution answers there.

use vstd::prelude::*;

use crate::apply::head_visibility;
use crate::apply::lemma_pending_index_seq_props;
use crate::apply::lemma_pending_records_distinct;
use crate::apply::lemma_promoted_seq_index;
use crate::apply::promoted_seq;
use crate::database::head_pred;
use crate::database::edit_session_status_of;
use crate::database::latest_matching;
use crate::database::lemma_latest_matching_add;
use crate::database::lemma_latest_matching_is_match;
use crate::database::lemma_latest_matching_some;
use crate::database::Database;
use crate::edit_session::EditSessionStatus;
use crate::payload::EntityKind;
use crate::payload::Payload;
use crate::standard_model::lemma_decides_after_append;
use crate::standard_model::lemma_writable_context_row_reachable;
use crate::tenancy::Tenancy;
use crate::tenancy::TenancyScope;
use crate::visibility::Visibility;
use crate::visibility::NO_CHANGE_SET_PK;
use crate::visibility::NO_EDIT_SESSION_PK;

verus! {

/// Law: a record just created is immediately found under the visibility it
/// was created with, carrying the created payload. The hypotheses are
/// exactly what `create`'s postcondition establishes on success.
pub proof fn lemma_create_then_find(
    db: Database,
    db2: Database,
    scope: TenancyScope,
    vis: Visibility,
    tenancy: Tenancy,
    payload: Payload,
    now: i64,
)
    requires
        db.inv(),
        db.create_ok(scope, vis, tenancy, payload),
        db2.rows@ == db.rows@.push(db.created_row(vis, tenancy, payload, now)),
        db2.change_sets@ == db.change_sets@,
        db2.edit_sessions@ == db.edit_sessions@,
    ensures
        db2.find_spec(scope, vis, payload.entity_kind_spec(), db.next_id) == Some(
            db.created_row(vis, tenancy, payload, now),
        ),
        db2.find_spec(scope, vis, payload.entity_kind_spec(), db.next_id).unwrap().payload
            == payload,
{
    let row = db.created_row(vis, tenancy, payload, now);
    lemma_writable_context_row_reachable(db2, vis, row);
    lemma_decides_after_append(db, db2, vis, row);
}

/// Law: before its edit session is saved, a row drafted under that session
/// is invisible to change-set-level and head resolution: whatever such a
/// lookup returns was not written under the still-open session.
pub proof fn lemma_draft_invisible_before_save(
    db: Database,
    scope: TenancyScope,
    vis: Visibility,
    kind: EntityKind,
    id: i64,
    es_pk: i64,
)
    requires
        es_pk != NO_EDIT_SESSION_PK,
        edit_session_status_of(db.edit_sessions@, es_pk) == Some(EditSessionStatus::Open),
        vis.edit_session_pk == NO_EDIT_SESSION_PK,
    ensures
        db.find_spec(scope, vis, kind, id) matches Some(r) ==> r.visibility.edit_session_pk
            != es_pk,
{
    if vis.change_set_pk != NO_CHANGE_SET_PK {
        lemma_latest_matching_is_match(db.rows@, db.change_set_pred(kind, id, vis.change_set_pk));
    }
    lemma_latest_matching_is_match(db.rows@, head_pred(kind, id));
}

/// Law: once one change set has promoted a record to head, a second change
/// set that was opened before that apply and holds its own pending version
/// of the same record can no longer apply — the conflict check trips.
///
/// The hypotheses describe the state `apply`'s postcondition leaves: the
/// first change set's pending rows were appended as head versions carrying
/// it as their origin.
pub proof fn lemma_second_apply_conflicts(
    pre: Database,
    post: Database,
    cs1_pk: i64,
    cs2_pk: i64,
    now: i64,
    k: int,
    m: int,
)
    requires
        pre.inv(),
        post.rows@ == pre.rows@ + promoted_seq(
            pre.pending_rows(cs1_pk, pre.rows@.len() as int),
            cs1_pk,
            pre.next_pk as int,
            now,
        ),
        0 <= k < pre.pending_rows(cs1_pk, pre.rows@.len() as int).len(),
        0 <= m < post.rows@.len(),
        post.pending_at(cs2_pk, m),
        post.rows@[m].kind == pre.pending_rows(cs1_pk, pre.rows@.len() as int)[k].kind,
        post.rows@[m].id == pre.pending_rows(cs1_pk, pre.rows@.len() as int)[k].id,
        cs2_pk < pre.next_pk,
        cs2_pk != cs1_pk,
        cs1_pk != NO_CHANGE_SET_PK,
        pre.next_pk + pre.rows@.len() < i64::MAX,
    ensures
        post.apply_conflict(cs2_pk),
{
    let n = pre.rows@.len() as int;
    let pend = pre.pending_rows(cs1_pk, n);
    let promo = promoted_seq(pend, cs1_pk, pre.next_pk as int, now);
    let kind = pend[k].kind;
    let id = pend[k].id;
    lemma_promoted_seq_index(pend, cs1_pk, pre.next_pk as int, now);
    lemma_pending_index_seq_props(pre, cs1_pk, n);
    let mk = pre.pending_index_seq(cs1_pk, n)[k];
    assert(pend[k] == pre.rows@[mk]);
    assert(head_pred(kind, id)(promo[k]));
    assert forall|l: int| k < l < promo.len() implies !(head_pred(kind, id)(
        #[trigger] promo[l],
    )) by {
        let ml = pre.pending_index_seq(cs1_pk, n)[l];
        assert(pend[l] == pre.rows@[ml]);
        lemma_pending_records_distinct(pre, cs1_pk, mk, ml);
    }
    lemma_latest_matching_some(promo, head_pred(kind, id), k);
    lemma_latest_matching_add(pre.rows@, promo, head_pred(kind, id));
    assert(latest_matching(post.rows@, head_pred(kind, id)) == Some(promo[k]));
    assert(promo[k].pk == pre.next_pk + k);
    assert(post.head_conflict(cs2_pk, kind, id));
    assert(post.pending_at(cs2_pk, m) && post.head_conflict(
        cs2_pk,
        post.rows@[m].kind,
        post.rows@[m].id,
    ));
}

/// Law: writing a belongs-to or many-to-many link makes the object appear
/// in the target's reverse lookup. When the object held no link of this
/// kind before, the reverse lookup's list grows by exactly that object;
/// the hypotheses are what `relate`'s postcondition establishes for a
/// live, readable link written under a live context.
pub proof fn lemma_linked_objects_after_relate(
    pre: Database,
    post: Database,
    scope: TenancyScope,
    vis: Visibility,
    nl: crate::row::RelationRow,
)
    requires
        post.relations@ == pre.relations@.push(nl),
        post.change_sets@ == pre.change_sets@,
        post.edit_sessions@ == pre.edit_sessions@,
        nl.visibility.change_set_pk == vis.change_set_pk,
        nl.visibility.edit_session_pk == vis.edit_session_pk,
        !nl.visibility.deleted,
        post.context_writable(vis),
        scope.read_ok(nl.tenancy),
        forall|i: int|
            0 <= i < pre.relations@.len() ==> !((#[trigger] pre.relations@[i]).kind == nl.kind
                && pre.relations@[i].object_id == nl.object_id),
    ensures
        post.linked_objects_seq(scope, vis, nl.kind, nl.target_id, post.relations@.len() as int)
            == pre.linked_objects_seq(
            scope,
            vis,
            nl.kind,
            nl.target_id,
            pre.relations@.len() as int,
        ).push(nl.object_id),
{
    let n = pre.relations@.len() as int;
    let key = crate::relations::link_self_target(nl);
    crate::relations::lemma_writable_context_link_reachable(post, vis, nl);
    crate::relations::lemma_link_decides_after_append(pre, post, vis, nl, key);
    assert(post.resolve_link(vis, nl.kind, nl.object_id, key) == Some(nl));
    lemma_linked_objects_prefix_stable(pre, post, scope, vis, nl, n);
    assert(post.linked_objects_seq(scope, vis, nl.kind, nl.target_id, n + 1)
        == post.linked_objects_seq(scope, vis, nl.kind, nl.target_id, n).push(nl.object_id));
}

/// Helper for the law above: below the appended link, the reverse lookup
/// is unchanged, because no earlier link shares the appended link's key.
proof fn lemma_linked_objects_prefix_stable(
    pre: Database,
    post: Database,
    scope: TenancyScope,
    vis: Visibility,
    nl: crate::row::RelationRow,
    upto: int,
)
    requires
        post.relations@ == pre.relations@.push(nl),
        post.change_sets@ == pre.change_sets@,
        post.edit_sessions@ == pre.edit_sessions@,
        0 <= upto <= pre.relations@.len(),
        forall|i: int|
            0 <= i < pre.relations@.len() ==> !((#[trigger] pre.relations@[i]).kind == nl.kind
                && pre.relations@[i].object_id == nl.object_id),
    ensures
        post.linked_objects_seq(scope, vis, nl.kind, nl.target_id, upto)
            == pre.linked_objects_seq(scope, vis, nl.kind, nl.target_id, upto),
    decreases upto,
{
    if upto > 0 {
        lemma_linked_objects_prefix_stable(pre, post, scope, vis, nl, upto - 1);
        let l = pre.relations@[upto - 1];
        assert(post.relations@[upto - 1] == l);
        crate::relations::lemma_link_decides_preserved_after_append(
            pre,
            post,
            vis,
            nl,
            l.kind,
            l.object_id,
            crate::relations::link_self_target(l),
        );
    }
}

/// Law: head resolution never answers with a drafted row: whatever a head
/// lookup returns was written at the head baseline itself.
pub proof fn lemma_head_reads_only_head_rows(
    db: Database,
    scope: TenancyScope,
    deleted: bool,
    kind: EntityKind,
    id: i64,
)
    ensures
        db.find_spec(scope, head_visibility(deleted), kind, id) matches Some(r)
            ==> r.visibility.change_set_pk == NO_CHANGE_SET_PK
            && r.visibility.edit_session_pk == NO_EDIT_SESSION_PK,
{
    lemma_latest_matching_is_match(db.rows@, head_pred(kind, id));
}

} // verus!
