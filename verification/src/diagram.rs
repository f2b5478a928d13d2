//! Edges between component sockets, and restoring a soft-deleted
//! connection.
//!
//! Restoring resurrects the edge's deciding version — tombstoned or not —
//! as a new live version under the caller's context, and announces the
//! change-set write. The second flavor first forks a change set when the
//! caller was still on head, and reports the forced change set back.

use vstd::prelude::*;

use crate::change_set::ChangeSet;
use crate::coordinator::Notification;
use crate::coordinator::NotificationKind;
use crate::coordinator::WorkContext;
use crate::error::ModelError;
use crate::payload::EntityKind;
use crate::payload::Payload;
use crate::row::Row;
use crate::visibility::ChangeSetPk;
use crate::visibility::Visibility;
use crate::visibility::NO_EDIT_SESSION_PK;

verus! {

/// Logical id of an edge.
pub type EdgeId = i64;

/// A request to restore one soft-deleted connection.
#[derive(Clone, Copy, Debug, PartialEq, Eq, Structural, Hash)]
pub struct UndeleteConnectionRequest {
    pub edge_id: EdgeId,
    pub visibility: Visibility,
}

/// The change set a handler had to fork for a caller still on head.
#[derive(Clone, Copy, Debug, PartialEq, Eq, Structural, Hash)]
pub struct ForceChangeSet {
    pub force_changeset_pk: Option<ChangeSetPk>,
}

/// One resolved edge version.
#[derive(Debug, PartialEq)]
pub struct Edge {
    pub row: Row,
}

impl Clone for Edge {
    fn clone(&self) -> (res: Self)
        ensures
            res == *self,
    {
        Edge { row: self.row.clone() }
    }
}

/// The endpoints of an edge, as the diagram sees them.
#[derive(Clone, Copy, Debug, PartialEq, Eq, Structural, Hash)]
pub struct Connection {
    pub source_node_id: i64,
    pub source_socket_id: i64,
    pub destination_node_id: i64,
    pub destination_socket_id: i64,
}

impl Edge {
    /// The wrapped row really is an edge row.
    pub open spec fn wf(self) -> bool {
        self.row.payload is Edge && self.row.kind == EntityKind::Edge
    }

    /// Creates an edge between two sockets, in the caller's own tenancy.
    pub fn new(
        ctx: &mut WorkContext,
        source_node_id: i64,
        source_socket_id: i64,
        destination_node_id: i64,
        destination_socket_id: i64,
    ) -> (res: Result<Edge, ModelError>)
        requires
            old(ctx).db.inv(),
            old(ctx).db.next_pk < i64::MAX,
            old(ctx).db.next_id < i64::MAX,
        ensures
            final(ctx).db.inv(),
            res is Ok <==> old(ctx).db.context_writable(old(ctx).visibility),
            res is Err ==> *final(ctx) == *old(ctx) && res == Err::<Edge, ModelError>(
                ModelError::InvalidTransition,
            ),
            res matches Ok(e) ==> ({
                &&& e.wf()
                &&& e.row.payload == (Payload::Edge {
                    source_node_id,
                    source_socket_id,
                    destination_node_id,
                    destination_socket_id,
                })
                &&& crate::standard_model::entity_created(
                    *old(ctx),
                    *final(ctx),
                    e.row,
                    EntityKind::Edge,
                )
            }),
    {
        let payload = Payload::Edge {
            source_node_id,
            source_socket_id,
            destination_node_id,
            destination_socket_id,
        };
        let scope = ctx.scope;
        let vis = ctx.visibility;
        let actor = ctx.actor;
        let tenancy = ctx.scope.scope;
        let now = ctx.now;
        match ctx.db.create(&scope, &vis, &actor, &tenancy, payload, now) {
            Ok(row) => Ok(Edge { row }),
            Err(e) => Err(e),
        }
    }

    /// Point lookup by logical id under the context's visibility.
    pub fn get_by_id(ctx: &WorkContext, id: i64) -> (res: Option<Edge>)
        ensures
            match res {
                Some(e) => e.wf() && ctx.db.find_spec(
                    ctx.scope,
                    ctx.visibility,
                    EntityKind::Edge,
                    id,
                ) == Some(e.row),
                None => !(ctx.db.find_spec(ctx.scope, ctx.visibility, EntityKind::Edge, id)
                    matches Some(r) && r.payload is Edge),
            },
    {
        proof {
            crate::standard_model::lemma_deciding_row_in_rows(
                ctx.db,
                ctx.visibility,
                EntityKind::Edge,
                id,
            );
        }
        match ctx.db.find(&ctx.scope, &ctx.visibility, EntityKind::Edge, id) {
            Some(row) => {
                if matches!(&row.payload, Payload::Edge { .. }) {
                    Some(Edge { row: row.clone() })
                } else {
                    None
                }
            }
            None => None,
        }
    }

    pub fn id(&self) -> (id: i64)
        ensures
            id == self.row.id,
    {
        self.row.id
    }
}

impl Connection {
    /// Reads the endpoints off an edge.
    pub fn from_edge(edge: &Edge) -> (conn: Connection)
        requires
            edge.wf(),
        ensures
            edge.row.payload matches Payload::Edge {
                source_node_id,
                source_socket_id,
                destination_node_id,
                destination_socket_id,
            } && conn == (Connection {
                source_node_id,
                source_socket_id,
                destination_node_id,
                destination_socket_id,
            }),
    {
        match &edge.row.payload {
            Payload::Edge {
                source_node_id,
                source_socket_id,
                destination_node_id,
                destination_socket_id,
            } => Connection {
                source_node_id: *source_node_id,
                source_socket_id: *source_socket_id,
                destination_node_id: *destination_node_id,
                destination_socket_id: *destination_socket_id,
            },
            _ => {
                proof {
                    assert(false);
                }
                Connection {
                    source_node_id: 0,
                    source_socket_id: 0,
                    destination_node_id: 0,
                    destination_socket_id: 0,
                }
            }
        }
    }
}

/// Restores a soft-deleted connection under the caller's context: the
/// edge's deciding version is rewritten live, and a change-set-written
/// event is enqueued for delivery after commit.
pub fn restore_connection(ctx: &mut WorkContext, edge_id: EdgeId) -> (res: Result<(), ModelError>)
    requires
        old(ctx).db.inv(),
        old(ctx).db.next_pk < i64::MAX,
    ensures
        final(ctx).db.inv(),
        res is Ok <==> ({
            &&& old(ctx).db.context_writable(old(ctx).visibility)
            &&& old(ctx).db.deciding_row(old(ctx).visibility, EntityKind::Edge, edge_id) is Some
            &&& old(ctx).scope.write_ok(
                old(ctx).db.deciding_row(
                    old(ctx).visibility,
                    EntityKind::Edge,
                    edge_id,
                ).unwrap().tenancy,
            )
        }),
        res is Err ==> *final(ctx) == *old(ctx),
        res is Ok ==> ({
            let base = old(ctx).db.deciding_row(
                old(ctx).visibility,
                EntityKind::Edge,
                edge_id,
            ).unwrap();
            let row = old(ctx).db.next_version_row(
                base,
                old(ctx).visibility,
                base.payload,
                false,
                old(ctx).now,
            );
            &&& final(ctx).db.rows@ == old(ctx).db.rows@.push(row)
            &&& final(ctx).db.relations@ == old(ctx).db.relations@
            &&& final(ctx).db.change_sets@ == old(ctx).db.change_sets@
            &&& final(ctx).db.edit_sessions@ == old(ctx).db.edit_sessions@
            &&& final(ctx).db.next_pk == old(ctx).db.next_pk + 1
            &&& final(ctx).db.next_id == old(ctx).db.next_id
            &&& final(ctx).db.resolve(
                old(ctx).visibility.with_deleted_spec(false),
                EntityKind::Edge,
                edge_id,
            ) == Some(row)
            &&& final(ctx).db.history.events@ == old(ctx).db.history.events@.push(
                final(ctx).db.history.events@.last(),
            )
            &&& ({
                let ev = final(ctx).db.history.events@.last();
                &&& ev.label@ == crate::standard_model::op_label_spec(
                    EntityKind::Edge,
                    ".restore"@,
                )
                &&& ev.actor == old(ctx).actor
                &&& ev.snapshot == Some(crate::history::HistorySnapshot::Row(row))
                &&& ev.at == old(ctx).now
            })
            &&& final(ctx).notifications@ == old(ctx).notifications@.push(
                Notification {
                    kind: NotificationKind::ChangeSetWritten,
                    change_set_pk: old(ctx).visibility.change_set_pk,
                    edit_session_pk: NO_EDIT_SESSION_PK,
                },
            )
            &&& final(ctx).scope == old(ctx).scope
            &&& final(ctx).visibility == old(ctx).visibility
            &&& final(ctx).actor == old(ctx).actor
            &&& final(ctx).now == old(ctx).now
        }),
{
    let scope = ctx.scope;
    let vis = ctx.visibility;
    let actor = ctx.actor;
    let now = ctx.now;
    match ctx.db.restore(&scope, &vis, &actor, EntityKind::Edge, edge_id, now) {
        Ok(_) => {}
        Err(e) => {
            return Err(e);
        }
    }
    ctx.enqueue_notification(
        Notification {
            kind: NotificationKind::ChangeSetWritten,
            change_set_pk: vis.change_set_pk,
            edit_session_pk: NO_EDIT_SESSION_PK,
        },
    );
    Ok(())
}

/// The head deciding version of the edge, for the restore-with-fork
/// handler's contract.
pub open spec fn head_edge_restorable(
    db: crate::database::Database,
    scope: crate::tenancy::TenancyScope,
    deleted: bool,
    edge_id: i64,
) -> bool {
    &&& db.deciding_row(
        crate::apply::head_visibility(deleted),
        EntityKind::Edge,
        edge_id,
    ) is Some
    &&& scope.write_ok(
        db.deciding_row(
            crate::apply::head_visibility(deleted),
            EntityKind::Edge,
            edge_id,
        ).unwrap().tenancy,
    )
}

/// Restores a soft-deleted connection, forking a change set first when the
/// caller was still on head, and reporting the forced change set back.
/// On head, the fork always happens and the restore then works on the
/// fresh, still-empty change set, so the edge resolves as it does at head.
pub fn restore_connection2(ctx: &mut WorkContext, edge_id: EdgeId, change_set_name: &str) -> (res:
    Result<ForceChangeSet, ModelError>)
    requires
        old(ctx).db.inv(),
        old(ctx).db.next_pk < i64::MAX - 1,
    ensures
        final(ctx).db.inv(),
        old(ctx).visibility.is_head_spec() ==> (res is Ok <==> head_edge_restorable(
            old(ctx).db,
            old(ctx).scope,
            old(ctx).visibility.deleted,
            edge_id,
        )),
        !old(ctx).visibility.is_head_spec() ==> (res is Ok <==> ({
            &&& old(ctx).db.context_writable(old(ctx).visibility)
            &&& old(ctx).db.deciding_row(old(ctx).visibility, EntityKind::Edge, edge_id) is Some
            &&& old(ctx).scope.write_ok(
                old(ctx).db.deciding_row(
                    old(ctx).visibility,
                    EntityKind::Edge,
                    edge_id,
                ).unwrap().tenancy,
            )
        })),
        !old(ctx).visibility.is_head_spec() && res is Err ==> *final(ctx) == *old(ctx),
        !old(ctx).visibility.is_head_spec() && res is Ok ==> final(ctx).db.change_sets@ == old(
            ctx,
        ).db.change_sets@,
        old(ctx).visibility.is_head_spec() && res is Ok ==> ({
            &&& final(ctx).db.change_sets@ == old(ctx).db.change_sets@.push(
                final(ctx).db.change_sets@.last(),
            )
            &&& ({
                let cs = final(ctx).db.change_sets@.last();
                &&& cs.pk == old(ctx).db.next_pk
                &&& cs.status == crate::change_set::ChangeSetStatus::Open
                &&& cs.name@ == change_set_name@
                &&& cs.note is None
                &&& cs.finished_at is None
            })
            &&& crate::database::change_set_status_of(
                final(ctx).db.change_sets@,
                old(ctx).db.next_pk,
            ) == Some(crate::change_set::ChangeSetStatus::Open)
        }),
        old(ctx).visibility.is_head_spec() && res is Err ==> final(ctx).db.rows@ == old(
            ctx,
        ).db.rows@,
        res matches Ok(forced) ==> ({
            &&& (old(ctx).visibility.is_head_spec() <==> forced.force_changeset_pk is Some)
            &&& (forced.force_changeset_pk matches Some(pk) ==> pk == old(ctx).db.next_pk
                && final(ctx).visibility == (Visibility {
                change_set_pk: pk,
                edit_session_pk: NO_EDIT_SESSION_PK,
                deleted: old(ctx).visibility.deleted,
            }))
            &&& (forced.force_changeset_pk is None ==> final(ctx).visibility == old(
                ctx,
            ).visibility)
            &&& final(ctx).db.resolve(
                final(ctx).visibility.with_deleted_spec(false),
                EntityKind::Edge,
                edge_id,
            ) is Some
            &&& (old(ctx).visibility.is_head_spec() ==> final(ctx).notifications@ == old(
                ctx,
            ).notifications@ + seq![
                Notification {
                    kind: NotificationKind::ChangeSetCreated,
                    change_set_pk: old(ctx).db.next_pk,
                    edit_session_pk: NO_EDIT_SESSION_PK,
                },
                Notification {
                    kind: NotificationKind::ChangeSetWritten,
                    change_set_pk: old(ctx).db.next_pk,
                    edit_session_pk: NO_EDIT_SESSION_PK,
                },
            ])
            &&& (!old(ctx).visibility.is_head_spec() ==> final(ctx).notifications@ == old(
                ctx,
            ).notifications@.push(
                Notification {
                    kind: NotificationKind::ChangeSetWritten,
                    change_set_pk: old(ctx).visibility.change_set_pk,
                    edit_session_pk: NO_EDIT_SESSION_PK,
                },
            ))
        }),
{
    let ghost pre_ctx = *ctx;
    let mut force_changeset_pk: Option<ChangeSetPk> = None;
    if ctx.visibility.is_head() {
        let tenancy = ctx.scope.scope;
        let change_set = match ChangeSet::new(ctx, &tenancy, change_set_name, None) {
            Ok(cs) => cs,
            Err(e) => {
                return Err(e);
            }
        };
        let new_visibility = Visibility::new(change_set.pk, ctx.visibility.deleted);
        ctx.update_visibility(new_visibility);
        force_changeset_pk = Some(change_set.pk);
        proof {
            let cs_pk = pre_ctx.db.next_pk;
            crate::database::lemma_latest_matching_push_match(
                pre_ctx.db.change_sets@,
                crate::database::cs_pk_pred(cs_pk),
                ctx.db.change_sets@.last(),
            );
            assert forall|j: int|
                0 <= j < ctx.db.rows@.len() implies !(ctx.db.change_set_pred(
                EntityKind::Edge,
                edge_id,
                cs_pk,
            )(#[trigger] ctx.db.rows@[j])) by {
                assert(pre_ctx.db.rows@[j].visibility.change_set_pk < cs_pk);
            }
            crate::database::lemma_latest_matching_none(
                ctx.db.rows@,
                ctx.db.change_set_pred(EntityKind::Edge, edge_id, cs_pk),
            );
        }
    }
    match restore_connection(ctx, edge_id) {
        Ok(_) => {}
        Err(e) => {
            return Err(e);
        }
    }
    proof {
        if pre_ctx.visibility.is_head_spec() {
            assert(ctx.notifications@ =~= pre_ctx.notifications@ + seq![
                Notification {
                    kind: NotificationKind::ChangeSetCreated,
                    change_set_pk: pre_ctx.db.next_pk,
                    edit_session_pk: NO_EDIT_SESSION_PK,
                },
                Notification {
                    kind: NotificationKind::ChangeSetWritten,
                    change_set_pk: pre_ctx.db.next_pk,
                    edit_session_pk: NO_EDIT_SESSION_PK,
                },
            ]);
        }
    }
    Ok(ForceChangeSet { force_changeset_pk })
}

} // verus!
