//! Properties: typed nodes of a schema's tree.
//!
//! A property may belong to a parent property, but only to one of a
//! container kind — relating a property under a leaf fails with
//! `InvalidRelation`. Properties may also be attached to schema variants,
//! many to many.

use vstd::prelude::*;
use vstd::string::StringExecFns;

use crate::coordinator::WorkContext;
use crate::error::ModelError;
use crate::payload::EntityKind;
use crate::payload::Payload;
use crate::payload::PropKind;
use crate::row::RelationKind;
use crate::row::Row;
use crate::schema::SchemaVariant;
use crate::visibility::Visibility;

verus! {

/// One resolved property version.
#[derive(Debug, PartialEq)]
pub struct Prop {
    pub row: Row,
}

impl Clone for Prop {
    fn clone(&self) -> (res: Self)
        ensures
            res == *self,
    {
        Prop { row: self.row.clone() }
    }
}

impl Prop {
    /// The wrapped row really is a property row.
    pub open spec fn wf(self) -> bool {
        self.row.payload is Prop && self.row.kind == EntityKind::Prop
    }

    /// Creates a property in the caller's own tenancy; when a parent id is
    /// given, also relates the new property under it.
    pub fn new(
        ctx: &mut WorkContext,
        name: &str,
        kind: PropKind,
        parent_prop_id: Option<i64>,
    ) -> (res: Result<Prop, ModelError>)
        requires
            old(ctx).db.inv(),
            old(ctx).db.next_pk < i64::MAX - 1,
            old(ctx).db.next_id < i64::MAX,
        ensures
            final(ctx).db.inv(),
            parent_prop_id is None ==> (res is Ok <==> old(ctx).db.create_named_ok(
                old(ctx).visibility,
                EntityKind::Prop,
                name@,
            )),
            parent_prop_id matches Some(pid) ==> pid != old(ctx).db.next_id ==> (res is Ok <==> ({
                &&& old(ctx).db.create_named_ok(old(ctx).visibility, EntityKind::Prop, name@)
                &&& old(ctx).db.resolve(old(ctx).visibility, EntityKind::Prop, pid) matches Some(t)
                    && t.payload matches Payload::Prop { kind: pk, .. } && pk.is_container_spec()
            })),
            res matches Ok(p) ==> ({
                &&& p.wf()
                &&& p.row.payload matches Payload::Prop { name: nm, kind: k } && nm@ == name@ && k
                    == kind
                &&& p.row.id == old(ctx).db.next_id
                &&& p.row.tenancy == old(ctx).scope.scope
                &&& (parent_prop_id is None ==> crate::standard_model::entity_created(
                    *old(ctx),
                    *final(ctx),
                    p.row,
                    EntityKind::Prop,
                ))
                &&& (parent_prop_id matches Some(pid) ==> (final(ctx).db.resolve_link(
                    old(ctx).visibility,
                    RelationKind::PropParentProp,
                    p.row.id,
                    None,
                ) matches Some(l) && l.target_id == pid))
            }),
            parent_prop_id is None && res is Err ==> *final(ctx) == *old(ctx),
    {
        let payload = Payload::Prop { name: name.to_owned(), kind };
        let scope = ctx.scope;
        let vis = ctx.visibility;
        let actor = ctx.actor;
        let tenancy = ctx.scope.scope;
        let now = ctx.now;
        let ghost pre_ctx = *ctx;
        proof {
            crate::standard_model::lemma_name_taken_view(ctx.db, vis, payload);
        }
        let row = match ctx.db.create(&scope, &vis, &actor, &tenancy, payload, now) {
            Ok(row) => row,
            Err(e) => {
                return Err(e);
            }
        };
        let prop = Prop { row };
        if let Some(parent_id) = parent_prop_id {
            proof {
                let nr = prop.row;
                crate::standard_model::lemma_writable_context_row_reachable(ctx.db, vis, nr);
                crate::standard_model::lemma_decides_after_append(pre_ctx.db, ctx.db, vis, nr);
                if parent_id != pre_ctx.db.next_id {
                    crate::standard_model::lemma_decides_preserved_after_append(
                        pre_ctx.db,
                        ctx.db,
                        vis,
                        nr,
                        EntityKind::Prop,
                        parent_id,
                    );
                }
            }
            match ctx.db.relate(
                &scope,
                &vis,
                &actor,
                RelationKind::PropParentProp,
                prop.row.id,
                parent_id,
                now,
            ) {
                Ok(_) => {}
                Err(e) => {
                    return Err(e);
                }
            }
        }
        Ok(prop)
    }

    /// Point lookup by logical id under the context's visibility.
    pub fn get_by_id(ctx: &WorkContext, id: i64) -> (res: Option<Prop>)
        ensures
            match res {
                Some(p) => p.wf() && ctx.db.find_spec(
                    ctx.scope,
                    ctx.visibility,
                    EntityKind::Prop,
                    id,
                ) == Some(p.row),
                None => !(ctx.db.find_spec(ctx.scope, ctx.visibility, EntityKind::Prop, id)
                    matches Some(r) && r.payload is Prop),
            },
    {
        proof {
            crate::standard_model::lemma_deciding_row_in_rows(
                ctx.db,
                ctx.visibility,
                EntityKind::Prop,
                id,
            );
        }
        match ctx.db.find(&ctx.scope, &ctx.visibility, EntityKind::Prop, id) {
            Some(row) => {
                if matches!(&row.payload, Payload::Prop { .. }) {
                    Some(Prop { row: row.clone() })
                } else {
                    None
                }
            }
            None => None,
        }
    }

    pub fn id(&self) -> (id: i64)
        ensures
            id == self.row.id,
    {
        self.row.id
    }

    pub fn pk(&self) -> (pk: i64)
        ensures
            pk == self.row.pk,
    {
        self.row.pk
    }

    pub fn name(&self) -> (n: &str)
        requires
            self.wf(),
        ensures
            n@ == self.row.payload.name_spec(),
    {
        match &self.row.payload {
            Payload::Prop { name, .. } => name.as_str(),
            _ => {
                proof {
                    assert(false);
                }
                ""
            }
        }
    }

    pub fn kind(&self) -> (k: PropKind)
        requires
            self.wf(),
        ensures
            self.row.payload matches Payload::Prop { kind, .. } && k == kind,
    {
        match &self.row.payload {
            Payload::Prop { kind, .. } => *kind,
            _ => {
                proof {
                    assert(false);
                }
                PropKind::Any
            }
        }
    }

    /// Makes `parent_prop_id` this property's parent. Fails with
    /// `InvalidRelation` when the parent is not of a container kind.
    pub fn set_parent_prop(&self, ctx: &mut WorkContext, parent_prop_id: i64) -> (res: Result<
        (),
        ModelError,
    >)
        requires
            old(ctx).db.inv(),
            old(ctx).db.next_pk < i64::MAX,
        ensures
            final(ctx).db.inv(),
            res is Ok <==> old(ctx).db.relate_ok(
                old(ctx).scope,
                old(ctx).visibility,
                RelationKind::PropParentProp,
                self.row.id,
                parent_prop_id,
            ),
            old(ctx).db.resolve(
                old(ctx).visibility,
                EntityKind::Prop,
                parent_prop_id,
            ) matches Some(t) && old(ctx).db.context_writable(old(ctx).visibility) && old(
                ctx,
            ).db.resolve(old(ctx).visibility, EntityKind::Prop, self.row.id) is Some
                && !crate::relations::relation_structure_ok(RelationKind::PropParentProp, t.payload)
                ==> res == Err::<(), ModelError>(ModelError::InvalidRelation),
            res is Err ==> final(ctx).db == old(ctx).db,
            res is Ok ==> crate::relations::link_related(
                *old(ctx),
                *final(ctx),
                RelationKind::PropParentProp,
                self.row.id,
                parent_prop_id,
            ),
    {
        let scope = ctx.scope;
        let vis = ctx.visibility;
        let actor = ctx.actor;
        let now = ctx.now;
        ctx.db.relate(
            &scope,
            &vis,
            &actor,
            RelationKind::PropParentProp,
            self.row.id,
            parent_prop_id,
            now,
        )
    }

    /// Unsets this property's parent.
    pub fn unset_parent_prop(&self, ctx: &mut WorkContext) -> (res: Result<(), ModelError>)
        requires
            old(ctx).db.inv(),
            old(ctx).db.next_pk < i64::MAX,
        ensures
            final(ctx).db.inv(),
            res is Ok <==> old(ctx).db.unrelate_ok(
                old(ctx).scope,
                old(ctx).visibility,
                RelationKind::PropParentProp,
                self.row.id,
                None,
            ),
            res is Err ==> final(ctx).db == old(ctx).db,
            res is Ok ==> crate::relations::link_unrelated(
                *old(ctx),
                *final(ctx),
                RelationKind::PropParentProp,
                self.row.id,
                None,
            ),
    {
        let scope = ctx.scope;
        let vis = ctx.visibility;
        let actor = ctx.actor;
        let now = ctx.now;
        ctx.db.unrelate(
            &scope,
            &vis,
            &actor,
            RelationKind::PropParentProp,
            self.row.id,
            None,
            now,
        )
    }

    /// This property's parent, if a live parent link resolves.
    pub fn parent_prop(&self, ctx: &WorkContext) -> (res: Result<Option<Prop>, ModelError>)
        ensures
            res is Ok,
            res matches Ok(opt) ==> (match ctx.db.belongs_to_spec(
                ctx.scope,
                ctx.visibility,
                RelationKind::PropParentProp,
                self.row.id,
            ) {
                Some(target_id) => (match ctx.db.find_spec(
                    ctx.scope,
                    ctx.visibility,
                    EntityKind::Prop,
                    target_id,
                ) {
                    Some(r) => r.payload is Prop ==> (opt matches Some(p) && p.row == r
                        && p.wf()),
                    None => opt is None,
                }),
                None => opt is None,
            }),
    {
        match ctx.db.belongs_to(
            &ctx.scope,
            &ctx.visibility,
            RelationKind::PropParentProp,
            self.row.id,
        ) {
            Some(target_id) => Ok(Prop::get_by_id(ctx, target_id)),
            None => Ok(None),
        }
    }

    /// This property's children: every property whose live parent link
    /// points here, oldest link first.
    pub fn child_props(&self, ctx: &WorkContext) -> (res: Result<Vec<Prop>, ModelError>)
        requires
            ctx.db.inv(),
        ensures
            res is Ok,
            res matches Ok(props) ==> ({
                let ids = ctx.db.linked_objects_seq(
                    ctx.scope,
                    ctx.visibility,
                    RelationKind::PropParentProp,
                    self.row.id,
                    ctx.db.relations@.len() as int,
                );
                let rows = ctx.db.resolved_rows(ctx.scope, ctx.visibility, EntityKind::Prop, ids);
                &&& props@.len() == rows.len()
                &&& forall|k: int|
                    0 <= k < rows.len() ==> (#[trigger] props@[k]).row == rows[k] && props@[k].wf()
            }),
    {
        let ids = ctx.db.linked_objects(
            &ctx.scope,
            &ctx.visibility,
            RelationKind::PropParentProp,
            self.row.id,
        );
        let rows = ctx.db.resolve_all(&ctx.scope, &ctx.visibility, EntityKind::Prop, &ids);
        proof {
            ctx.db.lemma_resolved_rows_kinds(ctx.scope, ctx.visibility, EntityKind::Prop, ids@);
        }
        let n = rows.len();
        let mut props: Vec<Prop> = Vec::new();
        let mut i: usize = 0;
        while i < n
            invariant
                i <= n,
                n == rows@.len(),
                props@.len() == i,
                forall|k: int|
                    0 <= k < rows@.len() ==> (#[trigger] rows@[k]).payload.entity_kind_spec()
                        == EntityKind::Prop && rows@[k].kind == EntityKind::Prop,
                forall|k: int|
                    0 <= k < i ==> (#[trigger] props@[k]).row == rows@[k] && props@[k].wf(),
            decreases n - i,
        {
            props.push(Prop { row: rows[i].clone() });
            i = i + 1;
        }
        Ok(props)
    }

    /// Attaches this property to a schema variant.
    pub fn add_schema_variant(&self, ctx: &mut WorkContext, schema_variant_id: i64) -> (res: Result<
        (),
        ModelError,
    >)
        requires
            old(ctx).db.inv(),
            old(ctx).db.next_pk < i64::MAX,
        ensures
            final(ctx).db.inv(),
            res is Ok <==> old(ctx).db.relate_ok(
                old(ctx).scope,
                old(ctx).visibility,
                RelationKind::PropSchemaVariant,
                self.row.id,
                schema_variant_id,
            ),
            res is Err ==> final(ctx).db == old(ctx).db,
            res is Ok ==> crate::relations::link_related(
                *old(ctx),
                *final(ctx),
                RelationKind::PropSchemaVariant,
                self.row.id,
                schema_variant_id,
            ),
    {
        let scope = ctx.scope;
        let vis = ctx.visibility;
        let actor = ctx.actor;
        let now = ctx.now;
        ctx.db.relate(
            &scope,
            &vis,
            &actor,
            RelationKind::PropSchemaVariant,
            self.row.id,
            schema_variant_id,
            now,
        )
    }

    /// Detaches this property from a schema variant.
    pub fn remove_schema_variant(&self, ctx: &mut WorkContext, schema_variant_id: i64) -> (res:
        Result<(), ModelError>)
        requires
            old(ctx).db.inv(),
            old(ctx).db.next_pk < i64::MAX,
        ensures
            final(ctx).db.inv(),
            res is Ok <==> old(ctx).db.unrelate_ok(
                old(ctx).scope,
                old(ctx).visibility,
                RelationKind::PropSchemaVariant,
                self.row.id,
                Some(schema_variant_id),
            ),
            res is Err ==> final(ctx).db == old(ctx).db,
            res is Ok ==> crate::relations::link_unrelated(
                *old(ctx),
                *final(ctx),
                RelationKind::PropSchemaVariant,
                self.row.id,
                Some(schema_variant_id),
            ),
    {
        let scope = ctx.scope;
        let vis = ctx.visibility;
        let actor = ctx.actor;
        let now = ctx.now;
        ctx.db.unrelate(
            &scope,
            &vis,
            &actor,
            RelationKind::PropSchemaVariant,
            self.row.id,
            Some(schema_variant_id),
            now,
        )
    }

    /// The schema variants this property is attached to, oldest link first.
    pub fn schema_variants(&self, ctx: &WorkContext) -> (res: Result<Vec<SchemaVariant>, ModelError>)
        requires
            ctx.db.inv(),
        ensures
            res is Ok,
            res matches Ok(variants) ==> ({
                let ids = ctx.db.linked_targets_seq(
                    ctx.scope,
                    ctx.visibility,
                    RelationKind::PropSchemaVariant,
                    self.row.id,
                    ctx.db.relations@.len() as int,
                );
                let rows = ctx.db.resolved_rows(
                    ctx.scope,
                    ctx.visibility,
                    EntityKind::SchemaVariant,
                    ids,
                );
                &&& variants@.len() == rows.len()
                &&& forall|k: int|
                    0 <= k < rows.len() ==> (#[trigger] variants@[k]).row == rows[k]
                        && variants@[k].wf()
            }),
    {
        let ids = ctx.db.linked_targets(
            &ctx.scope,
            &ctx.visibility,
            RelationKind::PropSchemaVariant,
            self.row.id,
        );
        let rows = ctx.db.resolve_all(&ctx.scope, &ctx.visibility, EntityKind::SchemaVariant, &ids);
        proof {
            ctx.db.lemma_resolved_rows_kinds(
                ctx.scope,
                ctx.visibility,
                EntityKind::SchemaVariant,
                ids@,
            );
        }
        let n = rows.len();
        let mut variants: Vec<SchemaVariant> = Vec::new();
        let mut i: usize = 0;
        while i < n
            invariant
                i <= n,
                n == rows@.len(),
                variants@.len() == i,
                forall|k: int|
                    0 <= k < rows@.len() ==> (#[trigger] rows@[k]).payload.entity_kind_spec()
                        == EntityKind::SchemaVariant && rows@[k].kind == EntityKind::SchemaVariant,
                forall|k: int|
                    0 <= k < i ==> (#[trigger] variants@[k]).row == rows@[k] && variants@[k].wf(),
            decreases n - i,
        {
            variants.push(SchemaVariant { row: rows[i].clone() });
            i = i + 1;
        }
        Ok(variants)
    }
}

} // verus!
