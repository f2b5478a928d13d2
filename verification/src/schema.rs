//! Schemas, their variants, and their UI menu entries.

use vstd::prelude::*;
use vstd::string::StrSliceExecFns;
use vstd::string::StringExecFns;

use crate::coordinator::WorkContext;
use crate::error::ModelError;
use crate::payload::EntityKind;
use crate::payload::Payload;
use crate::row::RelationKind;
use crate::row::Row;
use crate::visibility::Visibility;

verus! {

/// The segments of a dot-separated path, in order. The empty string is one
/// empty segment; a trailing dot ends with an empty segment.
pub open spec fn split_dots(s: Seq<char>) -> Seq<Seq<char>>
    decreases s.len(),
{
    if s.len() == 0 {
        seq![Seq::empty()]
    } else {
        let p = split_dots(s.drop_last());
        if s.last() == '.' {
            p.push(Seq::empty())
        } else {
            p.update(p.len() - 1, p.last().push(s.last()))
        }
    }
}

/// A split always yields at least one segment.
pub proof fn lemma_split_dots_len(s: Seq<char>)
    ensures
        split_dots(s).len() >= 1,
    decreases s.len(),
{
    if s.len() > 0 {
        lemma_split_dots_len(s.drop_last());
    }
}

/// How a schema variant's components behave on a diagram.
#[derive(Clone, Copy, Debug, PartialEq, Eq, PartialOrd, Ord, Structural, Hash)]
pub enum ComponentType {
    AggregationFrame,
    Component,
    ConfigurationFrameDown,
    ConfigurationFrameUp,
}

/// One resolved schema version.
#[derive(Debug, PartialEq)]
pub struct Schema {
    pub row: Row,
}

impl Clone for Schema {
    fn clone(&self) -> (res: Self)
        ensures
            res == *self,
    {
        Schema { row: self.row.clone() }
    }
}

impl Schema {
    /// The wrapped row really is a schema row.
    pub open spec fn wf(self) -> bool {
        self.row.payload is Schema && self.row.kind == EntityKind::Schema
    }

    /// Creates a schema in the caller's own tenancy.
    pub fn new(ctx: &mut WorkContext, name: &str) -> (res: Result<Schema, ModelError>)
        requires
            old(ctx).db.inv(),
            old(ctx).db.next_pk < i64::MAX,
            old(ctx).db.next_id < i64::MAX,
        ensures
            final(ctx).db.inv(),
            res is Ok <==> old(ctx).db.create_named_ok(
                old(ctx).visibility,
                EntityKind::Schema,
                name@,
            ),
            res is Err ==> *final(ctx) == *old(ctx) && res == Err::<Schema, ModelError>(
                if !old(ctx).db.context_writable(old(ctx).visibility) {
                    ModelError::InvalidTransition
                } else {
                    ModelError::StorageError
                },
            ),
            res matches Ok(s) ==> ({
                &&& s.wf()
                &&& s.row.payload matches Payload::Schema { name: nm } && nm@ == name@
                &&& crate::standard_model::entity_created(
                    *old(ctx),
                    *final(ctx),
                    s.row,
                    EntityKind::Schema,
                )
            }),
    {
        let payload = Payload::Schema { name: name.to_owned() };
        let scope = ctx.scope;
        let vis = ctx.visibility;
        let actor = ctx.actor;
        let tenancy = ctx.scope.scope;
        let now = ctx.now;
        proof {
            crate::standard_model::lemma_name_taken_view(ctx.db, vis, payload);
        }
        match ctx.db.create(&scope, &vis, &actor, &tenancy, payload, now) {
            Ok(row) => Ok(Schema { row }),
            Err(e) => Err(e),
        }
    }

    pub fn id(&self) -> (id: i64)
        ensures
            id == self.row.id,
    {
        self.row.id
    }

    pub fn name(&self) -> (n: &str)
        requires
            self.wf(),
        ensures
            n@ == self.row.payload.name_spec(),
    {
        match &self.row.payload {
            Payload::Schema { name } => name.as_str(),
            _ => {
                proof {
                    assert(false);
                }
                ""
            }
        }
    }
}

/// One resolved schema variant version.
#[derive(Debug, PartialEq)]
pub struct SchemaVariant {
    pub row: Row,
}

impl Clone for SchemaVariant {
    fn clone(&self) -> (res: Self)
        ensures
            res == *self,
    {
        SchemaVariant { row: self.row.clone() }
    }
}

impl SchemaVariant {
    /// The wrapped row really is a schema variant row.
    pub open spec fn wf(self) -> bool {
        self.row.payload is SchemaVariant && self.row.kind == EntityKind::SchemaVariant
    }

    /// Creates a schema variant in the caller's own tenancy.
    pub fn new(ctx: &mut WorkContext, name: &str) -> (res: Result<SchemaVariant, ModelError>)
        requires
            old(ctx).db.inv(),
            old(ctx).db.next_pk < i64::MAX,
            old(ctx).db.next_id < i64::MAX,
        ensures
            final(ctx).db.inv(),
            res is Ok <==> old(ctx).db.create_named_ok(
                old(ctx).visibility,
                EntityKind::SchemaVariant,
                name@,
            ),
            res is Err ==> *final(ctx) == *old(ctx) && res == Err::<SchemaVariant, ModelError>(
                if !old(ctx).db.context_writable(old(ctx).visibility) {
                    ModelError::InvalidTransition
                } else {
                    ModelError::StorageError
                },
            ),
            res matches Ok(v) ==> ({
                &&& v.wf()
                &&& v.row.payload matches Payload::SchemaVariant { name: nm } && nm@ == name@
                &&& crate::standard_model::entity_created(
                    *old(ctx),
                    *final(ctx),
                    v.row,
                    EntityKind::SchemaVariant,
                )
            }),
    {
        let payload = Payload::SchemaVariant { name: name.to_owned() };
        let scope = ctx.scope;
        let vis = ctx.visibility;
        let actor = ctx.actor;
        let tenancy = ctx.scope.scope;
        let now = ctx.now;
        proof {
            crate::standard_model::lemma_name_taken_view(ctx.db, vis, payload);
        }
        match ctx.db.create(&scope, &vis, &actor, &tenancy, payload, now) {
            Ok(row) => Ok(SchemaVariant { row }),
            Err(e) => Err(e),
        }
    }

    pub fn id(&self) -> (id: i64)
        ensures
            id == self.row.id,
    {
        self.row.id
    }

    pub fn name(&self) -> (n: &str)
        requires
            self.wf(),
        ensures
            n@ == self.row.payload.name_spec(),
    {
        match &self.row.payload {
            Payload::SchemaVariant { name } => name.as_str(),
            _ => {
                proof {
                    assert(false);
                }
                ""
            }
        }
    }
}

/// One resolved UI menu entry version for a schema.
#[derive(Debug, PartialEq)]
pub struct SchemaUiMenu {
    pub row: Row,
}

impl Clone for SchemaUiMenu {
    fn clone(&self) -> (res: Self)
        ensures
            res == *self,
    {
        SchemaUiMenu { row: self.row.clone() }
    }
}

impl SchemaUiMenu {
    /// The wrapped row really is a UI menu row.
    pub open spec fn wf(self) -> bool {
        self.row.payload is SchemaUiMenu && self.row.kind == EntityKind::SchemaUiMenu
    }

    /// The stored category path, as characters.
    pub open spec fn category_view(self) -> Seq<char> {
        match self.row.payload {
            Payload::SchemaUiMenu { category, .. } => category@,
            _ => Seq::empty(),
        }
    }

    /// Creates a UI menu entry in the caller's own tenancy.
    pub fn new(ctx: &mut WorkContext, name: &str, category: &str) -> (res: Result<
        SchemaUiMenu,
        ModelError,
    >)
        requires
            old(ctx).db.inv(),
            old(ctx).db.next_pk < i64::MAX,
            old(ctx).db.next_id < i64::MAX,
        ensures
            final(ctx).db.inv(),
            res is Ok <==> old(ctx).db.create_named_ok(
                old(ctx).visibility,
                EntityKind::SchemaUiMenu,
                name@,
            ),
            res is Err ==> *final(ctx) == *old(ctx) && res == Err::<SchemaUiMenu, ModelError>(
                if !old(ctx).db.context_writable(old(ctx).visibility) {
                    ModelError::InvalidTransition
                } else {
                    ModelError::StorageError
                },
            ),
            res matches Ok(menu) ==> ({
                &&& menu.wf()
                &&& menu.row.payload matches Payload::SchemaUiMenu { name: nm, category: c } && nm@
                    == name@ && c@ == category@
                &&& crate::standard_model::entity_created(
                    *old(ctx),
                    *final(ctx),
                    menu.row,
                    EntityKind::SchemaUiMenu,
                )
            }),
    {
        let payload = Payload::SchemaUiMenu {
            name: name.to_owned(),
            category: category.to_owned(),
        };
        let scope = ctx.scope;
        let vis = ctx.visibility;
        let actor = ctx.actor;
        let tenancy = ctx.scope.scope;
        let now = ctx.now;
        proof {
            crate::standard_model::lemma_name_taken_view(ctx.db, vis, payload);
        }
        match ctx.db.create(&scope, &vis, &actor, &tenancy, payload, now) {
            Ok(row) => Ok(SchemaUiMenu { row }),
            Err(e) => Err(e),
        }
    }

    pub fn id(&self) -> (id: i64)
        ensures
            id == self.row.id,
    {
        self.row.id
    }

    pub fn name(&self) -> (n: &str)
        requires
            self.wf(),
        ensures
            n@ == self.row.payload.name_spec(),
    {
        match &self.row.payload {
            Payload::SchemaUiMenu { name, .. } => name.as_str(),
            _ => {
                proof {
                    assert(false);
                }
                ""
            }
        }
    }

    pub fn category(&self) -> (c: &str)
        requires
            self.wf(),
        ensures
            c@ == self.category_view(),
    {
        match &self.row.payload {
            Payload::SchemaUiMenu { category, .. } => category.as_str(),
            _ => {
                proof {
                    assert(false);
                }
                ""
            }
        }
    }

    /// The category split at dots into its path segments.
    pub fn category_path(&self) -> (res: Vec<String>)
        requires
            self.wf(),
        ensures
            res@.map_values(|t: String| t@) == split_dots(self.category_view()),
    {
        let cat = self.category();
        let n = cat.unicode_len();
        let mut res: Vec<String> = Vec::new();
        let mut start: usize = 0;
        let mut i: usize = 0;
        while i < n
            invariant
                start <= i <= n,
                n == cat@.len(),
                cat@ == self.category_view(),
                split_dots(cat@.take(i as int)) =~~= res@.map_values(|t: String| t@).push(
                    cat@.subrange(start as int, i as int),
                ),
            decreases n - i,
        {
            let ghost prev = cat@.take(i as int);
            let c = cat.get_char(i);
            if c == '.' {
                let segment = cat.substring_char(start, i).to_owned();
                res.push(segment);
                start = i + 1;
            }
            proof {
                assert(cat@.take(i as int + 1).drop_last() =~= prev);
                assert(cat@.take(i as int + 1).last() == cat@[i as int]);
                lemma_split_dots_len(prev);
                if cat@[i as int] == '.' {
                    assert(split_dots(cat@.take(i as int + 1)) =~~= res@.map_values(
                        |t: String| t@,
                    ).push(cat@.subrange(start as int, i as int + 1)));
                } else {
                    assert(cat@.subrange(start as int, i as int).push(cat@[i as int])
                        =~= cat@.subrange(start as int, i as int + 1));
                    assert(split_dots(cat@.take(i as int + 1)) =~~= res@.map_values(
                        |t: String| t@,
                    ).push(cat@.subrange(start as int, i as int + 1)));
                }
            }
            i = i + 1;
        }
        let last_segment = cat.substring_char(start, n).to_owned();
        res.push(last_segment);
        proof {
            assert(cat@.take(n as int) =~= cat@);
            assert(res@.map_values(|t: String| t@) =~~= split_dots(cat@));
        }
        res
    }

    /// Makes this menu entry belong to `schema_id`.
    pub fn set_schema(&self, ctx: &mut WorkContext, schema_id: i64) -> (res: Result<
        (),
        ModelError,
    >)
        requires
            old(ctx).db.inv(),
            old(ctx).db.next_pk < i64::MAX,
        ensures
            final(ctx).db.inv(),
            res is Ok <==> old(ctx).db.relate_ok(
                old(ctx).scope,
                old(ctx).visibility,
                RelationKind::UiMenuSchema,
                self.row.id,
                schema_id,
            ),
            res is Err ==> final(ctx).db == old(ctx).db,
            res is Ok ==> crate::relations::link_related(
                *old(ctx),
                *final(ctx),
                RelationKind::UiMenuSchema,
                self.row.id,
                schema_id,
            ),
    {
        let scope = ctx.scope;
        let vis = ctx.visibility;
        let actor = ctx.actor;
        let now = ctx.now;
        ctx.db.relate(
            &scope,
            &vis,
            &actor,
            RelationKind::UiMenuSchema,
            self.row.id,
            schema_id,
            now,
        )
    }

    /// Unsets this menu entry's schema.
    pub fn unset_schema(&self, ctx: &mut WorkContext) -> (res: Result<(), ModelError>)
        requires
            old(ctx).db.inv(),
            old(ctx).db.next_pk < i64::MAX,
        ensures
            final(ctx).db.inv(),
            res is Ok <==> old(ctx).db.unrelate_ok(
                old(ctx).scope,
                old(ctx).visibility,
                RelationKind::UiMenuSchema,
                self.row.id,
                None,
            ),
            res is Err ==> final(ctx).db == old(ctx).db,
            res is Ok ==> crate::relations::link_unrelated(
                *old(ctx),
                *final(ctx),
                RelationKind::UiMenuSchema,
                self.row.id,
                None,
            ),
    {
        let scope = ctx.scope;
        let vis = ctx.visibility;
        let actor = ctx.actor;
        let now = ctx.now;
        ctx.db.unrelate(&scope, &vis, &actor, RelationKind::UiMenuSchema, self.row.id, None, now)
    }

    /// The schema this menu entry belongs to, if a live link resolves.
    pub fn schema(&self, ctx: &WorkContext) -> (res: Result<Option<Schema>, ModelError>)
        ensures
            res is Ok,
            res matches Ok(opt) ==> (match ctx.db.belongs_to_spec(
                ctx.scope,
                ctx.visibility,
                RelationKind::UiMenuSchema,
                self.row.id,
            ) {
                Some(target_id) => (match ctx.db.find_spec(
                    ctx.scope,
                    ctx.visibility,
                    EntityKind::Schema,
                    target_id,
                ) {
                    Some(r) => (if r.payload is Schema {
                        opt matches Some(s) && s.row == r && s.wf()
                    } else {
                        opt is None
                    }),
                    None => opt is None,
                }),
                None => opt is None,
            }),
    {
        match ctx.db.belongs_to(
            &ctx.scope,
            &ctx.visibility,
            RelationKind::UiMenuSchema,
            self.row.id,
        ) {
            Some(target_id) => {
                proof {
                    crate::standard_model::lemma_deciding_row_in_rows(
                        ctx.db,
                        ctx.visibility,
                        EntityKind::Schema,
                        target_id,
                    );
                }
                match ctx.db.find(&ctx.scope, &ctx.visibility, EntityKind::Schema, target_id) {
                    Some(row) => {
                        if matches!(&row.payload, Payload::Schema { .. }) {
                            Ok(Some(Schema { row: row.clone() }))
                        } else {
                            Ok(None)
                        }
                    }
                    None => Ok(None),
                }
            }
            None => Ok(None),
        }
    }

    /// The menu entry attached to `schema_id`, if any: the owner of the
    /// oldest live menu link pointing at the schema.
    pub fn find_for_schema(ctx: &WorkContext, schema_id: i64) -> (res: Result<
        Option<SchemaUiMenu>,
        ModelError,
    >)
        requires
            ctx.db.inv(),
        ensures
            res is Ok,
            res matches Ok(opt) ==> ({
                let ids = ctx.db.linked_objects_seq(
                    ctx.scope,
                    ctx.visibility,
                    RelationKind::UiMenuSchema,
                    schema_id,
                    ctx.db.relations@.len() as int,
                );
                if ids.len() == 0 {
                    opt is None
                } else {
                    match ctx.db.find_spec(
                        ctx.scope,
                        ctx.visibility,
                        EntityKind::SchemaUiMenu,
                        ids[0],
                    ) {
                        Some(r) => (if r.payload is SchemaUiMenu {
                            opt matches Some(m) && m.row == r && m.wf()
                        } else {
                            opt is None
                        }),
                        None => opt is None,
                    }
                }
            }),
    {
        let ids = ctx.db.linked_objects(
            &ctx.scope,
            &ctx.visibility,
            RelationKind::UiMenuSchema,
            schema_id,
        );
        if ids.len() == 0 {
            return Ok(None);
        }
        let menu_id = ids[0];
        proof {
            crate::standard_model::lemma_deciding_row_in_rows(
                ctx.db,
                ctx.visibility,
                EntityKind::SchemaUiMenu,
                menu_id,
            );
        }
        match ctx.db.find(&ctx.scope, &ctx.visibility, EntityKind::SchemaUiMenu, menu_id) {
            Some(row) => {
                if matches!(&row.payload, Payload::SchemaUiMenu { .. }) {
                    Ok(Some(SchemaUiMenu { row: row.clone() }))
                } else {
                    Ok(None)
                }
            }
            None => Ok(None),
        }
    }
}

} // verus!
