//! The physical storage units: one row per version of a record, and one
//! join-table row per version of a relation.
//!
//! A write never mutates a row in place; it appends a new version with a
//! fresh, strictly increasing surrogate key. The newest version of a record
//! under a visibility triple supersedes the older ones, so a tombstoned
//! newest version hides the record from reads that exclude deleted rows.

use vstd::prelude::*;

use crate::payload::EntityKind;
use crate::payload::Payload;
use crate::tenancy::Tenancy;
use crate::timestamp::Timestamp;
use crate::visibility::ChangeSetPk;
use crate::visibility::Visibility;

verus! {

/// One stored version of one record.
#[derive(Debug, PartialEq, Eq)]
pub struct Row {
    /// Surrogate key, unique over the whole store and increasing with time.
    pub pk: i64,
    /// Stable identity shared by all versions of the same record.
    pub id: i64,
    pub kind: EntityKind,
    pub tenancy: Tenancy,
    /// The persisted triple; its `deleted` flag is this version's tombstone.
    pub visibility: Visibility,
    /// The change set whose apply wrote this version to head, or the head
    /// sentinel for versions written directly.
    pub origin_change_set_pk: ChangeSetPk,
    pub timestamp: Timestamp,
    pub payload: Payload,
}

impl Clone for Row {
    fn clone(&self) -> (res: Self)
        ensures
            res == *self,
    {
        Row {
            pk: self.pk,
            id: self.id,
            kind: self.kind,
            tenancy: self.tenancy,
            visibility: self.visibility,
            origin_change_set_pk: self.origin_change_set_pk,
            timestamp: self.timestamp,
            payload: self.payload.clone(),
        }
    }
}

/// The ways two records may be related through a join table.
#[derive(Clone, Copy, Debug, PartialEq, Eq, Structural, Hash)]
pub enum RelationKind {
    /// An authentication function is attached to a schema variant (many
    /// to many).
    AuthenticationFuncVariant,
    /// A property belongs to a parent property (at most one parent).
    PropParentProp,
    /// A property is attached to a schema variant (many to many).
    PropSchemaVariant,
    /// A schema's UI menu entry belongs to the schema (at most one).
    UiMenuSchema,
}

impl RelationKind {
    /// Whether one left-hand record may relate to many right-hand records.
    pub open spec fn is_many_spec(self) -> bool {
        self == RelationKind::PropSchemaVariant || self == RelationKind::AuthenticationFuncVariant
    }

    pub fn is_many(&self) -> (b: bool)
        ensures
            b == self.is_many_spec(),
    {
        match self {
            RelationKind::PropSchemaVariant | RelationKind::AuthenticationFuncVariant => true,
            _ => false,
        }
    }

    /// The entity kind expected on the left-hand (owning) side.
    pub open spec fn object_kind_spec(self) -> EntityKind {
        match self {
            RelationKind::AuthenticationFuncVariant => EntityKind::Func,
            RelationKind::PropParentProp => EntityKind::Prop,
            RelationKind::PropSchemaVariant => EntityKind::Prop,
            RelationKind::UiMenuSchema => EntityKind::SchemaUiMenu,
        }
    }

    /// The entity kind expected on the right-hand (target) side.
    pub open spec fn target_kind_spec(self) -> EntityKind {
        match self {
            RelationKind::AuthenticationFuncVariant => EntityKind::SchemaVariant,
            RelationKind::PropParentProp => EntityKind::Prop,
            RelationKind::PropSchemaVariant => EntityKind::SchemaVariant,
            RelationKind::UiMenuSchema => EntityKind::Schema,
        }
    }

    pub fn object_kind(&self) -> (k: EntityKind)
        ensures
            k == self.object_kind_spec(),
    {
        match self {
            RelationKind::AuthenticationFuncVariant => EntityKind::Func,
            RelationKind::PropParentProp => EntityKind::Prop,
            RelationKind::PropSchemaVariant => EntityKind::Prop,
            RelationKind::UiMenuSchema => EntityKind::SchemaUiMenu,
        }
    }

    pub fn target_kind(&self) -> (k: EntityKind)
        ensures
            k == self.target_kind_spec(),
    {
        match self {
            RelationKind::AuthenticationFuncVariant => EntityKind::SchemaVariant,
            RelationKind::PropParentProp => EntityKind::Prop,
            RelationKind::PropSchemaVariant => EntityKind::SchemaVariant,
            RelationKind::UiMenuSchema => EntityKind::Schema,
        }
    }
}

/// One stored version of one relation between two records.
///
/// For a belongs-to relation the logical identity is `(kind, object_id)`:
/// a newer version may point the object at a different target, or tombstone
/// the link. For a many-to-many relation the identity is the full pair
/// `(kind, object_id, target_id)`.
#[derive(Clone, Copy, Debug, PartialEq, Eq, Structural, Hash)]
pub struct RelationRow {
    /// Surrogate key, from the same sequence as record rows.
    pub pk: i64,
    pub kind: RelationKind,
    /// The owning record's logical id.
    pub object_id: i64,
    /// The target record's logical id.
    pub target_id: i64,
    pub tenancy: Tenancy,
    /// The persisted triple; its `deleted` flag tombstones the link.
    pub visibility: Visibility,
    pub timestamp: Timestamp,
}

} // verus!
