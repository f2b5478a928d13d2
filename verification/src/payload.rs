//! The entity-specific content of a stored row.
//!
//! One generic engine stores every entity kind; the kind and its columns
//! travel in a [`Payload`], so the engine is instantiated per kind by data
//! rather than by duplicated code.

use vstd::prelude::*;

use crate::func_kinds::FuncBackendKind;
use crate::func_kinds::FuncBackendResponseType;

verus! {

/// The table a row belongs to.
#[derive(Clone, Copy, Debug, PartialEq, Eq, Structural, Hash)]
pub enum EntityKind {
    BillingAccount,
    Edge,
    Func,
    Prop,
    Schema,
    SchemaUiMenu,
    SchemaVariant,
}

impl EntityKind {
    /// The table's name, used as the base of history event labels.
    pub open spec fn table_name_spec(self) -> Seq<char> {
        match self {
            EntityKind::BillingAccount => "billing_accounts"@,
            EntityKind::Edge => "edges"@,
            EntityKind::Func => "funcs"@,
            EntityKind::Prop => "props"@,
            EntityKind::Schema => "schemas"@,
            EntityKind::SchemaUiMenu => "schema_ui_menus"@,
            EntityKind::SchemaVariant => "schema_variants"@,
        }
    }

    pub fn table_name(&self) -> (s: &'static str)
        ensures
            s@ == self.table_name_spec(),
    {
        match self {
            EntityKind::BillingAccount => "billing_accounts",
            EntityKind::Edge => "edges",
            EntityKind::Func => "funcs",
            EntityKind::Prop => "props",
            EntityKind::Schema => "schemas",
            EntityKind::SchemaUiMenu => "schema_ui_menus",
            EntityKind::SchemaVariant => "schema_variants",
        }
    }
}

/// The shape of a property in a schema's tree.
#[derive(Clone, Copy, Debug, PartialEq, Eq, Structural, Hash)]
pub enum PropKind {
    Any,
    Array,
    Boolean,
    Integer,
    Json,
    Mapping,
    Object,
    String,
}

impl PropKind {
    /// Container kinds may hold child properties; the rest are leaves.
    pub open spec fn is_container_spec(self) -> bool {
        self == PropKind::Array || self == PropKind::Mapping || self == PropKind::Object
    }

    pub fn is_container(&self) -> (b: bool)
        ensures
            b == self.is_container_spec(),
    {
        match self {
            PropKind::Array | PropKind::Mapping | PropKind::Object => true,
            _ => false,
        }
    }
}

/// The entity-specific columns of one row version.
#[derive(Debug, PartialEq, Eq)]
pub enum Payload {
    BillingAccount { name: String, description: Option<String> },
    Edge {
        source_node_id: i64,
        source_socket_id: i64,
        destination_node_id: i64,
        destination_socket_id: i64,
    },
    Func {
        name: String,
        backend_kind: FuncBackendKind,
        response_type: FuncBackendResponseType,
        handler: String,
        code_base64: String,
        hidden: bool,
    },
    Prop { name: String, kind: PropKind },
    Schema { name: String },
    SchemaUiMenu { name: String, category: String },
    SchemaVariant { name: String },
}

impl Payload {
    /// The table this payload belongs to.
    pub open spec fn entity_kind_spec(self) -> EntityKind {
        match self {
            Payload::BillingAccount { .. } => EntityKind::BillingAccount,
            Payload::Edge { .. } => EntityKind::Edge,
            Payload::Func { .. } => EntityKind::Func,
            Payload::Prop { .. } => EntityKind::Prop,
            Payload::Schema { .. } => EntityKind::Schema,
            Payload::SchemaUiMenu { .. } => EntityKind::SchemaUiMenu,
            Payload::SchemaVariant { .. } => EntityKind::SchemaVariant,
        }
    }

    pub fn entity_kind(&self) -> (k: EntityKind)
        ensures
            k == self.entity_kind_spec(),
    {
        match self {
            Payload::BillingAccount { .. } => EntityKind::BillingAccount,
            Payload::Edge { .. } => EntityKind::Edge,
            Payload::Func { .. } => EntityKind::Func,
            Payload::Prop { .. } => EntityKind::Prop,
            Payload::Schema { .. } => EntityKind::Schema,
            Payload::SchemaUiMenu { .. } => EntityKind::SchemaUiMenu,
            Payload::SchemaVariant { .. } => EntityKind::SchemaVariant,
        }
    }

    /// Whether rows of this payload's kind carry a unique name.
    pub open spec fn has_name_spec(self) -> bool {
        !(self is Edge)
    }

    /// The name column, for kinds that have one.
    pub open spec fn name_spec(self) -> Seq<char> {
        match self {
            Payload::BillingAccount { name, .. } => name@,
            Payload::Edge { .. } => Seq::empty(),
            Payload::Func { name, .. } => name@,
            Payload::Prop { name, .. } => name@,
            Payload::Schema { name, .. } => name@,
            Payload::SchemaUiMenu { name, .. } => name@,
            Payload::SchemaVariant { name, .. } => name@,
        }
    }

    /// Whether two payloads collide on the store's per-kind unique name.
    pub open spec fn same_name_spec(self, other: Payload) -> bool {
        &&& self.entity_kind_spec() == other.entity_kind_spec()
        &&& self.has_name_spec()
        &&& self.name_spec() == other.name_spec()
    }

    pub fn same_name(&self, other: &Payload) -> (b: bool)
        ensures
            b == self.same_name_spec(*other),
    {
        match (self, other) {
            (
                Payload::BillingAccount { name: a, .. },
                Payload::BillingAccount { name: b, .. },
            ) => *a == *b,
            (Payload::Func { name: a, .. }, Payload::Func { name: b, .. }) => *a == *b,
            (Payload::Prop { name: a, .. }, Payload::Prop { name: b, .. }) => *a == *b,
            (Payload::Schema { name: a, .. }, Payload::Schema { name: b, .. }) => *a == *b,
            (
                Payload::SchemaUiMenu { name: a, .. },
                Payload::SchemaUiMenu { name: b, .. },
            ) => *a == *b,
            (
                Payload::SchemaVariant { name: a, .. },
                Payload::SchemaVariant { name: b, .. },
            ) => *a == *b,
            _ => false,
        }
    }
}

impl Clone for Payload {
    fn clone(&self) -> (res: Self)
        ensures
            res == *self,
    {
        match self {
            Payload::BillingAccount { name, description } => Payload::BillingAccount {
                name: name.clone(),
                description: description.clone(),
            },
            Payload::Edge {
                source_node_id,
                source_socket_id,
                destination_node_id,
                destination_socket_id,
            } => Payload::Edge {
                source_node_id: *source_node_id,
                source_socket_id: *source_socket_id,
                destination_node_id: *destination_node_id,
                destination_socket_id: *destination_socket_id,
            },
            Payload::Func {
                name,
                backend_kind,
                response_type,
                handler,
                code_base64,
                hidden,
            } => Payload::Func {
                name: name.clone(),
                backend_kind: *backend_kind,
                response_type: *response_type,
                handler: handler.clone(),
                code_base64: code_base64.clone(),
                hidden: *hidden,
            },
            Payload::Prop { name, kind } => Payload::Prop { name: name.clone(), kind: *kind },
            Payload::Schema { name } => Payload::Schema { name: name.clone() },
            Payload::SchemaUiMenu { name, category } => Payload::SchemaUiMenu {
                name: name.clone(),
                category: category.clone(),
            },
            Payload::SchemaVariant { name } => Payload::SchemaVariant { name: name.clone() },
        }
    }
}

} // verus!
