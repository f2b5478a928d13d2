//! Billing accounts: the simplest named record kind.

use vstd::prelude::*;
use vstd::string::StringExecFns;

use crate::coordinator::WorkContext;
use crate::error::ModelError;
use crate::payload::EntityKind;
use crate::payload::Payload;
use crate::row::Row;
use crate::visibility::Visibility;

verus! {

/// One resolved billing account version.
#[derive(Debug, PartialEq)]
pub struct BillingAccount {
    pub row: Row,
}

impl Clone for BillingAccount {
    fn clone(&self) -> (res: Self)
        ensures
            res == *self,
    {
        BillingAccount { row: self.row.clone() }
    }
}

impl BillingAccount {
    /// The wrapped row really is a billing account row.
    pub open spec fn wf(self) -> bool {
        self.row.payload is BillingAccount && self.row.kind == EntityKind::BillingAccount
    }

    /// Creates a billing account in the caller's own tenancy, under the
    /// context's visibility.
    pub fn new(ctx: &mut WorkContext, name: &str, description: Option<&str>) -> (res: Result<
        BillingAccount,
        ModelError,
    >)
        requires
            old(ctx).db.inv(),
            old(ctx).db.next_pk < i64::MAX,
            old(ctx).db.next_id < i64::MAX,
        ensures
            final(ctx).db.inv(),
            res is Ok <==> old(ctx).db.create_named_ok(
                old(ctx).visibility,
                EntityKind::BillingAccount,
                name@,
            ),
            res is Err ==> *final(ctx) == *old(ctx) && res == Err::<BillingAccount, ModelError>(
                if !old(ctx).db.context_writable(old(ctx).visibility) {
                    ModelError::InvalidTransition
                } else {
                    ModelError::StorageError
                },
            ),
            res matches Ok(a) ==> ({
                &&& a.wf()
                &&& a.row.payload matches Payload::BillingAccount { name: nm, description: d }
                    && nm@ == name@ && (description matches Some(s) ==> d matches Some(ds) && ds@
                    == s@) && (description is None ==> d is None)
                &&& crate::standard_model::entity_created(
                    *old(ctx),
                    *final(ctx),
                    a.row,
                    EntityKind::BillingAccount,
                )
            }),
    {
        let payload = Payload::BillingAccount {
            name: name.to_owned(),
            description: match description {
                Some(s) => Some(s.to_owned()),
                None => None,
            },
        };
        let scope = ctx.scope;
        let vis = ctx.visibility;
        let actor = ctx.actor;
        let tenancy = ctx.scope.scope;
        let now = ctx.now;
        proof {
            crate::standard_model::lemma_name_taken_view(ctx.db, vis, payload);
        }
        match ctx.db.create(&scope, &vis, &actor, &tenancy, payload, now) {
            Ok(row) => Ok(BillingAccount { row }),
            Err(e) => Err(e),
        }
    }

    /// Point lookup by logical id under the context's visibility.
    pub fn get_by_id(ctx: &WorkContext, id: i64) -> (res: Option<BillingAccount>)
        ensures
            match res {
                Some(a) => a.wf() && ctx.db.find_spec(
                    ctx.scope,
                    ctx.visibility,
                    EntityKind::BillingAccount,
                    id,
                ) == Some(a.row),
                None => !(ctx.db.find_spec(
                    ctx.scope,
                    ctx.visibility,
                    EntityKind::BillingAccount,
                    id,
                ) matches Some(r) && r.payload is BillingAccount),
            },
    {
        proof {
            crate::standard_model::lemma_deciding_row_in_rows(
                ctx.db,
                ctx.visibility,
                EntityKind::BillingAccount,
                id,
            );
        }
        match ctx.db.find(&ctx.scope, &ctx.visibility, EntityKind::BillingAccount, id) {
            Some(row) => {
                if matches!(&row.payload, Payload::BillingAccount { .. }) {
                    Some(BillingAccount { row: row.clone() })
                } else {
                    None
                }
            }
            None => None,
        }
    }

    pub fn id(&self) -> (id: i64)
        ensures
            id == self.row.id,
    {
        self.row.id
    }

    pub fn pk(&self) -> (pk: i64)
        ensures
            pk == self.row.pk,
    {
        self.row.pk
    }

    pub fn visibility(&self) -> (v: Visibility)
        ensures
            v == self.row.visibility,
    {
        self.row.visibility
    }

    pub fn name(&self) -> (n: &str)
        requires
            self.wf(),
        ensures
            n@ == self.row.payload.name_spec(),
    {
        match &self.row.payload {
            Payload::BillingAccount { name, .. } => name.as_str(),
            _ => {
                proof {
                    assert(false);
                }
                ""
            }
        }
    }

    pub fn description(&self) -> (d: Option<&String>)
        requires
            self.wf(),
        ensures
            self.row.payload matches Payload::BillingAccount { description: desc, .. } ==> ((
            desc is Some <==> d is Some) && (desc matches Some(s) ==> d matches Some(r) && *r
                == s)),
    {
        match &self.row.payload {
            Payload::BillingAccount { description, .. } => match description {
                Some(s) => Some(s),
                None => None,
            },
            _ => {
                proof {
                    assert(false);
                }
                None
            }
        }
    }
}

} // verus!
