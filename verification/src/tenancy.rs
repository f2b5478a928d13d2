//! Tenancy: the scope a row belongs to, and the scope an actor acts under.
//!
//! Every row carries a [`Tenancy`]; every read or write is made under a
//! [`TenancyScope`]. A workspace-bound actor may read universal rows but may
//! write only rows of its own workspace, so the read scope is strictly
//! broader than the write scope.

use vstd::prelude::*;

verus! {

/// The scope a row belongs to: shared by everyone, or bound to one workspace.
#[derive(Clone, Copy, Debug, PartialEq, Eq, Structural, Hash)]
pub enum Tenancy {
    /// Global rows, readable from every workspace.
    Universal,
    /// Rows owned by a single workspace.
    Workspace(i64),
}

impl Tenancy {
    pub fn new_universal() -> (t: Tenancy)
        ensures
            t == Tenancy::Universal,
    {
        Tenancy::Universal
    }

    pub fn new_workspace(workspace_id: i64) -> (t: Tenancy)
        ensures
            t == Tenancy::Workspace(workspace_id),
    {
        Tenancy::Workspace(workspace_id)
    }
}

/// The scope an actor acts under during one unit of work.
#[derive(Clone, Copy, Debug, PartialEq, Eq, Structural, Hash)]
pub struct TenancyScope {
    pub scope: Tenancy,
}

impl TenancyScope {
    /// A row is readable when it is in the actor's own scope, or universal.
    pub open spec fn read_ok(self, row: Tenancy) -> bool {
        row == self.scope || row == Tenancy::Universal
    }

    /// A row is writable only when it is exactly in the actor's own scope.
    pub open spec fn write_ok(self, row: Tenancy) -> bool {
        row == self.scope
    }

    pub fn new(scope: Tenancy) -> (s: TenancyScope)
        ensures
            s == (TenancyScope { scope }),
    {
        TenancyScope { scope }
    }

    pub fn applies_to_read(&self, row: &Tenancy) -> (ok: bool)
        ensures
            ok == self.read_ok(*row),
    {
        match (self.scope, row) {
            (_, Tenancy::Universal) => true,
            (Tenancy::Universal, _) => false,
            (Tenancy::Workspace(mine), Tenancy::Workspace(theirs)) => mine == *theirs,
        }
    }

    pub fn applies_to_write(&self, row: &Tenancy) -> (ok: bool)
        ensures
            ok == self.write_ok(*row),
    {
        match (self.scope, row) {
            (Tenancy::Universal, Tenancy::Universal) => true,
            (Tenancy::Workspace(mine), Tenancy::Workspace(theirs)) => mine == *theirs,
            _ => false,
        }
    }
}

/// Writable scopes are always readable: the read scope is at least as broad
/// as the write scope.
pub proof fn lemma_write_scope_is_readable(scope: TenancyScope, row: Tenancy)
    ensures
        scope.write_ok(row) ==> scope.read_ok(row),
{
}

} // verus!
