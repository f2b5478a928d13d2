//! Change sets: named branches of drafted changes.
//!
//! A change set is created Open, and ends Applied (its saved content merged
//! into head) or Abandoned (its content orphaned). Both ends are terminal.
//! The lifecycle operations live with the database in `lifecycle`.

use vstd::prelude::*;

use crate::tenancy::Tenancy;
use crate::timestamp::Timestamp;
use crate::visibility::ChangeSetPk;

verus! {

/// Lifecycle state of a change set.
#[derive(Clone, Copy, Debug, PartialEq, Eq, Structural, Hash)]
pub enum ChangeSetStatus {
    Open,
    Applied,
    Abandoned,
}

/// One change set's lifecycle row.
#[derive(Debug)]
pub struct ChangeSet {
    pub pk: ChangeSetPk,
    pub name: String,
    pub note: Option<String>,
    pub status: ChangeSetStatus,
    pub tenancy: Tenancy,
    pub timestamp: Timestamp,
    /// When the change set reached a terminal state, if it has.
    pub finished_at: Option<i64>,
}

impl Clone for ChangeSet {
    fn clone(&self) -> (res: Self)
        ensures
            res == *self,
    {
        ChangeSet {
            pk: self.pk,
            name: self.name.clone(),
            note: self.note.clone(),
            status: self.status,
            tenancy: self.tenancy,
            timestamp: self.timestamp,
            finished_at: self.finished_at,
        }
    }
}

} // verus!
