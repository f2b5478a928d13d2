//! Edit sessions: short-lived drafts nested inside a change set.
//!
//! An edit session is created Open under an Open change set. Saving it makes
//! its drafted rows the change set's pending content; canceling it orphans
//! them. Both ends are terminal, and a terminal session rejects further
//! writes. The lifecycle operations live with the database in `lifecycle`.

use vstd::prelude::*;

use crate::tenancy::Tenancy;
use crate::timestamp::Timestamp;
use crate::visibility::ChangeSetPk;
use crate::visibility::EditSessionPk;

verus! {

/// Lifecycle state of an edit session.
#[derive(Clone, Copy, Debug, PartialEq, Eq, Structural, Hash)]
pub enum EditSessionStatus {
    Open,
    Canceled,
    Saved,
}

/// One edit session's lifecycle row.
#[derive(Debug)]
pub struct EditSession {
    pub pk: EditSessionPk,
    /// Stable identity; this model keeps one version per session, so it
    /// tracks the surrogate key.
    pub id: i64,
    pub name: String,
    pub note: Option<String>,
    pub status: EditSessionStatus,
    /// The Open change set this session was created under.
    pub change_set_pk: ChangeSetPk,
    pub tenancy: Tenancy,
    pub timestamp: Timestamp,
}

impl Clone for EditSession {
    fn clone(&self) -> (res: Self)
        ensures
            res == *self,
    {
        EditSession {
            pk: self.pk,
            id: self.id,
            name: self.name.clone(),
            note: self.note.clone(),
            status: self.status,
            change_set_pk: self.change_set_pk,
            tenancy: self.tenancy,
            timestamp: self.timestamp,
        }
    }
}

} // verus!
