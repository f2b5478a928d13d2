//! Visibility: which version of a record is in view.
//!
//! A visibility context is the triple `(change_set_pk, edit_session_pk,
//! deleted)`. Two sentinel references mean "no change set" (head) and "no
//! edit session" (no draft). On a stored row the same triple is persisted,
//! and there the `deleted` flag is the row's tombstone; on a context the
//! flag asks for tombstoned rows to be included in reads.

use vstd::prelude::*;

verus! {

/// Primary key of a change set row; `NO_CHANGE_SET_PK` means head.
pub type ChangeSetPk = i64;

/// Primary key of an edit session row; `NO_EDIT_SESSION_PK` means no draft.
pub type EditSessionPk = i64;

/// Sentinel: the context is not inside a change set (head baseline).
pub const NO_CHANGE_SET_PK: i64 = -1;

/// Sentinel: the context is not inside an edit session (no draft).
pub const NO_EDIT_SESSION_PK: i64 = -1;

/// The `(change_set_pk, edit_session_pk, deleted)` triple.
#[derive(Clone, Copy, Debug, PartialEq, Eq, Structural, Hash)]
pub struct Visibility {
    pub change_set_pk: ChangeSetPk,
    pub edit_session_pk: EditSessionPk,
    pub deleted: bool,
}

impl Visibility {
    /// True when the context views the head baseline (no change set).
    pub open spec fn is_head_spec(self) -> bool {
        self.change_set_pk == NO_CHANGE_SET_PK
    }

    /// True when the context views an edit session draft.
    pub open spec fn in_edit_session_spec(self) -> bool {
        self.edit_session_pk != NO_EDIT_SESSION_PK
    }

    pub fn new(change_set_pk: ChangeSetPk, deleted: bool) -> (v: Visibility)
        ensures
            v == (Visibility {
                change_set_pk,
                edit_session_pk: NO_EDIT_SESSION_PK,
                deleted,
            }),
    {
        Visibility { change_set_pk, edit_session_pk: NO_EDIT_SESSION_PK, deleted }
    }

    pub fn new_head(deleted: bool) -> (v: Visibility)
        ensures
            v == (Visibility {
                change_set_pk: NO_CHANGE_SET_PK,
                edit_session_pk: NO_EDIT_SESSION_PK,
                deleted,
            }),
            v.is_head_spec(),
    {
        Visibility {
            change_set_pk: NO_CHANGE_SET_PK,
            edit_session_pk: NO_EDIT_SESSION_PK,
            deleted,
        }
    }

    pub fn new_change_set(change_set_pk: ChangeSetPk, deleted: bool) -> (v: Visibility)
        ensures
            v == (Visibility {
                change_set_pk,
                edit_session_pk: NO_EDIT_SESSION_PK,
                deleted,
            }),
    {
        Visibility { change_set_pk, edit_session_pk: NO_EDIT_SESSION_PK, deleted }
    }

    pub fn new_edit_session(
        change_set_pk: ChangeSetPk,
        edit_session_pk: EditSessionPk,
        deleted: bool,
    ) -> (v: Visibility)
        ensures
            v == (Visibility { change_set_pk, edit_session_pk, deleted }),
    {
        Visibility { change_set_pk, edit_session_pk, deleted }
    }

    pub fn is_head(&self) -> (b: bool)
        ensures
            b == self.is_head_spec(),
    {
        self.change_set_pk == NO_CHANGE_SET_PK
    }

    pub fn in_edit_session(&self) -> (b: bool)
        ensures
            b == self.in_edit_session_spec(),
    {
        self.edit_session_pk != NO_EDIT_SESSION_PK
    }

    /// The same context with the tombstone filter switched.
    pub open spec fn with_deleted_spec(self, deleted: bool) -> Visibility {
        Visibility { deleted, ..self }
    }
}

} // verus!
