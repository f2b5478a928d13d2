//! The failure taxonomy of the model.
//!
//! None of these is retried inside the model; each propagates to the caller
//! as a typed failure, and a failed unit of work commits nothing.

use vstd::prelude::*;

verus! {

/// Every way an operation of this model can fail.
#[derive(Clone, Copy, Debug, PartialEq, Eq, Structural, Hash)]
pub enum ModelError {
    /// No live row resolves for the requested record.
    NotFound,
    /// The caller's scope excludes the row's tenancy.
    TenancyViolation,
    /// A structural constraint on a relation was violated.
    InvalidRelation,
    /// A lifecycle operation or a write hit a non-Open change set or
    /// edit session.
    InvalidTransition,
    /// A concurrent head mutation was detected while applying a change set.
    ApplyConflict,
    /// The storage layer refused the mutation or the transaction.
    StorageError,
    /// A post-commit notification flush failed; committed data stands.
    NotificationDeliveryFailure,
}

impl ModelError {
    /// A short description, in place of a `Display` implementation.
    pub fn message(&self) -> &'static str {
        match self {
            ModelError::NotFound => "no live row resolves",
            ModelError::TenancyViolation => "tenancy scope excludes the row",
            ModelError::InvalidRelation => "relation structure violated",
            ModelError::InvalidTransition => "lifecycle state is terminal",
            ModelError::ApplyConflict => "concurrent head mutation detected",
            ModelError::StorageError => "storage refused the mutation",
            ModelError::NotificationDeliveryFailure => "post-commit notification flush failed",
        }
    }
}

} // verus!
