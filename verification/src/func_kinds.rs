//! Kinds that classify stored functions: what authored them, which backend
//! executes them, and what the backend answers with.

use vstd::prelude::*;

verus! {

/// What kind of function an author is working on.
#[derive(Clone, Copy, Debug, PartialEq, Eq, Structural, Hash)]
pub enum FuncKind {
    Action,
    Attribute,
    Authentication,
    CodeGeneration,
    Intrinsic,
    Qualification,
    Unknown,
}

/// Which execution backend runs a stored function.
#[derive(Clone, Copy, Debug, PartialEq, Eq, Structural, Hash)]
pub enum FuncBackendKind {
    JsAction,
    JsAttribute,
    JsAuthentication,
    JsCommand,
    JsValidation,
    JsWorkflow,
    Json,
}

/// The shape of value a function backend answers with.
#[derive(Clone, Copy, Debug, PartialEq, Eq, Structural, Hash)]
pub enum FuncBackendResponseType {
    Action,
    Array,
    Boolean,
    CodeGeneration,
    Command,
    Confirmation,
    Integer,
    Json,
    Mapping,
    Object,
    Qualification,
    String,
    Unset,
    Validation,
    Void,
    Workflow,
}

} // verus!
