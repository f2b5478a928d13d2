//! Request and result shapes for resolving a workflow through the
//! sandboxed function executor.

use vstd::prelude::*;

verus! {

/// A request to resolve one workflow function.
#[derive(Debug, PartialEq, Eq)]
pub struct WorkflowResolveRequest {
    pub execution_id: String,
    pub handler: String,
    pub code_base64: String,
}

impl Clone for WorkflowResolveRequest {
    fn clone(&self) -> (res: Self)
        ensures
            res == *self,
    {
        WorkflowResolveRequest {
            execution_id: self.execution_id.clone(),
            handler: self.handler.clone(),
            code_base64: self.code_base64.clone(),
        }
    }
}

/// A successful workflow resolution, as this model reports it.
#[derive(Debug, PartialEq, Eq)]
pub struct WorkflowResolveResultSuccess {
    pub execution_id: String,
}

/// A successful workflow resolution, as the language server reports it.
#[derive(Debug, PartialEq, Eq)]
pub struct LangServerWorkflowResolveResultSuccess {
    pub execution_id: String,
}

impl From<LangServerWorkflowResolveResultSuccess> for WorkflowResolveResultSuccess {
    fn from(value: LangServerWorkflowResolveResultSuccess) -> (res: Self) {
        WorkflowResolveResultSuccess { execution_id: value.execution_id }
    }
}

impl vstd::std_specs::convert::FromSpecImpl<LangServerWorkflowResolveResultSuccess> for WorkflowResolveResultSuccess {
    open spec fn obeys_from_spec() -> bool {
        true
    }

    open spec fn from_spec(value: LangServerWorkflowResolveResultSuccess) -> Self {
        WorkflowResolveResultSuccess { execution_id: value.execution_id }
    }
}

} // verus!
