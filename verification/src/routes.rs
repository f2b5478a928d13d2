//! Which endpoints a function-executor server exposes, decided from its
//! configuration flags.
//!
//! The router construction itself is HTTP plumbing outside this model; the
//! decision of which execute endpoints are enabled, and in which order they
//! are mounted, is computed here.

use vstd::prelude::*;

verus! {

/// The execution endpoints a server can expose.
#[derive(Clone, Copy, Debug, PartialEq, Eq, Structural, Hash)]
pub enum ExecuteRoute {
    Ping,
    Resolver,
    Validation,
    WorkflowResolve,
    CommandRun,
    Reconciliation,
}

impl ExecuteRoute {
    /// The path the endpoint is mounted at.
    pub open spec fn path_spec(self) -> Seq<char> {
        match self {
            ExecuteRoute::Ping => "/ping"@,
            ExecuteRoute::Resolver => "/resolver"@,
            ExecuteRoute::Validation => "/validation"@,
            ExecuteRoute::WorkflowResolve => "/workflow"@,
            ExecuteRoute::CommandRun => "/command"@,
            ExecuteRoute::Reconciliation => "/reconciliation"@,
        }
    }

    pub fn path(&self) -> (p: &'static str)
        ensures
            p@ == self.path_spec(),
    {
        match self {
            ExecuteRoute::Ping => "/ping",
            ExecuteRoute::Resolver => "/resolver",
            ExecuteRoute::Validation => "/validation",
            ExecuteRoute::WorkflowResolve => "/workflow",
            ExecuteRoute::CommandRun => "/command",
            ExecuteRoute::Reconciliation => "/reconciliation",
        }
    }
}

/// Which execute endpoints a configuration enables.
#[derive(Clone, Copy, Debug, PartialEq, Eq, Structural, Hash)]
pub struct ExecuteFlags {
    pub enable_ping: bool,
    pub enable_resolver: bool,
    pub enable_validation: bool,
    pub enable_workflow_resolve: bool,
    pub enable_command_run: bool,
    pub enable_reconciliation: bool,
}

impl ExecuteFlags {
    /// Whether a given endpoint is enabled.
    pub open spec fn enables(self, route: ExecuteRoute) -> bool {
        match route {
            ExecuteRoute::Ping => self.enable_ping,
            ExecuteRoute::Resolver => self.enable_resolver,
            ExecuteRoute::Validation => self.enable_validation,
            ExecuteRoute::WorkflowResolve => self.enable_workflow_resolve,
            ExecuteRoute::CommandRun => self.enable_command_run,
            ExecuteRoute::Reconciliation => self.enable_reconciliation,
        }
    }
}

/// The enabled execute endpoints, in mount order: ping, resolver,
/// validation, workflow resolve, command run, reconciliation.
pub open spec fn execute_route_plan_spec(flags: ExecuteFlags) -> Seq<ExecuteRoute> {
    let plan = Seq::<ExecuteRoute>::empty();
    let plan = if flags.enable_ping {
        plan.push(ExecuteRoute::Ping)
    } else {
        plan
    };
    let plan = if flags.enable_resolver {
        plan.push(ExecuteRoute::Resolver)
    } else {
        plan
    };
    let plan = if flags.enable_validation {
        plan.push(ExecuteRoute::Validation)
    } else {
        plan
    };
    let plan = if flags.enable_workflow_resolve {
        plan.push(ExecuteRoute::WorkflowResolve)
    } else {
        plan
    };
    let plan = if flags.enable_command_run {
        plan.push(ExecuteRoute::CommandRun)
    } else {
        plan
    };
    if flags.enable_reconciliation {
        plan.push(ExecuteRoute::Reconciliation)
    } else {
        plan
    }
}

/// Decides which execute endpoints to mount, and in which order.
pub fn execute_route_plan(flags: &ExecuteFlags) -> (plan: Vec<ExecuteRoute>)
    ensures
        plan@ == execute_route_plan_spec(*flags),
        forall|i: int| 0 <= i < plan@.len() ==> flags.enables(#[trigger] plan@[i]),
{
    let mut plan: Vec<ExecuteRoute> = Vec::new();
    if flags.enable_ping {
        plan.push(ExecuteRoute::Ping);
    }
    if flags.enable_resolver {
        plan.push(ExecuteRoute::Resolver);
    }
    if flags.enable_validation {
        plan.push(ExecuteRoute::Validation);
    }
    if flags.enable_workflow_resolve {
        plan.push(ExecuteRoute::WorkflowResolve);
    }
    if flags.enable_command_run {
        plan.push(ExecuteRoute::CommandRun);
    }
    if flags.enable_reconciliation {
        plan.push(ExecuteRoute::Reconciliation);
    }
    proof {
        assert(plan@ =~= execute_route_plan_spec(*flags));
    }
    plan
}

} // verus!
