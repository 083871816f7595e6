//! Building the engine: the registration of workflows.

use crate::operations_sm::actor::{registry_of, OperationsActor, RegisteredWorkflow};
use crate::operations_sm::config::{
    pattern_of, OperationWorkflow, OperationWorkflowView, TopicFilter,
};
use vstd::prelude::*;

verus! {

/// The registry with one more workflow: the entry that registers `workflow`
/// for the plugin `plugin`, if any, comes last.
pub open spec fn with_workflow(
    registry: Seq<RegisteredWorkflow>,
    workflow: OperationWorkflowView,
    plugin: Option<usize>,
) -> Seq<RegisteredWorkflow> {
    registry.push(
        RegisteredWorkflow {
            pattern: pattern_of(workflow.filter),
            states: workflow.states,
            plugin,
        },
    )
}

/// The workflows of an engine to come, in the order of their registration.
#[derive(Debug)]
pub struct OperationsActorBuilder {
    /// All the operation workflow definitions,
    /// possibly with the handle of the plugin that implements the workflow
    workflows: Vec<(TopicFilter, OperationWorkflow, Option<usize>)>,
}

impl View for OperationsActorBuilder {
    type V = Seq<RegisteredWorkflow>;

    closed spec fn view(&self) -> Seq<RegisteredWorkflow> {
        registry_of(self.workflows@)
    }
}

impl OperationsActorBuilder {
    /// A builder with no workflow.
    pub fn new() -> (builder: OperationsActorBuilder)
        ensures
            builder@ == Seq::<RegisteredWorkflow>::empty(),
    {
        let builder = OperationsActorBuilder { workflows: Vec::new() };
        assert(builder@ =~= Seq::<RegisteredWorkflow>::empty());
        builder
    }

    /// Registers the workflow that the plugin with the handle `sender`
    /// implements. A workflow whose filter gives no pattern is not registered.
    pub fn register_operation_plugin(&mut self, sender: usize, workflow: OperationWorkflow)
        ensures
            final(self)@ == if workflow@.filter.is_valid() {
                with_workflow(old(self)@, workflow@, Some(sender))
            } else {
                old(self)@
            },
    {
        let _ = self.register_workflow(workflow, Some(sender));
    }

    /// Registers a workflow that no plugin implements. A workflow whose filter
    /// gives no pattern is not registered.
    pub fn register_custom_workflow(&mut self, workflow: OperationWorkflow)
        ensures
            final(self)@ == if workflow@.filter.is_valid() {
                with_workflow(old(self)@, workflow@, None)
            } else {
                old(self)@
            },
    {
        let _ = self.register_workflow(workflow, None);
    }

    /// Registers a workflow, after those registered before.
    ///
    /// Fails, and leaves the registry as it is, if and only if the filter of
    /// the workflow gives no pattern.
    pub fn register_workflow(
        &mut self,
        workflow: OperationWorkflow,
        sender: Option<usize>,
    ) -> (done: Result<(), String>)
        ensures
            match done {
                Ok(_) => workflow@.filter.is_valid() && final(self)@ == with_workflow(
                    old(self)@,
                    workflow@,
                    sender,
                ),
                Err(error) => !workflow@.filter.is_valid() && final(self)@ == old(self)@ && error@
                    == "Not a valid topic filter: "@ + pattern_of(workflow@.filter),
            },
    {
        let topic = match TopicFilter::try_from(&workflow.filter) {
            Ok(topic) => topic,
            Err(error) => {
                return Err(error);
            },
        };
        let ghost before = self.workflows@;
        self.workflows.push((topic, workflow, sender));
        assert(registry_of(self.workflows@) =~= with_workflow(
            registry_of(before),
            workflow@,
            sender,
        ));
        Ok(())
    }

    /// The engine with the workflows registered so far.
    pub fn try_build(self) -> (built: Result<OperationsActor, core::convert::Infallible>)
        ensures
            built matches Ok(actor) && actor@ == self@,
    {
        Ok(OperationsActor::new(self.workflows))
    }
}

} // verus!
