//! The engine: which action a state of an operation calls for, and what the
//! engine does with each message that it is given.

use crate::json::{json_text, to_text, JsonModel};
use crate::operations_sm::config::{
    key_of_topic, tedge_owner, OperationKey, OperationStateView, OperationWorkflow, TopicFilter,
};
use crate::operations_sm::messages::{
    decoded, published, MqttMessage, MqttMessageView, OperationPluginMessage,
    OperationPluginMessageView, ScriptOutput,
};
use crate::operations_sm::topic::pattern_accepts;
use crate::text::{debug_text, quoted};
use vstd::prelude::*;

verus! {

/// What a state of an operation calls for.
#[derive(Debug)]
pub enum OperationAction {
    /// No registered workflow tells what to do.
    Unknown,
    /// The operation is over.
    Done,
    /// Another participant, named here, moves the operation forward.
    External(String),
    /// The plugin with this handle moves the operation forward.
    Internal(usize),
    /// This script moves the operation forward.
    Script(String),
}

/// What an [`OperationAction`] holds.
pub ghost enum OperationActionView {
    Unknown,
    Done,
    External(Seq<char>),
    Internal(usize),
    Script(Seq<char>),
}

impl View for OperationAction {
    type V = OperationActionView;

    open spec fn view(&self) -> OperationActionView {
        match self {
            OperationAction::Unknown => OperationActionView::Unknown,
            OperationAction::Done => OperationActionView::Done,
            OperationAction::External(owner) => OperationActionView::External(owner@),
            OperationAction::Internal(plugin) => OperationActionView::Internal(*plugin),
            OperationAction::Script(script) => OperationActionView::Script(script@),
        }
    }
}

/// A workflow as the engine holds it: the pattern of the topics that it rules,
/// its states, and the plugin that implements it, if any.
pub ghost struct RegisteredWorkflow {
    pub pattern: Seq<char>,
    pub states: Map<Seq<char>, OperationStateView>,
    pub plugin: Option<usize>,
}

/// What an entry of the registry holds.
pub open spec fn registered(entry: (TopicFilter, OperationWorkflow, Option<usize>))
    -> RegisteredWorkflow {
    RegisteredWorkflow { pattern: entry.0@, states: entry.1@.states, plugin: entry.2 }
}

/// What a registry holds, in the order of registration.
pub open spec fn registry_of(workflows: Seq<(TopicFilter, OperationWorkflow, Option<usize>)>)
    -> Seq<RegisteredWorkflow> {
    workflows.map_values(|entry: (TopicFilter, OperationWorkflow, Option<usize>)| registered(entry))
}

/// What a state calls for in a workflow with the plugin `plugin`, if the
/// workflow can tell: its owner, where that is not thin-edge; else its
/// script; else the plugin.
pub open spec fn state_action(state: OperationStateView, plugin: Option<usize>) -> Option<
    OperationActionView,
> {
    if state.owner != "tedge"@ {
        Some(OperationActionView::External(state.owner))
    } else if state.script is Some {
        Some(OperationActionView::Script(state.script->0))
    } else if plugin is Some {
        Some(OperationActionView::Internal(plugin->0))
    } else {
        None
    }
}

/// Whether a workflow rules the topic and defines the state named `status`.
pub open spec fn defines(workflow: RegisteredWorkflow, topic: Seq<char>, status: Seq<char>)
    -> bool {
    pattern_accepts(workflow.pattern, topic) && workflow.states.contains_key(status)
}

/// What one workflow tells to do for the state `status` of the operation on
/// `topic`, if it tells anything.
pub open spec fn workflow_action(workflow: RegisteredWorkflow, topic: Seq<char>, status: Seq<char>)
    -> Option<OperationActionView> {
    if defines(workflow, topic, status) {
        state_action(workflow.states[status], workflow.plugin)
    } else {
        None
    }
}

/// What the first workflow that tells anything tells to do, and `Unknown` if
/// none does.
pub open spec fn first_action(
    workflows: Seq<RegisteredWorkflow>,
    topic: Seq<char>,
    status: Seq<char>,
) -> OperationActionView
    decreases workflows.len(),
{
    if workflows.len() == 0 {
        OperationActionView::Unknown
    } else {
        match workflow_action(workflows[0], topic, status) {
            Some(action) => action,
            None => first_action(workflows.drop_first(), topic, status),
        }
    }
}

/// What the state `status` of the operation on `topic` calls for: nothing
/// more where the status is empty, and else what the first workflow that tells
/// anything tells.
pub open spec fn resolution(workflows: Seq<RegisteredWorkflow>, topic: Seq<char>, status: Seq<char>)
    -> OperationActionView {
    if status.len() == 0 {
        OperationActionView::Done
    } else {
        first_action(workflows, topic, status)
    }
}

/// Where no workflow rules the topic and defines the state, the action is
/// `Unknown`.
pub proof fn lemma_unknown_state(
    workflows: Seq<RegisteredWorkflow>,
    topic: Seq<char>,
    status: Seq<char>,
)
    requires
        status.len() > 0,
        forall|i: int|
            0 <= i < workflows.len() ==> !defines(#[trigger] workflows[i], topic, status),
    ensures
        resolution(workflows, topic, status) == OperationActionView::Unknown,
    decreases workflows.len(),
{
    if workflows.len() > 0 {
        let rest = workflows.drop_first();
        assert forall|i: int| 0 <= i < rest.len() implies !defines(
            #[trigger] rest[i],
            topic,
            status,
        ) by {
            assert(rest[i] == workflows[i + 1]);
        }
        lemma_unknown_state(rest, topic, status);
    }
}

/// The first workflow that tells anything decides: the workflows registered
/// before it that tell nothing are passed over.
pub proof fn lemma_first_resolvable_wins(
    workflows: Seq<RegisteredWorkflow>,
    topic: Seq<char>,
    status: Seq<char>,
    winner: int,
)
    requires
        status.len() > 0,
        0 <= winner < workflows.len(),
        forall|i: int|
            0 <= i < winner ==> workflow_action(#[trigger] workflows[i], topic, status) is None,
        workflow_action(workflows[winner], topic, status) is Some,
    ensures
        resolution(workflows, topic, status) == workflow_action(
            workflows[winner],
            topic,
            status,
        )->0,
    decreases winner,
{
    if winner > 0 {
        let rest = workflows.drop_first();
        assert forall|i: int| 0 <= i < winner - 1 implies workflow_action(
            #[trigger] rest[i],
            topic,
            status,
        ) is None by {
            assert(rest[i] == workflows[i + 1]);
        }
        assert(rest[winner - 1] == workflows[winner]);
        lemma_first_resolvable_wins(rest, topic, status, winner - 1);
    }
}

/// Of two workflows that both rule the topic and define the state, where the
/// first gives the state to thin-edge with neither a script nor a plugin, and
/// the second gives it to thin-edge with a script, the script of the second is
/// run.
pub proof fn lemma_precedence(
    first: RegisteredWorkflow,
    second: RegisteredWorkflow,
    topic: Seq<char>,
    status: Seq<char>,
)
    requires
        status.len() > 0,
        defines(first, topic, status),
        defines(second, topic, status),
        first.states[status].owner == "tedge"@,
        first.states[status].script is None,
        first.plugin is None,
        second.states[status].owner == "tedge"@,
        second.states[status].script is Some,
    ensures
        resolution(seq![first, second], topic, status) == OperationActionView::Script(
            second.states[status].script->0,
        ),
{
    lemma_first_resolvable_wins(seq![first, second], topic, status, 1);
}

/// Resolving the same state of the same operation twice, against the same
/// registry, gives the same action.
pub proof fn lemma_resolution_is_deterministic(
    workflows: Seq<RegisteredWorkflow>,
    topic: Seq<char>,
    status: Seq<char>,
    once: OperationActionView,
    again: OperationActionView,
)
    requires
        once == resolution(workflows, topic, status),
        again == resolution(workflows, topic, status),
    ensures
        once == again,
{
}

/// What the engine does with a message.
#[derive(Debug)]
pub enum OperationStep {
    /// The message is dropped, for the reason given.
    Dropped(String),
    /// The state calls for nothing from the engine: the operation is over,
    /// unknown, or in the hands of another participant.
    Settled(OperationAction),
    /// The message is handed to the plugin with this handle, and nothing is
    /// published.
    Forward { plugin: usize, message: OperationPluginMessage },
    /// The script is to be run with the command line `command`. What it gives
    /// decides of the state that follows `message`.
    Execute { script: String, command: String, message: OperationPluginMessage },
    /// The message is published on the transport.
    Publish(MqttMessage),
}

/// What an [`OperationStep`] holds.
pub ghost enum OperationStepView {
    Dropped(Seq<char>),
    Settled(OperationActionView),
    Forward { plugin: usize, message: OperationPluginMessageView },
    Execute { script: Seq<char>, command: Seq<char>, message: OperationPluginMessageView },
    Publish(MqttMessageView),
}

impl View for OperationStep {
    type V = OperationStepView;

    open spec fn view(&self) -> OperationStepView {
        match self {
            OperationStep::Dropped(reason) => OperationStepView::Dropped(reason@),
            OperationStep::Settled(action) => OperationStepView::Settled(action@),
            OperationStep::Forward { plugin, message } => OperationStepView::Forward {
                plugin: *plugin,
                message: message@,
            },
            OperationStep::Execute { script, command, message } => OperationStepView::Execute {
                script: script@,
                command: command@,
                message: message@,
            },
            OperationStep::Publish(message) => OperationStepView::Publish(message@),
        }
    }
}

/// An input of the engine.
#[derive(Debug)]
pub enum OperationInput {
    /// A message that the transport delivered.
    MqttMessage(MqttMessage),
    /// A state that a plugin or a script produced.
    OperationPluginMessage(OperationPluginMessage),
}

/// The command line that runs `script` on a payload: the script, a space, and
/// the JSON text of the payload as one quoted argument.
pub open spec fn command_line(script: Seq<char>, json: JsonModel) -> Seq<char> {
    script + " "@ + debug_text(json_text(json))
}

/// What the engine does with the state `message` of the operation on `topic`.
pub open spec fn update_step(
    workflows: Seq<RegisteredWorkflow>,
    topic: Seq<char>,
    message: OperationPluginMessageView,
) -> OperationStepView {
    match resolution(workflows, topic, message.status) {
        OperationActionView::Internal(plugin) => OperationStepView::Forward { plugin, message },
        OperationActionView::Script(script) => OperationStepView::Execute {
            script,
            command: command_line(script, message.json),
            message,
        },
        action => OperationStepView::Settled(action),
    }
}

/// What the engine does with a message that the transport delivered.
pub open spec fn delivery_step(workflows: Seq<RegisteredWorkflow>, event: MqttMessageView)
    -> OperationStepView {
    match decoded(event) {
        Err(reason) => OperationStepView::Dropped(reason),
        Ok(message) => update_step(workflows, event.topic, message),
    }
}

/// What the engine does with a state that a plugin or a script produced.
pub open spec fn publication_step(message: OperationPluginMessageView) -> OperationStepView {
    match published(message) {
        Ok(publication) => OperationStepView::Publish(publication),
        Err(reason) => OperationStepView::Dropped(reason),
    }
}

/// What the engine does once the script `script`, run for the state `message`,
/// has given `output`: the state that follows is published.
pub open spec fn script_step(
    message: OperationPluginMessageView,
    script: Seq<char>,
    output: Result<ScriptOutput, String>,
) -> OperationStepView {
    publication_step(message.after_script(script, output))
}

/// A message delivered on a topic whose state is in the hands of a plugin is
/// handed to that plugin as it was decoded, and nothing is published.
pub proof fn lemma_forwarding(
    workflows: Seq<RegisteredWorkflow>,
    event: MqttMessageView,
    message: OperationPluginMessageView,
    plugin: usize,
)
    requires
        decoded(event) == Ok::<OperationPluginMessageView, Seq<char>>(message),
        resolution(workflows, event.topic, message.status) == OperationActionView::Internal(
            plugin,
        ),
    ensures
        delivery_step(workflows, event) == (OperationStepView::Forward { plugin, message }),
        !(delivery_step(workflows, event) is Publish),
{
}

/// The engine, with all the workflows that it knows.
#[derive(Debug)]
pub struct OperationsActor {
    /// All the operation workflow definitions,
    /// possibly with the handle of the plugin that implements the workflow
    workflows: Vec<(TopicFilter, OperationWorkflow, Option<usize>)>,
}

impl View for OperationsActor {
    type V = Seq<RegisteredWorkflow>;

    closed spec fn view(&self) -> Seq<RegisteredWorkflow> {
        registry_of(self.workflows@)
    }
}

impl OperationsActor {
    /// The name of the engine.
    pub fn name() -> (name: &'static str)
        ensures
            name@ == "Operations"@,
    {
        "Operations"
    }

    /// The pattern of the topics that the engine listens to: those of all the
    /// operations.
    pub fn subscriptions() -> (pattern: TopicFilter)
        ensures
            pattern@ == "tedge/operations/+/+/+/+"@,
    {
        TopicFilter::any()
    }

    /// An engine with the workflows given, in their order.
    pub fn new(workflows: Vec<(TopicFilter, OperationWorkflow, Option<usize>)>) -> (actor:
        OperationsActor)
        ensures
            actor@ == registry_of(workflows@),
    {
        OperationsActor { workflows }
    }

    /// What the engine does with one input.
    pub fn handle(&self, input: OperationInput) -> (step: OperationStep)
        ensures
            step@ == match input {
                OperationInput::MqttMessage(event) => delivery_step(self@, event@),
                OperationInput::OperationPluginMessage(message) => publication_step(message@),
            },
    {
        match input {
            OperationInput::MqttMessage(event) => self.handle_mqtt_operation_event(event),
            OperationInput::OperationPluginMessage(event) => {
                OperationsActor::publish_operation_plugin_event(event)
            },
        }
    }

    /// What the engine does with a message that the transport delivered: a
    /// message that carries no state of an operation is dropped, and else the
    /// state decides.
    pub fn handle_mqtt_operation_event(&self, event: MqttMessage) -> (step: OperationStep)
        ensures
            step@ == delivery_step(self@, event@),
    {
        match OperationPluginMessage::try_from(&event) {
            Err(reason) => OperationStep::Dropped(reason),
            Ok(operation_state) => self.operation_update(event.topic.as_str(), operation_state),
        }
    }

    /// Publish over MQTT the new state for an operation
    pub fn publish_operation_plugin_event(event: OperationPluginMessage) -> (step: OperationStep)
        ensures
            step@ == publication_step(event@),
    {
        match MqttMessage::try_from(event) {
            Ok(mqtt_message) => OperationStep::Publish(mqtt_message),
            Err(reason) => OperationStep::Dropped(reason),
        }
    }

    /// What the engine does once the script `script`, run for the state
    /// `operation_state`, has given `output`: the state that follows, be it a
    /// failure, is published.
    pub fn script_update(
        operation_state: OperationPluginMessage,
        script: String,
        output: Result<ScriptOutput, String>,
    ) -> (step: OperationStep)
        ensures
            step@ == script_step(operation_state@, script@, output),
    {
        let new_state = operation_state.update_with_script_output(script, output);
        OperationsActor::publish_operation_plugin_event(new_state)
    }

    /// What the engine does with the state `operation_state` of the operation
    /// on `topic`: it hands the state to the plugin, asks for the script to be
    /// run, or does nothing.
    pub fn operation_update(&self, topic: &str, operation_state: OperationPluginMessage) -> (step:
        OperationStep)
        ensures
            step@ == update_step(self@, topic@, operation_state@),
    {
        match self.get_workflow_state(topic, operation_state.status.as_str()) {
            OperationAction::Internal(plugin) => OperationStep::Forward {
                plugin,
                message: operation_state,
            },
            OperationAction::Script(script) => {
                let mut command = script.clone();
                command.append(" ");
                let payload = to_text(&operation_state.json);
                command.append(quoted(payload.as_str()).as_str());
                OperationStep::Execute { script, command, message: operation_state }
            },
            action => OperationStep::Settled(action),
        }
    }

    /// What the state `status` of the operation on `topic` calls for.
    ///
    /// An empty status calls for nothing more. Else the workflows are asked in
    /// the order of their registration, and the first that rules the topic,
    /// defines the state and tells who moves it forward decides.
    pub fn get_workflow_state(&self, topic: &str, status: &str) -> (action: OperationAction)
        ensures
            action@ == resolution(self@, topic@, status@),
            status@.len() == 0 ==> action@ == OperationActionView::Done,
    {
        if status.is_empty() {
            return OperationAction::Done;
        }
        let operation = match OperationKey::try_from(topic) {
            Ok(key) => Some(key),
            Err(_) => None,
        };
        let tedge = tedge_owner();
        let mut i: usize = 0;
        assert(self@.skip(0) =~= self@);
        while i < self.workflows.len()
            invariant
                i <= self.workflows@.len(),
                status@.len() > 0,
                tedge@ == "tedge"@,
                match operation {
                    Some(key) => key_of_topic(topic@) == Some(key@),
                    None => key_of_topic(topic@) is None,
                },
                first_action(self@, topic@, status@) == first_action(
                    self@.skip(i as int),
                    topic@,
                    status@,
                ),
            decreases self.workflows@.len() - i,
        {
            proof {
                assert(self@.skip(i as int)[0] == registered(self.workflows@[i as int]));
                assert(self@.skip(i as int).drop_first() =~= self@.skip(i + 1));
            }
            let entry = &self.workflows[i];
            if entry.0.accept_decoded(topic, &operation) {
                match entry.1.states.get(status) {
                    Some(state) => {
                        if !(state.owner == tedge) {
                            return OperationAction::External(state.owner.clone());
                        }
                        match &state.script {
                            Some(script) => {
                                return OperationAction::Script(script.clone());
                            },
                            None => {},
                        }
                        match entry.2 {
                            Some(plugin) => {
                                return OperationAction::Internal(plugin);
                            },
                            None => {},
                        }
                    },
                    None => {},
                }
            }
            i += 1;
        }
        OperationAction::Unknown
    }
}

} // verus!
