use serde_json::Value;
use tedge_operations::operations_sm::actor::{
    OperationAction, OperationInput, OperationStep, OperationsActor,
};
use tedge_operations::operations_sm::builder::OperationsActorBuilder;
use tedge_operations::operations_sm::config::{
    OperationFilter, OperationKey, OperationState, OperationWorkflow,
};
use tedge_operations::operations_sm::states::WorkflowStates;
use tedge_operations::operations_sm::messages::{
    MqttMessage, OperationPluginMessage, QoS, ScriptOutput,
};

const TOPIC: &str = "tedge/operations/main/configuration/update/1";

fn json(text: &str) -> Value {
    serde_json::from_str(text).unwrap()
}

fn delivered(topic: &str, payload: &str) -> MqttMessage {
    MqttMessage {
        topic: topic.to_string(),
        payload: payload.as_bytes().to_vec(),
        qos: QoS::AtLeastOnce,
        retain: true,
    }
}

fn engine() -> OperationsActor {
    let mut states = WorkflowStates::new();
    states.insert(
        "init".to_string(),
        OperationState {
            owner: "tedge".to_string(),
            script: None,
            next: vec!["scheduled".to_string()],
        },
    );
    states.insert(
        "scheduled".to_string(),
        OperationState {
            owner: "tedge".to_string(),
            script: Some("/bin/schedule".to_string()),
            next: vec!["executing".to_string()],
        },
    );
    states.insert(
        "executing".to_string(),
        OperationState {
            owner: "cloud".to_string(),
            script: None,
            next: vec![],
        },
    );
    let workflow = OperationWorkflow {
        filter: OperationFilter {
            subsystem: None,
            operation: Some("configuration".to_string()),
            request: None,
        },
        states,
    };
    let mut builder = OperationsActorBuilder::new();
    builder.register_operation_plugin(11, workflow);
    match builder.try_build() {
        Ok(actor) => actor,
        Err(never) => match never {},
    }
}

#[test]
fn forwarding() {
    let step = engine().handle(OperationInput::MqttMessage(delivered(
        TOPIC,
        r#"{"status":"init","target":"/etc/app.toml"}"#,
    )));
    match step {
        OperationStep::Forward { plugin, message } => {
            assert_eq!(plugin, 11);
            assert_eq!(message.status, "init");
            assert_eq!(message.operation.topic_name(), TOPIC);
            assert_eq!(
                message.json,
                json(r#"{"status":"init","target":"/etc/app.toml"}"#)
            );
        }
        other => panic!("unexpected step: {:?}", other),
    }
}

#[test]
fn a_script_state_asks_for_the_script_with_the_payload_as_one_argument() {
    let step = engine().handle_mqtt_operation_event(delivered(
        TOPIC,
        r#"{"status":"scheduled","target":"a b"}"#,
    ));
    match step {
        OperationStep::Execute {
            script,
            command,
            message,
        } => {
            assert_eq!(script, "/bin/schedule");
            assert_eq!(
                command,
                r#"/bin/schedule "{\"status\":\"scheduled\",\"target\":\"a b\"}""#
            );
            assert_eq!(message.status, "scheduled");
        }
        other => panic!("unexpected step: {:?}", other),
    }
}

#[test]
fn an_external_state_calls_for_nothing() {
    let step = engine().handle_mqtt_operation_event(delivered(TOPIC, r#"{"status":"executing"}"#));
    match step {
        OperationStep::Settled(OperationAction::External(owner)) => assert_eq!(owner, "cloud"),
        other => panic!("unexpected step: {:?}", other),
    }
}

#[test]
fn an_unknown_state_calls_for_nothing() {
    let step = engine().handle_mqtt_operation_event(delivered(TOPIC, r#"{"status":"lost"}"#));
    assert!(matches!(
        step,
        OperationStep::Settled(OperationAction::Unknown)
    ));
    let step = engine().handle_mqtt_operation_event(delivered(
        "tedge/operations/main/firmware/update/1",
        r#"{"status":"init"}"#,
    ));
    assert!(matches!(
        step,
        OperationStep::Settled(OperationAction::Unknown)
    ));
}

#[test]
fn an_empty_status_is_the_end() {
    let step = engine().handle_mqtt_operation_event(delivered(TOPIC, r#"{"status":""}"#));
    assert!(matches!(step, OperationStep::Settled(OperationAction::Done)));
}

#[test]
fn a_message_that_cannot_be_decoded_is_dropped() {
    match engine().handle_mqtt_operation_event(delivered(TOPIC, "not json")) {
        OperationStep::Dropped(reason) => assert_eq!(reason, "Not a JSON message"),
        other => panic!("unexpected step: {:?}", other),
    }
    match engine().handle_mqtt_operation_event(delivered("tedge/other", "{}")) {
        OperationStep::Dropped(reason) => assert_eq!(reason, "Not an operation topic: tedge/other"),
        other => panic!("unexpected step: {:?}", other),
    }
    match engine().handle_mqtt_operation_event(delivered(TOPIC, "{}")) {
        OperationStep::Dropped(reason) => assert_eq!(reason, "Missing status"),
        other => panic!("unexpected step: {:?}", other),
    }
}

#[test]
fn a_produced_state_is_published() {
    let operation = OperationKey::try_from(TOPIC).unwrap();
    let message = OperationPluginMessage::new(operation, "scheduled".to_string(), json("{}"));
    match engine().handle(OperationInput::OperationPluginMessage(message)) {
        OperationStep::Publish(published) => {
            assert_eq!(published.topic, TOPIC);
            assert_eq!(published.payload, br#"{"status":"scheduled"}"#.to_vec());
            assert_eq!(published.qos, QoS::AtLeastOnce);
            assert!(published.retain);
        }
        other => panic!("unexpected step: {:?}", other),
    }
}

#[test]
fn a_produced_state_that_cannot_be_published_is_dropped() {
    let mut operation = OperationKey::try_from(TOPIC).unwrap();
    operation.subsystem = "#".to_string();
    let message = OperationPluginMessage::new(operation, "scheduled".to_string(), json("{}"));
    match OperationsActor::publish_operation_plugin_event(message) {
        OperationStep::Dropped(reason) => assert_eq!(
            reason,
            "Not a valid topic: tedge/operations/#/configuration/update/1"
        ),
        other => panic!("unexpected step: {:?}", other),
    }
}

#[test]
fn replaying_a_retained_message_gives_the_same_step() {
    let actor = engine();
    let retained = delivered(TOPIC, r#"{"status":"scheduled","n":1}"#);
    let once = actor.handle_mqtt_operation_event(retained.clone());
    let again = actor.handle_mqtt_operation_event(retained);
    match (once, again) {
        (
            OperationStep::Execute {
                script: script_1,
                command: command_1,
                message: message_1,
            },
            OperationStep::Execute {
                script: script_2,
                command: command_2,
                message: message_2,
            },
        ) => {
            assert_eq!(script_1, script_2);
            assert_eq!(command_1, command_2);
            assert_eq!(message_1.status, message_2.status);
            assert_eq!(message_1.json, message_2.json);
        }
        other => panic!("unexpected steps: {:?}", other),
    }
}

#[test]
fn the_state_after_a_script_is_published() {
    let actor = engine();
    let step = actor.handle_mqtt_operation_event(delivered(TOPIC, r#"{"status":"scheduled"}"#));
    let (script, message) = match step {
        OperationStep::Execute {
            script, message, ..
        } => (script, message),
        other => panic!("unexpected step: {:?}", other),
    };
    let output = Ok(ScriptOutput {
        exit_code: Some(0),
        stdout: br#"{"status":"executing","by":"script"}"#.to_vec(),
        stderr: vec![],
    });
    match OperationsActor::script_update(message, script, output) {
        OperationStep::Publish(published) => {
            assert_eq!(published.topic, TOPIC);
            assert_eq!(
                String::from_utf8(published.payload).unwrap(),
                r#"{"by":"script","status":"executing"}"#
            );
        }
        other => panic!("unexpected step: {:?}", other),
    }
}

#[test]
fn operation_update_takes_the_topic_as_given() {
    let operation = OperationKey::try_from(TOPIC).unwrap();
    let message = OperationPluginMessage::new(operation, "init".to_string(), json("{}"));
    let step = engine().operation_update("tedge/operations/main/firmware/update/1", message);
    assert!(matches!(
        step,
        OperationStep::Settled(OperationAction::Unknown)
    ));
}

#[test]
fn the_failure_of_a_script_is_published() {
    let operation = OperationKey::try_from(TOPIC).unwrap();
    let message = OperationPluginMessage::new(operation, "scheduled".to_string(), json("{}"));
    let output = Ok(ScriptOutput {
        exit_code: Some(2),
        stdout: vec![],
        stderr: b"boom".to_vec(),
    });
    match OperationsActor::script_update(message, "/bin/schedule".to_string(), output) {
        OperationStep::Publish(published) => {
            assert_eq!(published.topic, TOPIC);
            assert!(published.retain);
            assert_eq!(
                json(std::str::from_utf8(&published.payload).unwrap()),
                json(r#"{"status":"failed","reason":"Script /bin/schedule failed with: boom"}"#)
            );
        }
        other => panic!("unexpected step: {:?}", other),
    }
}
