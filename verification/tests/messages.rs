use serde_json::Value;
use tedge_operations::operations_sm::config::OperationKey;
use tedge_operations::operations_sm::messages::{
    MqttMessage, OperationPluginMessage, QoS, ScriptOutput,
};

fn key() -> OperationKey {
    OperationKey {
        subsystem: "main".to_string(),
        operation: "configuration".to_string(),
        request: "update".to_string(),
        instance: "1".to_string(),
    }
}

fn json(text: &str) -> Value {
    serde_json::from_str(text).unwrap()
}

fn message(status: &str, payload: &str) -> OperationPluginMessage {
    OperationPluginMessage::new(key(), status.to_string(), json(payload))
}

fn delivered(topic: &str, payload: &[u8]) -> MqttMessage {
    MqttMessage {
        topic: topic.to_string(),
        payload: payload.to_vec(),
        qos: QoS::AtLeastOnce,
        retain: true,
    }
}

fn ended(exit_code: Option<i32>, stdout: &[u8], stderr: &[u8]) -> Result<ScriptOutput, String> {
    Ok(ScriptOutput {
        exit_code,
        stdout: stdout.to_vec(),
        stderr: stderr.to_vec(),
    })
}

const TOPIC: &str = "tedge/operations/main/configuration/update/1";

#[test]
fn new_adds_the_status_to_the_payload() {
    let message = message("init", r#"{"target":"a"}"#);
    assert_eq!(message.status, "init");
    assert_eq!(message.operation.instance, "1");
    assert_eq!(message.json, json(r#"{"target":"a","status":"init"}"#));
}

#[test]
fn new_replaces_the_status_of_the_payload() {
    let message = message("scheduled", r#"{"status":"init","n":1}"#);
    assert_eq!(message.json, json(r#"{"status":"scheduled","n":1}"#));
}

#[test]
fn new_leaves_a_payload_that_is_no_object() {
    let message = message("init", "[1,2]");
    assert_eq!(message.status, "init");
    assert_eq!(message.json, json("[1,2]"));
}

#[test]
fn update_from_json_reads_the_status() {
    let updated = message("init", "{}").update_from_json(json(r#"{"status":"done","x":true}"#));
    assert_eq!(updated.status, "done");
    assert_eq!(updated.json, json(r#"{"status":"done","x":true}"#));
    assert_eq!(updated.operation.subsystem, "main");
}

#[test]
fn update_from_json_without_status_is_unknown() {
    let updated = message("init", "{}").update_from_json(json(r#"{"x":1}"#));
    assert_eq!(updated.status, "unknown");
    assert_eq!(updated.json, json(r#"{"x":1}"#));
    let updated = message("init", "{}").update_from_json(json(r#""status""#));
    assert_eq!(updated.status, "unknown");
}

#[test]
fn update_from_json_prints_a_status_that_is_no_string() {
    let updated = message("init", "{}").update_from_json(json(r#"{"status":42}"#));
    assert_eq!(updated.status, "42");
    let updated = message("init", "{}").update_from_json(json(r#"{"status":{"b":1,"a":[null]}}"#));
    assert_eq!(updated.status, r#"{"a":[null],"b":1}"#);
}

#[test]
fn failed_with_tells_the_status_and_the_reason() {
    let failed = message("init", r#"{"target":"a"}"#).failed_with("no luck".to_string());
    assert_eq!(failed.status, "failed");
    assert_eq!(
        failed.json,
        json(r#"{"target":"a","status":"failed","reason":"no luck"}"#)
    );
}

#[test]
fn failed_with_leaves_a_payload_that_is_no_object() {
    let failed = message("init", "3").failed_with("no luck".to_string());
    assert_eq!(failed.status, "failed");
    assert_eq!(failed.json, json("3"));
}

#[test]
fn script_output_that_is_no_json_fails() {
    let next = message("init", "{}")
        .update_with_script_output("run.sh".to_string(), ended(Some(0), b"not-json", b""));
    assert_eq!(next.status, "failed");
    let reason = next.json.get("reason").unwrap().as_str().unwrap();
    assert!(reason.contains("stdout"));
    assert_eq!(
        reason,
        "Script run.sh returned non JSON stdout: expected ident at line 1 column 2"
    );
    assert_eq!(next.json.get("status").unwrap().as_str(), Some("failed"));
}

#[test]
fn script_failure_tells_what_the_script_wrote() {
    let next = message("init", "{}")
        .update_with_script_output("run.sh".to_string(), ended(Some(1), b"{}", b"boom"));
    assert_eq!(next.status, "failed");
    let reason = next.json.get("reason").unwrap().as_str().unwrap();
    assert!(reason.contains("boom"));
    assert_eq!(reason, "Script run.sh failed with: boom");
}

#[test]
fn script_success_gives_the_state_that_the_script_printed() {
    let next = message("init", r#"{"kept":false}"#).update_with_script_output(
        "run.sh".to_string(),
        ended(Some(0), br#"{"status":"done"}"#, b"ignored"),
    );
    assert_eq!(next.status, "done");
    assert_eq!(next.json, json(r#"{"status":"done"}"#));
    assert_eq!(next.operation.operation, "configuration");
}

#[test]
fn script_killed_by_a_signal_fails() {
    let next = message("init", "{}")
        .update_with_script_output("run.sh".to_string(), ended(None, b"{}", b"killed"));
    assert_eq!(next.status, "failed");
    assert_eq!(
        next.json.get("reason").unwrap().as_str(),
        Some("Script run.sh failed with: killed")
    );
}

#[test]
fn script_that_cannot_be_launched_fails() {
    let next = message("init", "{}").update_with_script_output(
        "run.sh".to_string(),
        Err("No such file or directory".to_string()),
    );
    assert_eq!(next.status, "failed");
    assert_eq!(
        next.json.get("reason").unwrap().as_str(),
        Some("Failed to launch run.sh: No such file or directory")
    );
}

#[test]
fn script_output_that_is_no_text_fails() {
    let next = message("init", "{}")
        .update_with_script_output("run.sh".to_string(), ended(Some(0), &[0xff, 0xfe], b""));
    assert_eq!(next.status, "failed");
    assert_eq!(
        next.json.get("reason").unwrap().as_str(),
        Some("Script run.sh returned non UTF-8 stdout")
    );
}

#[test]
fn script_failure_that_is_no_text_fails() {
    let next = message("init", "{}")
        .update_with_script_output("run.sh".to_string(), ended(Some(2), b"{}", &[0xc0]));
    assert_eq!(next.status, "failed");
    assert_eq!(
        next.json.get("reason").unwrap().as_str(),
        Some("Script run.sh failed and returned non UTF-8 stderr")
    );
}

#[test]
fn script_output_that_is_no_object_fails() {
    let next = message("init", "{}")
        .update_with_script_output("run.sh".to_string(), ended(Some(0), b"[1, 2]", b""));
    assert_eq!(next.status, "failed");
    assert_eq!(
        next.json.get("reason").unwrap().as_str(),
        Some("Script run.sh returned non JSON stdout: not a JSON object")
    );
}

#[test]
fn script_output_keeps_non_ascii_text() {
    let next = message("init", "{}").update_with_script_output(
        "run.sh".to_string(),
        ended(Some(0), r#"{"status":"terminé"}"#.as_bytes(), b""),
    );
    assert_eq!(next.status, "terminé");
    let next = message("init", "{}").update_with_script_output(
        "run.sh".to_string(),
        ended(Some(3), b"", "échec €".as_bytes()),
    );
    assert_eq!(
        next.json.get("reason").unwrap().as_str(),
        Some("Script run.sh failed with: échec €")
    );
}

#[test]
fn from_json_needs_a_status() {
    let ok = OperationPluginMessage::from_json(key(), json(r#"{"status":"init","a":1}"#)).unwrap();
    assert_eq!(ok.status, "init");
    assert_eq!(ok.json, json(r#"{"status":"init","a":1}"#));
    for payload in [r#"{"a":1}"#, r#"{"status":1}"#, r#"["status"]"#, "null"] {
        let error = OperationPluginMessage::from_json(key(), json(payload)).unwrap_err();
        assert_eq!(error, "Missing status");
    }
}

#[test]
fn a_delivered_message_is_decoded() {
    let decoded =
        OperationPluginMessage::try_from(&delivered(TOPIC, br#"{"status":"init","x":[1]}"#))
            .unwrap();
    assert_eq!(decoded.status, "init");
    assert_eq!(decoded.operation.subsystem, "main");
    assert_eq!(decoded.operation.operation, "configuration");
    assert_eq!(decoded.operation.request, "update");
    assert_eq!(decoded.operation.instance, "1");
    assert_eq!(decoded.json, json(r#"{"status":"init","x":[1]}"#));
}

#[test]
fn a_delivered_message_on_another_topic_is_refused() {
    let error = OperationPluginMessage::try_from(&delivered(
        "tedge/measurements/main",
        br#"{"status":"init"}"#,
    ))
    .unwrap_err();
    assert_eq!(error, "Not an operation topic: tedge/measurements/main");
}

#[test]
fn a_delivered_message_that_is_no_text_is_refused() {
    let error = OperationPluginMessage::try_from(&delivered(TOPIC, &[0x80, 0x81])).unwrap_err();
    assert_eq!(error, "Not an UTF-8 message");
}

#[test]
fn a_delivered_message_that_is_no_json_is_refused() {
    let error =
        OperationPluginMessage::try_from(&delivered(TOPIC, b"{\"status\":")).unwrap_err();
    assert_eq!(error, "Not a JSON message");
    let error = OperationPluginMessage::try_from(&delivered(TOPIC, b"")).unwrap_err();
    assert_eq!(error, "Not a JSON message");
}

#[test]
fn a_delivered_message_without_status_is_refused() {
    let error = OperationPluginMessage::try_from(&delivered(TOPIC, b"{\"x\":1}")).unwrap_err();
    assert_eq!(error, "Missing status");
    let error = OperationPluginMessage::try_from(&delivered(TOPIC, b"[1]")).unwrap_err();
    assert_eq!(error, "Missing status");
}

#[test]
fn a_state_is_published_retained_and_at_least_once() {
    let published =
        MqttMessage::try_from(message("init", r#"{"target":"a","n":[1,2]}"#)).unwrap();
    assert_eq!(published.topic, TOPIC);
    assert_eq!(published.qos, QoS::AtLeastOnce);
    assert!(published.retain);
    assert_eq!(
        String::from_utf8(published.payload).unwrap(),
        r#"{"n":[1,2],"status":"init","target":"a"}"#
    );
}

#[test]
fn a_state_on_a_topic_with_a_wildcard_is_not_published() {
    let mut message = message("init", "{}");
    message.operation.instance = "+".to_string();
    let error = MqttMessage::try_from(message).unwrap_err();
    assert_eq!(
        error,
        "Not a valid topic: tedge/operations/main/configuration/update/+"
    );
}

#[test]
fn what_is_published_is_decoded_as_it_was() {
    let source = message("downloading", r#"{"path":"/tmp/é","size":12}"#);
    let copy = source.clone();
    let published = MqttMessage::try_from(source).unwrap();
    let decoded = OperationPluginMessage::try_from(&published).unwrap();
    assert_eq!(decoded.status, copy.status);
    assert_eq!(decoded.json, copy.json);
    assert_eq!(decoded.operation.topic_name(), copy.operation.topic_name());
}

#[test]
fn script_success_is_the_exit_code_zero() {
    let output = |exit_code| ScriptOutput {
        exit_code,
        stdout: vec![],
        stderr: vec![],
    };
    assert!(output(Some(0)).success());
    assert!(!output(Some(1)).success());
    assert!(!output(Some(-1)).success());
    assert!(!output(None).success());
}

#[test]
fn messages_convert_through_the_standard_traits() {
    let event = delivered(TOPIC, br#"{"status":"init"}"#);
    let decoded: Result<OperationPluginMessage, String> = (&event).try_into();
    let decoded = decoded.unwrap();
    assert_eq!(decoded.status, "init");
    let published: Result<MqttMessage, String> = decoded.try_into();
    assert_eq!(published.unwrap().payload, br#"{"status":"init"}"#.to_vec());
}
