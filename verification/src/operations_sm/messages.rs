//! The messages that carry the state of an operation, and how they are read
//! from and written to the transport.

use crate::json::{
    as_text, error_message, is_object, json_model, json_parse, json_text, member, parse,
    set_text_member, text_member, to_text, JsonModel,
};
use crate::operations_sm::config::{
    is_topic_name, key_of_topic, topic_of, OperationKey, OperationKeyView,
};
use crate::text::utf8_text;
use vstd::prelude::*;
use vstd::std_specs::convert::TryFromSpecImpl;
use vstd::string::StringSliceAdditionalSpecFns;
use vstd::utf8::{decode_utf8, encode_utf8, encode_utf8_decode_utf8, valid_utf8};

verus! {

/// The quality of service of a message on the transport.
#[derive(Clone, Copy, Debug, PartialEq, Eq, Structural)]
pub enum QoS {
    AtMostOnce,
    AtLeastOnce,
    ExactlyOnce,
}

/// A message of the transport.
#[derive(Debug)]
pub struct MqttMessage {
    pub topic: String,
    pub payload: Vec<u8>,
    pub qos: QoS,
    pub retain: bool,
}

/// What an [`MqttMessage`] holds.
pub ghost struct MqttMessageView {
    pub topic: Seq<char>,
    pub payload: Seq<u8>,
    pub qos: QoS,
    pub retain: bool,
}

impl View for MqttMessage {
    type V = MqttMessageView;

    open spec fn view(&self) -> MqttMessageView {
        MqttMessageView {
            topic: self.topic@,
            payload: self.payload@,
            qos: self.qos,
            retain: self.retain,
        }
    }
}

impl Clone for MqttMessage {
    fn clone(&self) -> (copy: MqttMessage)
        ensures
            copy@ == self@,
    {
        MqttMessage {
            topic: self.topic.clone(),
            payload: self.payload.clone(),
            qos: self.qos,
            retain: self.retain,
        }
    }
}

/// What a script left behind when it ended.
#[derive(Debug)]
pub struct ScriptOutput {
    /// The exit code, if the script ended by itself.
    pub exit_code: Option<i32>,
    /// What the script wrote on its standard output.
    pub stdout: Vec<u8>,
    /// What the script wrote on its standard error.
    pub stderr: Vec<u8>,
}

impl Clone for ScriptOutput {
    fn clone(&self) -> (copy: ScriptOutput)
        ensures
            copy.exit_code == self.exit_code,
            copy.stdout@ == self.stdout@,
            copy.stderr@ == self.stderr@,
    {
        ScriptOutput {
            exit_code: self.exit_code,
            stdout: self.stdout.clone(),
            stderr: self.stderr.clone(),
        }
    }
}

impl ScriptOutput {
    /// Whether the script ended with the exit code zero.
    pub open spec fn spec_success(&self) -> bool {
        self.exit_code == Some(0i32)
    }

    /// Whether the script ended with the exit code zero.
    #[verifier::when_used_as_spec(spec_success)]
    pub fn success(&self) -> (success: bool)
        ensures
            success == self.spec_success(),
    {
        match self.exit_code {
            Some(code) => code == 0,
            None => false,
        }
    }
}

/// A complete snapshot of the state of one operation instance.
#[derive(Debug)]
pub struct OperationPluginMessage {
    pub operation: OperationKey,
    pub status: String,
    pub json: serde_json::Value,
}

/// What an [`OperationPluginMessage`] holds.
pub ghost struct OperationPluginMessageView {
    pub operation: OperationKeyView,
    pub status: Seq<char>,
    pub json: JsonModel,
}

impl View for OperationPluginMessage {
    type V = OperationPluginMessageView;

    open spec fn view(&self) -> OperationPluginMessageView {
        OperationPluginMessageView {
            operation: self.operation@,
            status: self.status@,
            json: json_model(self.json),
        }
    }
}

impl Clone for OperationPluginMessage {
    fn clone(&self) -> (copy: OperationPluginMessage)
        ensures
            copy@ == self@,
    {
        OperationPluginMessage {
            operation: self.operation.clone(),
            status: self.status.clone(),
            json: self.json.clone(),
        }
    }
}

/// The status that a payload tells: the text of its member `status` where that
/// is a string, the JSON text of that member where it is anything else, and
/// `unknown` where the payload has no such member.
pub open spec fn status_of(json: JsonModel) -> Seq<char> {
    match json.member("status"@) {
        Some(JsonModel::String(text)) => text,
        Some(other) => json_text(other),
        None => "unknown"@,
    }
}

/// Why a script that could not be launched failed.
pub open spec fn launch_failure(script: Seq<char>, error: Seq<char>) -> Seq<char> {
    "Failed to launch "@ + script + ": "@ + error
}

/// Why a script that ended with another exit code than zero failed.
pub open spec fn script_failure(script: Seq<char>, stderr: Seq<char>) -> Seq<char> {
    "Script "@ + script + " failed with: "@ + stderr
}

/// Why a script that failed and left no text behind failed.
pub open spec fn unreadable_failure(script: Seq<char>) -> Seq<char> {
    "Script "@ + script + " failed and returned non UTF-8 stderr"@
}

/// Why a script whose output is no text failed.
pub open spec fn unreadable_output(script: Seq<char>) -> Seq<char> {
    "Script "@ + script + " returned non UTF-8 stdout"@
}

/// Why a script whose output is no JSON object failed.
pub open spec fn unusable_output(script: Seq<char>, error: Seq<char>) -> Seq<char> {
    "Script "@ + script + " returned non JSON stdout: "@ + error
}

impl OperationPluginMessageView {
    /// Whether the payload is an object that tells the status of the message.
    pub open spec fn is_snapshot(self) -> bool {
        self.json.text_member("status"@) == Some(self.status)
    }

    /// The message of the same operation with the payload `json`, the status
    /// being read from the payload.
    pub open spec fn updated_from(self, json: JsonModel) -> Self {
        OperationPluginMessageView { operation: self.operation, status: status_of(json), json }
    }

    /// This message turned into a failure: the status is `failed`, and the
    /// payload tells so, and why.
    pub open spec fn failed_with(self, reason: Seq<char>) -> Self {
        OperationPluginMessageView {
            operation: self.operation,
            status: "failed"@,
            json: self.json.with_text_member("status"@, "failed"@).with_text_member(
                "reason"@,
                reason,
            ),
        }
    }

    /// The state that follows this one once the script `script` has given
    /// `output`.
    pub open spec fn after_script(
        self,
        script: Seq<char>,
        output: Result<ScriptOutput, String>,
    ) -> Self {
        match output {
            Err(error) => self.failed_with(launch_failure(script, error@)),
            Ok(output) => if output.spec_success() {
                if valid_utf8(output.stdout@) {
                    match json_parse(decode_utf8(output.stdout@)) {
                        Ok(json) => if json is Object {
                            self.updated_from(json)
                        } else {
                            self.failed_with(unusable_output(script, "not a JSON object"@))
                        },
                        Err(error) => self.failed_with(unusable_output(script, error)),
                    }
                } else {
                    self.failed_with(unreadable_output(script))
                }
            } else {
                if valid_utf8(output.stderr@) {
                    self.failed_with(script_failure(script, decode_utf8(output.stderr@)))
                } else {
                    self.failed_with(unreadable_failure(script))
                }
            },
        }
    }
}

/// The operation message that a message of the transport carries, or why it
/// carries none.
pub open spec fn decoded(event: MqttMessageView) -> Result<OperationPluginMessageView, Seq<char>> {
    match key_of_topic(event.topic) {
        None => Err("Not an operation topic: "@ + event.topic),
        Some(operation) => if !valid_utf8(event.payload) {
            Err("Not an UTF-8 message"@)
        } else {
            match json_parse(decode_utf8(event.payload)) {
                Err(_) => Err("Not a JSON message"@),
                Ok(json) => match json.text_member("status"@) {
                    None => Err("Missing status"@),
                    Some(status) => Ok(OperationPluginMessageView { operation, status, json }),
                },
            }
        },
    }
}

/// A message that is decoded tells its status in its payload.
pub proof fn lemma_decoded_is_snapshot(event: MqttMessageView)
    ensures
        decoded(event) matches Ok(message) ==> message.is_snapshot(),
{
}

/// Whatever a script gives, the state that follows is a state of the same
/// operation.
pub proof fn lemma_script_keeps_operation(
    message: OperationPluginMessageView,
    script: Seq<char>,
    output: Result<ScriptOutput, String>,
)
    ensures
        message.after_script(script, output).operation == message.operation,
{
}

/// A script that does not end with the exit code zero, or that cannot be
/// launched, gives a failure.
pub proof fn lemma_script_failure(
    message: OperationPluginMessageView,
    script: Seq<char>,
    output: Result<ScriptOutput, String>,
)
    requires
        output matches Ok(ended) ==> !ended.spec_success(),
    ensures
        message.after_script(script, output).status == "failed"@,
{
}

/// The message of the transport that publishes an operation message, or why
/// none does.
pub open spec fn published(message: OperationPluginMessageView) -> Result<
    MqttMessageView,
    Seq<char>,
> {
    let topic = topic_of(message.operation);
    if is_topic_name(topic) {
        Ok(
            MqttMessageView {
                topic,
                payload: encode_utf8(json_text(message.json)),
                qos: QoS::AtLeastOnce,
                retain: true,
            },
        )
    } else {
        Err("Not a valid topic: "@ + topic)
    }
}

impl OperationPluginMessage {
    /// The status is added to the json payload
    pub fn new(operation: OperationKey, status: String, json: serde_json::Value) -> (message:
        OperationPluginMessage)
        ensures
            message@.operation == operation@,
            message@.status == status@,
            message@.json == json_model(json).with_text_member("status"@, status@),
            json_model(json) is Object ==> message@.is_snapshot(),
    {
        let mut json = json;
        set_text_member(&mut json, "status", status.as_str());
        OperationPluginMessage { operation, status, json }
    }

    /// The status is read from the json payload
    pub fn update_from_json(self, json: serde_json::Value) -> (message: OperationPluginMessage)
        ensures
            message@ == self@.updated_from(json_model(json)),
    {
        let status = match member(&json, "status") {
            Some(found) => match as_text(found) {
                Some(text) => text.to_owned(),
                None => to_text(found),
            },
            None => "unknown".to_owned(),
        };
        OperationPluginMessage { operation: self.operation, status, json }
    }

    /// The state that follows this one once the script `script` has given
    /// `output`: what the script printed, if it ended well and printed a JSON
    /// object, and a failure that tells why otherwise.
    pub fn update_with_script_output(
        self,
        script: String,
        output: Result<ScriptOutput, String>,
    ) -> (message: OperationPluginMessage)
        ensures
            message@ == self@.after_script(script@, output),
    {
        match &output {
            Ok(output) => {
                if output.success() {
                    match utf8_text(output.stdout.as_slice()) {
                        Some(stdout) => {
                            proof {
                                encode_utf8_decode_utf8(stdout@);
                            }
                            match parse(stdout) {
                                Ok(json) => {
                                    if is_object(&json) {
                                        self.update_from_json(json)
                                    } else {
                                        let mut reason = "Script ".to_owned();
                                        reason.append(script.as_str());
                                        reason.append(" returned non JSON stdout: ");
                                        reason.append("not a JSON object");
                                        self.failed_with(reason)
                                    }
                                },
                                Err(error) => {
                                    let mut reason = "Script ".to_owned();
                                    reason.append(script.as_str());
                                    reason.append(" returned non JSON stdout: ");
                                    reason.append(error_message(&error).as_str());
                                    self.failed_with(reason)
                                },
                            }
                        },
                        None => {
                            let mut reason = "Script ".to_owned();
                            reason.append(script.as_str());
                            reason.append(" returned non UTF-8 stdout");
                            self.failed_with(reason)
                        },
                    }
                } else {
                    match utf8_text(output.stderr.as_slice()) {
                        Some(stderr) => {
                            proof {
                                encode_utf8_decode_utf8(stderr@);
                            }
                            let mut reason = "Script ".to_owned();
                            reason.append(script.as_str());
                            reason.append(" failed with: ");
                            reason.append(stderr);
                            self.failed_with(reason)
                        },
                        None => {
                            let mut reason = "Script ".to_owned();
                            reason.append(script.as_str());
                            reason.append(" failed and returned non UTF-8 stderr");
                            self.failed_with(reason)
                        },
                    }
                }
            },
            Err(error) => {
                let mut reason = "Failed to launch ".to_owned();
                reason.append(script.as_str());
                reason.append(": ");
                reason.append(error.as_str());
                self.failed_with(reason)
            },
        }
    }

    /// This message turned into a failure: the status is `failed`, and the
    /// payload, where it is an object, tells so, and why.
    pub fn failed_with(self, reason: String) -> (message: OperationPluginMessage)
        ensures
            message@ == self@.failed_with(reason@),
            self@.json is Object ==> message@.is_snapshot(),
    {
        let mut json = self.json;
        set_text_member(&mut json, "status", "failed");
        set_text_member(&mut json, "reason", reason.as_str());
        proof {
            reveal_strlit("status");
            reveal_strlit("reason");
            assert("status"@[0] != "reason"@[0]);
        }
        OperationPluginMessage { operation: self.operation, status: "failed".to_owned(), json }
    }

    /// The operation message of the operation `operation` with the payload
    /// `json`, which has to tell the status as a string.
    pub fn from_json(operation: OperationKey, json: serde_json::Value) -> (message: Result<
        OperationPluginMessage,
        String,
    >)
        ensures
            match message {
                Ok(m) => m@.operation == operation@ && m@.json == json_model(json)
                    && json_model(json).text_member("status"@) == Some(m@.status)
                    && m@.is_snapshot(),
                Err(error) => json_model(json).text_member("status"@) is None && error@
                    == "Missing status"@,
            },
    {
        let status = match text_member(&json, "status") {
            Some(text) => text.to_owned(),
            None => {
                return Err("Missing status".to_owned());
            },
        };
        Ok(OperationPluginMessage { operation, status, json })
    }
}

impl TryFrom<&MqttMessage> for OperationPluginMessage {
    type Error = String;

    /// The operation message that a message of the transport carries.
    ///
    /// Fails unless the topic stands for an operation and the payload is a
    /// JSON text that tells a status.
    fn try_from(event: &MqttMessage) -> (message: Result<OperationPluginMessage, String>)
        ensures
            match message {
                Ok(m) => decoded(event@) == Ok::<OperationPluginMessageView, Seq<char>>(m@),
                Err(error) => decoded(event@) == Err::<OperationPluginMessageView, Seq<char>>(
                    error@,
                ),
            },
    {
        let operation = match OperationKey::try_from(event.topic.as_str()) {
            Ok(operation) => operation,
            Err(error) => {
                return Err(error);
            },
        };
        let text = match utf8_text(event.payload.as_slice()) {
            Some(text) => text,
            None => {
                return Err("Not an UTF-8 message".to_owned());
            },
        };
        proof {
            encode_utf8_decode_utf8(text@);
        }
        let json = match parse(text) {
            Ok(json) => json,
            Err(_) => {
                return Err("Not a JSON message".to_owned());
            },
        };
        OperationPluginMessage::from_json(operation, json)
    }
}

/// What `try_from` gives is stated on the function itself, over the views of
/// the values.
impl TryFromSpecImpl<&MqttMessage> for OperationPluginMessage {
    open spec fn obeys_try_from_spec() -> bool {
        false
    }

    open spec fn try_from_spec(event: &MqttMessage) -> Result<OperationPluginMessage, String> {
        arbitrary()
    }
}

impl TryFrom<OperationPluginMessage> for MqttMessage {
    type Error = String;

    /// The message that publishes an operation message: on the topic of the
    /// operation, with the JSON text of the payload, retained, and delivered at
    /// least once.
    ///
    /// Fails if and only if a field of the operation key holds a wildcard.
    fn try_from(value: OperationPluginMessage) -> (message: Result<MqttMessage, String>)
        ensures
            match message {
                Ok(m) => published(value@) == Ok::<MqttMessageView, Seq<char>>(m@),
                Err(error) => published(value@) == Err::<MqttMessageView, Seq<char>>(error@),
            },
    {
        let topic = match value.operation.to_topic() {
            Ok(topic) => topic,
            Err(error) => {
                return Err(error);
            },
        };
        let payload = to_text(&value.json);
        Ok(
            MqttMessage {
                topic,
                payload: payload.as_str().as_bytes_vec(),
                qos: QoS::AtLeastOnce,
                retain: true,
            },
        )
    }
}

/// What `try_from` gives is stated on the function itself, over the views of
/// the values.
impl TryFromSpecImpl<OperationPluginMessage> for MqttMessage {
    open spec fn obeys_try_from_spec() -> bool {
        false
    }

    open spec fn try_from_spec(value: OperationPluginMessage) -> Result<MqttMessage, String> {
        arbitrary()
    }
}

} // verus!
