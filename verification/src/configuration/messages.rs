//! The states of a configuration update, and how they are read from and
//! written to operation messages.

use crate::json::{empty_object, json_model, set_text_member, text_member, JsonModel};
use crate::operations_sm::config::{key_of_topic, lemma_encode_decode, topic_of, OperationKey};
use crate::operations_sm::messages::{OperationPluginMessage, OperationPluginMessageView};
use crate::text::same_text;
use vstd::pervasive::unreached;
use vstd::prelude::*;
use vstd::std_specs::cmp::PartialEqSpecImpl;
use vstd::std_specs::convert::FromSpecImpl;

verus! {

/// A request to update a configuration file.
#[derive(Debug)]
pub struct ConfigUpdateRequest {
    /// The target of the new configuration
    target: String,
    /// The url from where the new configuration has to be downloaded
    src_url: String,
    /// The checksum to control the integrity of the configuration
    sha256: String,
}

/// What a [`ConfigUpdateRequest`] holds.
pub ghost struct ConfigUpdateRequestView {
    pub target: Seq<char>,
    pub src_url: Seq<char>,
    pub sha256: Seq<char>,
}

impl View for ConfigUpdateRequest {
    type V = ConfigUpdateRequestView;

    closed spec fn view(&self) -> ConfigUpdateRequestView {
        ConfigUpdateRequestView {
            target: self.target@,
            src_url: self.src_url@,
            sha256: self.sha256@,
        }
    }
}

impl Clone for ConfigUpdateRequest {
    fn clone(&self) -> (copy: ConfigUpdateRequest)
        ensures
            copy@ == self@,
    {
        ConfigUpdateRequest {
            target: self.target.clone(),
            src_url: self.src_url.clone(),
            sha256: self.sha256.clone(),
        }
    }
}

impl Default for ConfigUpdateRequest {
    fn default() -> (request: ConfigUpdateRequest)
        ensures
            request@ == (ConfigUpdateRequestView {
                target: Seq::<char>::empty(),
                src_url: Seq::<char>::empty(),
                sha256: Seq::<char>::empty(),
            }),
    {
        ConfigUpdateRequest { target: String::new(), src_url: String::new(), sha256: String::new() }
    }
}

impl PartialEq for ConfigUpdateRequest {
    fn eq(&self, other: &ConfigUpdateRequest) -> (equal: bool) {
        self.target == other.target && self.src_url == other.src_url && self.sha256 == other.sha256
    }
}

impl PartialEqSpecImpl for ConfigUpdateRequest {
    open spec fn obeys_eq_spec() -> bool {
        true
    }

    open spec fn eq_spec(&self, other: &ConfigUpdateRequest) -> bool {
        self@ == other@
    }
}

impl Eq for ConfigUpdateRequest {

}


/// Why a payload that lacks the text member `field` holds no request.
pub open spec fn missing_field(field: Seq<char>) -> Seq<char> {
    "missing field `"@ + field + "`"@
}

/// The request that a payload holds: its text members `target`, `src_url` and
/// `sha256`. A payload that lacks one of them holds none, and the first that
/// it lacks is told.
pub open spec fn request_of(json: JsonModel) -> Result<ConfigUpdateRequestView, Seq<char>> {
    match json.text_member("target"@) {
        None => Err(missing_field("target"@)),
        Some(target) => match json.text_member("src_url"@) {
            None => Err(missing_field("src_url"@)),
            Some(src_url) => match json.text_member("sha256"@) {
                None => Err(missing_field("sha256"@)),
                Some(sha256) => Ok(ConfigUpdateRequestView { target, src_url, sha256 }),
            },
        },
    }
}

/// The payload that holds a request, and nothing else.
pub open spec fn json_of_request(request: ConfigUpdateRequestView) -> JsonModel {
    JsonModel::Object(
        Map::<Seq<char>, JsonModel>::empty().insert(
            "target"@,
            JsonModel::String(request.target),
        ).insert("src_url"@, JsonModel::String(request.src_url)).insert(
            "sha256"@,
            JsonModel::String(request.sha256),
        ),
    )
}

/// What the names of the members of a request hold.
pub proof fn lemma_request_members()
    ensures
        "target"@ != "src_url"@,
        "target"@ != "sha256"@,
        "src_url"@ != "sha256"@,
        "path"@ != "target"@,
        "path"@ != "src_url"@,
        "path"@ != "sha256"@,
        "status"@ != "target"@,
        "status"@ != "src_url"@,
        "status"@ != "sha256"@,
        "status"@ != "path"@,
{
    reveal_strlit("target");
    reveal_strlit("src_url");
    reveal_strlit("sha256");
    reveal_strlit("path");
    reveal_strlit("status");
    assert("target"@[0] == 't' && "src_url"@[0] == 's' && "sha256"@[0] == 's' && "path"@[0]
        == 'p' && "status"@[0] == 's');
    assert("src_url"@[1] == 'r' && "sha256"@[1] == 'h' && "status"@[1] == 't');
}

/// Reading the payload that holds a request gives the request back.
pub proof fn lemma_request_round_trip(request: ConfigUpdateRequestView)
    ensures
        request_of(json_of_request(request)) == Ok::<ConfigUpdateRequestView, Seq<char>>(request),
{
    lemma_request_members();
}

impl ConfigUpdateRequest {
    /// The request to put on `target` what is at `src_url`, whose checksum is
    /// `sha256`.
    pub fn new(target: String, src_url: String, sha256: String) -> (request: ConfigUpdateRequest)
        ensures
            request@ == (ConfigUpdateRequestView {
                target: target@,
                src_url: src_url@,
                sha256: sha256@,
            }),
    {
        ConfigUpdateRequest { target, src_url, sha256 }
    }

    /// The request that a payload holds.
    ///
    /// Fails if and only if the payload lacks one of the text members
    /// `target`, `src_url` and `sha256`, and tells the first that it lacks.
    pub fn from_json(json: &serde_json::Value) -> (request: Result<ConfigUpdateRequest, String>)
        ensures
            match request {
                Ok(r) => request_of(json_model(*json)) == Ok::<
                    ConfigUpdateRequestView,
                    Seq<char>,
                >(r@),
                Err(error) => request_of(json_model(*json)) == Err::<
                    ConfigUpdateRequestView,
                    Seq<char>,
                >(error@),
            },
    {
        let target = match text_member(json, "target") {
            Some(text) => text.to_owned(),
            None => {
                return Err(ConfigUpdateRequest::missing("target"));
            },
        };
        let src_url = match text_member(json, "src_url") {
            Some(text) => text.to_owned(),
            None => {
                return Err(ConfigUpdateRequest::missing("src_url"));
            },
        };
        let sha256 = match text_member(json, "sha256") {
            Some(text) => text.to_owned(),
            None => {
                return Err(ConfigUpdateRequest::missing("sha256"));
            },
        };
        Ok(ConfigUpdateRequest { target, src_url, sha256 })
    }

    /// Why a payload that lacks the text member `field` holds no request.
    fn missing(field: &str) -> (reason: String)
        ensures
            reason@ == missing_field(field@),
    {
        let mut reason = "missing field `".to_owned();
        reason.append(field);
        reason.append("`");
        reason
    }

    /// The payload that holds this request, and nothing else.
    pub fn to_json(&self) -> (json: serde_json::Value)
        ensures
            json_model(json) == json_of_request(self@),
    {
        let mut json = empty_object();
        set_text_member(&mut json, "target", self.target.as_str());
        set_text_member(&mut json, "src_url", self.src_url.as_str());
        set_text_member(&mut json, "sha256", self.sha256.as_str());
        json
    }

    /// The target of the new configuration
    pub fn target(&self) -> (target: &String)
        ensures
            target@ == self@.target,
    {
        &self.target
    }

    /// The url from where the new configuration has to be downloaded
    pub fn src_url(&self) -> (src_url: &String)
        ensures
            src_url@ == self@.src_url,
    {
        &self.src_url
    }

    /// The checksum to control the integrity of the configuration
    pub fn sha256(&self) -> (sha256: &String)
        ensures
            sha256@ == self@.sha256,
    {
        &self.sha256
    }
}

/// A state of the update of a configuration file.
#[derive(Debug)]
pub enum ConfigUpdateRequestState {
    Init { id: String, request: ConfigUpdateRequest },
    Scheduled { id: String, request: ConfigUpdateRequest },
    Downloading { id: String, request: ConfigUpdateRequest, path: String },
    Downloaded { id: String, request: ConfigUpdateRequest, path: String },
    Installing { id: String, request: ConfigUpdateRequest, path: String },
    Successful { id: String, request: ConfigUpdateRequest },
    Failed { id: String, request: ConfigUpdateRequest, reason: String },
    InvalidState { id: String, error: String },
}

/// What a [`ConfigUpdateRequestState`] holds.
pub ghost enum ConfigUpdateRequestStateView {
    Init { id: Seq<char>, request: ConfigUpdateRequestView },
    Scheduled { id: Seq<char>, request: ConfigUpdateRequestView },
    Downloading { id: Seq<char>, request: ConfigUpdateRequestView, path: Seq<char> },
    Downloaded { id: Seq<char>, request: ConfigUpdateRequestView, path: Seq<char> },
    Installing { id: Seq<char>, request: ConfigUpdateRequestView, path: Seq<char> },
    Successful { id: Seq<char>, request: ConfigUpdateRequestView },
    Failed { id: Seq<char>, request: ConfigUpdateRequestView, reason: Seq<char> },
    InvalidState { id: Seq<char>, error: Seq<char> },
}

impl View for ConfigUpdateRequestState {
    type V = ConfigUpdateRequestStateView;

    open spec fn view(&self) -> ConfigUpdateRequestStateView {
        match self {
            ConfigUpdateRequestState::Init { id, request } => ConfigUpdateRequestStateView::Init {
                id: id@,
                request: request@,
            },
            ConfigUpdateRequestState::Scheduled {
                id,
                request,
            } => ConfigUpdateRequestStateView::Scheduled { id: id@, request: request@ },
            ConfigUpdateRequestState::Downloading {
                id,
                request,
                path,
            } => ConfigUpdateRequestStateView::Downloading {
                id: id@,
                request: request@,
                path: path@,
            },
            ConfigUpdateRequestState::Downloaded {
                id,
                request,
                path,
            } => ConfigUpdateRequestStateView::Downloaded {
                id: id@,
                request: request@,
                path: path@,
            },
            ConfigUpdateRequestState::Installing {
                id,
                request,
                path,
            } => ConfigUpdateRequestStateView::Installing {
                id: id@,
                request: request@,
                path: path@,
            },
            ConfigUpdateRequestState::Successful {
                id,
                request,
            } => ConfigUpdateRequestStateView::Successful { id: id@, request: request@ },
            ConfigUpdateRequestState::Failed {
                id,
                request,
                reason,
            } => ConfigUpdateRequestStateView::Failed {
                id: id@,
                request: request@,
                reason: reason@,
            },
            ConfigUpdateRequestState::InvalidState {
                id,
                error,
            } => ConfigUpdateRequestStateView::InvalidState { id: id@, error: error@ },
        }
    }
}

impl ConfigUpdateRequestStateView {
    /// The name of the state.
    pub open spec fn status(self) -> Seq<char> {
        match self {
            ConfigUpdateRequestStateView::Init { .. } => "init"@,
            ConfigUpdateRequestStateView::Scheduled { .. } => "scheduled"@,
            ConfigUpdateRequestStateView::Downloading { .. } => "downloading"@,
            ConfigUpdateRequestStateView::Downloaded { .. } => "downloaded"@,
            ConfigUpdateRequestStateView::Installing { .. } => "installing"@,
            ConfigUpdateRequestStateView::Successful { .. } => "successful"@,
            ConfigUpdateRequestStateView::Failed { .. } => "failed"@,
            ConfigUpdateRequestStateView::InvalidState { .. } => "invalid"@,
        }
    }

    /// The request, which every state holds but the invalid one.
    pub open spec fn request(self) -> Option<ConfigUpdateRequestView> {
        match self {
            ConfigUpdateRequestStateView::Init { request, .. } => Some(request),
            ConfigUpdateRequestStateView::Scheduled { request, .. } => Some(request),
            ConfigUpdateRequestStateView::Downloading { request, .. } => Some(request),
            ConfigUpdateRequestStateView::Downloaded { request, .. } => Some(request),
            ConfigUpdateRequestStateView::Installing { request, .. } => Some(request),
            ConfigUpdateRequestStateView::Successful { request, .. } => Some(request),
            ConfigUpdateRequestStateView::Failed { request, .. } => Some(request),
            ConfigUpdateRequestStateView::InvalidState { .. } => None,
        }
    }

    /// Where the configuration is downloaded to, which the states from the
    /// download to the installation hold, and no other.
    pub open spec fn path(self) -> Option<Seq<char>> {
        match self {
            ConfigUpdateRequestStateView::Downloading { path, .. } => Some(path),
            ConfigUpdateRequestStateView::Downloaded { path, .. } => Some(path),
            ConfigUpdateRequestStateView::Installing { path, .. } => Some(path),
            _ => None,
        }
    }

    /// The identifier of the operation, which every state holds.
    pub open spec fn id(self) -> Seq<char> {
        match self {
            ConfigUpdateRequestStateView::Init { id, .. } => id,
            ConfigUpdateRequestStateView::Scheduled { id, .. } => id,
            ConfigUpdateRequestStateView::Downloading { id, .. } => id,
            ConfigUpdateRequestStateView::Downloaded { id, .. } => id,
            ConfigUpdateRequestStateView::Installing { id, .. } => id,
            ConfigUpdateRequestStateView::Successful { id, .. } => id,
            ConfigUpdateRequestStateView::Failed { id, .. } => id,
            ConfigUpdateRequestStateView::InvalidState { id, .. } => id,
        }
    }
}

impl ConfigUpdateRequestState {
    /// The name of the state.
    pub fn status(&self) -> (status: &'static str)
        ensures
            status@ == self@.status(),
    {
        match self {
            ConfigUpdateRequestState::Init { .. } => { "init" },
            ConfigUpdateRequestState::Scheduled { .. } => { "scheduled" },
            ConfigUpdateRequestState::Downloading { .. } => { "downloading" },
            ConfigUpdateRequestState::Downloaded { .. } => { "downloaded" },
            ConfigUpdateRequestState::Installing { .. } => { "installing" },
            ConfigUpdateRequestState::Successful { .. } => { "successful" },
            ConfigUpdateRequestState::Failed { .. } => { "failed" },
            ConfigUpdateRequestState::InvalidState { .. } => { "invalid" },
        }
    }

    /// The request, which every state holds but the invalid one.
    pub fn request(&self) -> (request: Option<&ConfigUpdateRequest>)
        ensures
            match request {
                Some(r) => self@.request() == Some(r@),
                None => self@.request() is None,
            },
    {
        match self {
            ConfigUpdateRequestState::Init { request, .. }
            | ConfigUpdateRequestState::Scheduled { request, .. }
            | ConfigUpdateRequestState::Downloading { request, .. }
            | ConfigUpdateRequestState::Downloaded { request, .. }
            | ConfigUpdateRequestState::Installing { request, .. }
            | ConfigUpdateRequestState::Successful { request, .. }
            | ConfigUpdateRequestState::Failed { request, .. } => { Some(request) },
            ConfigUpdateRequestState::InvalidState { .. } => { None },
        }
    }

    /// Where the configuration is downloaded to, which the states from the
    /// download to the installation hold, and no other.
    pub fn path(&self) -> (path: Option<String>)
        ensures
            match path {
                Some(p) => self@.path() == Some(p@),
                None => self@.path() is None,
            },
    {
        match self {
            ConfigUpdateRequestState::Downloading { path, .. }
            | ConfigUpdateRequestState::Downloaded { path, .. }
            | ConfigUpdateRequestState::Installing { path, .. } => { Some(path.clone()) },
            ConfigUpdateRequestState::Init { .. }
            | ConfigUpdateRequestState::Scheduled { .. }
            | ConfigUpdateRequestState::Successful { .. }
            | ConfigUpdateRequestState::Failed { .. }
            | ConfigUpdateRequestState::InvalidState { .. } => { None },
        }
    }

    /// The identifier of the operation, which every state holds.
    pub fn id(&self) -> (id: &String)
        ensures
            id@ == self@.id(),
    {
        match self {
            ConfigUpdateRequestState::Init { id, .. }
            | ConfigUpdateRequestState::Scheduled { id, .. }
            | ConfigUpdateRequestState::Downloading { id, .. }
            | ConfigUpdateRequestState::Downloaded { id, .. }
            | ConfigUpdateRequestState::Installing { id, .. }
            | ConfigUpdateRequestState::Successful { id, .. }
            | ConfigUpdateRequestState::Failed { id, .. }
            | ConfigUpdateRequestState::InvalidState { id, .. } => { id },
        }
    }
}


impl Clone for ConfigUpdateRequestState {
    fn clone(&self) -> (copy: ConfigUpdateRequestState)
        ensures
            copy@ == self@,
    {
        match self {
            ConfigUpdateRequestState::Init { id, request } => {
                ConfigUpdateRequestState::Init {
                    id: id.clone(),
                    request: request.clone(),
                }
            },
            ConfigUpdateRequestState::Scheduled { id, request } => {
                ConfigUpdateRequestState::Scheduled {
                    id: id.clone(),
                    request: request.clone(),
                }
            },
            ConfigUpdateRequestState::Downloading { id, request, path } => {
                ConfigUpdateRequestState::Downloading {
                    id: id.clone(),
                    request: request.clone(),
                    path: path.clone(),
                }
            },
            ConfigUpdateRequestState::Downloaded { id, request, path } => {
                ConfigUpdateRequestState::Downloaded {
                    id: id.clone(),
                    request: request.clone(),
                    path: path.clone(),
                }
            },
            ConfigUpdateRequestState::Installing { id, request, path } => {
                ConfigUpdateRequestState::Installing {
                    id: id.clone(),
                    request: request.clone(),
                    path: path.clone(),
                }
            },
            ConfigUpdateRequestState::Successful { id, request } => {
                ConfigUpdateRequestState::Successful {
                    id: id.clone(),
                    request: request.clone(),
                }
            },
            ConfigUpdateRequestState::Failed { id, request, reason } => {
                ConfigUpdateRequestState::Failed {
                    id: id.clone(),
                    request: request.clone(),
                    reason: reason.clone(),
                }
            },
            ConfigUpdateRequestState::InvalidState { id, error } => {
                ConfigUpdateRequestState::InvalidState {
                    id: id.clone(),
                    error: error.clone(),
                }
            },
        }
    }
}

impl PartialEq for ConfigUpdateRequestState {
    fn eq(&self, other: &ConfigUpdateRequestState) -> (equal: bool) {
        match self {
            ConfigUpdateRequestState::Init { id, request } => match other {
                ConfigUpdateRequestState::Init {
                    id: other_id,
                    request: other_request,
                } => {
                    *id == *other_id
                    && *request == *other_request
                },
                _ => false,
            },
            ConfigUpdateRequestState::Scheduled { id, request } => match other {
                ConfigUpdateRequestState::Scheduled {
                    id: other_id,
                    request: other_request,
                } => {
                    *id == *other_id
                    && *request == *other_request
                },
                _ => false,
            },
            ConfigUpdateRequestState::Downloading { id, request, path } => match other {
                ConfigUpdateRequestState::Downloading {
                    id: other_id,
                    request: other_request,
                    path: other_path,
                } => {
                    *id == *other_id
                    && *request == *other_request
                    && *path == *other_path
                },
                _ => false,
            },
            ConfigUpdateRequestState::Downloaded { id, request, path } => match other {
                ConfigUpdateRequestState::Downloaded {
                    id: other_id,
                    request: other_request,
                    path: other_path,
                } => {
                    *id == *other_id
                    && *request == *other_request
                    && *path == *other_path
                },
                _ => false,
            },
            ConfigUpdateRequestState::Installing { id, request, path } => match other {
                ConfigUpdateRequestState::Installing {
                    id: other_id,
                    request: other_request,
                    path: other_path,
                } => {
                    *id == *other_id
                    && *request == *other_request
                    && *path == *other_path
                },
                _ => false,
            },
            ConfigUpdateRequestState::Successful { id, request } => match other {
                ConfigUpdateRequestState::Successful {
                    id: other_id,
                    request: other_request,
                } => {
                    *id == *other_id
                    && *request == *other_request
                },
                _ => false,
            },
            ConfigUpdateRequestState::Failed { id, request, reason } => match other {
                ConfigUpdateRequestState::Failed {
                    id: other_id,
                    request: other_request,
                    reason: other_reason,
                } => {
                    *id == *other_id
                    && *request == *other_request
                    && *reason == *other_reason
                },
                _ => false,
            },
            ConfigUpdateRequestState::InvalidState { id, error } => match other {
                ConfigUpdateRequestState::InvalidState {
                    id: other_id,
                    error: other_error,
                } => {
                    *id == *other_id
                    && *error == *other_error
                },
                _ => false,
            },
        }
    }
}

impl PartialEqSpecImpl for ConfigUpdateRequestState {
    open spec fn obeys_eq_spec() -> bool {
        true
    }

    open spec fn eq_spec(&self, other: &ConfigUpdateRequestState) -> bool {
        self@ == other@
    }
}

impl Eq for ConfigUpdateRequestState {

}

/// A text that may be absent, as the empty text.
pub open spec fn text_or_empty(text: Option<Seq<char>>) -> Seq<char> {
    match text {
        Some(t) => t,
        None => Seq::<char>::empty(),
    }
}

/// Why a message is no state of a configuration update.
pub open spec fn invalid_state(error: Seq<char>) -> Seq<char> {
    "Invalid configuration update state: "@ + error
}

/// Why a message with an unknown status is no state of a configuration update.
pub open spec fn unknown_status(status: Seq<char>) -> Seq<char> {
    invalid_state("unknown status: "@ + status)
}

/// The state of a configuration update that an operation message tells.
///
/// The identifier is the topic of the operation. The request is read from the
/// payload, and so are the path and the reason, from the text members `path`
/// and `error`, each empty where the payload has none. The status names the
/// state. A message without a request, or with an unknown status, tells an
/// invalid state.
pub open spec fn state_of(message: OperationPluginMessageView) -> ConfigUpdateRequestStateView {
    let id = topic_of(message.operation);
    let path = text_or_empty(message.json.text_member("path"@));
    let reason = text_or_empty(message.json.text_member("error"@));
    match request_of(message.json) {
        Err(error) => ConfigUpdateRequestStateView::InvalidState {
            id,
            error: invalid_state(error),
        },
        Ok(request) => if message.status == "init"@ {
            ConfigUpdateRequestStateView::Init { id, request }
        } else if message.status == "scheduled"@ {
            ConfigUpdateRequestStateView::Scheduled { id, request }
        } else if message.status == "downloading"@ {
            ConfigUpdateRequestStateView::Downloading { id, request, path }
        } else if message.status == "downloaded"@ {
            ConfigUpdateRequestStateView::Downloaded { id, request, path }
        } else if message.status == "installing"@ {
            ConfigUpdateRequestStateView::Installing { id, request, path }
        } else if message.status == "successful"@ {
            ConfigUpdateRequestStateView::Successful { id, request }
        } else if message.status == "failed"@ {
            ConfigUpdateRequestStateView::Failed { id, request, reason }
        } else {
            ConfigUpdateRequestStateView::InvalidState {
                id,
                error: unknown_status(message.status),
            }
        },
    }
}

/// The payload that tells a state of a configuration update, but for its
/// status: the request, with the path where the state holds one; an object
/// without members for the invalid state.
pub open spec fn payload_of(state: ConfigUpdateRequestStateView) -> JsonModel {
    match state.request() {
        Some(request) => match state.path() {
            Some(path) => json_of_request(request).with_text_member("path"@, path),
            None => json_of_request(request),
        },
        None => JsonModel::Object(Map::<Seq<char>, JsonModel>::empty()),
    }
}

/// The operation message that tells a state of a configuration update whose
/// identifier is the topic of an operation.
pub open spec fn message_of(state: ConfigUpdateRequestStateView) -> OperationPluginMessageView {
    OperationPluginMessageView {
        operation: key_of_topic(state.id())->0,
        status: state.status(),
        json: payload_of(state).with_text_member("status"@, state.status()),
    }
}

/// What the names of the states hold: no two are the same.
pub proof fn lemma_status_names()
    ensures
        "init"@ != "scheduled"@,
        "init"@ != "downloading"@,
        "init"@ != "downloaded"@,
        "init"@ != "installing"@,
        "init"@ != "successful"@,
        "scheduled"@ != "downloading"@,
        "scheduled"@ != "downloaded"@,
        "scheduled"@ != "installing"@,
        "scheduled"@ != "successful"@,
        "downloading"@ != "downloaded"@,
        "downloading"@ != "installing"@,
        "downloading"@ != "successful"@,
        "downloaded"@ != "installing"@,
        "downloaded"@ != "successful"@,
        "installing"@ != "successful"@,
{
    reveal_strlit("init");
    reveal_strlit("scheduled");
    reveal_strlit("downloading");
    reveal_strlit("downloaded");
    reveal_strlit("installing");
    reveal_strlit("successful");
    assert("init"@.len() == 4 && "scheduled"@.len() == 9 && "downloading"@.len() == 11
        && "downloaded"@.len() == 10 && "installing"@.len() == 10 && "successful"@.len() == 10);
    assert("downloaded"@[0] == 'd' && "installing"@[0] == 'i' && "successful"@[0] == 's');
}

/// A state that is told by a message and read again is the same state, where
/// the message tells all that the state holds: the state is neither failed nor
/// invalid, and its identifier is the topic of an operation.
pub proof fn lemma_state_round_trip(state: ConfigUpdateRequestStateView)
    requires
        key_of_topic(state.id()) is Some,
        !(state is Failed),
        !(state is InvalidState),
    ensures
        state_of(message_of(state)) == state,
{
    lemma_request_members();
    lemma_status_names();
    lemma_encode_decode(state.id());
    let request = state.request()->0;
    let told = message_of(state).json;
    assert(told.text_member("target"@) == Some(request.target));
    assert(told.text_member("src_url"@) == Some(request.src_url));
    assert(told.text_member("sha256"@) == Some(request.sha256));
    assert(request_of(told) == Ok::<ConfigUpdateRequestView, Seq<char>>(request));
    if state.path() is Some {
        assert(told.text_member("path"@) == state.path());
    }
}

impl From<OperationPluginMessage> for ConfigUpdateRequestState {
    /// The state of a configuration update that an operation message tells.
    fn from(message: OperationPluginMessage) -> (state: ConfigUpdateRequestState)
        ensures
            state@ == state_of(message@),
    {
        let id = message.operation.topic_name();
        let path = match text_member(&message.json, "path") {
            Some(text) => text.to_owned(),
            None => String::new(),
        };
        let reason = match text_member(&message.json, "error") {
            Some(text) => text.to_owned(),
            None => String::new(),
        };
        let request = match ConfigUpdateRequest::from_json(&message.json) {
            Ok(request) => request,
            Err(err) => {
                let mut error = "Invalid configuration update state: ".to_owned();
                error.append(err.as_str());
                return ConfigUpdateRequestState::InvalidState { id, error };
            },
        };
        let status = message.status.as_str();
        if same_text(status, "init") {
            ConfigUpdateRequestState::Init { id, request }
        } else if same_text(status, "scheduled") {
            ConfigUpdateRequestState::Scheduled { id, request }
        } else if same_text(status, "downloading") {
            ConfigUpdateRequestState::Downloading { id, request, path }
        } else if same_text(status, "downloaded") {
            ConfigUpdateRequestState::Downloaded { id, request, path }
        } else if same_text(status, "installing") {
            ConfigUpdateRequestState::Installing { id, request, path }
        } else if same_text(status, "successful") {
            ConfigUpdateRequestState::Successful { id, request }
        } else if same_text(status, "failed") {
            ConfigUpdateRequestState::Failed { id, request, reason }
        } else {
            let mut error = "Invalid configuration update state: ".to_owned();
            error.append("unknown status: ");
            error.append(status);
            assert(error@ =~= unknown_status(status@));
            ConfigUpdateRequestState::InvalidState { id, error }
        }
    }
}

/// What `from` gives is stated on the function itself, over the views of the
/// values.
impl FromSpecImpl<OperationPluginMessage> for ConfigUpdateRequestState {
    open spec fn obeys_from_spec() -> bool {
        false
    }

    open spec fn from_spec(message: OperationPluginMessage) -> ConfigUpdateRequestState {
        arbitrary()
    }
}

impl OperationPluginMessage {
    /// The operation message that tells a state of a configuration update.
    ///
    /// The payload is an object that tells the status, together with the
    /// request and with the path, where the state holds them.
    pub fn from(state: ConfigUpdateRequestState) -> (message: OperationPluginMessage)
        requires
            key_of_topic(state@.id()) is Some,
        ensures
            message@ == message_of(state@),
            message@.is_snapshot(),
    {
        let operation = match OperationKey::try_from(state.id().as_str()) {
            Ok(operation) => operation,
            Err(_) => unreached(),
        };
        let status = state.status().to_owned();
        let path = state.path();
        let json = match state.request() {
            Some(request) => {
                let mut json = request.to_json();
                match path {
                    Some(path) => {
                        set_text_member(&mut json, "path", path.as_str());
                    },
                    None => {},
                }
                json
            },
            None => empty_object(),
        };
        OperationPluginMessage::new(operation, status, json)
    }
}

} // verus!
