use serde_json::Value;
use tedge_operations::configuration::actor::{ConfigManager, ConfigManagerStep, Download};
use tedge_operations::configuration::messages::{ConfigUpdateRequest, ConfigUpdateRequestState};
use tedge_operations::operations_sm::config::OperationKey;
use tedge_operations::operations_sm::messages::OperationPluginMessage;

const TOPIC: &str = "tedge/operations/main/configuration/update/1";

fn json(text: &str) -> Value {
    serde_json::from_str(text).unwrap()
}

fn request() -> ConfigUpdateRequest {
    ConfigUpdateRequest::new(
        "/etc/app.toml".to_string(),
        "http://host/app.toml".to_string(),
        "abc123".to_string(),
    )
}

fn message(status: &str, payload: &str) -> OperationPluginMessage {
    OperationPluginMessage::new(
        OperationKey::try_from(TOPIC).unwrap(),
        status.to_string(),
        json(payload),
    )
}

const REQUEST: &str =
    r#"{"target":"/etc/app.toml","src_url":"http://host/app.toml","sha256":"abc123"}"#;

fn id() -> String {
    TOPIC.to_string()
}

#[test]
fn a_request_is_read_from_a_payload() {
    let read = ConfigUpdateRequest::from_json(&json(REQUEST)).unwrap();
    assert_eq!(read, request());
    assert_eq!(read.target(), "/etc/app.toml");
    assert_eq!(read.src_url(), "http://host/app.toml");
    assert_eq!(read.sha256(), "abc123");
}

#[test]
fn a_request_that_lacks_a_field_is_refused() {
    assert_eq!(
        ConfigUpdateRequest::from_json(&json(r#"{"src_url":"u","sha256":"s"}"#)).unwrap_err(),
        "missing field `target`"
    );
    assert_eq!(
        ConfigUpdateRequest::from_json(&json(r#"{"target":"t","src_url":7,"sha256":"s"}"#))
            .unwrap_err(),
        "missing field `src_url`"
    );
    assert_eq!(
        ConfigUpdateRequest::from_json(&json(r#"{"target":"t","src_url":"u"}"#)).unwrap_err(),
        "missing field `sha256`"
    );
    assert_eq!(
        ConfigUpdateRequest::from_json(&json("[]")).unwrap_err(),
        "missing field `target`"
    );
}

#[test]
fn a_request_is_written_to_a_payload() {
    assert_eq!(request().to_json(), json(REQUEST));
    assert_eq!(
        ConfigUpdateRequest::from_json(&request().to_json()).unwrap(),
        request()
    );
    assert_eq!(
        ConfigUpdateRequest::default(),
        ConfigUpdateRequest::new(String::new(), String::new(), String::new())
    );
    assert_ne!(ConfigUpdateRequest::default(), request());
}

#[test]
fn each_state_tells_its_status() {
    let states = [
        (ConfigUpdateRequestState::Init { id: id(), request: request() }, "init"),
        (ConfigUpdateRequestState::Scheduled { id: id(), request: request() }, "scheduled"),
        (
            ConfigUpdateRequestState::Downloading {
                id: id(),
                request: request(),
                path: "/tmp/x".to_string(),
            },
            "downloading",
        ),
        (
            ConfigUpdateRequestState::Downloaded {
                id: id(),
                request: request(),
                path: "/tmp/x".to_string(),
            },
            "downloaded",
        ),
        (
            ConfigUpdateRequestState::Installing {
                id: id(),
                request: request(),
                path: "/tmp/x".to_string(),
            },
            "installing",
        ),
        (ConfigUpdateRequestState::Successful { id: id(), request: request() }, "successful"),
        (
            ConfigUpdateRequestState::Failed {
                id: id(),
                request: request(),
                reason: "why".to_string(),
            },
            "failed",
        ),
        (
            ConfigUpdateRequestState::InvalidState {
                id: id(),
                error: "what".to_string(),
            },
            "invalid",
        ),
    ];
    for (state, status) in states {
        assert_eq!(state.status(), status);
        assert_eq!(state.id(), TOPIC);
        assert_eq!(state.clone(), state);
    }
}

#[test]
fn every_state_but_the_invalid_one_holds_the_request() {
    let init = ConfigUpdateRequestState::Init { id: id(), request: request() };
    assert_eq!(init.request(), Some(&request()));
    let failed = ConfigUpdateRequestState::Failed {
        id: id(),
        request: request(),
        reason: "why".to_string(),
    };
    assert_eq!(failed.request(), Some(&request()));
    let invalid = ConfigUpdateRequestState::InvalidState {
        id: id(),
        error: "what".to_string(),
    };
    assert_eq!(invalid.request(), None);
}

#[test]
fn only_the_states_of_the_download_hold_a_path() {
    let path = "/tmp/x".to_string();
    let with_path = [
        ConfigUpdateRequestState::Downloading { id: id(), request: request(), path: path.clone() },
        ConfigUpdateRequestState::Downloaded { id: id(), request: request(), path: path.clone() },
        ConfigUpdateRequestState::Installing { id: id(), request: request(), path: path.clone() },
    ];
    for state in with_path {
        assert_eq!(state.path(), Some(path.clone()));
    }
    let without_path = [
        ConfigUpdateRequestState::Init { id: id(), request: request() },
        ConfigUpdateRequestState::Scheduled { id: id(), request: request() },
        ConfigUpdateRequestState::Successful { id: id(), request: request() },
        ConfigUpdateRequestState::Failed { id: id(), request: request(), reason: path.clone() },
        ConfigUpdateRequestState::InvalidState { id: id(), error: path.clone() },
    ];
    for state in without_path {
        assert_eq!(state.path(), None);
    }
}

#[test]
fn states_are_equal_when_they_hold_the_same() {
    let init = ConfigUpdateRequestState::Init { id: id(), request: request() };
    let scheduled = ConfigUpdateRequestState::Scheduled { id: id(), request: request() };
    let other_init = ConfigUpdateRequestState::Init { id: "other".to_string(), request: request() };
    assert_eq!(init, init.clone());
    assert_ne!(init, scheduled);
    assert_ne!(init, other_init);
}

#[test]
fn a_message_tells_a_state() {
    assert_eq!(
        ConfigUpdateRequestState::from(message("init", REQUEST)),
        ConfigUpdateRequestState::Init { id: id(), request: request() }
    );
    assert_eq!(
        ConfigUpdateRequestState::from(message("scheduled", REQUEST)),
        ConfigUpdateRequestState::Scheduled { id: id(), request: request() }
    );
    assert_eq!(
        ConfigUpdateRequestState::from(message("successful", REQUEST)),
        ConfigUpdateRequestState::Successful { id: id(), request: request() }
    );
}

#[test]
fn a_message_tells_the_path_of_a_download() {
    let payload = r#"{"target":"/etc/app.toml","src_url":"http://host/app.toml","sha256":"abc123","path":"/tmp/dl"}"#;
    for (status, expected) in [
        (
            "downloading",
            ConfigUpdateRequestState::Downloading {
                id: id(),
                request: request(),
                path: "/tmp/dl".to_string(),
            },
        ),
        (
            "downloaded",
            ConfigUpdateRequestState::Downloaded {
                id: id(),
                request: request(),
                path: "/tmp/dl".to_string(),
            },
        ),
        (
            "installing",
            ConfigUpdateRequestState::Installing {
                id: id(),
                request: request(),
                path: "/tmp/dl".to_string(),
            },
        ),
    ] {
        assert_eq!(ConfigUpdateRequestState::from(message(status, payload)), expected);
    }
    assert_eq!(
        ConfigUpdateRequestState::from(message("downloading", REQUEST)),
        ConfigUpdateRequestState::Downloading { id: id(), request: request(), path: String::new() }
    );
}

#[test]
fn a_failed_message_tells_its_error() {
    let payload = r#"{"target":"/etc/app.toml","src_url":"http://host/app.toml","sha256":"abc123","error":"disk full","reason":"other"}"#;
    assert_eq!(
        ConfigUpdateRequestState::from(message("failed", payload)),
        ConfigUpdateRequestState::Failed {
            id: id(),
            request: request(),
            reason: "disk full".to_string(),
        }
    );
}

#[test]
fn a_message_without_request_tells_an_invalid_state() {
    assert_eq!(
        ConfigUpdateRequestState::from(message("init", r#"{"target":"t"}"#)),
        ConfigUpdateRequestState::InvalidState {
            id: id(),
            error: "Invalid configuration update state: missing field `src_url`".to_string(),
        }
    );
}

#[test]
fn a_message_with_an_unknown_status_tells_an_invalid_state() {
    assert_eq!(
        ConfigUpdateRequestState::from(message("paused", REQUEST)),
        ConfigUpdateRequestState::InvalidState {
            id: id(),
            error: "Invalid configuration update state: unknown status: paused".to_string(),
        }
    );
}

#[test]
fn a_state_is_told_by_a_message() {
    let told = OperationPluginMessage::from(ConfigUpdateRequestState::Scheduled {
        id: id(),
        request: request(),
    });
    assert_eq!(told.status, "scheduled");
    assert_eq!(told.operation.topic_name(), TOPIC);
    assert_eq!(
        told.json,
        json(
            r#"{"target":"/etc/app.toml","src_url":"http://host/app.toml","sha256":"abc123","status":"scheduled"}"#
        )
    );
}

#[test]
fn a_state_of_the_download_is_told_with_its_path() {
    let told = OperationPluginMessage::from(ConfigUpdateRequestState::Downloaded {
        id: id(),
        request: request(),
        path: "/tmp/dl".to_string(),
    });
    assert_eq!(told.status, "downloaded");
    assert_eq!(
        told.json,
        json(
            r#"{"target":"/etc/app.toml","src_url":"http://host/app.toml","sha256":"abc123","path":"/tmp/dl","status":"downloaded"}"#
        )
    );
}

#[test]
fn an_invalid_state_is_told_by_its_status_alone() {
    let told = OperationPluginMessage::from(ConfigUpdateRequestState::InvalidState {
        id: id(),
        error: "what".to_string(),
    });
    assert_eq!(told.status, "invalid");
    assert_eq!(told.json, json(r#"{"status":"invalid"}"#));
}

#[test]
fn a_state_told_and_read_again_is_the_same() {
    let state = ConfigUpdateRequestState::Installing {
        id: id(),
        request: request(),
        path: "/tmp/dl".to_string(),
    };
    assert_eq!(
        ConfigUpdateRequestState::from(OperationPluginMessage::from(state.clone())),
        state
    );
}

#[test]
fn a_new_request_is_scheduled() {
    match ConfigManager::react(ConfigUpdateRequestState::Init { id: id(), request: request() }) {
        ConfigManagerStep::Respond(state) => assert_eq!(
            state,
            ConfigUpdateRequestState::Scheduled { id: id(), request: request() }
        ),
        other => panic!("unexpected step: {:?}", other),
    }
}

#[test]
fn a_scheduled_request_is_downloaded() {
    let path = format!("/tmp/configuration.download.{}", TOPIC);
    match ConfigManager::react(ConfigUpdateRequestState::Scheduled { id: id(), request: request() })
    {
        ConfigManagerStep::Download { response, download } => {
            assert_eq!(
                response,
                ConfigUpdateRequestState::Downloading {
                    id: id(),
                    request: request(),
                    path: path.clone(),
                }
            );
            assert_eq!(
                ConfigManager::end_download(download),
                ConfigUpdateRequestState::Downloaded { id: id(), request: request(), path }
            );
        }
        other => panic!("unexpected step: {:?}", other),
    }
}

#[test]
fn a_downloaded_configuration_is_installed() {
    let path = "/tmp/dl".to_string();
    match ConfigManager::react(ConfigUpdateRequestState::Downloaded {
        id: id(),
        request: request(),
        path: path.clone(),
    }) {
        ConfigManagerStep::Respond(state) => assert_eq!(
            state,
            ConfigUpdateRequestState::Installing { id: id(), request: request(), path: path.clone() }
        ),
        other => panic!("unexpected step: {:?}", other),
    }
    match ConfigManager::react(ConfigUpdateRequestState::Installing {
        id: id(),
        request: request(),
        path,
    }) {
        ConfigManagerStep::Respond(state) => assert_eq!(
            state,
            ConfigUpdateRequestState::Successful { id: id(), request: request() }
        ),
        other => panic!("unexpected step: {:?}", other),
    }
}

#[test]
fn the_other_states_are_left_to_the_other_participants() {
    let idle = [
        ConfigUpdateRequestState::Downloading {
            id: id(),
            request: request(),
            path: "/tmp/dl".to_string(),
        },
        ConfigUpdateRequestState::Successful { id: id(), request: request() },
        ConfigUpdateRequestState::Failed { id: id(), request: request(), reason: "why".to_string() },
        ConfigUpdateRequestState::InvalidState { id: id(), error: "what".to_string() },
    ];
    for state in idle {
        assert!(matches!(ConfigManager::react(state), ConfigManagerStep::Idle));
    }
}

#[test]
fn the_end_of_a_download_gives_the_downloaded_state() {
    let download = Download::new("op-1", &request(), "/tmp/there");
    assert_eq!(
        ConfigManager::end_download(download),
        ConfigUpdateRequestState::Downloaded {
            id: "op-1".to_string(),
            request: request(),
            path: "/tmp/there".to_string(),
        }
    );
    assert_eq!(ConfigManager::name(), "ConfigManager");
}

#[test]
fn the_single_steps_of_the_plugin() {
    assert_eq!(
        ConfigManager::init(id(), request()),
        ConfigUpdateRequestState::Scheduled { id: id(), request: request() }
    );
    let (response, _download) = ConfigManager::start_download("op".to_string(), request());
    assert_eq!(
        response,
        ConfigUpdateRequestState::Downloading {
            id: "op".to_string(),
            request: request(),
            path: "/tmp/configuration.download.op".to_string(),
        }
    );
    assert_eq!(
        ConfigManager::start_install(id(), request(), "/tmp/p".to_string()),
        ConfigUpdateRequestState::Installing {
            id: id(),
            request: request(),
            path: "/tmp/p".to_string(),
        }
    );
    assert_eq!(
        ConfigManager::install(id(), request(), "/tmp/p".to_string()),
        ConfigUpdateRequestState::Successful { id: id(), request: request() }
    );
}
