//! What the configuration plugin does with each state that it is given.

use crate::configuration::messages::{
    ConfigUpdateRequest, ConfigUpdateRequestState, ConfigUpdateRequestStateView,
    ConfigUpdateRequestView,
};
use vstd::prelude::*;

verus! {

/// A download to be done: where the configuration of a request is to be put.
#[derive(Debug)]
pub struct Download {
    id: String,
    request: ConfigUpdateRequest,
    path: String,
}

/// What a [`Download`] holds.
pub ghost struct DownloadView {
    pub id: Seq<char>,
    pub request: ConfigUpdateRequestView,
    pub path: Seq<char>,
}

impl View for Download {
    type V = DownloadView;

    closed spec fn view(&self) -> DownloadView {
        DownloadView { id: self.id@, request: self.request@, path: self.path@ }
    }
}

impl Download {
    /// The download, for the operation `id`, of the configuration of `request`
    /// to `path`.
    pub fn new(id: &str, request: &ConfigUpdateRequest, path: &str) -> (download: Download)
        ensures
            download@ == (DownloadView { id: id@, request: request@, path: path@ }),
    {
        Download { id: id.to_owned(), request: request.clone(), path: path.to_owned() }
    }
}

/// What the plugin does with a state.
#[derive(Debug)]
pub enum ConfigManagerStep {
    /// The state is for the other participants: nothing is done.
    Idle,
    /// The state that follows is sent.
    Respond(ConfigUpdateRequestState),
    /// The state that follows is sent, and the download is started. The end of
    /// the download gives the state after that.
    Download { response: ConfigUpdateRequestState, download: Download },
}

/// What a [`ConfigManagerStep`] holds.
pub ghost enum ConfigManagerStepView {
    Idle,
    Respond(ConfigUpdateRequestStateView),
    Download { response: ConfigUpdateRequestStateView, download: DownloadView },
}

impl View for ConfigManagerStep {
    type V = ConfigManagerStepView;

    open spec fn view(&self) -> ConfigManagerStepView {
        match self {
            ConfigManagerStep::Idle => ConfigManagerStepView::Idle,
            ConfigManagerStep::Respond(state) => ConfigManagerStepView::Respond(state@),
            ConfigManagerStep::Download { response, download } => ConfigManagerStepView::Download {
                response: response@,
                download: download@,
            },
        }
    }
}

/// Where the configuration of the operation `id` is downloaded to.
pub open spec fn download_path(id: Seq<char>) -> Seq<char> {
    "/tmp/configuration.download."@ + id
}

/// What the plugin does with a state: a new request is scheduled, a scheduled
/// one is downloaded, a downloaded one is installed, and an installation ends
/// well. The other states are for the other participants.
pub open spec fn reaction(state: ConfigUpdateRequestStateView) -> ConfigManagerStepView {
    match state {
        ConfigUpdateRequestStateView::Init { id, request } => ConfigManagerStepView::Respond(
            ConfigUpdateRequestStateView::Scheduled { id, request },
        ),
        ConfigUpdateRequestStateView::Scheduled { id, request } => ConfigManagerStepView::Download {
            response: ConfigUpdateRequestStateView::Downloading {
                id,
                request,
                path: download_path(id),
            },
            download: DownloadView { id, request, path: download_path(id) },
        },
        ConfigUpdateRequestStateView::Downloaded {
            id,
            request,
            path,
        } => ConfigManagerStepView::Respond(
            ConfigUpdateRequestStateView::Installing { id, request, path },
        ),
        ConfigUpdateRequestStateView::Installing {
            id,
            request,
            ..
        } => ConfigManagerStepView::Respond(
            ConfigUpdateRequestStateView::Successful { id, request },
        ),
        _ => ConfigManagerStepView::Idle,
    }
}

/// The state that the plugin sends, and the download that it starts, are for
/// the operation of the state that it was given.
pub proof fn lemma_reaction_keeps_operation(state: ConfigUpdateRequestStateView)
    ensures
        match reaction(state) {
            ConfigManagerStepView::Idle => true,
            ConfigManagerStepView::Respond(response) => response.id() == state.id(),
            ConfigManagerStepView::Download { response, download } => response.id() == state.id()
                && download.id == state.id(),
        },
{
}

/// The plugin that handles the configuration update requests.
#[derive(Debug)]
pub struct ConfigManager {}

impl ConfigManager {
    /// The name of the plugin.
    pub fn name() -> (name: &'static str)
        ensures
            name@ == "ConfigManager"@,
    {
        "ConfigManager"
    }

    /// What the plugin does with a state that it is given.
    pub fn react(request: ConfigUpdateRequestState) -> (step: ConfigManagerStep)
        ensures
            step@ == reaction(request@),
    {
        match request {
            ConfigUpdateRequestState::Init { id, request } => {
                ConfigManagerStep::Respond(ConfigManager::init(id, request))
            },
            ConfigUpdateRequestState::Scheduled { id, request } => {
                let (response, download) = ConfigManager::start_download(id, request);
                ConfigManagerStep::Download { response, download }
            },
            ConfigUpdateRequestState::Downloading { .. } => {
                // This event is only useful for the other participants
                // while this plugin awaits for the actual end of the download
                ConfigManagerStep::Idle
            },
            ConfigUpdateRequestState::Downloaded { id, request, path } => {
                ConfigManagerStep::Respond(ConfigManager::start_install(id, request, path))
            },
            ConfigUpdateRequestState::Installing { id, request, path } => {
                ConfigManagerStep::Respond(ConfigManager::install(id, request, path))
            },
            ConfigUpdateRequestState::Successful { .. } => {
                // This event is only useful for the other participants
                ConfigManagerStep::Idle
            },
            ConfigUpdateRequestState::Failed { .. } => {
                // This event is only useful for the other participants
                ConfigManagerStep::Idle
            },
            ConfigUpdateRequestState::InvalidState { .. } => {
                // Nothing can be done with a state that could not be read
                ConfigManagerStep::Idle
            },
        }
    }

    /// A new request is immediately scheduled.
    ///
    /// Having an init state with an automatic transition to an other step is done in order to:
    /// - let the users plug their own behavior to check, prepare or adapt the request,
    /// - while keeping unchanged the sub-systems that create these requests (i.e. the mappers).
    pub fn init(id: String, request: ConfigUpdateRequest) -> (state: ConfigUpdateRequestState)
        ensures
            state@ == (ConfigUpdateRequestStateView::Scheduled { id: id@, request: request@ }),
    {
        ConfigUpdateRequestState::Scheduled { id, request }
    }

    /// A scheduled request is downloaded: to a path made of the identifier of
    /// the operation.
    pub fn start_download(id: String, request: ConfigUpdateRequest) -> (started: (
        ConfigUpdateRequestState,
        Download,
    ))
        ensures
            started.0@ == (ConfigUpdateRequestStateView::Downloading {
                id: id@,
                request: request@,
                path: download_path(id@),
            }),
            started.1@ == (DownloadView { id: id@, request: request@, path: download_path(id@) }),
    {
        let mut path = "/tmp/configuration.download.".to_owned();
        path.append(id.as_str());
        let download = Download::new(id.as_str(), &request, path.as_str());
        (ConfigUpdateRequestState::Downloading { id, request, path }, download)
    }

    /// The end of a download gives the downloaded state of its request.
    pub fn end_download(download: Download) -> (state: ConfigUpdateRequestState)
        ensures
            state@ == (ConfigUpdateRequestStateView::Downloaded {
                id: download@.id,
                request: download@.request,
                path: download@.path,
            }),
    {
        ConfigUpdateRequestState::Downloaded {
            id: download.id,
            request: download.request,
            path: download.path,
        }
    }

    /// The installation is immediately scheduled.
    ///
    /// Having a state with an automatic transition to an other step is done in order to:
    /// - let the users plug their own behavior to check, prepare or adapt the installation,
    /// - while keeping unchanged the sub-system that leads to this state (i.e. the downloader).
    pub fn start_install(id: String, request: ConfigUpdateRequest, path: String) -> (state:
        ConfigUpdateRequestState)
        ensures
            state@ == (ConfigUpdateRequestStateView::Installing {
                id: id@,
                request: request@,
                path: path@,
            }),
    {
        ConfigUpdateRequestState::Installing { id, request, path }
    }

    /// An installation ends well.
    pub fn install(id: String, request: ConfigUpdateRequest, _path: String) -> (state:
        ConfigUpdateRequestState)
        ensures
            state@ == (ConfigUpdateRequestStateView::Successful { id: id@, request: request@ }),
    {
        ConfigUpdateRequestState::Successful { id, request }
    }
}

} // verus!
