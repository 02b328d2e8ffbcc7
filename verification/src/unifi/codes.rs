//! Numbers for what can go wrong in a search, by where it went wrong.

use vstd::prelude::*;

use super::api::{ApiErrorView, HttpOutcome, HttpOutcomeView, UnifiAPIError};
use super::search::{CommandView, SearchCommand};

verus! {

/// The part of a search in which something went wrong.
#[derive(Copy, Clone, Debug, PartialEq, Eq, Structural)]
pub enum UnifiErrorKind {
    /// Logging in, the setting up of the HTTP client included.
    Login,
    /// Reaching the controller, once logged in.
    Network,
    /// Reading what the controller answered.
    APIParsing,
}

/// What went wrong in a search, as a number to tell the user.
#[derive(Copy, Clone, Debug, PartialEq, Eq, Structural)]
pub struct UnifiSearchError {
    pub code: usize,
    pub kind: UnifiErrorKind,
}

/// What a request was for.
#[derive(Copy, Clone, Debug, PartialEq, Eq, Structural)]
pub enum SearchStage {
    Login,
    Sites,
    Devices,
}

/// The HTTP client could not be set up.
pub const CODE_CLIENT: usize = 101;

/// The login request found no answer.
pub const CODE_LOGIN_UNREACHABLE: usize = 102;

/// The login request was answered, and not with a success: the controller
/// turned the credentials down, or answered with another status.
pub const CODE_LOGIN_REJECTED: usize = 103;

/// The query for the sites found no answer, or an error status.
pub const CODE_SITES_UNREACHABLE: usize = 201;

/// The query for a site's devices found no answer, or an error status.
pub const CODE_DEVICES_UNREACHABLE: usize = 202;

/// The list of sites is not of the expected form.
pub const CODE_SITES_MALFORMED: usize = 302;

/// A list of devices is not of the expected form.
pub const CODE_DEVICES_MALFORMED: usize = 304;

/// What the request that a command asks for is for; no request, no stage.
pub open spec fn stage_of(command: CommandView) -> Option<SearchStage> {
    match command {
        CommandView::BuildClient { .. } => Some(SearchStage::Login),
        CommandView::Login { .. } => Some(SearchStage::Login),
        CommandView::GetSites { .. } => Some(SearchStage::Sites),
        CommandView::GetDevices { .. } => Some(SearchStage::Devices),
        CommandView::GetAllDevices { .. } => Some(SearchStage::Devices),
        CommandView::AwaitSite => Some(SearchStage::Devices),
        CommandView::PollCancel => None,
        CommandView::EmitProgress { .. } => None,
        CommandView::Deliver { .. } => None,
    }
}

/// The number and kind for an error that came up at `stage`. At the login,
/// a request without an answer has a number of its own; every answer that
/// is no success has the same.
pub open spec fn error_code(error: ApiErrorView, stage: SearchStage) -> UnifiSearchError {
    match error {
        ApiErrorView::ClientError { .. } => UnifiSearchError {
            code: CODE_CLIENT,
            kind: UnifiErrorKind::Login,
        },
        ApiErrorView::LoginAuthenticationError { .. } => UnifiSearchError {
            code: CODE_LOGIN_REJECTED,
            kind: UnifiErrorKind::Login,
        },
        ApiErrorView::ReqwestError { outcome } => match stage {
            SearchStage::Login => match outcome {
                HttpOutcomeView::Failed { .. } => UnifiSearchError {
                    code: CODE_LOGIN_UNREACHABLE,
                    kind: UnifiErrorKind::Login,
                },
                HttpOutcomeView::Status { .. } => UnifiSearchError {
                    code: CODE_LOGIN_REJECTED,
                    kind: UnifiErrorKind::Login,
                },
            },
            SearchStage::Sites => UnifiSearchError {
                code: CODE_SITES_UNREACHABLE,
                kind: UnifiErrorKind::Network,
            },
            SearchStage::Devices => UnifiSearchError {
                code: CODE_DEVICES_UNREACHABLE,
                kind: UnifiErrorKind::Network,
            },
        },
        ApiErrorView::JsonError { .. } => match stage {
            SearchStage::Devices => UnifiSearchError {
                code: CODE_DEVICES_MALFORMED,
                kind: UnifiErrorKind::APIParsing,
            },
            _ => UnifiSearchError { code: CODE_SITES_MALFORMED, kind: UnifiErrorKind::APIParsing },
        },
    }
}

impl SearchCommand {
    /// What the request that the command asks for is for; no request, no
    /// stage.
    pub fn stage(&self) -> (r: Option<SearchStage>)
        ensures
            r == stage_of(self@),
    {
        match self {
            SearchCommand::BuildClient { .. } => Some(SearchStage::Login),
            SearchCommand::Login { .. } => Some(SearchStage::Login),
            SearchCommand::GetSites { .. } => Some(SearchStage::Sites),
            SearchCommand::GetDevices { .. } => Some(SearchStage::Devices),
            SearchCommand::GetAllDevices { .. } => Some(SearchStage::Devices),
            SearchCommand::AwaitSite => Some(SearchStage::Devices),
            SearchCommand::PollCancel => None,
            SearchCommand::EmitProgress { .. } => None,
            SearchCommand::Deliver { .. } => None,
        }
    }
}

impl UnifiSearchError {
    /// An error of logging in.
    pub fn new_login(code: usize) -> (r: UnifiSearchError)
        ensures
            r == (UnifiSearchError { code, kind: UnifiErrorKind::Login }),
    {
        UnifiSearchError { code, kind: UnifiErrorKind::Login }
    }

    /// An error of reaching the controller.
    pub fn new_network(code: usize) -> (r: UnifiSearchError)
        ensures
            r == (UnifiSearchError { code, kind: UnifiErrorKind::Network }),
    {
        UnifiSearchError { code, kind: UnifiErrorKind::Network }
    }

    /// An error of reading what the controller answered.
    pub fn new_api_parsing(code: usize) -> (r: UnifiSearchError)
        ensures
            r == (UnifiSearchError { code, kind: UnifiErrorKind::APIParsing }),
    {
        UnifiSearchError { code, kind: UnifiErrorKind::APIParsing }
    }

    /// The number and kind for an error that came up at `stage`.
    pub fn from_api_error(error: &UnifiAPIError, stage: SearchStage) -> (r: UnifiSearchError)
        ensures
            r == error_code(error@, stage),
    {
        match error {
            UnifiAPIError::ClientError { .. } => UnifiSearchError::new_login(CODE_CLIENT),
            UnifiAPIError::LoginAuthenticationError { .. } => UnifiSearchError::new_login(
                CODE_LOGIN_REJECTED,
            ),
            UnifiAPIError::ReqwestError { outcome } => match stage {
                SearchStage::Login => match outcome {
                    HttpOutcome::Failed { .. } => UnifiSearchError::new_login(
                        CODE_LOGIN_UNREACHABLE,
                    ),
                    HttpOutcome::Status { .. } => UnifiSearchError::new_login(CODE_LOGIN_REJECTED),
                },
                SearchStage::Sites => UnifiSearchError::new_network(CODE_SITES_UNREACHABLE),
                SearchStage::Devices => UnifiSearchError::new_network(CODE_DEVICES_UNREACHABLE),
            },
            UnifiAPIError::JsonError { .. } => match stage {
                SearchStage::Devices => UnifiSearchError::new_api_parsing(CODE_DEVICES_MALFORMED),
                _ => UnifiSearchError::new_api_parsing(CODE_SITES_MALFORMED),
            },
        }
    }
}

} // verus!
