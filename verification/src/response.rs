//! The outcome of handling a delivery, and the reply that tells of it.

use crate::github_api::{
    failure_text, GitHubApiError, GitHubApiErrorView, ProjectItemView, ProjectState,
};
use std::borrow::Cow;
use vstd::prelude::*;
use vstd::string::StringExecFns;

verus! {

/// What is sent back for a delivery: the status of the reply, and the code
/// and the message of its body.
#[derive(Debug)]
pub struct SerializableResponse<'a> {
    pub status: u16,
    pub code: Cow<'a, str>,
    pub message: Cow<'a, str>,
}

/// How the handling of a delivery ended.
#[derive(Debug)]
pub enum ApiResponse {
    /// The request had no body.
    NoBodyFound,
    /// The body is not an event that is known here.
    UnknownInput,
    /// The event is not one to be tracked.
    NotTargeted,
    /// The state of the project board could not be had.
    GitHubApiError(GitHubApiError),
    /// The event is tracked, and this is the state of the project board.
    Resolved(ProjectState),
}

/// An outcome as a mathematical value.
pub enum ApiResponseView {
    NoBodyFound,
    UnknownInput,
    NotTargeted,
    GitHubApiError(GitHubApiErrorView),
    Resolved(Seq<ProjectItemView>),
}

impl View for ApiResponse {
    type V = ApiResponseView;

    open spec fn view(&self) -> ApiResponseView {
        match self {
            ApiResponse::NoBodyFound => ApiResponseView::NoBodyFound,
            ApiResponse::UnknownInput => ApiResponseView::UnknownInput,
            ApiResponse::NotTargeted => ApiResponseView::NotTargeted,
            ApiResponse::GitHubApiError(failure) => ApiResponseView::GitHubApiError(failure@),
            ApiResponse::Resolved(state) => ApiResponseView::Resolved(state@),
        }
    }
}

impl ApiResponseView {
    /// The status of the reply.
    pub open spec fn status(self) -> u16 {
        match self {
            ApiResponseView::NoBodyFound => 400,
            ApiResponseView::UnknownInput => 400,
            ApiResponseView::NotTargeted => 200,
            ApiResponseView::GitHubApiError(_) => 500,
            ApiResponseView::Resolved(_) => 200,
        }
    }

    /// The code in the body of the reply.
    pub open spec fn code(self) -> Seq<char> {
        match self {
            ApiResponseView::NoBodyFound => "no_body_found"@,
            ApiResponseView::UnknownInput => "unknown_input"@,
            ApiResponseView::NotTargeted => "not_targeted"@,
            ApiResponseView::GitHubApiError(_) => "github_api_error"@,
            ApiResponseView::Resolved(_) => "resolved"@,
        }
    }

    /// The message in the body of the reply. That of a failure ends with how
    /// the failure reads.
    pub open spec fn message(self) -> Seq<char> {
        match self {
            ApiResponseView::NoBodyFound => "No body found in request"@,
            ApiResponseView::UnknownInput =>
                "Unknown type of input. Check if any invalid webhook events are activated"@,
            ApiResponseView::NotTargeted => "Not targeted to be tracked, skipping"@,
            ApiResponseView::GitHubApiError(failure) =>
                "Error occured while communicating with GitHub API: "@ + failure_text(failure),
            ApiResponseView::Resolved(_) => "Resolved the state of the project"@,
        }
    }
}

impl<'a> ApiResponse {
    /// The reply that tells of the outcome.
    pub fn build(self) -> (response: SerializableResponse<'a>)
        ensures
            response.status == self@.status(),
            response.code@ == self@.code(),
            response.message@ == self@.message(),
    {
        let (status, code, message): (u16, Cow<'a, str>, Cow<'a, str>) = match self {
            ApiResponse::NoBodyFound => (
                400,
                Cow::Borrowed("no_body_found"),
                Cow::Borrowed("No body found in request"),
            ),
            ApiResponse::UnknownInput => (
                400,
                Cow::Borrowed("unknown_input"),
                Cow::Borrowed(
                    "Unknown type of input. Check if any invalid webhook events are activated",
                ),
            ),
            ApiResponse::NotTargeted => (
                200,
                Cow::Borrowed("not_targeted"),
                Cow::Borrowed("Not targeted to be tracked, skipping"),
            ),
            ApiResponse::GitHubApiError(failure) => {
                let mut message = "Error occured while communicating with GitHub API: ".to_owned();
                message.append(failure.describe().as_str());
                (500, Cow::Borrowed("github_api_error"), Cow::Owned(message))
            },
            ApiResponse::Resolved(_) => (
                200,
                Cow::Borrowed("resolved"),
                Cow::Borrowed("Resolved the state of the project"),
            ),
        };
        SerializableResponse { status, code, message }
    }
}

} // verus!
