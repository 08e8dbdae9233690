//! Keeps track of the issues and pull requests of a GitHub project board:
//! takes the events that a webhook delivers, decides which of them are
//! tracked, and for those resolves the state of the board from the answer of
//! the GitHub API. The call to the API itself is left to the caller: the
//! handling of a delivery is a step up to the call and one after it.

use crate::github_api::{
    get_project_state, project_state_of, reply_view, GitHubConfig, ProjectQuery, ProjectQueryView,
};
use crate::response::{ApiResponse, ApiResponseView};
use crate::json::parsed_text;
use crate::text::contains_text;
use crate::webhook::{
    decoded_payload, event_of, is_trackable, EventView, Trackable, WebhookPayload,
    WebhookPayloadView,
};
use vstd::prelude::*;

pub mod github_api;
pub mod json;
pub mod response;
pub mod text;
pub mod webhook;

verus! {

/// What is tracked, and the project board that tracked events are looked up
/// on. It is read once, before any delivery is handled.
pub struct AppConfig {
    /// The actions of which one has to be the action of a tracked event.
    pub tracked_actions: Vec<String>,
    /// The labels of which one has to be on the subject of a tracked event.
    pub tracked_labels: Vec<String>,
    pub github: GitHubConfig,
}

/// What the handling of a delivery needs next: to send a reply, or to call the
/// API first.
pub enum Step {
    /// The handling has ended with this outcome, and no call is to be made.
    Respond(ApiResponse),
    /// The event is tracked: the API is to be called with this, and the
    /// outcome of the call handed to `conclude`.
    Fetch(ProjectQuery),
}

/// A step as a mathematical value.
pub enum StepView {
    Respond(ApiResponseView),
    Fetch(ProjectQueryView),
}

impl View for Step {
    type V = StepView;

    open spec fn view(&self) -> StepView {
        match self {
            Step::Respond(response) => StepView::Respond(response@),
            Step::Fetch(query) => StepView::Fetch(query@),
        }
    }
}

impl AppConfig {
    /// Whether an event is to be tracked.
    pub open spec fn tracks(&self, event: EventView) -> bool {
        is_trackable(
            event.action,
            event.labels,
            self.tracked_actions.deep_view(),
            self.tracked_labels.deep_view(),
        )
    }

    /// The step that a delivered event leads to: none but a reply for an
    /// event that is not tracked, else the call to the API, if one can be
    /// prepared.
    pub open spec fn step_for(&self, payload: WebhookPayloadView) -> StepView {
        if self.tracks(payload.event()) {
            match self.github.prepared() {
                Ok(query) => StepView::Fetch(query),
                Err(failure) => StepView::Respond(ApiResponseView::GitHubApiError(failure)),
            }
        } else {
            StepView::Respond(ApiResponseView::NotTargeted)
        }
    }

    /// The step that the body of a request leads to.
    pub open spec fn step_for_body(&self, body: Option<Seq<char>>) -> StepView {
        match body {
            None => StepView::Respond(ApiResponseView::NoBodyFound),
            Some(text) => if text.len() == 0 {
                StepView::Respond(ApiResponseView::NoBodyFound)
            } else {
                match decoded_payload(text) {
                    Some(payload) => self.step_for(payload),
                    None => StepView::Respond(ApiResponseView::UnknownInput),
                }
            },
        }
    }

    /// The outcome that the call to the API leads to.
    pub open spec fn outcome_of(&self, reply: Result<Seq<char>, Seq<char>>) -> ApiResponseView {
        match project_state_of(reply, self.github.bucket_param_name@) {
            Ok(items) => ApiResponseView::Resolved(items),
            Err(failure) => ApiResponseView::GitHubApiError(failure),
        }
    }

    /// Whether an event with this action and this subject is to be tracked.
    pub fn is_trackable<T: Trackable>(&self, action: &str, subject: &T) -> (trackable: bool)
        ensures
            trackable == is_trackable(
                action@,
                subject.label_names(),
                self.tracked_actions.deep_view(),
                self.tracked_labels.deep_view(),
            ),
    {
        contains_text(&self.tracked_actions, action) && subject.has_tracking_label(
            &self.tracked_labels,
        )
    }
}

/// A request without a body, or with an empty one, is answered with "no body
/// found", whatever is tracked.
pub proof fn missing_body_is_told(config: &AppConfig)
    ensures
        config.step_for_body(None) == StepView::Respond(ApiResponseView::NoBodyFound),
        config.step_for_body(Some(Seq::empty())) == StepView::Respond(
            ApiResponseView::NoBodyFound,
        ),
{
}

/// A body that is JSON but fits neither shape of an event is answered with
/// "unknown input"; so is a body that is not JSON.
pub proof fn unknown_body_is_told(config: &AppConfig, body: Seq<char>)
    requires
        body.len() > 0,
        parsed_text(body) matches Some(doc) ==> event_of(doc, "issue"@) is None && event_of(
            doc,
            "pull_request"@,
        ) is None,
    ensures
        config.step_for_body(Some(body)) == StepView::Respond(ApiResponseView::UnknownInput),
        ApiResponseView::UnknownInput.status() == 400,
        ApiResponseView::UnknownInput.code() == "unknown_input"@,
{
}

/// The API is called for tracked events only, and a reply without a call
/// tells of no state: the step for an event that is not tracked is the reply
/// "not targeted".
pub proof fn untracked_event_makes_no_call(config: &AppConfig, payload: WebhookPayloadView)
    ensures
        !config.tracks(payload.event()) ==> config.step_for(payload) == StepView::Respond(
            ApiResponseView::NotTargeted,
        ),
        config.step_for(payload) is Fetch ==> config.tracks(payload.event()),
        config.step_for(payload) matches StepView::Respond(response) ==> !(response is Resolved),
{
}

/// Handles a delivered event up to the call to the API.
pub fn webhook_handler(payload: WebhookPayload, config: &AppConfig) -> (step: Step)
    ensures
        step@ == config.step_for(payload@),
{
    let is_tracked = match &payload {
        WebhookPayload::Issues(payload) => config.is_trackable(
            payload.action.as_str(),
            &payload.issue,
        ),
        WebhookPayload::PullRequest(payload) => config.is_trackable(
            payload.action.as_str(),
            &payload.pull_request,
        ),
    };
    if !is_tracked {
        return Step::Respond(ApiResponse::NotTargeted);
    }
    match config.github.query() {
        Ok(query) => Step::Fetch(query),
        Err(failure) => Step::Respond(ApiResponse::GitHubApiError(failure)),
    }
}

/// Handles the body of a request up to the call to the API. A request
/// without a body, or with an empty one, is told so.
pub fn request_handler(body: Option<&str>, config: &AppConfig) -> (step: Step)
    ensures
        step@ == config.step_for_body(body.deep_view()),
{
    match body {
        None => Step::Respond(ApiResponse::NoBodyFound),
        Some(text) => if text.is_empty() {
            Step::Respond(ApiResponse::NoBodyFound)
        } else {
            match WebhookPayload::decode(text) {
                Some(payload) => webhook_handler(payload, config),
                None => Step::Respond(ApiResponse::UnknownInput),
            }
        },
    }
}

/// Ends the handling of a tracked event with the outcome of the call to the
/// API: `Ok` with the body of the answer, or `Err` with the detail of why the
/// call gave none.
pub fn conclude(config: &AppConfig, reply: Result<String, String>) -> (response: ApiResponse)
    ensures
        response@ == config.outcome_of(reply_view(reply)),
{
    match get_project_state(&config.github, reply) {
        Ok(state) => ApiResponse::Resolved(state),
        Err(failure) => ApiResponse::GitHubApiError(failure),
    }
}

} // verus!
