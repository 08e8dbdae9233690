//! The answer of the API: the errors that it tells of, or the path from its
//! data to the nodes of the board's item list.

use crate::github_api::resolver::{items_of, resolve_items};
use crate::github_api::{
    state_view, GitHubApiError, GitHubApiErrorView, ProjectItemView, ProjectState,
};
use crate::json::{Json, JsonDoc};
use vstd::prelude::*;

verus! {

/// The message of one error of an answer: its `message` where that is a
/// string, else the empty text.
pub open spec fn error_message(error: JsonDoc) -> Seq<char> {
    match error.member_text("message"@) {
        Some(message) => message,
        None => Seq::empty(),
    }
}

/// The messages of the errors of an answer, one for each element where the
/// errors are an array, none where they are anything else.
pub open spec fn error_messages(errors: JsonDoc) -> Seq<Seq<char>> {
    match errors {
        JsonDoc::Array(items) => Seq::new(items.len(), |i: int| error_message(items[i])),
        _ => Seq::empty(),
    }
}

/// The nodes of the item list that an answer of the API holds, or the failure
/// that the answer stands for. Errors come first; then each segment of the
/// path from the data to the nodes has to be there and not null.
pub open spec fn located_nodes(response: JsonDoc) -> Result<Seq<JsonDoc>, GitHubApiErrorView> {
    match response.found("errors"@) {
        Some(errors) => Err(GitHubApiErrorView::GraphQLErrors(error_messages(errors))),
        None => match response.found("data"@) {
            None => Err(GitHubApiErrorView::NoDataReceived),
            Some(data) => match data.found("organization"@) {
                None => Err(GitHubApiErrorView::OrgNotFound),
                Some(organization) => match organization.found("projectNext"@) {
                    None => Err(GitHubApiErrorView::ProjectNotFound),
                    Some(project) => match project.found("items"@) {
                        None => Err(GitHubApiErrorView::ProjectItemNotFound),
                        Some(items) => match items.member_items("nodes"@) {
                            None => Err(GitHubApiErrorView::ProjectItemNotFound),
                            Some(nodes) => Ok(nodes),
                        },
                    },
                },
            },
        },
    }
}

/// The project state that an answer of the API resolves to.
pub open spec fn state_of(response: JsonDoc, field_name: Seq<char>) -> Result<
    Seq<ProjectItemView>,
    GitHubApiErrorView,
> {
    match located_nodes(response) {
        Ok(nodes) => Ok(items_of(nodes, field_name)),
        Err(failure) => Err(failure),
    }
}

fn read_error_messages(errors: &Json) -> (messages: Vec<String>)
    ensures
        messages.deep_view() == error_messages(errors@),
{
    let mut messages: Vec<String> = Vec::new();
    match errors {
        Json::Array(items) => {
            let mut i: usize = 0;
            while i < items.len()
                invariant
                    i <= items@.len(),
                    messages@.len() == i,
                    forall|k: int|
                        0 <= k < i ==> #[trigger] messages@[k]@ == error_message(items@[k]@),
                decreases items@.len() - i,
            {
                match items[i].member_text("message") {
                    Some(message) => {
                        messages.push(message.clone());
                    },
                    None => {
                        messages.push(String::new());
                    },
                }
                i += 1;
            }
        },
        _ => {},
    }
    messages
}

/// What locating the nodes gave, each side taken by its view.
pub open spec fn located_view(located: Result<&Vec<Json>, GitHubApiError>) -> Result<
    Seq<JsonDoc>,
    GitHubApiErrorView,
> {
    match located {
        Ok(nodes) => Ok(nodes.deep_view()),
        Err(failure) => Err(failure@),
    }
}

/// Finds the nodes of the item list in an answer of the API.
pub fn locate_nodes(response: &Json) -> (located: Result<&Vec<Json>, GitHubApiError>)
    ensures
        located_view(located) == located_nodes(response@),
{
    if let Some(errors) = response.found("errors") {
        return Err(GitHubApiError::GraphQLErrors(read_error_messages(errors)));
    }
    let data = match response.found("data") {
        Some(data) => data,
        None => {
            return Err(GitHubApiError::NoDataReceived);
        },
    };
    let organization = match data.found("organization") {
        Some(organization) => organization,
        None => {
            return Err(GitHubApiError::OrgNotFound);
        },
    };
    let project = match organization.found("projectNext") {
        Some(project) => project,
        None => {
            return Err(GitHubApiError::ProjectNotFound);
        },
    };
    let items = match project.found("items") {
        Some(items) => items,
        None => {
            return Err(GitHubApiError::ProjectItemNotFound);
        },
    };
    match items.member_items("nodes") {
        Some(nodes) => Ok(nodes),
        None => Err(GitHubApiError::ProjectItemNotFound),
    }
}

impl ProjectState {
    /// Resolves an answer of the API.
    pub fn from_json(response: &Json, field_name: &str) -> (result: Result<
        ProjectState,
        GitHubApiError,
    >)
        ensures
            state_view(result) == state_of(response@, field_name@),
    {
        match locate_nodes(response) {
            Ok(nodes) => Ok(ProjectState { items: resolve_items(nodes, field_name) }),
            Err(failure) => Err(failure),
        }
    }
}

} // verus!
