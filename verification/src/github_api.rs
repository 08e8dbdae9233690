//! The project board behind the GitHub API: how a call to it is prepared, and
//! what the outcome of the call resolves to.

use crate::github_api::answer::state_of;
use crate::json::{parsed_text, Json};
use vstd::prelude::*;
use vstd::string::StringExecFns;
use vstd::utf8::encode_utf8;

pub mod answer;
pub mod resolver;
pub mod settings;

verus! {

/// Where the project board lives and how to reach it.
pub struct GitHubConfig {
    /// The token that every call to the API is made with.
    pub api_key: String,
    /// The organization that owns the project.
    pub organization_name: String,
    /// The number of the project within the organization.
    pub project_no: i64,
    /// The name of the single-select field whose options are the status
    /// buckets.
    pub bucket_param_name: String,
}

/// Why the state of the project board could not be had.
#[derive(Debug)]
pub enum GitHubApiError {
    /// The API key does not make an authorization header.
    ClientInitError,
    /// The call itself failed, or what came back is not JSON; with the detail.
    ReqwestError(String),
    /// The API answered with errors; with the message of each.
    GraphQLErrors(Vec<String>),
    /// The API answered with neither data nor errors.
    NoDataReceived,
    /// The answer holds no organization.
    OrgNotFound,
    /// The organization of the answer holds no project.
    ProjectNotFound,
    /// The project of the answer holds no list of items.
    ProjectItemNotFound,
}

/// A failure as a mathematical value.
pub enum GitHubApiErrorView {
    ClientInitError,
    ReqwestError(Seq<char>),
    GraphQLErrors(Seq<Seq<char>>),
    NoDataReceived,
    OrgNotFound,
    ProjectNotFound,
    ProjectItemNotFound,
}

impl View for GitHubApiError {
    type V = GitHubApiErrorView;

    open spec fn view(&self) -> GitHubApiErrorView {
        match self {
            GitHubApiError::ClientInitError => GitHubApiErrorView::ClientInitError,
            GitHubApiError::ReqwestError(detail) => GitHubApiErrorView::ReqwestError(detail@),
            GitHubApiError::GraphQLErrors(messages) => GitHubApiErrorView::GraphQLErrors(
                messages.deep_view(),
            ),
            GitHubApiError::NoDataReceived => GitHubApiErrorView::NoDataReceived,
            GitHubApiError::OrgNotFound => GitHubApiErrorView::OrgNotFound,
            GitHubApiError::ProjectNotFound => GitHubApiErrorView::ProjectNotFound,
            GitHubApiError::ProjectItemNotFound => GitHubApiErrorView::ProjectItemNotFound,
        }
    }
}

/// The texts of a list, in order, with a comma and a blank between two of
/// them.
pub open spec fn joined(texts: Seq<Seq<char>>) -> Seq<char>
    decreases texts.len(),
{
    if texts.len() == 0 {
        Seq::empty()
    } else if texts.len() == 1 {
        texts[0]
    } else {
        joined(texts.drop_last()) + ", "@ + texts.last()
    }
}

/// How a failure reads in a message: the name of its kind, followed in
/// brackets by the detail that it carries, where it carries any.
pub open spec fn failure_text(failure: GitHubApiErrorView) -> Seq<char> {
    match failure {
        GitHubApiErrorView::ClientInitError => "ClientInitError"@,
        GitHubApiErrorView::ReqwestError(detail) => "ReqwestError("@ + detail + ")"@,
        GitHubApiErrorView::GraphQLErrors(messages) => "GraphQLErrors(["@ + joined(messages)
            + "])"@,
        GitHubApiErrorView::NoDataReceived => "NoDataReceived"@,
        GitHubApiErrorView::OrgNotFound => "OrgNotFound"@,
        GitHubApiErrorView::ProjectNotFound => "ProjectNotFound"@,
        GitHubApiErrorView::ProjectItemNotFound => "ProjectItemNotFound"@,
    }
}

fn join(texts: &Vec<String>) -> (text: String)
    ensures
        text@ == joined(texts.deep_view()),
{
    let ghost all = texts.deep_view();
    let mut text = String::new();
    let mut i: usize = 0;
    while i < texts.len()
        invariant
            i <= texts@.len(),
            all == texts.deep_view(),
            text@ == joined(all.take(i as int)),
        decreases texts@.len() - i,
    {
        assert(all.take(i as int + 1).drop_last() == all.take(i as int));
        if i > 0 {
            text.append(", ");
        }
        text.append(texts[i].as_str());
        i += 1;
    }
    assert(all.take(texts@.len() as int) == all);
    text
}

impl GitHubApiError {
    /// How the failure reads in a message.
    pub fn describe(&self) -> (text: String)
        ensures
            text@ == failure_text(self@),
    {
        match self {
            GitHubApiError::ClientInitError => "ClientInitError".to_owned(),
            GitHubApiError::ReqwestError(detail) => {
                let mut text = "ReqwestError(".to_owned();
                text.append(detail.as_str());
                text.append(")");
                text
            },
            GitHubApiError::GraphQLErrors(messages) => {
                let mut text = "GraphQLErrors([".to_owned();
                text.append(join(messages).as_str());
                text.append("])");
                text
            },
            GitHubApiError::NoDataReceived => "NoDataReceived".to_owned(),
            GitHubApiError::OrgNotFound => "OrgNotFound".to_owned(),
            GitHubApiError::ProjectNotFound => "ProjectNotFound".to_owned(),
            GitHubApiError::ProjectItemNotFound => "ProjectItemNotFound".to_owned(),
        }
    }
}

/// The address of an issue or a pull request.
#[derive(Debug)]
pub struct URI(pub String);

impl View for URI {
    type V = Seq<char>;

    open spec fn view(&self) -> Seq<char> {
        self.0@
    }
}

/// Whether a project item stands for an issue or for a pull request.
#[derive(Debug, Clone, Copy, PartialEq, Eq, Structural)]
pub enum ProjectItemType {
    Issue,
    PullRequest,
}

/// An issue or a pull request on the project board, with the status bucket
/// that it is in.
#[derive(Debug)]
pub struct ProjectItem {
    pub _type: ProjectItemType,
    pub number: i64,
    pub title: String,
    pub url: String,
    /// The name of the option that the item has in the status field.
    pub status: String,
}

/// A project item as a mathematical value.
pub struct ProjectItemView {
    pub kind: ProjectItemType,
    pub number: i64,
    pub title: Seq<char>,
    pub url: Seq<char>,
    pub status: Seq<char>,
}

impl View for ProjectItem {
    type V = ProjectItemView;

    open spec fn view(&self) -> ProjectItemView {
        ProjectItemView {
            kind: self._type,
            number: self.number,
            title: self.title@,
            url: self.url@,
            status: self.status@,
        }
    }
}

impl DeepView for ProjectItem {
    type V = ProjectItemView;

    open spec fn deep_view(&self) -> ProjectItemView {
        self@
    }
}

/// The resolved items of the first page of a project board, in the order in
/// which the board gave them.
#[derive(Debug)]
pub struct ProjectState {
    pub items: Vec<ProjectItem>,
}

impl View for ProjectState {
    type V = Seq<ProjectItemView>;

    open spec fn view(&self) -> Seq<ProjectItemView> {
        self.items.deep_view()
    }
}

/// Where the API is called.
pub const GITHUB_API_URL: &'static str = "https://api.github.com/graphql";

/// How many items of the board one call asks for: the first page only.
pub const PAGE_SIZE: i64 = 100;

/// The name of the operation in `PROJECT_QUERY`.
pub const PROJECT_QUERY_NAME: &'static str = "ProjectQuery";

/// What is asked of the API: of each of the first items of a project, what it
/// stands for, and the values of its fields with the settings of each field.
/// Its variables are `login`, `projectNo` and `first`.
pub const PROJECT_QUERY: &'static str =
    "query ProjectQuery($login: String!, $projectNo: Int!, $first: Int!) { \
organization(login: $login) { projectNext(number: $projectNo) { items(first: $first) { nodes { \
content { __typename ... on Issue { number title url } ... on PullRequest { number title url } } \
fieldValues(first: 100) { nodes { value projectField { name settings } } } \
} } } } }";

/// What has to be sent to the API to read the board.
pub struct ProjectQuery {
    /// The value of the `Authorization` header.
    pub authorization: String,
    /// The organization that owns the project.
    pub login: String,
    /// The number of the project within the organization.
    pub project_no: i64,
    /// How many items to ask for.
    pub first: i64,
}

/// A prepared call as a mathematical value.
pub struct ProjectQueryView {
    pub authorization: Seq<char>,
    pub login: Seq<char>,
    pub project_no: i64,
    pub first: i64,
}

impl View for ProjectQuery {
    type V = ProjectQueryView;

    open spec fn view(&self) -> ProjectQueryView {
        ProjectQueryView {
            authorization: self.authorization@,
            login: self.login@,
            project_no: self.project_no,
            first: self.first,
        }
    }
}

/// Whether a byte can stand in the value of a header: a tab can, and any byte
/// from 32 up but 127.
pub open spec fn header_byte(byte: u8) -> bool {
    (byte >= 32 && byte != 127) || byte == 9
}

/// Whether a text can be the value of a header: each byte of it can.
pub open spec fn header_text(text: Seq<char>) -> bool {
    forall|i: int| 0 <= i < encode_utf8(text).len() ==> header_byte(#[trigger] encode_utf8(text)[i])
}

/// The value of the `Authorization` header for an API key.
pub open spec fn bearer(api_key: Seq<char>) -> Seq<char> {
    "Bearer "@ + api_key
}

/// Calls `http::HeaderValue::from_str`, which axum hands on, and keeps only
/// whether it succeeded. Not proved: that it succeeds on the texts of which
/// every byte is a tab or is 32 or more and not 127, and on no others.
#[verifier::external_body]
fn is_header_value(text: &str) -> (accepted: bool)
    ensures
        accepted == header_text(text@),
{
    axum::http::HeaderValue::from_str(text).is_ok()
}

/// A prepared call or the failure to prepare one, each side taken by its view.
pub open spec fn query_view(prepared: Result<ProjectQuery, GitHubApiError>) -> Result<
    ProjectQueryView,
    GitHubApiErrorView,
> {
    match prepared {
        Ok(query) => Ok(query@),
        Err(failure) => Err(failure@),
    }
}

impl GitHubConfig {
    /// The call to the API that the configuration asks for, or the failure to
    /// prepare one: the API key must make an authorization header.
    pub open spec fn prepared(&self) -> Result<ProjectQueryView, GitHubApiErrorView> {
        if header_text(bearer(self.api_key@)) {
            Ok(
                ProjectQueryView {
                    authorization: bearer(self.api_key@),
                    login: self.organization_name@,
                    project_no: self.project_no,
                    first: PAGE_SIZE,
                },
            )
        } else {
            Err(GitHubApiErrorView::ClientInitError)
        }
    }

    /// Prepares the call to the API. It fails where the API key does not make
    /// an authorization header, so that no call goes out without one.
    pub fn query(&self) -> (prepared: Result<ProjectQuery, GitHubApiError>)
        ensures
            query_view(prepared) == self.prepared(),
    {
        let mut authorization = "Bearer ".to_owned();
        authorization.append(self.api_key.as_str());
        if is_header_value(authorization.as_str()) {
            Ok(
                ProjectQuery {
                    authorization,
                    login: self.organization_name.clone(),
                    project_no: self.project_no,
                    first: PAGE_SIZE,
                },
            )
        } else {
            Err(GitHubApiError::ClientInitError)
        }
    }
}

/// The detail of the failure that is reported where the body of an answer is
/// not JSON.
pub open spec fn undecodable_body() -> Seq<char> {
    "error decoding response body"@
}

/// The project state that the outcome of the call to the API resolves to. The
/// outcome is the body of the answer, or the detail of why there is none.
pub open spec fn project_state_of(
    reply: Result<Seq<char>, Seq<char>>,
    field_name: Seq<char>,
) -> Result<Seq<ProjectItemView>, GitHubApiErrorView> {
    match reply {
        Err(detail) => Err(GitHubApiErrorView::ReqwestError(detail)),
        Ok(body) => match parsed_text(body) {
            None => Err(GitHubApiErrorView::ReqwestError(undecodable_body())),
            Some(response) => state_of(response, field_name),
        },
    }
}

/// The outcome of the call to the API, each side taken by its view.
pub open spec fn reply_view(reply: Result<String, String>) -> Result<Seq<char>, Seq<char>> {
    match reply {
        Ok(body) => Ok(body@),
        Err(detail) => Err(detail@),
    }
}

/// What resolving gave, each side taken by its view.
pub open spec fn state_view(result: Result<ProjectState, GitHubApiError>) -> Result<
    Seq<ProjectItemView>,
    GitHubApiErrorView,
> {
    match result {
        Ok(state) => Ok(state@),
        Err(failure) => Err(failure@),
    }
}

/// Resolves the outcome of the call to the API: `Ok` with the body of the
/// answer, or `Err` with the detail of why the call gave none.
pub fn get_project_state(config: &GitHubConfig, reply: Result<String, String>) -> (result: Result<
    ProjectState,
    GitHubApiError,
>)
    ensures
        state_view(result) == project_state_of(reply_view(reply), config.bucket_param_name@),
{
    match reply {
        Err(detail) => Err(GitHubApiError::ReqwestError(detail)),
        Ok(body) => match Json::parse(body.as_str()) {
            None => Err(GitHubApiError::ReqwestError("error decoding response body".to_owned())),
            Some(response) => ProjectState::from_json(
                &response,
                config.bucket_param_name.as_str(),
            ),
        },
    }
}

} // verus!
