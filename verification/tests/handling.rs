use github_projects_planner_sync::github_api::{
    GitHubApiError, GitHubConfig, ProjectItem, ProjectItemType, ProjectState,
};
use github_projects_planner_sync::response::ApiResponse;
use github_projects_planner_sync::webhook::{
    Issue, IssuesPayload, Label, PullRequest, PullRequestPayload, Repository, WebhookPayload,
};
use github_projects_planner_sync::{conclude, request_handler, webhook_handler, AppConfig, Step};

fn app_config(actions: &[&str], labels: &[&str]) -> AppConfig {
    AppConfig {
        tracked_actions: actions.iter().map(|action| action.to_string()).collect(),
        tracked_labels: labels.iter().map(|label| label.to_string()).collect(),
        github: GitHubConfig {
            api_key: "secret".to_string(),
            organization_name: "org".to_string(),
            project_no: 7,
            bucket_param_name: "Status".to_string(),
        },
    }
}

fn issue_event(action: &str, labels: &[&str]) -> WebhookPayload {
    WebhookPayload::Issues(IssuesPayload {
        action: action.to_string(),
        issue: Issue { labels: labels.iter().map(|name| Label { name: name.to_string() }).collect() },
        repository: Repository { full_name: "org/repo".to_string() },
    })
}

fn pull_request_event(action: &str, labels: &[&str]) -> WebhookPayload {
    WebhookPayload::PullRequest(PullRequestPayload {
        action: action.to_string(),
        pull_request: PullRequest {
            labels: labels.iter().map(|name| Label { name: name.to_string() }).collect(),
        },
        repository: Repository { full_name: "org/repo".to_string() },
    })
}

const LABELED: &str =
    r#"{"action": "labeled", "issue": {"labels": [{"name": "tracked"}]}, "repository": {"full_name": "org/repo"}}"#;

#[test]
fn tracked_event_proceeds_to_the_call() {
    let step = request_handler(Some(LABELED), &app_config(&["labeled"], &["tracked"]));
    let Step::Fetch(query) = step else { panic!("no call") };
    assert_eq!(query.authorization, "Bearer secret");
    assert_eq!(query.login, "org");
    assert_eq!(query.project_no, 7);
    assert_eq!(query.first, 100);
}

#[test]
fn event_with_another_action_is_not_targeted() {
    let step = request_handler(Some(LABELED), &app_config(&["opened"], &["tracked"]));
    let Step::Respond(response) = step else { panic!("a call") };
    assert!(matches!(response, ApiResponse::NotTargeted));
    let reply = response.build();
    assert_eq!(reply.status, 200);
    assert_eq!(reply.code, "not_targeted");
}

#[test]
fn event_is_trackable_by_action_and_label_together() {
    let tracking = app_config(&["labeled", "opened"], &["tracked", "planned"]);
    let is_call = |payload: WebhookPayload| matches!(webhook_handler(payload, &tracking), Step::Fetch(_));
    assert!(is_call(issue_event("labeled", &["tracked"])));
    assert!(is_call(issue_event("opened", &["bug", "planned"])));
    assert!(is_call(pull_request_event("opened", &["planned", "tracked"])));
    assert!(!is_call(issue_event("closed", &["tracked"])));
    assert!(!is_call(issue_event("labeled", &["bug"])));
    assert!(!is_call(pull_request_event("closed", &["bug"])));
    assert!(!is_call(issue_event("Labeled", &["tracked"])));
    assert!(!is_call(issue_event("labeled", &["TRACKED"])));
}

#[test]
fn event_without_labels_is_never_trackable() {
    let tracking = app_config(&["labeled"], &["tracked"]);
    assert!(matches!(
        webhook_handler(issue_event("labeled", &[]), &tracking),
        Step::Respond(ApiResponse::NotTargeted)
    ));
    assert!(matches!(
        webhook_handler(pull_request_event("labeled", &[]), &tracking),
        Step::Respond(ApiResponse::NotTargeted)
    ));
    assert!(!tracking.is_trackable("labeled", &Issue { labels: Vec::new() }));
}

#[test]
fn nothing_is_trackable_where_nothing_is_tracked() {
    assert!(matches!(
        webhook_handler(issue_event("labeled", &["tracked"]), &app_config(&[], &["tracked"])),
        Step::Respond(ApiResponse::NotTargeted)
    ));
    assert!(matches!(
        webhook_handler(issue_event("labeled", &["tracked"]), &app_config(&["labeled"], &[])),
        Step::Respond(ApiResponse::NotTargeted)
    ));
}

#[test]
fn matcher_takes_action_and_subject() {
    let tracking = app_config(&["labeled"], &["tracked"]);
    let label = |name: &str| Label { name: name.to_string() };
    assert!(tracking.is_trackable("labeled", &Issue { labels: vec![label("x"), label("tracked")] }));
    assert!(tracking.is_trackable("labeled", &PullRequest { labels: vec![label("tracked")] }));
    assert!(!tracking.is_trackable("opened", &Issue { labels: vec![label("tracked")] }));
    assert!(!tracking.is_trackable("labeled", &PullRequest { labels: vec![label("x")] }));
}

#[test]
fn body_of_another_shape_is_unknown_input() {
    let tracking = app_config(&["labeled"], &["tracked"]);
    for body in [r#"{"zen": "Design for failure.", "hook_id": 3}"#, "{}", "[]", "null", "42", r#""labeled""#] {
        let Step::Respond(response) = request_handler(Some(body), &tracking) else { panic!("a call") };
        assert!(matches!(response, ApiResponse::UnknownInput), "{body}");
        let reply = response.build();
        assert_eq!(reply.status, 400);
        assert_eq!(reply.code, "unknown_input");
    }
}

#[test]
fn body_that_is_not_json_is_unknown_input() {
    let tracking = app_config(&["labeled"], &["tracked"]);
    for body in ["action=labeled", "{", " ", "\n"] {
        assert!(matches!(
            request_handler(Some(body), &tracking),
            Step::Respond(ApiResponse::UnknownInput)
        ));
    }
}

#[test]
fn missing_body_is_no_body_found() {
    let tracking = app_config(&["labeled"], &["tracked"]);
    for body in [None, Some("")] {
        let Step::Respond(response) = request_handler(body, &tracking) else { panic!("a call") };
        assert!(matches!(response, ApiResponse::NoBodyFound));
        let reply = response.build();
        assert_eq!(reply.status, 400);
        assert_eq!(reply.code, "no_body_found");
    }
}

#[test]
fn tracked_event_with_a_key_that_makes_no_header_fails_before_the_call() {
    let mut tracking = app_config(&["labeled"], &["tracked"]);
    tracking.github.api_key = "two\nlines".to_string();
    let Step::Respond(response) = request_handler(Some(LABELED), &tracking) else { panic!("a call") };
    assert!(matches!(response, ApiResponse::GitHubApiError(GitHubApiError::ClientInitError)));
    let other_action = r#"{"action": "closed", "issue": {"labels": [{"name": "tracked"}]}, "repository": {"full_name": "org/repo"}}"#;
    assert!(matches!(
        request_handler(Some(other_action), &tracking),
        Step::Respond(ApiResponse::NotTargeted)
    ));
}

#[test]
fn answer_of_the_api_concludes_as_resolved() {
    let answer = r#"{"data": {"organization": {"projectNext": {"items": {"nodes": [
        {"content": {"__typename": "PullRequest", "number": 4, "title": "Add it", "url": "https://example.com/4"},
         "fieldValues": {"nodes": [{"value": "a1", "projectField": {"name": "Status", "settings": "{\"options\":[{\"id\":\"a1\",\"name\":\"Todo\"}]}"}}]}}
    ]}}}}}"#;
    let response = conclude(&app_config(&["labeled"], &["tracked"]), Ok(answer.to_string()));
    let ApiResponse::Resolved(state) = response else { panic!("not resolved") };
    assert_eq!(state.items.len(), 1);
    assert_eq!(state.items[0]._type, ProjectItemType::PullRequest);
    assert_eq!(state.items[0].number, 4);
    assert_eq!(state.items[0].title, "Add it");
    assert_eq!(state.items[0].url, "https://example.com/4");
    assert_eq!(state.items[0].status, "Todo");
}

#[test]
fn failure_of_the_api_concludes_as_an_error() {
    let tracking = app_config(&["labeled"], &["tracked"]);
    let response = conclude(&tracking, Err("connection refused".to_string()));
    assert!(matches!(&response, ApiResponse::GitHubApiError(GitHubApiError::ReqwestError(detail)) if detail == "connection refused"));
    let reply = response.build();
    assert_eq!(reply.status, 500);
    assert_eq!(reply.code, "github_api_error");
    assert_eq!(
        reply.message,
        "Error occured while communicating with GitHub API: ReqwestError(connection refused)"
    );
    assert!(matches!(
        conclude(&tracking, Ok(r#"{"data": {"organization": null}}"#.to_string())),
        ApiResponse::GitHubApiError(GitHubApiError::OrgNotFound)
    ));
}

#[test]
fn builds_the_reply_of_each_outcome() {
    let reply = ApiResponse::NoBodyFound.build();
    assert_eq!((reply.status, &*reply.code, &*reply.message), (400, "no_body_found", "No body found in request"));
    let reply = ApiResponse::UnknownInput.build();
    assert_eq!(
        (reply.status, &*reply.code, &*reply.message),
        (400, "unknown_input", "Unknown type of input. Check if any invalid webhook events are activated")
    );
    let reply = ApiResponse::NotTargeted.build();
    assert_eq!(
        (reply.status, &*reply.code, &*reply.message),
        (200, "not_targeted", "Not targeted to be tracked, skipping")
    );
    let reply = ApiResponse::GitHubApiError(GitHubApiError::GraphQLErrors(vec![
        "first".to_string(),
        "second".to_string(),
    ]))
    .build();
    assert_eq!(
        (reply.status, &*reply.code, &*reply.message),
        (
            500,
            "github_api_error",
            "Error occured while communicating with GitHub API: GraphQLErrors([first, second])"
        )
    );
    let reply = ApiResponse::GitHubApiError(GitHubApiError::ProjectNotFound).build();
    assert_eq!(&*reply.message, "Error occured while communicating with GitHub API: ProjectNotFound");
    let state = ProjectState {
        items: vec![ProjectItem {
            _type: ProjectItemType::Issue,
            number: 1,
            title: "t".to_string(),
            url: "u".to_string(),
            status: "Todo".to_string(),
        }],
    };
    let reply = ApiResponse::Resolved(state).build();
    assert_eq!(
        (reply.status, &*reply.code, &*reply.message),
        (200, "resolved", "Resolved the state of the project")
    );
}
