use github_projects_planner_sync::json::Json;
use github_projects_planner_sync::webhook::{
    Issue, IssuesPayload, Label, PullRequest, PullRequestPayload, Repository, Trackable,
    WebhookPayload,
};

fn labels(names: &[&str]) -> Vec<Label> {
    names.iter().map(|name| Label { name: name.to_string() }).collect()
}

fn texts(items: &[&str]) -> Vec<String> {
    items.iter().map(|item| item.to_string()).collect()
}

#[test]
fn decodes_an_event_about_an_issue() {
    let payload = WebhookPayload::decode(
        r#"{"action": "labeled", "issue": {"number": 5, "labels": [{"id": 1, "name": "tracked"}, {"name": "bug"}]},
            "repository": {"full_name": "org/repo", "private": false}, "sender": {"login": "someone"}}"#,
    )
    .unwrap();
    let WebhookPayload::Issues(event) = payload else { panic!("not an event about an issue") };
    assert_eq!(event.action, "labeled");
    assert_eq!(event.issue.labels.len(), 2);
    assert_eq!(event.issue.labels[0].name, "tracked");
    assert_eq!(event.issue.labels[1].name, "bug");
    assert_eq!(event.repository.full_name, "org/repo");
}

#[test]
fn decodes_an_event_about_a_pull_request() {
    let payload = WebhookPayload::decode(
        r#"{"action": "opened", "number": 9, "pull_request": {"labels": []}, "repository": {"full_name": "org/repo"}}"#,
    )
    .unwrap();
    let WebhookPayload::PullRequest(event) = payload else { panic!("not an event about a pull request") };
    assert_eq!(event.action, "opened");
    assert!(event.pull_request.labels.is_empty());
    assert_eq!(event.repository.full_name, "org/repo");
}

#[test]
fn reads_a_body_that_fits_both_shapes_as_an_issue() {
    let payload = WebhookPayload::decode(
        r#"{"action": "labeled", "pull_request": {"labels": [{"name": "from-pr"}]},
            "issue": {"labels": [{"name": "from-issue"}]}, "repository": {"full_name": "org/repo"}}"#,
    )
    .unwrap();
    let WebhookPayload::Issues(event) = payload else { panic!("not an event about an issue") };
    assert_eq!(event.issue.labels[0].name, "from-issue");
}

#[test]
fn falls_back_to_the_pull_request_where_the_issue_does_not_fit() {
    let payload = WebhookPayload::decode(
        r#"{"action": "labeled", "issue": {"labels": "none"},
            "pull_request": {"labels": [{"name": "from-pr"}]}, "repository": {"full_name": "org/repo"}}"#,
    )
    .unwrap();
    let WebhookPayload::PullRequest(event) = payload else { panic!("not an event about a pull request") };
    assert_eq!(event.pull_request.labels[0].name, "from-pr");
}

#[test]
fn refuses_bodies_of_another_shape() {
    assert!(WebhookPayload::decode(r#"{"zen": "Keep it logically awesome.", "hook_id": 1}"#).is_none());
    assert!(WebhookPayload::decode(r#"{"action": "labeled", "issue": {"labels": []}}"#).is_none());
    assert!(WebhookPayload::decode(r#"{"issue": {"labels": []}, "repository": {"full_name": "a/b"}}"#).is_none());
    assert!(WebhookPayload::decode(r#"{"action": 1, "issue": {"labels": []}, "repository": {"full_name": "a/b"}}"#).is_none());
    assert!(WebhookPayload::decode(r#"{"action": "x", "issue": {}, "repository": {"full_name": "a/b"}}"#).is_none());
    assert!(WebhookPayload::decode(r#"{"action": "x", "issue": {"labels": [{"name": 3}]}, "repository": {"full_name": "a/b"}}"#).is_none());
    assert!(WebhookPayload::decode(r#"{"action": "x", "issue": {"labels": [{"name": "a"}, null]}, "repository": {"full_name": "a/b"}}"#).is_none());
    assert!(WebhookPayload::decode(r#"{"action": "x", "issue": {"labels": []}, "repository": {"name": "b"}}"#).is_none());
    assert!(WebhookPayload::decode(r#"{"action": "x", "issue": null, "repository": {"full_name": "a/b"}}"#).is_none());
    assert!(WebhookPayload::decode("[]").is_none());
    assert!(WebhookPayload::decode("null").is_none());
    assert!(WebhookPayload::decode("not json").is_none());
}

#[test]
fn reads_the_parts_of_an_event_from_documents() {
    let doc = Json::parse(r#"{"labels": [{"name": "a"}], "full_name": "org/repo", "name": "x"}"#).unwrap();
    assert_eq!(Issue::from_json(&doc).unwrap().labels[0].name, "a");
    assert_eq!(PullRequest::from_json(&doc).unwrap().labels[0].name, "a");
    assert_eq!(Repository::from_json(&doc).unwrap().full_name, "org/repo");
    assert_eq!(Label::from_json(&doc).unwrap().name, "x");
    assert!(IssuesPayload::from_json(&doc).is_none());
    assert!(PullRequestPayload::from_json(&doc).is_none());
    assert!(WebhookPayload::from_json(&doc).is_none());
    assert!(Label::from_json(&Json::Null).is_none());
    assert!(Repository::from_json(&Json::Array(Vec::new())).is_none());
}

#[test]
fn hands_out_the_labels_of_a_subject() {
    let issue = Issue { labels: labels(&["a", "b"]) };
    let pull_request = PullRequest { labels: labels(&["c"]) };
    assert_eq!(issue.labels().len(), 2);
    assert_eq!(issue.labels()[1].name, "b");
    assert_eq!(pull_request.labels()[0].name, "c");
}

#[test]
fn finds_a_tracked_label_among_the_labels() {
    let wanted = texts(&["tracked", "planned"]);
    assert!(Issue { labels: labels(&["bug", "planned"]) }.has_tracking_label(&wanted));
    assert!(PullRequest { labels: labels(&["tracked"]) }.has_tracking_label(&wanted));
    assert!(!Issue { labels: labels(&["bug", "Tracked", "tracked "]) }.has_tracking_label(&wanted));
    assert!(!PullRequest { labels: labels(&["bug"]) }.has_tracking_label(&wanted));
}

#[test]
fn finds_no_tracked_label_without_labels() {
    assert!(!Issue { labels: Vec::new() }.has_tracking_label(&texts(&["tracked"])));
    assert!(!PullRequest { labels: Vec::new() }.has_tracking_label(&texts(&["tracked"])));
    assert!(!Issue { labels: labels(&["tracked"]) }.has_tracking_label(&Vec::new()));
}
