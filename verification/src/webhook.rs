//! Delivered events: what they hold, how they are read from the body of a
//! request, and which of them are tracked.

use crate::json::{parsed_text, Json, JsonDoc};
use crate::text::contains_text;
use vstd::prelude::*;

verus! {

/// A label of an issue or a pull request.
#[derive(Debug)]
pub struct Label {
    pub name: String,
}

impl View for Label {
    type V = Seq<char>;

    open spec fn view(&self) -> Seq<char> {
        self.name@
    }
}

impl DeepView for Label {
    type V = Seq<char>;

    open spec fn deep_view(&self) -> Seq<char> {
        self@
    }
}

/// The repository that an event comes from.
#[derive(Debug)]
pub struct Repository {
    pub full_name: String,
}

impl View for Repository {
    type V = Seq<char>;

    open spec fn view(&self) -> Seq<char> {
        self.full_name@
    }
}

impl DeepView for Repository {
    type V = Seq<char>;

    open spec fn deep_view(&self) -> Seq<char> {
        self@
    }
}

/// The issue that an event is about.
#[derive(Debug)]
pub struct Issue {
    pub labels: Vec<Label>,
}

/// The pull request that an event is about.
#[derive(Debug)]
pub struct PullRequest {
    pub labels: Vec<Label>,
}

impl View for Issue {
    type V = Seq<Seq<char>>;

    open spec fn view(&self) -> Seq<Seq<char>> {
        self.labels.deep_view()
    }
}

impl DeepView for Issue {
    type V = Seq<Seq<char>>;

    open spec fn deep_view(&self) -> Seq<Seq<char>> {
        self@
    }
}

impl View for PullRequest {
    type V = Seq<Seq<char>>;

    open spec fn view(&self) -> Seq<Seq<char>> {
        self.labels.deep_view()
    }
}

impl DeepView for PullRequest {
    type V = Seq<Seq<char>>;

    open spec fn deep_view(&self) -> Seq<Seq<char>> {
        self@
    }
}

/// Whether one of `labels` is among `tracked_labels`.
pub open spec fn has_tracked_label(labels: Seq<Seq<char>>, tracked_labels: Seq<Seq<char>>) -> bool {
    exists|i: int| 0 <= i < labels.len() && tracked_labels.contains(#[trigger] labels[i])
}

/// Whether an event is to be tracked: its action is among the tracked actions
/// and one of its labels is among the tracked labels.
pub open spec fn is_trackable(
    action: Seq<char>,
    labels: Seq<Seq<char>>,
    tracked_actions: Seq<Seq<char>>,
    tracked_labels: Seq<Seq<char>>,
) -> bool {
    tracked_actions.contains(action) && has_tracked_label(labels, tracked_labels)
}

/// An event is tracked exactly where its action is one of the tracked
/// actions and its labels have one in common with the tracked labels.
pub proof fn trackable_by_sets(
    action: Seq<char>,
    labels: Seq<Seq<char>>,
    tracked_actions: Seq<Seq<char>>,
    tracked_labels: Seq<Seq<char>>,
)
    ensures
        is_trackable(action, labels, tracked_actions, tracked_labels) <==> (
        tracked_actions.to_set().contains(action) && !labels.to_set().disjoint(
            tracked_labels.to_set(),
        )),
{
    if has_tracked_label(labels, tracked_labels) {
        let i = choose|i: int|
            0 <= i < labels.len() && tracked_labels.contains(#[trigger] labels[i]);
        assert(tracked_labels.to_set().contains(labels[i]));
    }
}

/// An event without labels is not tracked, whatever its action.
pub proof fn no_labels_no_tracking(
    action: Seq<char>,
    tracked_actions: Seq<Seq<char>>,
    tracked_labels: Seq<Seq<char>>,
)
    ensures
        !is_trackable(action, Seq::empty(), tracked_actions, tracked_labels),
{
}

/// The subject of an event, which carries labels.
pub trait Trackable {
    /// The names of the labels that the subject carries.
    spec fn label_names(&self) -> Seq<Seq<char>>;

    /// The labels that the subject carries.
    fn labels(&self) -> (labels: &Vec<Label>)
        ensures
            labels.deep_view() == self.label_names(),
    ;

    /// Whether the subject carries a label that is among `tracked_labels`.
    fn has_tracking_label(&self, tracked_labels: &Vec<String>) -> (found: bool)
        ensures
            found == has_tracked_label(self.label_names(), tracked_labels.deep_view()),
    {
        let labels = self.labels();
        let mut i: usize = 0;
        while i < labels.len()
            invariant
                i <= labels@.len(),
                labels.deep_view() == self.label_names(),
                forall|k: int|
                    0 <= k < i ==> !tracked_labels.deep_view().contains(
                        #[trigger] self.label_names()[k],
                    ),
            decreases labels@.len() - i,
        {
            assert(self.label_names()[i as int] == labels@[i as int].name@);
            if contains_text(tracked_labels, labels[i].name.as_str()) {
                return true;
            }
            i += 1;
        }
        false
    }
}

impl Trackable for Issue {
    open spec fn label_names(&self) -> Seq<Seq<char>> {
        self@
    }

    fn labels(&self) -> &Vec<Label> {
        &self.labels
    }
}

impl Trackable for PullRequest {
    open spec fn label_names(&self) -> Seq<Seq<char>> {
        self@
    }

    fn labels(&self) -> &Vec<Label> {
        &self.labels
    }
}

/// An event about an issue.
#[derive(Debug)]
pub struct IssuesPayload {
    pub action: String,
    pub issue: Issue,
    pub repository: Repository,
}

/// An event about a pull request.
#[derive(Debug)]
pub struct PullRequestPayload {
    pub action: String,
    pub pull_request: PullRequest,
    pub repository: Repository,
}

/// An event that a webhook delivers.
#[derive(Debug)]
pub enum WebhookPayload {
    Issues(IssuesPayload),
    PullRequest(PullRequestPayload),
}

/// An event as a mathematical value: what was done, the names of the labels
/// of its subject, and the full name of its repository.
pub struct EventView {
    pub action: Seq<char>,
    pub labels: Seq<Seq<char>>,
    pub repository: Seq<char>,
}

/// A delivered event as a mathematical value.
pub enum WebhookPayloadView {
    Issues(EventView),
    PullRequest(EventView),
}

impl WebhookPayloadView {
    /// The event, whatever its subject.
    pub open spec fn event(self) -> EventView {
        match self {
            WebhookPayloadView::Issues(event) => event,
            WebhookPayloadView::PullRequest(event) => event,
        }
    }
}

impl View for IssuesPayload {
    type V = EventView;

    open spec fn view(&self) -> EventView {
        EventView {
            action: self.action@,
            labels: self.issue@,
            repository: self.repository@,
        }
    }
}

impl DeepView for IssuesPayload {
    type V = EventView;

    open spec fn deep_view(&self) -> EventView {
        self@
    }
}

impl View for PullRequestPayload {
    type V = EventView;

    open spec fn view(&self) -> EventView {
        EventView {
            action: self.action@,
            labels: self.pull_request@,
            repository: self.repository@,
        }
    }
}

impl DeepView for PullRequestPayload {
    type V = EventView;

    open spec fn deep_view(&self) -> EventView {
        self@
    }
}

impl View for WebhookPayload {
    type V = WebhookPayloadView;

    open spec fn view(&self) -> WebhookPayloadView {
        match self {
            WebhookPayload::Issues(payload) => WebhookPayloadView::Issues(payload@),
            WebhookPayload::PullRequest(payload) => WebhookPayloadView::PullRequest(payload@),
        }
    }
}

impl DeepView for WebhookPayload {
    type V = WebhookPayloadView;

    open spec fn deep_view(&self) -> WebhookPayloadView {
        self@
    }
}

/// The label that a document describes: an object with a string `name`.
pub open spec fn label_of(doc: JsonDoc) -> Option<Seq<char>> {
    doc.member_text("name"@)
}

/// The labels that a sequence of documents describes, where each of them
/// describes one.
pub open spec fn labels_of(docs: Seq<JsonDoc>) -> Option<Seq<Seq<char>>> {
    if forall|i: int| 0 <= i < docs.len() ==> label_of(#[trigger] docs[i]) is Some {
        Some(Seq::new(docs.len(), |i: int| label_of(docs[i]).unwrap()))
    } else {
        None
    }
}

/// The labels of the subject that a document describes: an object whose
/// `labels` member is an array of labels.
pub open spec fn subject_of(doc: JsonDoc) -> Option<Seq<Seq<char>>> {
    match doc.member_items("labels"@) {
        Some(docs) => labels_of(docs),
        None => None,
    }
}

/// The full name of the repository that a document describes: an object with
/// a string `full_name`.
pub open spec fn repository_of(doc: JsonDoc) -> Option<Seq<char>> {
    doc.member_text("full_name"@)
}

/// The event that a document describes, its subject held under
/// `subject_key`: an object with a string `action`, a subject and a
/// repository.
pub open spec fn event_of(doc: JsonDoc, subject_key: Seq<char>) -> Option<EventView> {
    match (doc.member_text("action"@), doc.member(subject_key), doc.member("repository"@)) {
        (Some(action), Some(subject), Some(repository)) => match (
            subject_of(subject),
            repository_of(repository),
        ) {
            (Some(labels), Some(repository)) => Some(EventView { action, labels, repository }),
            _ => None,
        },
        _ => None,
    }
}

/// The delivered event that a document describes. The shapes are tried in a
/// fixed order, an event about an issue first, and the first that fits is
/// taken.
pub open spec fn payload_of(doc: JsonDoc) -> Option<WebhookPayloadView> {
    match event_of(doc, "issue"@) {
        Some(event) => Some(WebhookPayloadView::Issues(event)),
        None => match event_of(doc, "pull_request"@) {
            Some(event) => Some(WebhookPayloadView::PullRequest(event)),
            None => None,
        },
    }
}

/// The delivered event that a text carries: it has to be JSON, and the JSON
/// has to describe an event.
pub open spec fn decoded_payload(text: Seq<char>) -> Option<WebhookPayloadView> {
    match parsed_text(text) {
        Some(doc) => payload_of(doc),
        None => None,
    }
}

/// Where a document fits both shapes, it is read as an event about an issue.
pub proof fn issue_shape_comes_first(doc: JsonDoc)
    requires
        event_of(doc, "issue"@) is Some,
    ensures
        payload_of(doc) == Some(WebhookPayloadView::Issues(event_of(doc, "issue"@).unwrap())),
{
}

/// A document is read as an event exactly where it fits one of the two
/// shapes.
pub proof fn payload_needs_a_known_shape(doc: JsonDoc)
    ensures
        payload_of(doc) is Some <==> (event_of(doc, "issue"@) is Some || event_of(
            doc,
            "pull_request"@,
        ) is Some),
{
}

impl Label {
    /// Reads one label from a document.
    pub fn from_json(doc: &Json) -> (label: Option<Label>)
        ensures
            label.deep_view() == label_of(doc@),
    {
        match doc.member_text("name") {
            Some(name) => Some(Label { name: name.clone() }),
            None => None,
        }
    }
}

fn read_labels(docs: &Vec<Json>) -> (labels: Option<Vec<Label>>)
    ensures
        labels.deep_view() == labels_of(docs.deep_view()),
{
    let ghost models = docs.deep_view();
    let mut labels: Vec<Label> = Vec::new();
    let mut i: usize = 0;
    while i < docs.len()
        invariant
            i <= docs@.len(),
            models == docs.deep_view(),
            labels@.len() == i,
            forall|k: int| 0 <= k < i ==> label_of(#[trigger] models[k]) == Some(labels@[k]@),
        decreases docs@.len() - i,
    {
        match Label::from_json(&docs[i]) {
            Some(label) => {
                labels.push(label);
            },
            None => {
                assert(label_of(models[i as int]) is None);
                return None;
            },
        }
        i += 1;
    }
    Some(labels)
}

impl Issue {
    /// Reads an issue from a document.
    pub fn from_json(doc: &Json) -> (issue: Option<Issue>)
        ensures
            issue.deep_view() == subject_of(doc@),
    {
        match doc.member_items("labels") {
            Some(docs) => match read_labels(docs) {
                Some(labels) => Some(Issue { labels }),
                None => None,
            },
            None => None,
        }
    }
}

impl PullRequest {
    /// Reads a pull request from a document.
    pub fn from_json(doc: &Json) -> (pull_request: Option<PullRequest>)
        ensures
            pull_request.deep_view() == subject_of(doc@),
    {
        match doc.member_items("labels") {
            Some(docs) => match read_labels(docs) {
                Some(labels) => Some(PullRequest { labels }),
                None => None,
            },
            None => None,
        }
    }
}

impl Repository {
    /// Reads a repository from a document.
    pub fn from_json(doc: &Json) -> (repository: Option<Repository>)
        ensures
            repository.deep_view() == repository_of(doc@),
    {
        match doc.member_text("full_name") {
            Some(full_name) => Some(Repository { full_name: full_name.clone() }),
            None => None,
        }
    }
}

impl IssuesPayload {
    /// Reads an event about an issue from a document.
    pub fn from_json(doc: &Json) -> (payload: Option<IssuesPayload>)
        ensures
            payload.deep_view() == event_of(doc@, "issue"@),
    {
        match (doc.member_text("action"), doc.member("issue"), doc.member("repository")) {
            (Some(action), Some(subject), Some(origin)) => match (
                Issue::from_json(subject),
                Repository::from_json(origin),
            ) {
                (Some(issue), Some(repository)) => Some(
                    IssuesPayload { action: action.clone(), issue, repository },
                ),
                _ => None,
            },
            _ => None,
        }
    }
}

impl PullRequestPayload {
    /// Reads an event about a pull request from a document.
    pub fn from_json(doc: &Json) -> (payload: Option<PullRequestPayload>)
        ensures
            payload.deep_view() == event_of(doc@, "pull_request"@),
    {
        match (doc.member_text("action"), doc.member("pull_request"), doc.member("repository")) {
            (Some(action), Some(subject), Some(origin)) => match (
                PullRequest::from_json(subject),
                Repository::from_json(origin),
            ) {
                (Some(pull_request), Some(repository)) => Some(
                    PullRequestPayload { action: action.clone(), pull_request, repository },
                ),
                _ => None,
            },
            _ => None,
        }
    }
}

impl WebhookPayload {
    /// Reads a delivered event from a document: as an event about an issue
    /// where the document fits that, else as one about a pull request.
    pub fn from_json(doc: &Json) -> (payload: Option<WebhookPayload>)
        ensures
            payload.deep_view() == payload_of(doc@),
    {
        match IssuesPayload::from_json(doc) {
            Some(payload) => Some(WebhookPayload::Issues(payload)),
            None => match PullRequestPayload::from_json(doc) {
                Some(payload) => Some(WebhookPayload::PullRequest(payload)),
                None => None,
            },
        }
    }

    /// Reads a delivered event from the body of a request.
    pub fn decode(body: &str) -> (payload: Option<WebhookPayload>)
        ensures
            payload.deep_view() == decoded_payload(body@),
    {
        match Json::parse(body) {
            Some(doc) => WebhookPayload::from_json(&doc),
            None => None,
        }
    }
}

} // verus!
