//! Resolving the nodes of the board's item list: each node that stands for
//! an issue or a pull request and has a status becomes a project item, and
//! each other node is dropped.

use crate::github_api::settings::{decoded_settings, option_name, ProjectFieldSettings};
use crate::github_api::{ProjectItem, ProjectItemType, ProjectItemView, URI};
use crate::json::{Json, JsonDoc};
use crate::text::same_text;
use vstd::prelude::*;

verus! {

/// What an item of the board stands for.
pub struct ContentView {
    pub kind: ProjectItemType,
    pub number: i64,
    pub title: Seq<char>,
    pub url: Seq<char>,
}

struct ItemContent {
    kind: ProjectItemType,
    number: i64,
    title: String,
    url: URI,
}

impl View for ItemContent {
    type V = ContentView;

    closed spec fn view(&self) -> ContentView {
        ContentView { kind: self.kind, number: self.number, title: self.title@, url: self.url@ }
    }
}

impl DeepView for ItemContent {
    type V = ContentView;

    closed spec fn deep_view(&self) -> ContentView {
        self@
    }
}

/// The kind of item that a type name of the board's schema stands for.
pub open spec fn kind_of(tag: Seq<char>) -> Option<ProjectItemType> {
    if tag == "Issue"@ {
        Some(ProjectItemType::Issue)
    } else if tag == "PullRequest"@ {
        Some(ProjectItemType::PullRequest)
    } else {
        None
    }
}

/// The content that a document describes: an object tagged as an issue or a
/// pull request, with an integer `number`, a string `title` and a string `url`.
pub open spec fn content_of(content: JsonDoc) -> Option<ContentView> {
    match (
        content.member_text("__typename"@),
        content.member_integer("number"@),
        content.member_text("title"@),
        content.member_text("url"@),
    ) {
        (Some(tag), Some(number), Some(title), Some(url)) => match kind_of(tag) {
            Some(kind) => Some(ContentView { kind, number, title, url }),
            None => None,
        },
        _ => None,
    }
}

/// The name of the field that a field-value entry belongs to.
pub open spec fn field_of_entry(entry: JsonDoc) -> Option<Seq<char>> {
    match entry.member("projectField"@) {
        Some(field) => field.member_text("name"@),
        None => None,
    }
}

/// The settings of the field that a field-value entry belongs to, as the text
/// that carries them.
pub open spec fn settings_of_entry(entry: JsonDoc) -> Option<Seq<char>> {
    match entry.member("projectField"@) {
        Some(field) => field.member_text("settings"@),
        None => None,
    }
}

/// The name of the option that a field-value entry selects: the entry's
/// `value` is the id of an option, and the settings of its field, a JSON text
/// of their own, list the options.
pub open spec fn status_of_entry(entry: JsonDoc) -> Option<Seq<char>> {
    match (settings_of_entry(entry), entry.member_text("value"@)) {
        (Some(settings), Some(value)) => match decoded_settings(settings) {
            Some(options) => option_name(options, value),
            None => None,
        },
        _ => None,
    }
}

/// The first of a list of field-value entries that belongs to the field
/// `field_name`.
pub open spec fn deciding_entry(entries: Seq<JsonDoc>, field_name: Seq<char>) -> Option<JsonDoc>
    decreases entries.len(),
{
    if entries.len() == 0 {
        None
    } else if field_of_entry(entries[0]) == Some(field_name) {
        Some(entries[0])
    } else {
        deciding_entry(entries.drop_first(), field_name)
    }
}

/// The status that a list of field-value entries gives: that of the first
/// entry that belongs to the field `field_name`.
pub open spec fn status_of(entries: Seq<JsonDoc>, field_name: Seq<char>) -> Option<Seq<char>> {
    match deciding_entry(entries, field_name) {
        Some(entry) => status_of_entry(entry),
        None => None,
    }
}

/// The field-value entries of a node of the board's item list.
pub open spec fn entries_of(node: JsonDoc) -> Option<Seq<JsonDoc>> {
    match node.member("fieldValues"@) {
        Some(values) => values.member_items("nodes"@),
        None => None,
    }
}

/// The content of a node of the board's item list.
pub open spec fn content_of_node(node: JsonDoc) -> Option<ContentView> {
    match node.member("content"@) {
        Some(content) => content_of(content),
        None => None,
    }
}

/// The project item that a node of the board's item list resolves to: its
/// content with the status that its field-value entries give.
pub open spec fn item_of(node: JsonDoc, field_name: Seq<char>) -> Option<ProjectItemView> {
    match (content_of_node(node), entries_of(node)) {
        (Some(subject), Some(entries)) => match status_of(entries, field_name) {
            Some(status) => Some(
                ProjectItemView {
                    kind: subject.kind,
                    number: subject.number,
                    title: subject.title,
                    url: subject.url,
                    status,
                },
            ),
            None => None,
        },
        _ => None,
    }
}

/// What resolves a node for the field `field_name`.
pub open spec fn resolver(field_name: Seq<char>) -> spec_fn(JsonDoc) -> Option<ProjectItemView> {
    |node: JsonDoc| item_of(node, field_name)
}

/// The project items that the nodes of an item list resolve to, in the order
/// of the nodes; a node that resolves to none is left out.
pub open spec fn items_of(nodes: Seq<JsonDoc>, field_name: Seq<char>) -> Seq<ProjectItemView> {
    nodes.filter_map(resolver(field_name))
}

fn read_kind(tag: &str) -> (kind: Option<ProjectItemType>)
    ensures
        kind == kind_of(tag@),
{
    if same_text(tag, "Issue") {
        Some(ProjectItemType::Issue)
    } else if same_text(tag, "PullRequest") {
        Some(ProjectItemType::PullRequest)
    } else {
        None
    }
}

fn read_content(content: &Json) -> (subject: Option<ItemContent>)
    ensures
        subject.deep_view() == content_of(content@),
{
    match (
        content.member_text("__typename"),
        content.member_integer("number"),
        content.member_text("title"),
        content.member_text("url"),
    ) {
        (Some(tag), Some(number), Some(title), Some(url)) => match read_kind(
            tag.as_str(),
        ) {
            Some(kind) => Some(
                ItemContent { kind, number, title: title.clone(), url: URI(url.clone()) },
            ),
            None => None,
        },
        _ => None,
    }
}

fn read_entry_status(entry: &Json) -> (status: Option<String>)
    ensures
        status.deep_view() == status_of_entry(entry@),
{
    let settings = match entry.member("projectField") {
        Some(field) => field.member_text("settings"),
        None => None,
    };
    match (settings, entry.member_text("value")) {
        (Some(text), Some(value)) => match ProjectFieldSettings::decode(text.as_str()) {
            Some(settings) => match settings.option_name(value.as_str()) {
                Some(name) => Some(name.clone()),
                None => None,
            },
            None => None,
        },
        _ => None,
    }
}

fn entry_belongs_to(entry: &Json, field_name: &str) -> (belongs: bool)
    ensures
        belongs == (field_of_entry(entry@) == Some(field_name@)),
{
    match entry.member("projectField") {
        Some(field) => match field.member_text("name") {
            Some(name) => same_text(name.as_str(), field_name),
            None => false,
        },
        None => false,
    }
}

/// Resolves the status that a list of field-value entries gives for the field
/// `field_name`.
pub fn resolve_status(entries: &Vec<Json>, field_name: &str) -> (status: Option<String>)
    ensures
        status.deep_view() == status_of(entries.deep_view(), field_name@),
{
    let ghost models = entries.deep_view();
    let mut i: usize = 0;
    assert(models.skip(0) == models);
    while i < entries.len()
        invariant
            i <= entries@.len(),
            models == entries.deep_view(),
            deciding_entry(models, field_name@) == deciding_entry(
                models.skip(i as int),
                field_name@,
            ),
        decreases entries@.len() - i,
    {
        assert(models.skip(i as int).drop_first() == models.skip(i as int + 1));
        if entry_belongs_to(&entries[i], field_name) {
            return read_entry_status(&entries[i]);
        }
        i += 1;
    }
    None
}

impl ProjectItem {
    /// Resolves one node of the board's item list.
    pub fn from_json(node: &Json, field_name: &str) -> (item: Option<ProjectItem>)
        ensures
            item.deep_view() == item_of(node@, field_name@),
    {
        let subject = match node.member("content") {
            Some(content) => read_content(content),
            None => None,
        };
        let entries = match node.member("fieldValues") {
            Some(values) => values.member_items("nodes"),
            None => None,
        };
        match (subject, entries) {
            (Some(subject), Some(entries)) => match resolve_status(entries, field_name) {
                Some(status) => {
                    let URI(url) = subject.url;
                    Some(
                        ProjectItem {
                            _type: subject.kind,
                            number: subject.number,
                            title: subject.title,
                            url,
                            status,
                        },
                    )
                },
                None => None,
            },
            _ => None,
        }
    }
}

/// Resolves the nodes of the board's item list. A node that cannot be
/// resolved is left out; the others keep their order.
pub fn resolve_items(nodes: &Vec<Json>, field_name: &str) -> (items: Vec<ProjectItem>)
    ensures
        items.deep_view() == items_of(nodes.deep_view(), field_name@),
{
    let ghost models = nodes.deep_view();
    let mut items: Vec<ProjectItem> = Vec::new();
    let mut i: usize = 0;
    while i < nodes.len()
        invariant
            i <= nodes@.len(),
            models == nodes.deep_view(),
            items.deep_view() == items_of(models.take(i as int), field_name@),
        decreases nodes@.len() - i,
    {
        proof {
            models.lemma_filter_map_take_succ(resolver(field_name@), i as int);
        }
        if let Some(item) = ProjectItem::from_json(&nodes[i], field_name) {
            items.push(item);
        }
        i += 1;
    }
    assert(models.take(nodes@.len() as int) == models);
    items
}

/// Whether a node resolves for the field `field_name`.
pub open spec fn resolves(field_name: Seq<char>) -> spec_fn(JsonDoc) -> bool {
    |node: JsonDoc| item_of(node, field_name) is Some
}

/// The item that a node resolves to for the field `field_name`.
pub open spec fn resolved(field_name: Seq<char>) -> spec_fn(JsonDoc) -> ProjectItemView {
    |node: JsonDoc| item_of(node, field_name).unwrap()
}

/// Whether the field-value entries of a node give a status for the field
/// `field_name`.
pub open spec fn has_status(field_name: Seq<char>) -> spec_fn(JsonDoc) -> bool {
    |node: JsonDoc|
        match entries_of(node) {
            Some(entries) => status_of(entries, field_name) is Some,
            None => false,
        }
}

/// Of the nodes of an item list, those that resolve give the items, one
/// each and in their order: there are as many items as nodes that resolve,
/// and so no more than nodes.
pub proof fn items_are_those_of_the_nodes_that_resolve(
    nodes: Seq<JsonDoc>,
    field_name: Seq<char>,
)
    ensures
        items_of(nodes, field_name) == nodes.filter(resolves(field_name)).map_values(
            resolved(field_name),
        ),
        items_of(nodes, field_name).len() == nodes.filter(resolves(field_name)).len(),
        items_of(nodes, field_name).len() <= nodes.len(),
    decreases nodes.len(),
{
    reveal(Seq::filter);
    if nodes.len() > 0 {
        items_are_those_of_the_nodes_that_resolve(nodes.drop_last(), field_name);
    }
}

/// Where every node stands for an issue or a pull request, there are as many
/// items as nodes whose entries give a status.
pub proof fn one_item_for_each_node_with_a_status(nodes: Seq<JsonDoc>, field_name: Seq<char>)
    requires
        forall|i: int| 0 <= i < nodes.len() ==> content_of_node(#[trigger] nodes[i]) is Some,
    ensures
        items_of(nodes, field_name).len() == nodes.filter(has_status(field_name)).len(),
    decreases nodes.len(),
{
    reveal(Seq::filter);
    if nodes.len() > 0 {
        one_item_for_each_node_with_a_status(nodes.drop_last(), field_name);
    }
}

/// Each node is resolved by itself: what two lists of nodes resolve to, one
/// after the other, is what the first resolves to and then what the second
/// does.
pub proof fn nodes_resolve_one_by_one(
    first: Seq<JsonDoc>,
    second: Seq<JsonDoc>,
    field_name: Seq<char>,
)
    ensures
        items_of(first + second, field_name) == items_of(first, field_name) + items_of(
            second,
            field_name,
        ),
    decreases second.len(),
{
    if second.len() > 0 {
        nodes_resolve_one_by_one(first, second.drop_last(), field_name);
        assert((first + second).drop_last() == first + second.drop_last());
    }
}

/// A node that resolves to no item leaves no trace: the nodes before it and
/// after it resolve as if it were not among them.
pub proof fn dropped_node_leaves_no_trace(
    before: Seq<JsonDoc>,
    node: JsonDoc,
    after: Seq<JsonDoc>,
    field_name: Seq<char>,
)
    requires
        item_of(node, field_name) is None,
    ensures
        items_of(before + seq![node] + after, field_name) == items_of(before + after, field_name),
{
    nodes_resolve_one_by_one(before + seq![node], after, field_name);
    nodes_resolve_one_by_one(before, seq![node], field_name);
    nodes_resolve_one_by_one(before, after, field_name);
    Seq::lemma_filter_map_singleton(node, resolver(field_name));
}

/// A resolved item has the number, the title and the address of its node's
/// content as they stand there, the kind that the content is tagged with,
/// and the status that the node's field-value entries give.
pub proof fn resolved_item_keeps_its_content(node: JsonDoc, field_name: Seq<char>)
    requires
        item_of(node, field_name) is Some,
    ensures
        ({
            let item = item_of(node, field_name).unwrap();
            &&& node.member("content"@) matches Some(content) && {
                &&& content.member_integer("number"@) == Some(item.number)
                &&& content.member_text("title"@) == Some(item.title)
                &&& content.member_text("url"@) == Some(item.url)
                &&& content.member_text("__typename"@) matches Some(tag) && kind_of(tag) == Some(
                    item.kind,
                )
            }
            &&& entries_of(node) matches Some(entries) && status_of(entries, field_name) == Some(
                item.status,
            )
        }),
{
}

/// The status of a resolved item is the name of the option that the
/// deciding entry of its node selects, among the options that the settings of
/// the entry's field list.
pub proof fn status_is_the_name_of_the_selected_option(node: JsonDoc, field_name: Seq<char>)
    requires
        item_of(node, field_name) is Some,
    ensures
        ({
            let item = item_of(node, field_name).unwrap();
            &&& entries_of(node) matches Some(entries)
            &&& deciding_entry(entries, field_name) matches Some(entry)
            &&& field_of_entry(entry) == Some(field_name)
            &&& settings_of_entry(entry) matches Some(settings)
            &&& decoded_settings(settings) matches Some(options)
            &&& entry.member_text("value"@) matches Some(value)
            &&& option_name(options, value) == Some(item.status)
        }),
{
    deciding_entry_is_the_first_of_the_field(entries_of(node).unwrap(), field_name);
}

/// A node is dropped where the settings of its deciding entry cannot be
/// read: where the entry carries none, where their text is not JSON, or where
/// the JSON does not describe field settings.
pub proof fn unreadable_settings_drop_the_node(
    node: JsonDoc,
    field_name: Seq<char>,
    entry: JsonDoc,
)
    requires
        entries_of(node) matches Some(entries) && deciding_entry(entries, field_name) == Some(
            entry,
        ),
        settings_of_entry(entry) matches Some(settings) ==> decoded_settings(settings) is None,
    ensures
        item_of(node, field_name) is None,
{
}

/// A node is dropped where the option that its deciding entry selects is not
/// among the options of the entry's field, or where the entry selects none.
pub proof fn unknown_option_drops_the_node(node: JsonDoc, field_name: Seq<char>, entry: JsonDoc)
    requires
        entries_of(node) matches Some(entries) && deciding_entry(entries, field_name) == Some(
            entry,
        ),
        (settings_of_entry(entry), entry.member_text("value"@)) matches (
            Some(settings),
            Some(value),
        ) ==> (decoded_settings(settings) matches Some(options) ==> option_name(options, value)
            is None),
    ensures
        item_of(node, field_name) is None,
{
}

/// A node is dropped where it has no content, or content that stands
/// neither for an issue nor for a pull request.
pub proof fn unknown_content_drops_the_node(node: JsonDoc, field_name: Seq<char>)
    requires
        match node.member("content"@) {
            Some(content) => match content.member_text("__typename"@) {
                Some(tag) => tag != "Issue"@ && tag != "PullRequest"@,
                None => true,
            },
            None => true,
        },
    ensures
        item_of(node, field_name) is None,
{
}

/// A node is dropped where none of its entries belongs to the field.
pub proof fn missing_field_drops_the_node(node: JsonDoc, field_name: Seq<char>)
    requires
        entries_of(node) matches Some(entries) ==> forall|i: int|
            0 <= i < entries.len() ==> field_of_entry(#[trigger] entries[i]) != Some(field_name),
    ensures
        item_of(node, field_name) is None,
{
    if entries_of(node) is Some {
        no_entry_of_the_field_decides(entries_of(node).unwrap(), field_name);
    }
}

/// Where no entry belongs to the field, none decides.
pub proof fn no_entry_of_the_field_decides(entries: Seq<JsonDoc>, field_name: Seq<char>)
    requires
        forall|i: int|
            0 <= i < entries.len() ==> field_of_entry(#[trigger] entries[i]) != Some(field_name),
    ensures
        deciding_entry(entries, field_name) is None,
    decreases entries.len(),
{
    if entries.len() > 0 {
        no_entry_of_the_field_decides(entries.drop_first(), field_name);
    }
}

/// The entry that decides is the first that belongs to the field: it is one
/// of the entries, it belongs to the field, and none before it does.
pub proof fn deciding_entry_is_the_first_of_the_field(
    entries: Seq<JsonDoc>,
    field_name: Seq<char>,
)
    requires
        deciding_entry(entries, field_name) is Some,
    ensures
        exists|i: int|
            {
                &&& 0 <= i < entries.len()
                &&& deciding_entry(entries, field_name) == Some(#[trigger] entries[i])
                &&& field_of_entry(entries[i]) == Some(field_name)
                &&& forall|k: int|
                    0 <= k < i ==> field_of_entry(#[trigger] entries[k]) != Some(field_name)
            },
    decreases entries.len(),
{
    if field_of_entry(entries[0]) != Some(field_name) {
        let rest = entries.drop_first();
        deciding_entry_is_the_first_of_the_field(rest, field_name);
        let j = choose|j: int|
            {
                &&& 0 <= j < rest.len()
                &&& deciding_entry(rest, field_name) == Some(#[trigger] rest[j])
                &&& field_of_entry(rest[j]) == Some(field_name)
                &&& forall|k: int|
                    0 <= k < j ==> field_of_entry(#[trigger] rest[k]) != Some(field_name)
            };
        assert forall|k: int| 0 <= k < j + 1 implies field_of_entry(#[trigger] entries[k])
            != Some(field_name) by {
            if k > 0 {
                assert(rest[k - 1] == entries[k]);
            }
        }
    }
}

} // verus!
