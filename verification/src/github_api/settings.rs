//! The settings of a single-select field of the project board, which the
//! API hands out as a JSON text of their own.

use crate::json::{parsed_text, Json, JsonDoc};
use crate::text::same_text;
use vstd::prelude::*;

verus! {

/// One option of a single-select field.
#[derive(Debug)]
pub struct ProjectFieldOption {
    pub id: String,
    pub name: String,
}

/// An option as a pair of its id and its name.
pub struct FieldOptionView {
    pub id: Seq<char>,
    pub name: Seq<char>,
}

impl View for ProjectFieldOption {
    type V = FieldOptionView;

    open spec fn view(&self) -> FieldOptionView {
        FieldOptionView { id: self.id@, name: self.name@ }
    }
}

impl DeepView for ProjectFieldOption {
    type V = FieldOptionView;

    open spec fn deep_view(&self) -> FieldOptionView {
        self@
    }
}

/// The settings of a single-select field: its options, in order.
#[derive(Debug)]
pub struct ProjectFieldSettings {
    pub options: Vec<ProjectFieldOption>,
}

impl View for ProjectFieldSettings {
    type V = Seq<FieldOptionView>;

    open spec fn view(&self) -> Seq<FieldOptionView> {
        self.options.deep_view()
    }
}

impl DeepView for ProjectFieldSettings {
    type V = Seq<FieldOptionView>;

    open spec fn deep_view(&self) -> Seq<FieldOptionView> {
        self@
    }
}

/// The option that a document describes: an object with a string `id` and a
/// string `name`.
pub open spec fn option_of(doc: JsonDoc) -> Option<FieldOptionView> {
    match (doc.member_text("id"@), doc.member_text("name"@)) {
        (Some(id), Some(name)) => Some(FieldOptionView { id, name }),
        _ => None,
    }
}

/// The options that a sequence of documents describes, where each of them
/// describes one.
pub open spec fn options_of(docs: Seq<JsonDoc>) -> Option<Seq<FieldOptionView>> {
    if forall|i: int| 0 <= i < docs.len() ==> option_of(#[trigger] docs[i]) is Some {
        Some(Seq::new(docs.len(), |i: int| option_of(docs[i]).unwrap()))
    } else {
        None
    }
}

/// The field settings that a document describes: an object whose `options`
/// member is an array of options.
pub open spec fn settings_of(doc: JsonDoc) -> Option<Seq<FieldOptionView>> {
    match doc.member_items("options"@) {
        Some(docs) => options_of(docs),
        None => None,
    }
}

/// The field settings that a text carries: it has to be JSON, and the JSON has
/// to describe field settings.
pub open spec fn decoded_settings(text: Seq<char>) -> Option<Seq<FieldOptionView>> {
    match parsed_text(text) {
        Some(doc) => settings_of(doc),
        None => None,
    }
}

/// The name of the first option whose id is `id`.
pub open spec fn option_name(options: Seq<FieldOptionView>, id: Seq<char>) -> Option<Seq<char>>
    decreases options.len(),
{
    if options.len() == 0 {
        None
    } else if options[0].id == id {
        Some(options[0].name)
    } else {
        option_name(options.drop_first(), id)
    }
}

impl ProjectFieldOption {
    /// Reads one option from a document.
    pub fn from_json(doc: &Json) -> (option: Option<ProjectFieldOption>)
        ensures
            option.deep_view() == option_of(doc@),
    {
        match (doc.member_text("id"), doc.member_text("name")) {
            (Some(id), Some(name)) => Some(
                ProjectFieldOption { id: id.clone(), name: name.clone() },
            ),
            _ => None,
        }
    }
}

impl ProjectFieldSettings {
    /// Reads field settings from a document. One option that cannot be read
    /// makes the whole of it unreadable.
    pub fn from_json(doc: &Json) -> (settings: Option<ProjectFieldSettings>)
        ensures
            settings.deep_view() == settings_of(doc@),
    {
        let docs = match doc.member_items("options") {
            Some(docs) => docs,
            None => {
                return None;
            },
        };
        let ghost models = docs.deep_view();
        let mut options: Vec<ProjectFieldOption> = Vec::new();
        let mut i: usize = 0;
        while i < docs.len()
            invariant
                i <= docs@.len(),
                models == docs.deep_view(),
                doc@.member_items("options"@) == Some(models),
                options@.len() == i,
                forall|k: int| 0 <= k < i ==> option_of(#[trigger] models[k]) == Some(options@[k]@),
            decreases docs@.len() - i,
        {
            match ProjectFieldOption::from_json(&docs[i]) {
                Some(option) => {
                    options.push(option);
                },
                None => {
                    assert(option_of(models[i as int]) is None);
                    return None;
                },
            }
            i += 1;
        }
        Some(ProjectFieldSettings { options })
    }

    /// Reads field settings from the text that a field carries them in.
    pub fn decode(text: &str) -> (settings: Option<ProjectFieldSettings>)
        ensures
            settings.deep_view() == decoded_settings(text@),
    {
        match Json::parse(text) {
            Some(doc) => ProjectFieldSettings::from_json(&doc),
            None => None,
        }
    }

    /// The name of the first option whose id is `id`.
    pub fn option_name(&self, id: &str) -> (name: Option<&String>)
        ensures
            name.deep_view() == option_name(self@, id@),
    {
        let mut i: usize = 0;
        assert(self@.skip(0) == self@);
        while i < self.options.len()
            invariant
                i <= self.options@.len(),
                option_name(self@, id@) == option_name(self@.skip(i as int), id@),
            decreases self.options@.len() - i,
        {
            assert(self@.skip(i as int).drop_first() == self@.skip(i as int + 1));
            if same_text(self.options[i].id.as_str(), id) {
                return Some(&self.options[i].name);
            }
            i += 1;
        }
        None
    }
}

/// The option that is named for an id is the first with that id: it is one
/// of the options, it has the id, and none before it has.
pub proof fn named_option_is_the_first_of_its_id(options: Seq<FieldOptionView>, id: Seq<char>)
    ensures
        match option_name(options, id) {
            Some(name) => exists|i: int|
                {
                    &&& 0 <= i < options.len()
                    &&& (#[trigger] options[i]).id == id
                    &&& options[i].name == name
                    &&& forall|k: int| 0 <= k < i ==> (#[trigger] options[k]).id != id
                },
            None => forall|i: int| 0 <= i < options.len() ==> (#[trigger] options[i]).id != id,
        },
    decreases options.len(),
{
    if options.len() > 0 {
        let rest = options.drop_first();
        named_option_is_the_first_of_its_id(rest, id);
        if options[0].id != id {
            match option_name(rest, id) {
                Some(name) => {
                    let j = choose|j: int|
                        {
                            &&& 0 <= j < rest.len()
                            &&& (#[trigger] rest[j]).id == id
                            &&& rest[j].name == name
                            &&& forall|k: int| 0 <= k < j ==> (#[trigger] rest[k]).id != id
                        };
                    assert forall|k: int| 0 <= k < j + 1 implies (#[trigger] options[k]).id
                        != id by {
                        if k > 0 {
                            assert(rest[k - 1] == options[k]);
                        }
                    }
                },
                None => {
                    assert forall|i: int| 0 <= i < options.len() implies (#[trigger] options[i]).id
                        != id by {
                        if i > 0 {
                            assert(rest[i - 1] == options[i]);
                        }
                    }
                },
            }
        }
    }
}

} // verus!
