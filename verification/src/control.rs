//! Control messages: structured text frames that reconfigure a session.

use crate::json::{Json, JsonView};
use crate::text::{optional_text, same_text};
use vstd::prelude::*;

verus! {

/// A request to change the languages of a session. A field that is `None`
/// leaves the corresponding language as it is.
#[derive(Debug, PartialEq, Eq)]
pub struct ControlMessage {
    pub source: Option<String>,
    pub target: Option<String>,
}

/// A control message as mathematics.
pub struct ControlView {
    pub source: Option<Seq<char>>,
    pub target: Option<Seq<char>>,
}

impl View for ControlMessage {
    type V = ControlView;

    open spec fn view(&self) -> ControlView {
        ControlView { source: optional_text(self.source), target: optional_text(self.target) }
    }
}

/// The name of the member that tells what kind of message an object is.
pub open spec fn kind_member() -> Seq<char> {
    "type"@
}

/// The kind that marks a control message.
pub open spec fn config_kind() -> Seq<char> {
    "config"@
}

/// The name of the member that gives the source language.
pub open spec fn source_member() -> Seq<char> {
    "source"@
}

/// The name of the member that gives the target language.
pub open spec fn target_member() -> Seq<char> {
    "target"@
}

/// How an optional string member reads: a missing member and `null` both
/// stand for "not given", a string for itself, and anything else makes the
/// whole document unfit (`None`).
pub open spec fn optional_member(document: JsonView, name: Seq<char>) -> Option<Option<Seq<char>>> {
    match document.member(name) {
        None => Some(None),
        Some(JsonView::Null) => Some(None),
        Some(JsonView::Text(s)) => Some(Some(s)),
        Some(_) => None,
    }
}

/// The control message that a document is, if it is one: an object whose
/// member `type` is the string `config` and whose members `source` and
/// `target`, where present and not `null`, are strings.
pub open spec fn control_of(document: JsonView) -> Option<ControlView> {
    match (
        document.member(kind_member()),
        optional_member(document, source_member()),
        optional_member(document, target_member()),
    ) {
        (Some(JsonView::Text(kind)), Some(source), Some(target)) => if kind == config_kind() {
            Some(ControlView { source, target })
        } else {
            None
        },
        _ => None,
    }
}

/// Reads one optional string member. The outer `None` says that the member
/// is there but is neither a string nor `null`.
fn read_optional_member(document: &Json, name: &str) -> (field: Option<Option<String>>)
    ensures
        match field {
            Some(value) => optional_member(document@, name@) == Some(optional_text(value)),
            None => optional_member(document@, name@) is None,
        },
{
    match document.member(name) {
        None => Some(None),
        Some(Json::Null) => Some(None),
        Some(Json::Text(s)) => Some(Some(s.clone())),
        Some(_) => None,
    }
}

impl ControlMessage {
    /// Reads a control message out of a JSON document. `None` means that the
    /// document is not a control message; it is then handled as ordinary text.
    pub fn from_json(document: &Json) -> (message: Option<ControlMessage>)
        ensures
            match message {
                Some(m) => control_of(document@) == Some(m@),
                None => control_of(document@) is None,
            },
    {
        let kind_is_config = match document.member("type") {
            Some(Json::Text(kind)) => same_text(kind.as_str(), "config"),
            _ => false,
        };
        let source = read_optional_member(document, "source");
        let target = read_optional_member(document, "target");
        match (kind_is_config, source, target) {
            (true, Some(source), Some(target)) => Some(ControlMessage { source, target }),
            _ => None,
        }
    }
}

} // verus!
