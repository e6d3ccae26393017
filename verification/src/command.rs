//! What a text frame asks for.

use crate::control::{control_of, ControlMessage, ControlView};
use crate::json::{json_document, optional_json, parse, Json, JsonView};
use crate::text::{after, begins_with};
use vstd::prelude::*;

verus! {

/// What a text frame asks for.
#[derive(Debug, PartialEq, Eq)]
pub enum TextCommand {
    /// Change the languages of the session.
    Configure(ControlMessage),
    /// Speak the prompt.
    Speak(String),
    /// Send the text back.
    Echo,
}

/// A text command as mathematics.
pub enum TextCommandView {
    Configure(ControlView),
    Speak(Seq<char>),
    Echo,
}

impl View for TextCommand {
    type V = TextCommandView;

    open spec fn view(&self) -> TextCommandView {
        match self {
            TextCommand::Configure(message) => TextCommandView::Configure(message@),
            TextCommand::Speak(prompt) => TextCommandView::Speak(prompt@),
            TextCommand::Echo => TextCommandView::Echo,
        }
    }
}

/// The literal that a speak command begins with.
pub open spec fn speak_prefix() -> Seq<char> {
    "/speak "@
}

/// The control message in a parsed frame, if the frame parsed and is one.
pub open spec fn control_in(document: Option<JsonView>) -> Option<ControlView> {
    match document {
        Some(d) => control_of(d),
        None => None,
    }
}

/// What the text of a frame asks for, given what parsing it as JSON gave.
/// A control message comes first; a frame that is none, for whatever reason,
/// is a speak command if it begins with the prefix, the prompt being all that
/// follows the prefix; everything else is echoed.
pub open spec fn text_command(text: Seq<char>, document: Option<JsonView>) -> TextCommandView {
    match control_in(document) {
        Some(message) => TextCommandView::Configure(message),
        None => if speak_prefix().is_prefix_of(text) {
            TextCommandView::Speak(text.skip(speak_prefix().len() as int))
        } else {
            TextCommandView::Echo
        },
    }
}

/// Decides what a text frame asks for, from its text and from the outcome of
/// parsing that text as JSON.
pub fn classify_text(text: &str, document: &Option<Json>) -> (command: TextCommand)
    ensures
        command@ == text_command(text@, optional_json(*document)),
{
    let control = match document {
        Some(d) => ControlMessage::from_json(d),
        None => None,
    };
    match control {
        Some(message) => TextCommand::Configure(message),
        None => {
            if begins_with(text, "/speak ") {
                proof {
                    reveal_strlit("/speak ");
                }
                TextCommand::Speak(after(text, 7).to_owned())
            } else {
                TextCommand::Echo
            }
        },
    }
}

/// Decides what a text frame asks for.
pub fn read_text(text: &str) -> (command: TextCommand)
    ensures
        command@ == text_command(text@, json_document(text@)),
{
    let document = parse(text);
    classify_text(text, &document)
}

} // verus!
