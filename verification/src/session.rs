//! The mutable configuration of one connection.

use crate::control::{ControlMessage, ControlView};
use vstd::prelude::*;

verus! {

/// The languages of one connection. Only control messages received on that
/// connection change them.
#[derive(Debug, PartialEq, Eq)]
pub struct Session {
    source_language: String,
    target_language: String,
}

/// A session as mathematics.
pub struct SessionView {
    pub source: Seq<char>,
    pub target: Seq<char>,
}

/// The language that a session speaks and hears until it is told otherwise.
pub open spec fn default_language() -> Seq<char> {
    "en"@
}

impl SessionView {
    /// The session of a connection on which no control message has arrived.
    pub open spec fn fresh() -> SessionView {
        SessionView { source: default_language(), target: default_language() }
    }

    /// This session after a control message: each language that the message
    /// gives replaces the old one, without any check of the code; each that
    /// it leaves out stays.
    pub open spec fn configured(self, message: ControlView) -> SessionView {
        SessionView {
            source: match message.source {
                Some(code) => code,
                None => self.source,
            },
            target: match message.target {
                Some(code) => code,
                None => self.target,
            },
        }
    }
}

impl View for Session {
    type V = SessionView;

    closed spec fn view(&self) -> SessionView {
        SessionView { source: self.source_language@, target: self.target_language@ }
    }
}

impl Session {
    /// The session of a freshly accepted connection.
    pub fn new() -> (session: Session)
        ensures
            session@ == SessionView::fresh(),
    {
        Session { source_language: "en".to_owned(), target_language: "en".to_owned() }
    }

    /// The code of the language that the client speaks.
    pub fn source_language(&self) -> (code: &str)
        ensures
            code@ == self@.source,
    {
        self.source_language.as_str()
    }

    /// The code of the language that the client wants to hear.
    pub fn target_language(&self) -> (code: &str)
        ensures
            code@ == self@.target,
    {
        self.target_language.as_str()
    }

    /// Applies a control message.
    pub fn configure(&mut self, message: ControlMessage)
        ensures
            final(self)@ == old(self)@.configured(message@),
    {
        match message.source {
            Some(code) => {
                self.source_language = code;
            },
            None => {},
        }
        match message.target {
            Some(code) => {
                self.target_language = code;
            },
            None => {},
        }
    }
}

} // verus!
