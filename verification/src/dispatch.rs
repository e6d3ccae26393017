//! The dispatcher of one connection: a state machine that is told what
//! happened and answers with what to do next.
//!
//! The connection loop owns the socket and the backend. It starts by
//! receiving, hands every outcome to `Dispatcher::step`, and performs the
//! action that comes back. Frames of one connection are handled strictly one
//! after the other: a new frame is asked for only when the last one is done.

use crate::backend::{audio_outcome, text_outcome, Failure};
use crate::command::{read_text, text_command, TextCommand, TextCommandView};
use crate::frame::{FrameView, InboundFrame, OutboundFrame};
use crate::json::{json_document, JsonView};
use crate::session::{Session, SessionView};
use vstd::prelude::*;
use vstd::string::StringExecFns;

verus! {

/// What the connection loop reports to the dispatcher.
#[derive(Debug, PartialEq, Eq)]
pub enum Event {
    /// A frame arrived.
    Frame(InboundFrame),
    /// The client is gone, or receiving failed.
    Disconnected,
    /// The backend answered a transcription.
    Transcribed(Result<String, Failure>),
    /// The backend answered a synthesis.
    Synthesized(Result<Vec<u8>, Failure>),
    /// The frame handed out last was sent.
    Sent,
    /// The frame handed out last could not be sent.
    SendFailed,
}

/// What the dispatcher asks the connection loop to do.
#[derive(Debug, PartialEq, Eq)]
pub enum Action {
    /// Wait for the next frame.
    Receive,
    /// Have `audio` transcribed from `language`.
    Transcribe { audio: Vec<u8>, language: String },
    /// Have `text` spoken.
    Synthesize { text: String },
    /// Send the frame to the client.
    Send(OutboundFrame),
    /// End the session.
    Close,
}

/// Where the dispatcher stands in the handling of a frame.
#[derive(Debug, PartialEq, Eq)]
pub enum Phase {
    /// Between frames.
    Idle,
    /// A transcription is under way.
    Transcribing,
    /// The transcript is being sent; it is spoken once it is out.
    SendingTranscript { transcript: String },
    /// A synthesis is under way.
    Synthesizing,
    /// The last frame of an answer is being sent. Where `required` is
    /// false, the session goes on even if the frame is lost.
    Replying { required: bool },
    /// The session is over.
    Closed,
}

/// An event as mathematics.
pub enum EventView {
    Frame(FrameView),
    Disconnected,
    Transcribed(Result<Seq<char>, Seq<char>>),
    Synthesized(Result<Seq<u8>, Seq<char>>),
    Sent,
    SendFailed,
}

/// An action as mathematics.
pub enum ActionView {
    Receive,
    Transcribe { audio: Seq<u8>, language: Seq<char> },
    Synthesize { text: Seq<char> },
    Send(FrameView),
    Close,
}

/// A phase as mathematics.
pub enum PhaseView {
    Idle,
    Transcribing,
    SendingTranscript { transcript: Seq<char> },
    Synthesizing,
    Replying { required: bool },
    Closed,
}

/// The state of a dispatcher as mathematics.
pub struct DispatcherView {
    pub session: SessionView,
    pub phase: PhaseView,
}

impl View for Event {
    type V = EventView;

    open spec fn view(&self) -> EventView {
        match self {
            Event::Frame(frame) => EventView::Frame(frame@),
            Event::Disconnected => EventView::Disconnected,
            Event::Transcribed(outcome) => EventView::Transcribed(text_outcome(*outcome)),
            Event::Synthesized(outcome) => EventView::Synthesized(audio_outcome(*outcome)),
            Event::Sent => EventView::Sent,
            Event::SendFailed => EventView::SendFailed,
        }
    }
}

impl View for Action {
    type V = ActionView;

    open spec fn view(&self) -> ActionView {
        match self {
            Action::Receive => ActionView::Receive,
            Action::Transcribe { audio, language } => ActionView::Transcribe {
                audio: audio@,
                language: language@,
            },
            Action::Synthesize { text } => ActionView::Synthesize { text: text@ },
            Action::Send(frame) => ActionView::Send(frame@),
            Action::Close => ActionView::Close,
        }
    }
}

impl View for Phase {
    type V = PhaseView;

    open spec fn view(&self) -> PhaseView {
        match self {
            Phase::Idle => PhaseView::Idle,
            Phase::Transcribing => PhaseView::Transcribing,
            Phase::SendingTranscript { transcript } => PhaseView::SendingTranscript {
                transcript: transcript@,
            },
            Phase::Synthesizing => PhaseView::Synthesizing,
            Phase::Replying { required } => PhaseView::Replying { required: *required },
            Phase::Closed => PhaseView::Closed,
        }
    }
}

/// The text frame that carries a transcript.
pub open spec fn transcript_line(transcript: Seq<char>) -> Seq<char> {
    "Transcript: "@ + transcript
}

/// The text frame that reports a failed transcription.
pub open spec fn error_line(message: Seq<char>) -> Seq<char> {
    "Error: "@ + message
}

/// The text frame that reports a failed synthesis.
pub open spec fn synthesis_error_line(message: Seq<char>) -> Seq<char> {
    "TTS Error: "@ + message
}

/// The text frame that sends plain text back.
pub open spec fn echo_line(text: Seq<char>) -> Seq<char> {
    "Echo: "@ + text
}

/// The state in which every session ends.
pub open spec fn closed(session: SessionView) -> (DispatcherView, ActionView) {
    (DispatcherView { session, phase: PhaseView::Closed }, ActionView::Close)
}

/// The state between two frames, with the request for the next one.
pub open spec fn ready(session: SessionView) -> (DispatcherView, ActionView) {
    (DispatcherView { session, phase: PhaseView::Idle }, ActionView::Receive)
}

/// The state in which a last frame is on its way, with the request to send it.
pub open spec fn replying(session: SessionView, frame: FrameView, required: bool) -> (
    DispatcherView,
    ActionView,
) {
    (DispatcherView { session, phase: PhaseView::Replying { required } }, ActionView::Send(frame))
}

/// How a text frame is taken up between frames, given what parsing it gave.
pub open spec fn on_text(session: SessionView, text: Seq<char>, document: Option<JsonView>) -> (
    DispatcherView,
    ActionView,
) {
    match text_command(text, document) {
        TextCommandView::Configure(message) => ready(session.configured(message)),
        TextCommandView::Speak(prompt) => (
            DispatcherView { session, phase: PhaseView::Synthesizing },
            ActionView::Synthesize { text: prompt },
        ),
        TextCommandView::Echo => replying(session, FrameView::Text(echo_line(text)), true),
    }
}

/// The transition function, given what parsing the text of a text frame
/// gave (`document` is read for text frames alone). An event that does not
/// answer what the dispatcher asked for ends the session.
pub open spec fn next_given(state: DispatcherView, event: EventView, document: Option<JsonView>) -> (
    DispatcherView,
    ActionView,
) {
    let session = state.session;
    match (state.phase, event) {
        (PhaseView::Idle, EventView::Frame(FrameView::Binary(audio))) => (
            DispatcherView { session, phase: PhaseView::Transcribing },
            ActionView::Transcribe { audio, language: session.source },
        ),
        (PhaseView::Idle, EventView::Frame(FrameView::Text(text))) => on_text(
            session,
            text,
            document,
        ),
        (PhaseView::Transcribing, EventView::Transcribed(Ok(transcript))) => (
            DispatcherView { session, phase: PhaseView::SendingTranscript { transcript } },
            ActionView::Send(FrameView::Text(transcript_line(transcript))),
        ),
        (PhaseView::Transcribing, EventView::Transcribed(Err(message))) => replying(
            session,
            FrameView::Text(error_line(message)),
            true,
        ),
        (PhaseView::SendingTranscript { transcript }, EventView::Sent) => (
            DispatcherView { session, phase: PhaseView::Synthesizing },
            ActionView::Synthesize { text: transcript },
        ),
        (PhaseView::Synthesizing, EventView::Synthesized(Ok(audio))) => replying(
            session,
            FrameView::Binary(audio),
            true,
        ),
        (PhaseView::Synthesizing, EventView::Synthesized(Err(message))) => replying(
            session,
            FrameView::Text(synthesis_error_line(message)),
            false,
        ),
        (PhaseView::Replying { required }, EventView::Sent) => ready(session),
        (PhaseView::Replying { required }, EventView::SendFailed) => if required {
            closed(session)
        } else {
            ready(session)
        },
        _ => closed(session),
    }
}

/// What parsing gives for the event: the document of a text frame.
pub open spec fn document_of(event: EventView) -> Option<JsonView> {
    match event {
        EventView::Frame(FrameView::Text(text)) => json_document(text),
        _ => None,
    }
}

/// The transition function of the dispatcher.
pub open spec fn next(state: DispatcherView, event: EventView) -> (DispatcherView, ActionView) {
    next_given(state, event, document_of(event))
}

/// The dispatcher of one connection.
pub struct Dispatcher {
    session: Session,
    phase: Phase,
}

impl View for Dispatcher {
    type V = DispatcherView;

    closed spec fn view(&self) -> DispatcherView {
        DispatcherView { session: self.session@, phase: self.phase@ }
    }
}

impl Dispatcher {
    /// The dispatcher of a freshly accepted connection: between frames, with
    /// both languages at their default.
    pub fn new() -> (dispatcher: Dispatcher)
        ensures
            dispatcher@ == (DispatcherView { session: SessionView::fresh(), phase: PhaseView::Idle }),
    {
        Dispatcher { session: Session::new(), phase: Phase::Idle }
    }

    /// The session as it stands.
    pub fn session(&self) -> (session: &Session)
        ensures
            session@ == self@.session,
    {
        &self.session
    }

    /// Where the handling of the current frame stands.
    pub fn phase(&self) -> (phase: &Phase)
        ensures
            phase@ == self@.phase,
    {
        &self.phase
    }

    /// Whether the session is over.
    pub fn is_closed(&self) -> (over: bool)
        ensures
            over == (self@.phase is Closed),
    {
        match self.phase {
            Phase::Closed => true,
            _ => false,
        }
    }

    /// Takes up what happened and says what to do next.
    pub fn step(&mut self, event: Event) -> (action: Action)
        ensures
            (final(self)@, action@) == next(old(self)@, event@),
    {
        let mut phase = Phase::Closed;
        std::mem::swap(&mut self.phase, &mut phase);
        match (phase, event) {
            (Phase::Idle, Event::Frame(InboundFrame::Binary(audio))) => {
                self.phase = Phase::Transcribing;
                Action::Transcribe { audio, language: self.session.source_language().to_owned() }
            },
            (Phase::Idle, Event::Frame(InboundFrame::Text(text))) => {
                match read_text(text.as_str()) {
                    TextCommand::Configure(message) => {
                        self.session.configure(message);
                        self.phase = Phase::Idle;
                        Action::Receive
                    },
                    TextCommand::Speak(prompt) => {
                        self.phase = Phase::Synthesizing;
                        Action::Synthesize { text: prompt }
                    },
                    TextCommand::Echo => {
                        self.phase = Phase::Replying { required: true };
                        Action::Send(OutboundFrame::Text("Echo: ".to_owned().concat(text.as_str())))
                    },
                }
            },
            (Phase::Transcribing, Event::Transcribed(Ok(transcript))) => {
                let line = "Transcript: ".to_owned().concat(transcript.as_str());
                self.phase = Phase::SendingTranscript { transcript };
                Action::Send(OutboundFrame::Text(line))
            },
            (Phase::Transcribing, Event::Transcribed(Err(failure))) => {
                self.phase = Phase::Replying { required: true };
                Action::Send(OutboundFrame::Text("Error: ".to_owned().concat(failure.message.as_str())))
            },
            (Phase::SendingTranscript { transcript }, Event::Sent) => {
                self.phase = Phase::Synthesizing;
                Action::Synthesize { text: transcript }
            },
            (Phase::Synthesizing, Event::Synthesized(Ok(audio))) => {
                self.phase = Phase::Replying { required: true };
                Action::Send(OutboundFrame::Binary(audio))
            },
            (Phase::Synthesizing, Event::Synthesized(Err(failure))) => {
                self.phase = Phase::Replying { required: false };
                Action::Send(
                    OutboundFrame::Text("TTS Error: ".to_owned().concat(failure.message.as_str())),
                )
            },
            (Phase::Replying { required }, Event::Sent) => {
                self.phase = Phase::Idle;
                Action::Receive
            },
            (Phase::Replying { required }, Event::SendFailed) => {
                if required {
                    Action::Close
                } else {
                    self.phase = Phase::Idle;
                    Action::Receive
                }
            },
            _ => Action::Close,
        }
    }
}

} // verus!
