//! What holds of every session, proved from the transition function of the
//! dispatcher.

use crate::command::{control_in, speak_prefix, text_command, TextCommandView};
use crate::control::ControlView;
use crate::dispatch::{
    echo_line, error_line, next, next_given, ready, synthesis_error_line, transcript_line,
    ActionView, DispatcherView, EventView, PhaseView,
};
use crate::frame::FrameView;
use crate::json::JsonView;
use crate::session::{default_language, SessionView};
use vstd::prelude::*;

verus! {

/// The dispatcher between two frames.
pub open spec fn idle(session: SessionView) -> DispatcherView {
    DispatcherView { session, phase: PhaseView::Idle }
}

/// Audio is transcribed from the session's source language, and when the
/// transcription succeeds the first frame sent for that audio carries the
/// transcript exactly as the backend gave it, empty or not.
pub proof fn transcript_goes_out_first(session: SessionView, audio: Seq<u8>, transcript: Seq<char>)
    ensures
        ({
            let (heard, first) = next(idle(session), EventView::Frame(FrameView::Binary(audio)));
            let (answered, second) = next(heard, EventView::Transcribed(Ok(transcript)));
            &&& first == ActionView::Transcribe { audio, language: session.source }
            &&& second == ActionView::Send(FrameView::Text(transcript_line(transcript)))
        }),
{
}

/// When the transcription fails, one frame reports the failure, and the
/// dispatcher is then between frames again: nothing was synthesized, and
/// the session is as it was.
pub proof fn failed_transcription_is_reported_once(
    session: SessionView,
    audio: Seq<u8>,
    message: Seq<char>,
)
    ensures
        ({
            let (heard, first) = next(idle(session), EventView::Frame(FrameView::Binary(audio)));
            let (answered, second) = next(heard, EventView::Transcribed(Err(message)));
            let done = next(answered, EventView::Sent);
            &&& first == ActionView::Transcribe { audio, language: session.source }
            &&& second == ActionView::Send(FrameView::Text(error_line(message)))
            &&& done == ready(session)
        }),
{
}

/// When the transcription succeeds and the synthesis fails, the transcript
/// has gone out before the synthesis was asked for, one text frame reports
/// the failure, no audio is sent, and the session goes on whether or not
/// that report could be delivered.
pub proof fn failed_synthesis_keeps_the_transcript(
    session: SessionView,
    audio: Seq<u8>,
    transcript: Seq<char>,
    message: Seq<char>,
    report_delivered: bool,
)
    ensures
        ({
            let (heard, first) = next(idle(session), EventView::Frame(FrameView::Binary(audio)));
            let (answered, second) = next(heard, EventView::Transcribed(Ok(transcript)));
            let (speaking, third) = next(answered, EventView::Sent);
            let (failed, fourth) = next(speaking, EventView::Synthesized(Err(message)));
            let done = next(
                failed,
                if report_delivered {
                    EventView::Sent
                } else {
                    EventView::SendFailed
                },
            );
            &&& second == ActionView::Send(FrameView::Text(transcript_line(transcript)))
            &&& third == ActionView::Synthesize { text: transcript }
            &&& fourth == ActionView::Send(FrameView::Text(synthesis_error_line(message)))
            &&& done == ready(session)
        }),
{
}

/// When both stages succeed, the client is sent the transcript and then the
/// audio exactly as the backend synthesized it, and nothing else.
pub proof fn speech_follows_the_transcript(
    session: SessionView,
    audio: Seq<u8>,
    transcript: Seq<char>,
    speech: Seq<u8>,
)
    ensures
        ({
            let (heard, first) = next(idle(session), EventView::Frame(FrameView::Binary(audio)));
            let (answered, second) = next(heard, EventView::Transcribed(Ok(transcript)));
            let (speaking, third) = next(answered, EventView::Sent);
            let (spoken, fourth) = next(speaking, EventView::Synthesized(Ok(speech)));
            let done = next(spoken, EventView::Sent);
            &&& second == ActionView::Send(FrameView::Text(transcript_line(transcript)))
            &&& third == ActionView::Synthesize { text: transcript }
            &&& fourth == ActionView::Send(FrameView::Binary(speech))
            &&& done == ready(session)
        }),
{
}

/// A control message is answered with no frame at all, and audio that
/// follows it is transcribed from the source language that the message
/// gave, or from the old one where it gave none.
pub proof fn configured_source_reaches_transcription(
    session: SessionView,
    text: Seq<char>,
    document: Option<JsonView>,
    message: ControlView,
    audio: Seq<u8>,
)
    requires
        control_in(document) == Some(message),
    ensures
        ({
            let (configured, first) = next_given(
                idle(session),
                EventView::Frame(FrameView::Text(text)),
                document,
            );
            let (heard, second) = next(configured, EventView::Frame(FrameView::Binary(audio)));
            &&& first == ActionView::Receive
            &&& configured == idle(session.configured(message))
            &&& second == ActionView::Transcribe {
                audio,
                language: match message.source {
                    Some(code) => code,
                    None => session.source,
                },
            }
        }),
{
}

/// A control message changes the languages that it names and no other: one
/// that names the target alone leaves the source as it was, and the other
/// way round.
pub proof fn control_message_changes_what_it_names(session: SessionView, message: ControlView)
    ensures
        message.source is None ==> session.configured(message).source == session.source,
        message.target is None ==> session.configured(message).target == session.target,
        message.source matches Some(code) ==> session.configured(message).source == code,
        message.target matches Some(code) ==> session.configured(message).target == code,
{
}

/// A speak command that succeeds is answered with one binary frame, the
/// audio of everything after the prefix, and with no text frame.
pub proof fn speak_command_is_answered_with_audio(
    session: SessionView,
    text: Seq<char>,
    document: Option<JsonView>,
    speech: Seq<u8>,
)
    requires
        control_in(document) is None,
        speak_prefix().is_prefix_of(text),
    ensures
        ({
            let (speaking, first) = next_given(
                idle(session),
                EventView::Frame(FrameView::Text(text)),
                document,
            );
            let (spoken, second) = next(speaking, EventView::Synthesized(Ok(speech)));
            let done = next(spoken, EventView::Sent);
            &&& first == ActionView::Synthesize { text: text.skip(speak_prefix().len() as int) }
            &&& second == ActionView::Send(FrameView::Binary(speech))
            &&& done == ready(session)
        }),
{
}

/// A speak command that fails is answered with one text frame that reports
/// the failure, and with no binary frame; the session goes on.
pub proof fn failed_speak_command_is_reported_once(
    session: SessionView,
    text: Seq<char>,
    document: Option<JsonView>,
    message: Seq<char>,
    report_delivered: bool,
)
    requires
        control_in(document) is None,
        speak_prefix().is_prefix_of(text),
    ensures
        ({
            let (speaking, first) = next_given(
                idle(session),
                EventView::Frame(FrameView::Text(text)),
                document,
            );
            let (failed, second) = next(speaking, EventView::Synthesized(Err(message)));
            let done = next(
                failed,
                if report_delivered {
                    EventView::Sent
                } else {
                    EventView::SendFailed
                },
            );
            &&& first == ActionView::Synthesize { text: text.skip(speak_prefix().len() as int) }
            &&& second == ActionView::Send(FrameView::Text(synthesis_error_line(message)))
            &&& done == ready(session)
        }),
{
}

/// Text that is neither a control message nor a speak command is sent back
/// once, behind the echo prefix.
pub proof fn plain_text_is_echoed(session: SessionView, text: Seq<char>, document: Option<JsonView>)
    requires
        control_in(document) is None,
        !speak_prefix().is_prefix_of(text),
    ensures
        ({
            let (echoing, first) = next_given(
                idle(session),
                EventView::Frame(FrameView::Text(text)),
                document,
            );
            let done = next(echoing, EventView::Sent);
            &&& first == ActionView::Send(FrameView::Text(echo_line(text)))
            &&& done == ready(session)
        }),
{
}

/// Text that does not parse as JSON is never dropped and never reported as
/// an error: it is handled as the plain text that it is.
pub proof fn unparsable_text_is_plain_text(session: SessionView, text: Seq<char>)
    ensures
        ({
            let (state, action) = next_given(
                idle(session),
                EventView::Frame(FrameView::Text(text)),
                None,
            );
            &&& state.session == session
            &&& if speak_prefix().is_prefix_of(text) {
                action == ActionView::Synthesize { text: text.skip(speak_prefix().len() as int) }
            } else {
                action == ActionView::Send(FrameView::Text(echo_line(text)))
            }
        }),
{
}

/// On a connection that has seen no control message, audio is transcribed
/// from the default language.
pub proof fn fresh_session_speaks_the_default(audio: Seq<u8>)
    ensures
        SessionView::fresh().source == default_language(),
        SessionView::fresh().target == default_language(),
        next(idle(SessionView::fresh()), EventView::Frame(FrameView::Binary(audio))).1
            == (ActionView::Transcribe { audio, language: default_language() }),
{
}

/// No answer of the backend, good or bad, ends the session.
pub proof fn backend_outcome_never_closes(state: DispatcherView, event: EventView)
    requires
        (state.phase is Transcribing && event is Transcribed) || (state.phase is Synthesizing
            && event is Synthesized),
    ensures
        next(state, event).1 is Send,
        !(next(state, event).0.phase is Closed),
{
}

/// Only a control message changes the session.
pub proof fn only_control_messages_configure(state: DispatcherView, event: EventView)
    ensures
        next(state, event).0.session != state.session ==> state.phase is Idle && (
        event matches EventView::Frame(FrameView::Text(text)) && control_in(
            crate::json::json_document(text),
        ) is Some),
{
}

/// A session that is over stays over.
pub proof fn closed_stays_closed(session: SessionView, event: EventView)
    ensures
        next(DispatcherView { session, phase: PhaseView::Closed }, event) == (
            DispatcherView { session, phase: PhaseView::Closed },
            ActionView::Close,
        ),
{
}

/// What the backend answers while one frame is handled: the outcome of a
/// transcription and of a synthesis, should either be asked for.
pub struct Answers {
    pub transcription: Result<Seq<char>, Seq<char>>,
    pub synthesis: Result<Seq<u8>, Seq<char>>,
}

/// What the handling of one frame came to.
pub struct Handled {
    /// The dispatcher as the handling left it.
    pub state: DispatcherView,
    /// The frames sent to the client, in order.
    pub frames: Seq<FrameView>,
    /// The calls made to the backend, in order.
    pub calls: Seq<ActionView>,
}

/// The connection loop on a socket that delivers every frame: carries out
/// `action` and whatever the dispatcher asks for next, until it asks for
/// the next frame or closes, for at most `steps` actions.
pub open spec fn carry_out(state: DispatcherView, action: ActionView, answers: Answers, steps: nat) -> Handled
    decreases steps,
{
    if steps == 0 {
        Handled { state, frames: Seq::empty(), calls: Seq::empty() }
    } else {
        match action {
            ActionView::Receive => Handled { state, frames: Seq::empty(), calls: Seq::empty() },
            ActionView::Close => Handled { state, frames: Seq::empty(), calls: Seq::empty() },
            ActionView::Transcribe { .. } => {
                let (then, asked) = next(state, EventView::Transcribed(answers.transcription));
                let rest = carry_out(then, asked, answers, (steps - 1) as nat);
                Handled { state: rest.state, frames: rest.frames, calls: seq![action] + rest.calls }
            },
            ActionView::Synthesize { .. } => {
                let (then, asked) = next(state, EventView::Synthesized(answers.synthesis));
                let rest = carry_out(then, asked, answers, (steps - 1) as nat);
                Handled { state: rest.state, frames: rest.frames, calls: seq![action] + rest.calls }
            },
            ActionView::Send(frame) => {
                let (then, asked) = next(state, EventView::Sent);
                let rest = carry_out(then, asked, answers, (steps - 1) as nat);
                Handled { state: rest.state, frames: seq![frame] + rest.frames, calls: rest.calls }
            },
        }
    }
}

/// The frame that a synthesis is answered with: the audio, or the report
/// of the failure.
pub open spec fn spoken(synthesis: Result<Seq<u8>, Seq<char>>) -> FrameView {
    match synthesis {
        Ok(audio) => FrameView::Binary(audio),
        Err(message) => FrameView::Text(synthesis_error_line(message)),
    }
}

/// The frames that answer one inbound frame, in order.
pub open spec fn frames_for(frame: FrameView, document: Option<JsonView>, answers: Answers) -> Seq<
    FrameView,
> {
    match frame {
        FrameView::Binary(_) => match answers.transcription {
            Ok(transcript) => seq![
                FrameView::Text(transcript_line(transcript)),
                spoken(answers.synthesis),
            ],
            Err(message) => seq![FrameView::Text(error_line(message))],
        },
        FrameView::Text(text) => match text_command(text, document) {
            TextCommandView::Configure(_) => Seq::empty(),
            TextCommandView::Speak(_) => seq![spoken(answers.synthesis)],
            TextCommandView::Echo => seq![FrameView::Text(echo_line(text))],
        },
    }
}

/// The backend calls that one inbound frame leads to, in order.
pub open spec fn calls_for(
    session: SessionView,
    frame: FrameView,
    document: Option<JsonView>,
    answers: Answers,
) -> Seq<ActionView> {
    match frame {
        FrameView::Binary(audio) => match answers.transcription {
            Ok(transcript) => seq![
                ActionView::Transcribe { audio, language: session.source },
                ActionView::Synthesize { text: transcript },
            ],
            Err(_) => seq![ActionView::Transcribe { audio, language: session.source }],
        },
        FrameView::Text(text) => match text_command(text, document) {
            TextCommandView::Speak(prompt) => seq![ActionView::Synthesize { text: prompt }],
            _ => Seq::empty(),
        },
    }
}

/// The session after one inbound frame.
pub open spec fn session_after(session: SessionView, frame: FrameView, document: Option<JsonView>) -> SessionView {
    match frame {
        FrameView::Binary(_) => session,
        FrameView::Text(text) => match text_command(text, document) {
            TextCommandView::Configure(message) => session.configured(message),
            _ => session,
        },
    }
}

/// Whatever the frame and whatever the backend answers, a frame that
/// arrives between frames is handled in full: the client is sent exactly
/// the frames that answer it, in order, the backend is called exactly as
/// the frame asks, and the dispatcher is between frames again, with the
/// session changed by a control message alone.
pub proof fn every_frame_is_handled_in_full(
    session: SessionView,
    frame: FrameView,
    document: Option<JsonView>,
    answers: Answers,
)
    ensures
        ({
            let (state, action) = next_given(idle(session), EventView::Frame(frame), document);
            carry_out(state, action, answers, 6) == (Handled {
                state: idle(session_after(session, frame, document)),
                frames: frames_for(frame, document, answers),
                calls: calls_for(session, frame, document, answers),
            })
        }),
{
    reveal_with_fuel(carry_out, 7);
    let (state, action) = next_given(idle(session), EventView::Frame(frame), document);
    let handled = carry_out(state, action, answers, 6);
    assert(handled.frames =~= frames_for(frame, document, answers));
    assert(handled.calls =~= calls_for(session, frame, document, answers));
}

} // verus!
