//! What the relay knows of the speech backend: the outcome of a call.

use vstd::prelude::*;

verus! {

/// Why a backend call failed, in words that can be shown to the client.
#[derive(Debug, PartialEq, Eq)]
pub struct Failure {
    pub message: String,
}

impl View for Failure {
    type V = Seq<char>;

    open spec fn view(&self) -> Seq<char> {
        self.message@
    }
}

/// An outcome that is text, as mathematics: the text, or the message of the
/// failure.
pub open spec fn text_outcome(outcome: Result<String, Failure>) -> Result<
    Seq<char>,
    Seq<char>,
> {
    match outcome {
        Ok(text) => Ok(text@),
        Err(failure) => Err(failure@),
    }
}

/// An outcome that is audio, as mathematics: the bytes, or the message of
/// the failure.
pub open spec fn audio_outcome(outcome: Result<Vec<u8>, Failure>) -> Result<Seq<u8>, Seq<char>> {
    match outcome {
        Ok(audio) => Ok(audio@),
        Err(failure) => Err(failure@),
    }
}

} // verus!
