//! The messages that the background work sends to the presentation loop, and the
//! decisions of that work between its steps.
use vstd::prelude::*;

use crate::api::{Translation, TranslateError};
use crate::input::{Input, ResolveError};
use crate::settings::{InputKind, Settings};

verus! {

/// The failure that an error message reports.
pub enum ErrorCause {
    Resolve(ResolveError),
    Translate(TranslateError),
}

impl ErrorCause {
    /// The full description of the failure.
    pub fn describe(&self) -> (r: String)
        ensures
            r@ == cause_text(*self),
    {
        match self {
            ErrorCause::Resolve(e) => e.describe(),
            ErrorCause::Translate(e) => e.describe(),
        }
    }
}

/// The full description of a failure.
pub open spec fn cause_text(c: ErrorCause) -> Seq<char> {
    match c {
        ErrorCause::Resolve(ResolveError::EmptyBuffers) => "empty buffers"@,
        ErrorCause::Resolve(ResolveError::SubsystemInit(why)) => why@,
        ErrorCause::Translate(e) => e.describe_spec(),
    }
}

/// A message to the presentation loop.
pub enum Message {
    Translation(Translation),
    InputKind(InputKind),
    Settings(Settings),
    Error { header: String, cause: ErrorCause },
    /// The end of the stream: nothing follows.
    Quit,
}

/// What the background work does once the input is resolved.
pub enum WorkerStep {
    /// Translate this input.
    Translate(Input),
    /// Send these messages, in order, and stop.
    Emit(Vec<Message>),
}

/// The header of the message that reports a failed resolution.
pub open spec fn buffer_error_header() -> Seq<char> {
    "buffer error"@
}

/// Whether `m` reports an error with this header and cause.
pub open spec fn is_error(m: Message, header: Seq<char>, cause: ErrorCause) -> bool {
    m matches Message::Error { header: h, cause: c } && h@ == header && c == cause
}

/// The step after resolution: a resolved input is translated; a failed resolution is
/// reported as a "buffer error", followed by the end of the stream where
/// `end_of_stream` asks for it.
pub fn after_resolve(resolved: Result<Input, ResolveError>, end_of_stream: bool) -> (r: WorkerStep)
    ensures
        match resolved {
            Ok(input) => r == WorkerStep::Translate(input),
            Err(e) => r matches WorkerStep::Emit(ms) && {
                &&& ms@.len() == if end_of_stream { 2int } else { 1int }
                &&& is_error(ms@[0], buffer_error_header(), ErrorCause::Resolve(e))
                &&& end_of_stream ==> ms@[1] is Quit
            },
        },
{
    match resolved {
        Ok(input) => WorkerStep::Translate(input),
        Err(e) => {
            let mut ms: Vec<Message> = Vec::new();
            ms.push(Message::Error { header: String::from_str("buffer error"), cause: ErrorCause::Resolve(e) });
            if end_of_stream {
                ms.push(Message::Quit);
            }
            WorkerStep::Emit(ms)
        },
    }
}

/// The messages after translation: where it succeeded, where the input came from and
/// then the translation; where it failed, the failure under its own description.
/// The end of the stream follows where `end_of_stream` asks for it.
pub fn after_translate(
    kind: InputKind,
    translated: Result<Translation, TranslateError>,
    end_of_stream: bool,
) -> (r: Vec<Message>)
    ensures
        match translated {
            Ok(t) => {
                &&& r@.len() == if end_of_stream { 3int } else { 2int }
                &&& r@[0] == Message::InputKind(kind)
                &&& r@[1] == Message::Translation(t)
                &&& end_of_stream ==> r@[2] is Quit
            },
            Err(e) => {
                &&& r@.len() == if end_of_stream { 2int } else { 1int }
                &&& is_error(r@[0], e.describe_spec(), ErrorCause::Translate(e))
                &&& end_of_stream ==> r@[1] is Quit
            },
        },
{
    let mut ms: Vec<Message> = Vec::new();
    match translated {
        Ok(t) => {
            ms.push(Message::InputKind(kind));
            ms.push(Message::Translation(t));
        },
        Err(e) => {
            let header = e.describe();
            ms.push(Message::Error { header, cause: ErrorCause::Translate(e) });
        },
    }
    if end_of_stream {
        ms.push(Message::Quit);
    }
    ms
}

} // verus!
