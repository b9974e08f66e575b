//! The event vocabulary shared by the stream publishers, the process
//! supervisor and the presentation layer.

use vstd::prelude::*;

verus! {

/// Which of the child's two captured output streams a line came from.
#[derive(Clone, Copy, PartialEq, Eq, Structural, Debug)]
pub enum StreamKind {
    Stdout,
    Stderr,
}

/// One event published to the sink: a line of output tagged with its stream
/// of origin, or the terminal signal that the stdout stream has ended.
/// Lines of `Stderr` origin are the error-origin events of the interface.
#[derive(Clone, PartialEq, Eq, Debug)]
pub enum OutputEvent {
    Line(String, StreamKind),
    Complete,
}

/// Mathematical model of an [`OutputEvent`]: the line as a character sequence.
pub enum EventModel {
    Line(Seq<char>, StreamKind),
    Complete,
}

impl View for OutputEvent {
    type V = EventModel;

    open spec fn view(&self) -> EventModel {
        match self {
            OutputEvent::Line(text, kind) => EventModel::Line(text@, *kind),
            OutputEvent::Complete => EventModel::Complete,
        }
    }
}

impl DeepView for OutputEvent {
    type V = EventModel;

    open spec fn deep_view(&self) -> EventModel {
        self.view()
    }
}

/// One observation a line reader hands to its publisher: a decoded line, or
/// a read failure that ends the stream early. End of stream is not an event;
/// it is the end of the observation sequence.
#[derive(Clone, PartialEq, Eq, Debug)]
pub enum ReadEvent {
    Line(String),
    ReadError,
}

/// Mathematical model of a [`ReadEvent`].
pub enum ReadModel {
    Line(Seq<char>),
    ReadError,
}

impl View for ReadEvent {
    type V = ReadModel;

    open spec fn view(&self) -> ReadModel {
        match self {
            ReadEvent::Line(text) => ReadModel::Line(text@),
            ReadEvent::ReadError => ReadModel::ReadError,
        }
    }
}

impl DeepView for ReadEvent {
    type V = ReadModel;

    open spec fn deep_view(&self) -> ReadModel {
        self.view()
    }
}

/// The channel an event travels on to the presentation surface: stdout lines
/// as `codex-output`, stderr lines as `codex-error`, and the terminal signal
/// as `codex-complete`.
pub fn channel_name(event: &OutputEvent) -> (r: &'static str)
    ensures
        r@ == match event@ {
            EventModel::Line(_, StreamKind::Stdout) => "codex-output"@,
            EventModel::Line(_, StreamKind::Stderr) => "codex-error"@,
            EventModel::Complete => "codex-complete"@,
        },
{
    match event {
        OutputEvent::Line(_, StreamKind::Stdout) => "codex-output",
        OutputEvent::Line(_, StreamKind::Stderr) => "codex-error",
        OutputEvent::Complete => "codex-complete",
    }
}

} // verus!
