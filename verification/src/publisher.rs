//! The stream publisher: decides, for each observation a line reader makes,
//! which event to publish, and which terminal event closes the stream.
//!
//! A decoded line becomes one `Line` event tagged with the stream of
//! origin. A read failure halts the publisher early and skips the terminal
//! event. When the observations end without a failure, the stdout publisher
//! publishes exactly one `Complete`; the stderr publisher publishes nothing
//! further. The two publishers of an invocation run independently; nothing
//! here orders one against the other.

use vstd::prelude::*;
use vstd::utf8::{decode_utf8, valid_utf8};

use crate::events::{EventModel, OutputEvent, ReadEvent, ReadModel, StreamKind};
use crate::reader::{read_model, split_lines_spec};

verus! {

/// The terminal events of a stream of the given kind: one `Complete` for
/// stdout, none for stderr.
pub open spec fn terminal_model(kind: StreamKind) -> Seq<EventModel> {
    match kind {
        StreamKind::Stdout => seq![EventModel::Complete],
        StreamKind::Stderr => Seq::empty(),
    }
}

/// Every event a publisher of the given kind emits for a sequence of reader
/// observations, in emission order.
pub open spec fn publish_model(reads: Seq<ReadModel>, kind: StreamKind) -> Seq<EventModel>
    decreases reads.len(),
{
    if reads.len() == 0 {
        terminal_model(kind)
    } else {
        match reads[0] {
            ReadModel::Line(text) => seq![EventModel::Line(text, kind)] + publish_model(
                reads.drop_first(),
                kind,
            ),
            ReadModel::ReadError => Seq::empty(),
        }
    }
}

/// What a publisher does with one observation: publish an event, or halt
/// without a terminal event.
pub enum StreamAction {
    Emit(OutputEvent),
    Halt,
}

/// The publisher's decision for one reader observation.
pub fn publisher_step(read: ReadEvent, kind: StreamKind) -> (r: StreamAction)
    ensures
        match read@ {
            ReadModel::Line(text) => r matches StreamAction::Emit(e) && e@ == EventModel::Line(
                text,
                kind,
            ),
            ReadModel::ReadError => r is Halt,
        },
{
    match read {
        ReadEvent::Line(text) => StreamAction::Emit(OutputEvent::Line(text, kind)),
        ReadEvent::ReadError => StreamAction::Halt,
    }
}

/// The publisher's terminal event once its observations ended without a
/// read failure.
pub fn publisher_finish(kind: StreamKind) -> (r: Option<OutputEvent>)
    ensures
        kind == StreamKind::Stdout ==> (r matches Some(e) && e@ == EventModel::Complete),
        kind == StreamKind::Stderr ==> r is None,
{
    match kind {
        StreamKind::Stdout => Some(OutputEvent::Complete),
        StreamKind::Stderr => None,
    }
}

/// Publishes a whole observation sequence at once: the batch form of the
/// step-by-step loop a live publisher runs.
#[verifier::loop_isolation(false)]
pub fn publish(reads: Vec<ReadEvent>, kind: StreamKind) -> (r: Vec<OutputEvent>)
    ensures
        r.deep_view() == publish_model(reads.deep_view(), kind),
{
    let ghost all = reads.deep_view();
    let mut out: Vec<OutputEvent> = Vec::new();
    let mut queue = reads;
    proof {
        assert(out.deep_view() =~= Seq::<EventModel>::empty());
    }
    while queue.len() > 0
        invariant
            publish_model(all, kind) == out.deep_view() + publish_model(queue.deep_view(), kind),
        decreases queue.len(),
    {
        let ghost rest = queue.deep_view();
        let read = queue.remove(0);
        proof {
            assert(read.deep_view() == rest[0]);
            assert(queue.deep_view() =~= rest.drop_first());
        }
        let ghost before = out.deep_view();
        match publisher_step(read, kind) {
            StreamAction::Emit(event) => {
                let ghost ev = event@;
                out.push(event);
                proof {
                    assert(out.deep_view() =~= before.push(ev));
                    assert(before.push(ev) + publish_model(rest.drop_first(), kind) =~= before + (
                    seq![ev] + publish_model(rest.drop_first(), kind)));
                }
            },
            StreamAction::Halt => {
                proof {
                    assert(publish_model(rest, kind) =~= Seq::<EventModel>::empty());
                    assert(before + Seq::<EventModel>::empty() =~= before);
                    assert(out.deep_view() == publish_model(all, kind));
                }
                return out;
            },
        }
    }
    match publisher_finish(kind) {
        Some(event) => {
            let ghost before = out.deep_view();
            let ghost ev = event@;
            out.push(event);
            proof {
                assert(out.deep_view() =~= before.push(ev));
                assert(before.push(ev) =~= before + terminal_model(kind));
            }
        },
        None => {
            proof {
                assert(out.deep_view() + terminal_model(kind) =~= out.deep_view());
            }
        },
    }
    out
}

/// The text of a line observation.
pub open spec fn line_text(read: ReadModel) -> Seq<char> {
    match read {
        ReadModel::Line(text) => text,
        ReadModel::ReadError => Seq::empty(),
    }
}

/// Law: a publisher given N line observations and no read failure emits
/// exactly N `Line` events, in source order, followed by the terminal
/// events of its kind — one `Complete` for stdout, none for stderr.
pub proof fn lemma_publisher_emits_every_line(reads: Seq<ReadModel>, kind: StreamKind)
    requires
        forall|i: int| 0 <= i < reads.len() ==> reads[i] is Line,
    ensures
        publish_model(reads, kind) == Seq::new(
            reads.len(),
            |i: int| EventModel::Line(line_text(reads[i]), kind),
        ) + terminal_model(kind),
    decreases reads.len(),
{
    let lines = Seq::new(reads.len(), |i: int| EventModel::Line(line_text(reads[i]), kind));
    if reads.len() == 0 {
        assert(publish_model(reads, kind) =~= lines + terminal_model(kind));
    } else {
        let rest = reads.drop_first();
        lemma_publisher_emits_every_line(rest, kind);
        assert(reads[0] is Line);
        assert(publish_model(reads, kind) == seq![EventModel::Line(line_text(reads[0]), kind)]
            + publish_model(rest, kind));
        assert(publish_model(reads, kind) =~= lines + terminal_model(kind));
    }
}

/// Law: over a whole byte stream each of whose lines is valid UTF-8, the
/// publisher emits one `Line` event per source line, carrying its decoded
/// text, in source order, then the terminal events of its kind.
pub proof fn lemma_publisher_covers_stream(bytes: Seq<u8>, kind: StreamKind)
    requires
        forall|i: int|
            0 <= i < split_lines_spec(bytes).len() ==> valid_utf8(#[trigger] split_lines_spec(
                bytes,
            )[i]),
    ensures
        publish_model(read_model(bytes), kind) == Seq::new(
            split_lines_spec(bytes).len(),
            |i: int| EventModel::Line(decode_utf8(split_lines_spec(bytes)[i]), kind),
        ) + terminal_model(kind),
{
    lemma_decode_model_all_valid(split_lines_spec(bytes));
    lemma_publisher_emits_every_line(read_model(bytes), kind);
    assert(Seq::new(
        read_model(bytes).len(),
        |i: int| EventModel::Line(line_text(read_model(bytes)[i]), kind),
    ) =~= Seq::new(
        split_lines_spec(bytes).len(),
        |i: int| EventModel::Line(decode_utf8(split_lines_spec(bytes)[i]), kind),
    ));
}

/// When every raw line is valid UTF-8, the reader observes exactly one
/// decoded line per raw line, in order, and no read failure.
pub proof fn lemma_decode_model_all_valid(lines: Seq<Seq<u8>>)
    requires
        forall|i: int| 0 <= i < lines.len() ==> valid_utf8(#[trigger] lines[i]),
    ensures
        crate::reader::decode_model(lines) == Seq::new(
            lines.len(),
            |i: int| ReadModel::Line(decode_utf8(lines[i])),
        ),
    decreases lines.len(),
{
    let expected = Seq::new(lines.len(), |i: int| ReadModel::Line(decode_utf8(lines[i])));
    if lines.len() == 0 {
        assert(crate::reader::decode_model(lines) =~= expected);
    } else {
        let rest = lines.drop_first();
        assert(forall|i: int| 0 <= i < rest.len() ==> valid_utf8(#[trigger] rest[i]));
        lemma_decode_model_all_valid(rest);
        assert(crate::reader::decode_model(lines) =~= expected);
    }
}

} // verus!
