//! The line reader: turns a finite byte stream into the sequence of
//! observations a stream publisher consumes.
//!
//! Splitting follows the buffered-reader convention: a line ends at a
//! newline byte, the terminator is stripped, and a carriage return directly
//! before the newline is stripped with it; a final unterminated segment is a
//! line of its own, and an empty stream has no lines. Decoding is UTF-8 with
//! a stop-on-error policy: the first line that is not valid UTF-8 ends the
//! observation sequence with a read failure.

use vstd::prelude::*;
use vstd::utf8::{decode_utf8, valid_utf8};

use crate::events::{ReadEvent, ReadModel};

verus! {

/// Line splitting, stated as a scan: `pending` is the current line read so
/// far, `rest` the bytes not yet examined. A newline closes the pending
/// line, stripping one carriage return directly before it; whatever is
/// pending when the stream ends is a final line, unless it is empty.
pub open spec fn split_from(pending: Seq<u8>, rest: Seq<u8>) -> Seq<Seq<u8>>
    decreases rest.len(),
{
    if rest.len() == 0 {
        if pending.len() == 0 {
            Seq::empty()
        } else {
            seq![pending]
        }
    } else if rest[0] == 10u8 {
        seq![strip_cr(pending)] + split_from(Seq::empty(), rest.drop_first())
    } else {
        split_from(pending.push(rest[0]), rest.drop_first())
    }
}

/// One carriage return at the end of a newline-terminated line is part of
/// the terminator and is stripped with it.
pub open spec fn strip_cr(line: Seq<u8>) -> Seq<u8> {
    if line.len() > 0 && line.last() == 13u8 {
        line.drop_last()
    } else {
        line
    }
}

/// The lines of a whole byte stream.
pub open spec fn split_lines_spec(bytes: Seq<u8>) -> Seq<Seq<u8>> {
    split_from(Seq::empty(), bytes)
}

/// The observations a reader makes of a sequence of raw lines: each valid
/// UTF-8 line is decoded; the first invalid line becomes a read failure
/// that ends the sequence.
pub open spec fn decode_model(lines: Seq<Seq<u8>>) -> Seq<ReadModel>
    decreases lines.len(),
{
    if lines.len() == 0 {
        Seq::empty()
    } else if valid_utf8(lines[0]) {
        seq![ReadModel::Line(decode_utf8(lines[0]))] + decode_model(lines.drop_first())
    } else {
        seq![ReadModel::ReadError]
    }
}

/// The full reader: what a publisher observes of a byte stream.
pub open spec fn read_model(bytes: Seq<u8>) -> Seq<ReadModel> {
    decode_model(split_lines_spec(bytes))
}

/// Relies on `String::from_utf8`: returns the decoded string exactly when
/// the bytes are a valid UTF-8 encoding, and an error value otherwise.
#[verifier::external_body]
fn utf8_line(bytes: &Vec<u8>) -> (r: Option<String>)
    ensures
        r is Some <==> valid_utf8(bytes@),
        r matches Some(s) ==> s@ == decode_utf8(bytes@),
{
    String::from_utf8(bytes.clone()).ok()
}

/// Splits a byte stream into its raw lines.
pub fn split_lines(bytes: &[u8]) -> (r: Vec<Vec<u8>>)
    ensures
        r.deep_view() == split_lines_spec(bytes@),
{
    let mut out: Vec<Vec<u8>> = Vec::new();
    let mut pending: Vec<u8> = Vec::new();
    let mut i: usize = 0;
    proof {
        assert(out.deep_view() =~= Seq::<Seq<u8>>::empty());
        assert(bytes@.subrange(0, bytes@.len() as int) =~= bytes@);
    }
    while i < bytes.len()
        invariant
            i <= bytes.len(),
            split_lines_spec(bytes@) == out.deep_view() + split_from(
                pending@,
                bytes@.subrange(i as int, bytes@.len() as int),
            ),
        decreases bytes.len() - i,
    {
        let ghost rest = bytes@.subrange(i as int, bytes@.len() as int);
        proof {
            assert(rest.drop_first() =~= bytes@.subrange(i + 1, bytes@.len() as int));
            assert(rest[0] == bytes@[i as int]);
        }
        let b = bytes[i];
        if b == 10u8 {
            if pending.len() > 0 && pending[pending.len() - 1] == 13u8 {
                let ghost with_cr = pending@;
                pending.pop();
                proof {
                    assert(pending@ =~= strip_cr(with_cr));
                    assert(split_from(with_cr, rest) == seq![strip_cr(with_cr)] + split_from(
                        Seq::empty(),
                        rest.drop_first(),
                    ));
                    assert(seq![strip_cr(with_cr)] =~= seq![pending@]);
                }
            } else {
                proof {
                    assert(strip_cr(pending@) =~= pending@);
                }
            }
            let ghost before = out.deep_view();
            let ghost line = pending@;
            out.push(pending);
            pending = Vec::new();
            proof {
                assert(out.deep_view() =~~= before.push(line));
                assert(before.push(line) + split_from(pending@, rest.drop_first()) =~~= before + (
                seq![line] + split_from(pending@, rest.drop_first())));
            }
        } else {
            pending.push(b);
        }
        i = i + 1;
    }
    proof {
        assert(bytes@.subrange(bytes@.len() as int, bytes@.len() as int) =~= Seq::<u8>::empty());
    }
    if pending.len() > 0 {
        let ghost before = out.deep_view();
        let ghost line = pending@;
        out.push(pending);
        proof {
            assert(out.deep_view() =~~= before.push(line));
            assert(before.push(line) =~~= before + seq![line]);
        }
    } else {
        proof {
            assert(out.deep_view() + Seq::<Seq<u8>>::empty() =~= out.deep_view());
        }
    }
    out
}

/// Decodes raw lines into reader observations, stopping at the first line
/// that is not valid UTF-8.
pub fn decode_lines(lines: &Vec<Vec<u8>>) -> (r: Vec<ReadEvent>)
    ensures
        r.deep_view() == decode_model(lines.deep_view()),
{
    let ghost all = lines.deep_view();
    let mut out: Vec<ReadEvent> = Vec::new();
    let mut i: usize = 0;
    proof {
        assert(out.deep_view() =~= Seq::<ReadModel>::empty());
        assert(all.subrange(0, all.len() as int) =~= all);
    }
    while i < lines.len()
        invariant
            i <= lines.len(),
            all == lines.deep_view(),
            decode_model(all) == out.deep_view() + decode_model(
                all.subrange(i as int, all.len() as int),
            ),
        decreases lines.len() - i,
    {
        let ghost rest = all.subrange(i as int, all.len() as int);
        proof {
            assert(rest[0] == all[i as int]);
            assert(rest.drop_first() =~= all.subrange(i + 1, all.len() as int));
            assert(all[i as int] == lines@[i as int].deep_view());
            assert(lines@[i as int].deep_view() =~= lines@[i as int]@);
        }
        let ghost before = out.deep_view();
        match utf8_line(&lines[i]) {
            Some(text) => {
                out.push(ReadEvent::Line(text));
                proof {
                    assert(out.deep_view() =~= before.push(ReadModel::Line(decode_utf8(
                        all[i as int],
                    ))));
                    assert(before.push(ReadModel::Line(decode_utf8(all[i as int]))) + decode_model(
                        rest.drop_first(),
                    ) =~= before + (seq![ReadModel::Line(decode_utf8(all[i as int]))]
                        + decode_model(rest.drop_first())));
                }
            },
            None => {
                out.push(ReadEvent::ReadError);
                proof {
                    assert(out.deep_view() =~= before.push(ReadModel::ReadError));
                    assert(before.push(ReadModel::ReadError) =~= before
                        + seq![ReadModel::ReadError]);
                }
                return out;
            },
        }
        i = i + 1;
    }
    proof {
        assert(all.subrange(all.len() as int, all.len() as int) =~= Seq::<Seq<u8>>::empty());
        assert(out.deep_view() + Seq::<ReadModel>::empty() =~= out.deep_view());
    }
    out
}

/// The whole line reader: the observation sequence of a byte stream.
pub fn read_lines(bytes: &[u8]) -> (r: Vec<ReadEvent>)
    ensures
        r.deep_view() == read_model(bytes@),
{
    let raw = split_lines(bytes);
    decode_lines(&raw)
}

} // verus!
