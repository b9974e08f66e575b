//! The session controller: how a user request becomes the exact command
//! line of one external-tool invocation, and how an invocation's end is
//! decided against the shared slot.
//!
//! The prompt is the prior context lines, each followed by a newline, under
//! a fixed header and separated from the message by a blank line — or the
//! message alone when there is no context. The command line is fixed:
//! non-interactive execution, workspace-write sandbox, no repository
//! check, the working directory, and the prompt as the sole positional
//! argument.

use vstd::prelude::*;
use vstd::string::StringExecFns;

use crate::events::{EventModel, OutputEvent, StreamKind};
use crate::publisher::terminal_model;
use crate::supervisor::{AppState, ProcessHandle};

verus! {

/// The context block: every prior context line followed by a newline.
pub open spec fn context_block(context: Seq<Seq<char>>) -> Seq<char>
    decreases context.len(),
{
    if context.len() == 0 {
        Seq::empty()
    } else {
        context_block(context.drop_last()) + context.last() + "\n"@
    }
}

/// The full prompt of a request: the message alone without context,
/// otherwise the headed context block, a blank line, and the message.
pub open spec fn prompt_model(message: Seq<char>, context: Seq<Seq<char>>) -> Seq<char> {
    if context.len() == 0 {
        message
    } else {
        "Previous context:\n"@ + context_block(context) + "\n"@ + message
    }
}

/// Builds the prompt of a request.
#[verifier::loop_isolation(false)]
pub fn build_prompt(message: &str, context: &Vec<String>) -> (r: String)
    ensures
        r@ == prompt_model(message@, context.deep_view()),
{
    let ghost ctx = context.deep_view();
    let mut prompt = String::new();
    if context.len() > 0 {
        prompt.append("Previous context:\n");
        let mut i: usize = 0;
        proof {
            assert(ctx.subrange(0, 0) =~= Seq::<Seq<char>>::empty());
            assert(prompt@ =~= "Previous context:\n"@ + context_block(ctx.subrange(0, 0)));
        }
        while i < context.len()
            invariant
                i <= context.len(),
                prompt@ == "Previous context:\n"@ + context_block(ctx.subrange(0, i as int)),
            decreases context.len() - i,
        {
            proof {
                assert(context@[i as int]@ == ctx[i as int]);
            }
            prompt.append(context[i].as_str());
            prompt.append("\n");
            proof {
                let done = ctx.subrange(0, i + 1);
                assert(done.drop_last() =~= ctx.subrange(0, i as int));
                assert(done.last() == ctx[i as int]);
                assert(prompt@ =~= "Previous context:\n"@ + context_block(done));
            }
            i = i + 1;
        }
        proof {
            assert(ctx.subrange(0, ctx.len() as int) =~= ctx);
        }
        prompt.append("\n");
    }
    prompt.append(message);
    proof {
        if ctx.len() == 0 {
            assert(prompt@ =~= message@);
        }
    }
    prompt
}

/// The external program this library supervises.
pub fn codex_program() -> (r: String)
    ensures
        r@ == "codex"@,
{
    String::from_str("codex")
}

/// The arguments of a version probe.
pub fn version_args() -> (r: Vec<String>)
    ensures
        r.deep_view() == seq!["--version"@],
{
    let mut args: Vec<String> = Vec::new();
    args.push(String::from_str("--version"));
    proof {
        assert(args.deep_view() =~= seq!["--version"@]);
    }
    args
}

/// The arguments of one send invocation: non-interactive execution under
/// the workspace-write sandbox, no repository check, the working directory,
/// and the prompt as the sole positional argument.
pub fn exec_args(project_path: &str, prompt: String) -> (r: Vec<String>)
    ensures
        r.deep_view() == seq![
            "exec"@,
            "--sandbox"@,
            "workspace-write"@,
            "--skip-git-repo-check"@,
            "-C"@,
            project_path@,
            prompt@,
        ],
{
    let mut args: Vec<String> = Vec::new();
    args.push(String::from_str("exec"));
    args.push(String::from_str("--sandbox"));
    args.push(String::from_str("workspace-write"));
    args.push(String::from_str("--skip-git-repo-check"));
    args.push(String::from_str("-C"));
    args.push(String::from_str(project_path));
    args.push(prompt);
    proof {
        assert(args.deep_view() =~= seq![
            "exec"@,
            "--sandbox"@,
            "workspace-write"@,
            "--skip-git-repo-check"@,
            "-C"@,
            project_path@,
            args.deep_view()[6],
        ]);
    }
    args
}

/// The whole command line of one send invocation, built from the request.
pub fn plan_send(message: &str, project_path: &str, context: &Vec<String>) -> (r: (String, Vec<
    String,
>))
    ensures
        r.0@ == "codex"@,
        r.1.deep_view() == seq![
            "exec"@,
            "--sandbox"@,
            "workspace-write"@,
            "--skip-git-repo-check"@,
            "-C"@,
            project_path@,
            prompt_model(message@, context.deep_view()),
        ],
{
    let prompt = build_prompt(message, context);
    (codex_program(), exec_args(project_path, prompt))
}

/// The events the session still owes a stream of an invocation when that
/// stream reaches its end: the terminal events of its kind if the
/// invocation is still the active one, and nothing if the session was
/// stopped or replaced in the meantime.
pub open spec fn stream_end_events(slot: AppState, handle: ProcessHandle, kind: StreamKind) -> Seq<
    EventModel,
> {
    if slot.active_process == Some(handle) {
        terminal_model(kind)
    } else {
        Seq::empty()
    }
}

/// The session controller's decision when one stream of an invocation
/// reaches its end: the terminal event is published only if the invocation
/// is still the active one, so a stopped session stays silent. Natural
/// completion of the stdout stream ends the session and clears the slot;
/// the stderr stream's end changes nothing.
pub fn finish_stream(state: &mut AppState, handle: ProcessHandle, kind: StreamKind) -> (r: Option<
    OutputEvent,
>)
    ensures
        (match r {
            Some(event) => seq![event@],
            None => Seq::<EventModel>::empty(),
        }) == stream_end_events(*old(state), handle, kind),
        old(state).active_process == Some(handle) && kind == StreamKind::Stdout
            ==> final(state).active_process is None,
        !(old(state).active_process == Some(handle) && kind == StreamKind::Stdout)
            ==> *final(state) == *old(state),
{
    let still_active = match &state.active_process {
        Some(active) => active.pid == handle.pid,
        None => false,
    };
    if still_active {
        match kind {
            StreamKind::Stdout => {
                state.active_process = None;
                proof {
                    assert(seq![EventModel::Complete] =~= terminal_model(StreamKind::Stdout));
                }
                Some(OutputEvent::Complete)
            },
            StreamKind::Stderr => {
                proof {
                    assert(Seq::<EventModel>::empty() =~= terminal_model(StreamKind::Stderr));
                }
                None
            },
        }
    } else {
        None
    }
}

/// Law: a session stopped before any output publishes nothing afterwards.
/// Once `terminate` has taken the handle — or another install has replaced
/// it — the slot no longer holds it, and the end-of-stream decision for
/// that invocation yields no event on either stream: no `Complete`
/// follows a stop. With no observation buffered at kill time there is no
/// line event either, since every line event answers one buffered
/// observation; lines already buffered remain the one allowed residue.
pub proof fn lemma_stopped_stream_ends_silently(
    slot: AppState,
    handle: ProcessHandle,
    kind: StreamKind,
)
    requires
        slot.active_process != Some(handle),
    ensures
        stream_end_events(slot, handle, kind) == Seq::<EventModel>::empty(),
{
}

} // verus!
