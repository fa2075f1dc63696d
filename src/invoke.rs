use vstd::prelude::*;

use crate::json::{lemma_lookup_at, member, members, string_member, Json};

verus! {

/// Why a hook invocation failed.
#[derive(Debug, PartialEq)]
pub enum HookError {
    /// The hook process could not be started.
    Spawn(String),
    /// The envelope could not be written to the hook's input.
    Write(String),
    /// Waiting for the hook to exit failed.
    Wait(String),
    /// The hook exited with a failure status; this is what it wrote to its
    /// error stream.
    Failed(String),
}

/// The text that reports an invocation error.
pub open spec fn error_text(e: HookError) -> Seq<char> {
    match e {
        HookError::Spawn(c) => "Failed to start Python: "@ + c@,
        HookError::Write(c) => "Failed to write to stdin: "@ + c@,
        HookError::Wait(c) => "Failed to wait for process: "@ + c@,
        HookError::Failed(stderr) => "Hook failed: "@ + stderr@,
    }
}

fn prefixed(prefix: &str, detail: &String) -> (r: String)
    ensures
        r@ == prefix@ + detail@,
{
    let mut out = String::from_str(prefix);
    out.append(detail.as_str());
    out
}

impl HookError {
    /// The text that reports this error, its cause or the hook's error output
    /// after a fixed prefix.
    pub fn message(&self) -> (r: String)
        ensures
            r@ == error_text(*self),
    {
        match self {
            HookError::Spawn(c) => prefixed("Failed to start Python: ", c),
            HookError::Write(c) => prefixed("Failed to write to stdin: ", c),
            HookError::Wait(c) => prefixed("Failed to wait for process: ", c),
            HookError::Failed(stderr) => prefixed("Hook failed: ", stderr),
        }
    }
}

/// Wraps what is sent to the hook with the pipeline stage it is for:
/// `{"stage": stage, "hook_input": hook_input}`.
pub fn envelope(stage: &str, hook_input: Json) -> (r: Json)
    ensures
        members(r) matches Some(fs) && fs.len() == 2 && fs[0].0@ == "stage"@ && fs[1].0@
            == "hook_input"@,
        string_member(r, "stage"@) == Some(stage@),
        member(r, "hook_input"@) == Some(hook_input),
{
    let fields = vec![
        (String::from_str("stage"), Json::Str(String::from_str(stage))),
        (String::from_str("hook_input"), hook_input),
    ];
    proof {
        reveal_strlit("stage");
        reveal_strlit("hook_input");
        assert("stage"@[0] != "hook_input"@[0]);
        lemma_lookup_at(fields@, "stage"@, 0);
        lemma_lookup_at(fields@, "hook_input"@, 1);
    }
    Json::Obj(fields)
}

/// The result of an invocation whose process ran to its end: its output when
/// it exited successfully, else an error that carries its error output.
pub fn hook_outcome(success: bool, stdout: String, stderr: String) -> (r: Result<String, HookError>)
    ensures
        success ==> r == Ok::<String, HookError>(stdout),
        !success ==> r == Err::<String, HookError>(HookError::Failed(stderr)),
{
    if success {
        Ok(stdout)
    } else {
        Err(HookError::Failed(stderr))
    }
}

/// Where a single invocation stands.
#[derive(Debug, PartialEq)]
pub enum InvokeState {
    /// The hook process is to be started.
    Start,
    /// The process runs; the envelope is to be written to its input.
    Started,
    /// The input is written and closed; the process is to be waited for.
    InputClosed,
    /// The invocation is over.
    Done,
}

/// What the outside world reports after an action.
#[derive(Debug, PartialEq)]
pub enum InvokeEvent {
    Spawned,
    SpawnFailed(String),
    /// The whole envelope was written and the input stream closed.
    InputWritten,
    WriteFailed(String),
    Exited { success: bool, stdout: String, stderr: String },
    WaitFailed(String),
}

/// What to do next.
#[derive(Debug, PartialEq)]
pub enum InvokeAction {
    /// Start the hook process with its three streams redirected.
    Spawn,
    /// Write the envelope to the process's input, then close it.
    WriteAndClose,
    /// Wait for the process to exit, collecting its output and error streams.
    Wait,
    /// Release the process and hand this result to the caller.
    Finish(Result<String, HookError>),
}

/// Whether `event` can answer the action that led to `state`.
pub open spec fn answers(state: InvokeState, event: InvokeEvent) -> bool {
    match state {
        InvokeState::Start => event is Spawned || event is SpawnFailed,
        InvokeState::Started => event is InputWritten || event is WriteFailed,
        InvokeState::InputClosed => event is Exited || event is WaitFailed,
        InvokeState::Done => false,
    }
}

/// How an invocation begins: nothing has happened, and the process is to be
/// started.
pub fn invocation_start() -> (r: (InvokeState, InvokeAction))
    ensures
        r == (InvokeState::Start, InvokeAction::Spawn),
{
    (InvokeState::Start, InvokeAction::Spawn)
}

/// One step of an invocation. The input is written and closed before the
/// process is waited for; each failure ends the invocation with its error at
/// once, and nothing is tried twice.
pub fn invocation_step(state: InvokeState, event: InvokeEvent) -> (r: (InvokeState, InvokeAction))
    requires
        answers(state, event),
    ensures
        r.0 == InvokeState::Done <==> r.1 is Finish,
        match (state, event) {
            (InvokeState::Start, InvokeEvent::Spawned) => r == (
                InvokeState::Started,
                InvokeAction::WriteAndClose,
            ),
            (InvokeState::Start, InvokeEvent::SpawnFailed(c)) => r == (
                InvokeState::Done,
                InvokeAction::Finish(Err(HookError::Spawn(c))),
            ),
            (InvokeState::Started, InvokeEvent::InputWritten) => r == (
                InvokeState::InputClosed,
                InvokeAction::Wait,
            ),
            (InvokeState::Started, InvokeEvent::WriteFailed(c)) => r == (
                InvokeState::Done,
                InvokeAction::Finish(Err(HookError::Write(c))),
            ),
            (InvokeState::InputClosed, InvokeEvent::Exited { success, stdout, stderr }) => r == (
                InvokeState::Done,
                InvokeAction::Finish(
                    if success {
                        Ok::<String, HookError>(stdout)
                    } else {
                        Err::<String, HookError>(HookError::Failed(stderr))
                    },
                ),
            ),
            (InvokeState::InputClosed, InvokeEvent::WaitFailed(c)) => r == (
                InvokeState::Done,
                InvokeAction::Finish(Err(HookError::Wait(c))),
            ),
            _ => false,
        },
{
    match (state, event) {
        (InvokeState::Start, InvokeEvent::Spawned) => (
            InvokeState::Started,
            InvokeAction::WriteAndClose,
        ),
        (InvokeState::Start, InvokeEvent::SpawnFailed(c)) => (
            InvokeState::Done,
            InvokeAction::Finish(Err(HookError::Spawn(c))),
        ),
        (InvokeState::Started, InvokeEvent::InputWritten) => (
            InvokeState::InputClosed,
            InvokeAction::Wait,
        ),
        (InvokeState::Started, InvokeEvent::WriteFailed(c)) => (
            InvokeState::Done,
            InvokeAction::Finish(Err(HookError::Write(c))),
        ),
        (InvokeState::InputClosed, InvokeEvent::Exited { success, stdout, stderr }) => (
            InvokeState::Done,
            InvokeAction::Finish(hook_outcome(success, stdout, stderr)),
        ),
        (InvokeState::InputClosed, InvokeEvent::WaitFailed(c)) => (
            InvokeState::Done,
            InvokeAction::Finish(Err(HookError::Wait(c))),
        ),
        _ => vstd::pervasive::unreached(),
    }
}

} // verus!
