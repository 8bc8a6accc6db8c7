//! The invocation contract of the external agent.

use vstd::prelude::*;
use vstd::utf8::{decode_utf8, encode_utf8_decode_utf8, valid_utf8};
use crate::event::{ActivityEvent, EventModel};
use crate::wire::text_from_utf8;

verus! {

/// File name of the agent binary.
pub open spec fn agent_binary_name() -> Seq<char> {
    "wakatime-cli"@
}

/// The arguments of a tracking invocation: `--plugin <identity>`,
/// `--entity <path>`, and `--write` exactly when the event is a write.
pub open spec fn report_arguments_of(event: EventModel, identity: Seq<char>) -> Seq<Seq<char>> {
    let base = seq!["--plugin"@, identity, "--entity"@, event.entity_path];
    if event.kind.writes() {
        base.push("--write"@)
    } else {
        base
    }
}

/// The arguments of a query for the time tracked today.
pub open spec fn query_arguments_of() -> Seq<Seq<char>> {
    seq!["--today"@]
}

/// The arguments of one agent process. Built afresh for every call.
#[derive(Clone, Debug, PartialEq, Eq)]
pub struct AgentInvocation {
    pub arguments: Vec<String>,
}

impl View for AgentInvocation {
    type V = Seq<Seq<char>>;

    open spec fn view(&self) -> Seq<Seq<char>> {
        self.arguments.deep_view()
    }
}

/// File name of the agent binary.
pub fn agent_binary() -> (name: &'static str)
    ensures
        name@ == agent_binary_name(),
{
    "wakatime-cli"
}

impl AgentInvocation {
    /// The invocation that reports `event` on behalf of `identity`.
    pub fn report(event: &ActivityEvent, identity: &str) -> (invocation: AgentInvocation)
        ensures
            invocation@ == report_arguments_of(event@, identity@),
    {
        let mut arguments: Vec<String> = Vec::new();
        arguments.push(String::from_str("--plugin"));
        arguments.push(String::from_str(identity));
        arguments.push(String::from_str("--entity"));
        arguments.push(event.entity_path.clone());
        if event.is_write() {
            arguments.push(String::from_str("--write"));
        }
        let invocation = AgentInvocation { arguments };
        assert(invocation@ =~= report_arguments_of(event@, identity@));
        invocation
    }

    /// The invocation that asks the agent for the time tracked today.
    pub fn query_today() -> (invocation: AgentInvocation)
        ensures
            invocation@ == query_arguments_of(),
    {
        let mut arguments: Vec<String> = Vec::new();
        arguments.push(String::from_str("--today"));
        let invocation = AgentInvocation { arguments };
        assert(invocation@ =~= query_arguments_of());
        invocation
    }
}

/// Why an agent invocation did not do its work. None of these ends the
/// session: the caller logs the error and goes on.
#[derive(Clone, Copy, Debug, PartialEq, Eq, Structural)]
pub enum InvocationError {
    /// The agent process could not be started.
    Spawn,
    /// The agent exited with a status other than 0, or without one.
    Exit(Option<i32>),
    /// The agent printed nothing.
    EmptyOutput,
    /// The first line the agent printed is not UTF-8.
    Decode,
}

/// How a tracking invocation ended.
#[derive(Clone, Copy, Debug, PartialEq, Eq, Structural)]
pub enum ProcessOutcome {
    /// The process could not be started.
    SpawnFailed,
    /// The process ran and ended, with its exit status where it has one.
    Exited(Option<i32>),
}

/// How a query invocation ended.
#[derive(Clone, Debug, PartialEq, Eq)]
pub enum QueryOutcome {
    /// The process could not be started.
    SpawnFailed,
    /// The process ran; what it wrote to standard output.
    Output(Vec<u8>),
}

/// Mathematical model of a [`QueryOutcome`].
pub enum QueryOutcomeModel {
    SpawnFailed,
    Output(Seq<u8>),
}

impl View for QueryOutcome {
    type V = QueryOutcomeModel;

    open spec fn view(&self) -> QueryOutcomeModel {
        match self {
            QueryOutcome::SpawnFailed => QueryOutcomeModel::SpawnFailed,
            QueryOutcome::Output(bytes) => QueryOutcomeModel::Output(bytes@),
        }
    }
}

/// A tracking invocation succeeded exactly if the agent exited with
/// status 0.
pub open spec fn report_result_of(outcome: ProcessOutcome) -> Result<(), InvocationError> {
    match outcome {
        ProcessOutcome::SpawnFailed => Err(InvocationError::Spawn),
        ProcessOutcome::Exited(Some(0)) => Ok(()),
        ProcessOutcome::Exited(status) => Err(InvocationError::Exit(status)),
    }
}

/// Whether the first line of `bytes` ends before index `end`: no line feed
/// stands before it, and a line feed or the end of the output stands at it.
pub open spec fn is_line_end(bytes: Seq<u8>, end: int) -> bool {
    &&& 0 <= end <= bytes.len()
    &&& forall|i: int| 0 <= i < end ==> bytes[i] != 0x0A
    &&& end < bytes.len() ==> bytes[end] == 0x0A
}

/// Where the first line of `bytes` ends.
pub open spec fn line_end(bytes: Seq<u8>) -> int {
    choose|end: int| is_line_end(bytes, end)
}

/// The first line of `bytes`, without its line ending: the bytes before the
/// first line feed, less a carriage return that stands directly before that
/// line feed; the whole output where it holds no line feed.
pub open spec fn first_line_of(bytes: Seq<u8>) -> Seq<u8> {
    let end = line_end(bytes);
    if 0 < end < bytes.len() && bytes[end - 1] == 0x0D {
        bytes.subrange(0, end - 1)
    } else {
        bytes.subrange(0, end)
    }
}

/// What a query yields from what the agent printed: the first line as text.
/// Empty output and a first line that is not UTF-8 are errors.
pub open spec fn output_result_of(output: Seq<u8>) -> Result<Seq<char>, InvocationError> {
    if output.len() == 0 {
        Err(InvocationError::EmptyOutput)
    } else if !valid_utf8(first_line_of(output)) {
        Err(InvocationError::Decode)
    } else {
        Ok(decode_utf8(first_line_of(output)))
    }
}

/// What a query yields: the first line the agent printed, or the reason
/// there is none.
pub open spec fn query_result_of(outcome: QueryOutcomeModel) -> Result<
    Seq<char>,
    InvocationError,
> {
    match outcome {
        QueryOutcomeModel::SpawnFailed => Err(InvocationError::Spawn),
        QueryOutcomeModel::Output(bytes) => output_result_of(bytes),
    }
}

/// The view of a query's result.
pub open spec fn text_result(result: Result<String, InvocationError>) -> Result<
    Seq<char>,
    InvocationError,
> {
    match result {
        Ok(text) => Ok(text@),
        Err(e) => Err(e),
    }
}

/// A line has exactly one end.
pub proof fn line_end_is_unique(bytes: Seq<u8>, end: int)
    requires
        is_line_end(bytes, end),
    ensures
        line_end(bytes) == end,
{
    let chosen = line_end(bytes);
    assert(is_line_end(bytes, chosen));
    if chosen < end {
        assert(bytes[chosen] != 0x0A);
    } else if end < chosen {
        assert(bytes[end] != 0x0A);
    }
}

/// Concludes a tracking invocation: success exactly on exit status 0.
pub fn report_result(outcome: ProcessOutcome) -> (result: Result<(), InvocationError>)
    ensures
        result == report_result_of(outcome),
{
    match outcome {
        ProcessOutcome::SpawnFailed => Err(InvocationError::Spawn),
        ProcessOutcome::Exited(Some(status)) => {
            if status == 0 {
                Ok(())
            } else {
                Err(InvocationError::Exit(Some(status)))
            }
        },
        ProcessOutcome::Exited(None) => Err(InvocationError::Exit(None)),
    }
}

/// Takes the first line out of what the agent printed.
pub fn first_line(output: &Vec<u8>) -> (result: Result<String, InvocationError>)
    ensures
        text_result(result) == output_result_of(output@),
{
    let len = output.len();
    if len == 0 {
        return Err(InvocationError::EmptyOutput);
    }
    let mut end: usize = 0;
    while end < len && output[end] != 0x0A
        invariant
            len == output@.len(),
            end <= len,
            forall|i: int| 0 <= i < end ==> output@[i] != 0x0A,
        decreases len - end,
    {
        end += 1;
    }
    proof {
        line_end_is_unique(output@, end as int);
    }
    let stop: usize = if 0 < end && end < len && output[end - 1] == 0x0D {
        end - 1
    } else {
        end
    };
    let mut line: Vec<u8> = Vec::new();
    let mut i: usize = 0;
    while i < stop
        invariant
            i <= stop <= len,
            len == output@.len(),
            line@ == output@.subrange(0, i as int),
        decreases stop - i,
    {
        line.push(output[i]);
        i += 1;
        assert(line@ =~= output@.subrange(0, i as int));
    }
    assert(line@ == first_line_of(output@));
    match text_from_utf8(line) {
        Some(text) => {
            proof {
                encode_utf8_decode_utf8(text@);
            }
            Ok(text)
        },
        None => Err(InvocationError::Decode),
    }
}

/// Concludes a query invocation: the first line the agent printed, or the
/// reason there is none.
pub fn query_result(outcome: &QueryOutcome) -> (result: Result<String, InvocationError>)
    ensures
        text_result(result) == query_result_of(outcome@),
{
    match outcome {
        QueryOutcome::SpawnFailed => Err(InvocationError::Spawn),
        QueryOutcome::Output(bytes) => first_line(bytes),
    }
}

} // verus!
