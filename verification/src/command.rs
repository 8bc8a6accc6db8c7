//! The workspace commands and what each asks of the host and the agent.

use vstd::prelude::*;
use serde_json::Value;
use crate::invoker::{text_result, AgentInvocation, InvocationError};
use crate::message::CommandCall;
use crate::text::same_text;

verus! {

/// Name of the command that opens the web dashboard.
pub open spec fn open_dashboard_name() -> Seq<char> {
    "open_dashboard"@
}

/// Name of the command that shows the time tracked today.
pub open spec fn show_time_past_name() -> Seq<char> {
    "show_time_past"@
}

/// Address of the web dashboard.
pub open spec fn dashboard_url() -> Seq<char> {
    "https://wakatime.com/dashboard"@
}

/// The diagnostic sent to the host for a command that is not known.
pub open spec fn unknown_command_text(name: Seq<char>) -> Seq<char> {
    "Unknown workspace command received: `"@ + name + "`"@
}

/// Which workspace command a name stands for.
#[derive(Clone, Debug, PartialEq, Eq)]
pub enum CommandKind {
    OpenDashboard,
    ShowTimePast,
    /// Any other name, kept for the diagnostic.
    Unknown(String),
}

/// Mathematical model of a [`CommandKind`].
pub enum CommandKindModel {
    OpenDashboard,
    ShowTimePast,
    Unknown(Seq<char>),
}

impl View for CommandKind {
    type V = CommandKindModel;

    open spec fn view(&self) -> CommandKindModel {
        match self {
            CommandKind::OpenDashboard => CommandKindModel::OpenDashboard,
            CommandKind::ShowTimePast => CommandKindModel::ShowTimePast,
            CommandKind::Unknown(name) => CommandKindModel::Unknown(name@),
        }
    }
}

/// The command a name stands for: one of the two known commands on an exact
/// match, `Unknown` with the name otherwise.
pub open spec fn command_kind_of(name: Seq<char>) -> CommandKindModel {
    if name == open_dashboard_name() {
        CommandKindModel::OpenDashboard
    } else if name == show_time_past_name() {
        CommandKindModel::ShowTimePast
    } else {
        CommandKindModel::Unknown(name)
    }
}

/// A workspace command as the host invoked it.
#[derive(Debug, PartialEq)]
pub struct Command {
    pub kind: CommandKind,
    /// The arguments the host sent along. No command reads them.
    pub parameters: Vec<Value>,
}

/// How urgent a message to the host is.
#[derive(Clone, Copy, Debug, PartialEq, Eq, Structural)]
pub enum MessageLevel {
    Error,
    Warning,
    Info,
    Log,
}

/// Something the server asks of the host.
#[derive(Clone, Debug, PartialEq, Eq)]
pub enum Directive {
    /// Show the resource at `uri`; outside the editor where `external`.
    ShowDocument { uri: String, external: bool },
    /// Put `text` into the host's log at `level`.
    LogMessage { level: MessageLevel, text: String },
}

/// Mathematical model of a [`Directive`].
pub enum DirectiveModel {
    ShowDocument { uri: Seq<char>, external: bool },
    LogMessage { level: MessageLevel, text: Seq<char> },
}

impl View for Directive {
    type V = DirectiveModel;

    open spec fn view(&self) -> DirectiveModel {
        match self {
            Directive::ShowDocument { uri, external } => DirectiveModel::ShowDocument {
                uri: uri@,
                external: *external,
            },
            Directive::LogMessage { level, text } => DirectiveModel::LogMessage {
                level: *level,
                text: text@,
            },
        }
    }
}

/// Why a command failed.
#[derive(Clone, Copy, Debug, PartialEq, Eq, Structural)]
pub enum CommandError {
    /// The directive could not be delivered to the host.
    Delivery,
    /// The agent could not be queried.
    Internal(InvocationError),
}

/// What a command needs done first.
#[derive(Clone, Debug, PartialEq, Eq)]
pub enum CommandStep {
    /// Deliver the directive to the host, then conclude with
    /// [`conclude`].
    Deliver(Directive),
    /// Run the agent, hand what it printed to [`relay_time_past`], and
    /// deliver the directive that comes back.
    Query(AgentInvocation),
}

/// Mathematical model of a [`CommandStep`].
pub enum CommandStepModel {
    Deliver(DirectiveModel),
    Query(Seq<Seq<char>>),
}

impl View for CommandStep {
    type V = CommandStepModel;

    open spec fn view(&self) -> CommandStepModel {
        match self {
            CommandStep::Deliver(directive) => CommandStepModel::Deliver(directive@),
            CommandStep::Query(invocation) => CommandStepModel::Query(invocation@),
        }
    }
}

/// The first step of each command: the dashboard is shown as an external
/// resource, the time tracked is asked of the agent, and a command that is
/// not known is reported to the host at error level.
pub open spec fn first_step_of(kind: CommandKindModel) -> CommandStepModel {
    match kind {
        CommandKindModel::OpenDashboard => CommandStepModel::Deliver(
            DirectiveModel::ShowDocument { uri: dashboard_url(), external: true },
        ),
        CommandKindModel::ShowTimePast => CommandStepModel::Query(
            crate::invoker::query_arguments_of(),
        ),
        CommandKindModel::Unknown(name) => CommandStepModel::Deliver(
            DirectiveModel::LogMessage {
                level: MessageLevel::Error,
                text: unknown_command_text(name),
            },
        ),
    }
}

/// What is relayed to the host once the agent was queried: the time as an
/// informational message, or an internal failure and no message at all.
pub open spec fn relay_of(queried: Result<Seq<char>, InvocationError>) -> Result<
    DirectiveModel,
    CommandError,
> {
    match queried {
        Ok(text) => Ok(DirectiveModel::LogMessage { level: MessageLevel::Info, text }),
        Err(e) => Err(CommandError::Internal(e)),
    }
}

/// The view of a relay's result.
pub open spec fn relay_view(relay: Result<Directive, CommandError>) -> Result<
    DirectiveModel,
    CommandError,
> {
    match relay {
        Ok(directive) => Ok(directive@),
        Err(e) => Err(e),
    }
}

impl CommandKind {
    /// Reads a command name.
    pub fn parse(name: String) -> (kind: CommandKind)
        ensures
            kind@ == command_kind_of(name@),
    {
        if same_text(name.as_str(), "open_dashboard") {
            CommandKind::OpenDashboard
        } else if same_text(name.as_str(), "show_time_past") {
            CommandKind::ShowTimePast
        } else {
            CommandKind::Unknown(name)
        }
    }
}

impl Command {
    /// Reads the command that an execute-command request names.
    pub fn from_call(call: CommandCall) -> (command: Command)
        ensures
            command.kind@ == command_kind_of(call.name@),
            command.parameters == call.arguments,
    {
        Command { kind: CommandKind::parse(call.name), parameters: call.arguments }
    }

    /// Decides what the command needs done first.
    pub fn execute(&self) -> (step: CommandStep)
        ensures
            step@ == first_step_of(self.kind@),
    {
        match &self.kind {
            CommandKind::OpenDashboard => CommandStep::Deliver(
                Directive::ShowDocument {
                    uri: String::from_str("https://wakatime.com/dashboard"),
                    external: true,
                },
            ),
            CommandKind::ShowTimePast => CommandStep::Query(AgentInvocation::query_today()),
            CommandKind::Unknown(name) => {
                let mut text = String::from_str("Unknown workspace command received: `");
                text.append(name.as_str());
                text.append("`");
                CommandStep::Deliver(Directive::LogMessage { level: MessageLevel::Error, text })
            },
        }
    }
}

/// Turns what the agent answered into the message for the host.
pub fn relay_time_past(queried: Result<String, InvocationError>) -> (relay: Result<
    Directive,
    CommandError,
>)
    ensures
        relay_view(relay) == relay_of(text_result(queried)),
{
    match queried {
        Ok(text) => Ok(Directive::LogMessage { level: MessageLevel::Info, text }),
        Err(e) => Err(CommandError::Internal(e)),
    }
}

/// Concludes a command once its directive went out: success without a
/// value where the host took it, a delivery failure where it did not.
pub fn conclude(delivered: bool) -> (result: Result<Option<Value>, CommandError>)
    ensures
        delivered ==> result == Ok::<Option<Value>, CommandError>(None),
        !delivered ==> result == Err::<Option<Value>, CommandError>(CommandError::Delivery),
{
    if delivered {
        Ok(None)
    } else {
        Err(CommandError::Delivery)
    }
}

} // verus!
