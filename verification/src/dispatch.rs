//! The dispatcher: routes each inbound message to its handler and says
//! what is to be done about it.
//!
//! A handler decides; it performs nothing. What it decides comes back as an
//! [`Action`] for the embedding program, which reports the outcome of the
//! actions that have one to the matching `finish_` function.

use vstd::prelude::*;
use lsp_server::RequestId;
use crate::command::{
    command_kind_of, conclude, first_step_of, relay_of, relay_time_past, Command, CommandError,
    CommandKindModel, CommandStep, CommandStepModel, Directive, DirectiveModel,
};
use crate::event::{ActivityEvent, EventKind, EventModel};
use crate::identity::{client_view, ClientInfo, ClientModel};
use serde_json::Value;
use crate::install::InstallError;
use crate::invoker::{
    query_result, query_result_of, report_arguments_of, AgentInvocation, InvocationError,
    QueryOutcome,
};
use crate::message::{
    CommandCall, DecodeError, DecodeErrorModel, DecodeReason, DecodeReasonModel, Message,
    Notification, Request, Response,
};
use crate::text::same_text;
use crate::wire::{
    byte_len, cast_execute_command, client_info_at, client_info_at_of, command_name_in,
    execute_command_method, parse_uri, path_of, text_at, text_at_of, uri_limit, uri_of, uri_path,
    RequestCast,
};
use crate::session::{
    advertised, bootstrap_view, next_session, ready_result_of, Capabilities, CapabilitiesModel,
    InitializeError, InitializeErrorModel, LanguageServer, SessionError, SessionEvent,
    SessionModel, SessionState,
};

verus! {

/// What a request is answered with.
#[derive(Clone, Debug, PartialEq, Eq)]
pub enum Reply {
    /// The initialization succeeded; these capabilities are advertised.
    Capabilities(Capabilities),
    /// Success without a value.
    Empty,
    /// The initialization failed.
    InitializeFailed(InitializeError),
    /// The command failed.
    CommandFailed(CommandError),
    /// The request came while the session was not ready, and was refused.
    NotReady,
}

/// Mathematical model of a [`Reply`].
pub enum ReplyModel {
    Capabilities(CapabilitiesModel),
    Empty,
    InitializeFailed(InitializeErrorModel),
    CommandFailed(CommandError),
    NotReady,
}

impl View for Reply {
    type V = ReplyModel;

    open spec fn view(&self) -> ReplyModel {
        match self {
            Reply::Capabilities(capabilities) => ReplyModel::Capabilities(capabilities@),
            Reply::Empty => ReplyModel::Empty,
            Reply::InitializeFailed(e) => ReplyModel::InitializeFailed(e@),
            Reply::CommandFailed(e) => ReplyModel::CommandFailed(*e),
            Reply::NotReady => ReplyModel::NotReady,
        }
    }
}

/// What the embedding program is to do about a message.
#[derive(Debug, PartialEq)]
pub enum Action {
    /// Answer the request `id` with `reply`.
    Respond { id: RequestId, reply: Reply },
    /// Make the agent available, then report to
    /// [`LanguageServer::finish_initialize`].
    Bootstrap { id: RequestId },
    /// Run the agent with these arguments and conclude with
    /// [`crate::invoker::report_result`]. A failure is logged and goes no
    /// further.
    Report(AgentInvocation),
    /// Send the directive to the host, then report to [`finish_delivery`].
    Deliver { id: RequestId, directive: Directive },
    /// Run the agent with these arguments, then report to [`finish_query`].
    Query { id: RequestId, invocation: AgentInvocation },
    /// Log the host's response. It is not dispatched any further.
    Trace(Response),
}

/// Mathematical model of an [`Action`].
pub enum ActionModel {
    Respond { id: RequestId, reply: ReplyModel },
    Bootstrap { id: RequestId },
    Report(Seq<Seq<char>>),
    Deliver { id: RequestId, directive: DirectiveModel },
    Query { id: RequestId, invocation: Seq<Seq<char>> },
    Trace(Response),
}

impl View for Action {
    type V = ActionModel;

    open spec fn view(&self) -> ActionModel {
        match self {
            Action::Respond { id, reply } => ActionModel::Respond { id: *id, reply: reply@ },
            Action::Bootstrap { id } => ActionModel::Bootstrap { id: *id },
            Action::Report(invocation) => ActionModel::Report(invocation@),
            Action::Deliver { id, directive } => ActionModel::Deliver {
                id: *id,
                directive: directive@,
            },
            Action::Query { id, invocation } => ActionModel::Query {
                id: *id,
                invocation: invocation@,
            },
            Action::Trace(response) => ActionModel::Trace(*response),
        }
    }
}

/// The session once it has handled an initialize request. A session that
/// does not bootstrap becomes ready in the same step.
pub open spec fn session_after_initialize(
    session: SessionModel,
    client: Option<ClientModel>,
) -> SessionModel {
    let started = next_session(session, SessionEvent::Initialize(client));
    if session.state == SessionState::Created && !session.bootstrap {
        next_session(started, SessionEvent::Bootstrapped(true))
    } else {
        started
    }
}

/// What an initialize request leads to: a refusal where the session was
/// started before, the bootstrap where the session asks for one, and the
/// advertisement of the capabilities otherwise.
pub open spec fn initialize_action(session: SessionModel, id: RequestId) -> ActionModel {
    if session.state != SessionState::Created {
        ActionModel::Respond {
            id,
            reply: ReplyModel::InitializeFailed(
                InitializeErrorModel::Session(SessionError::AlreadyStarted),
            ),
        }
    } else if session.bootstrap {
        ActionModel::Bootstrap { id }
    } else {
        ActionModel::Respond { id, reply: ReplyModel::Capabilities(advertised()) }
    }
}

/// The reply that tells the host how concluding the initialization went.
pub open spec fn ready_reply_of(
    ready: Result<CapabilitiesModel, InitializeErrorModel>,
) -> ReplyModel {
    match ready {
        Ok(capabilities) => ReplyModel::Capabilities(capabilities),
        Err(e) => ReplyModel::InitializeFailed(e),
    }
}

/// What a command leads to first.
pub open spec fn command_action(id: RequestId, kind: CommandKindModel) -> ActionModel {
    match first_step_of(kind) {
        CommandStepModel::Deliver(directive) => ActionModel::Deliver { id, directive },
        CommandStepModel::Query(invocation) => ActionModel::Query { id, invocation },
    }
}

/// What a document event leads to: one report to the agent, on behalf of
/// the session's identity.
pub open spec fn document_action(event: EventModel, identity: Seq<char>) -> ActionModel {
    ActionModel::Report(report_arguments_of(event, identity))
}

/// What follows a query: the delivery of the relayed message, or the
/// answer that the command failed.
pub open spec fn query_action(
    id: RequestId,
    queried: Result<Seq<char>, InvocationError>,
) -> ActionModel {
    match relay_of(queried) {
        Ok(directive) => ActionModel::Deliver { id, directive },
        Err(e) => ActionModel::Respond { id, reply: ReplyModel::CommandFailed(e) },
    }
}

/// What follows a delivery: the answer to the command's request.
pub open spec fn delivery_action(id: RequestId, delivered: bool) -> ActionModel {
    ActionModel::Respond {
        id,
        reply: if delivered {
            ReplyModel::Empty
        } else {
            ReplyModel::CommandFailed(CommandError::Delivery)
        },
    }
}

impl LanguageServer {
    /// Handles an initialize request whose payload has been decoded.
    pub fn on_initialize(&mut self, id: RequestId, client: &Option<ClientInfo>) -> (action: Action)
        ensures
            action@ == initialize_action(old(self)@, id),
            final(self)@ == session_after_initialize(old(self)@, client_view(*client)),
    {
        match self.start(client) {
            Err(e) => Action::Respond {
                id,
                reply: Reply::InitializeFailed(InitializeError::Session(e)),
            },
            Ok(_) => {
                if self.bootstraps() {
                    Action::Bootstrap { id }
                } else {
                    self.finish_initialize(id, Ok(()))
                }
            },
        }
    }

    /// Concludes the initialization once the bootstrap ended, and answers
    /// the initialize request.
    pub fn finish_initialize(&mut self, id: RequestId, bootstrap: Result<(), InstallError>) -> (action:
        Action)
        ensures
            action@ == (ActionModel::Respond {
                id,
                reply: ready_reply_of(ready_result_of(old(self)@, bootstrap_view(bootstrap))),
            }),
            final(self)@ == next_session(
                old(self)@,
                SessionEvent::Bootstrapped(bootstrap is Ok),
            ),
    {
        match self.ready(bootstrap) {
            Ok(capabilities) => Action::Respond { id, reply: Reply::Capabilities(capabilities) },
            Err(e) => Action::Respond { id, reply: Reply::InitializeFailed(e) },
        }
    }

    /// Handles a shutdown request: the session shuts down and the request
    /// is answered with success.
    pub fn on_shutdown(&mut self, id: RequestId) -> (action: Action)
        ensures
            action@ == (ActionModel::Respond { id, reply: ReplyModel::Empty }),
            final(self)@ == next_session(old(self)@, SessionEvent::Shutdown),
    {
        self.shutdown();
        Action::Respond { id, reply: Reply::Empty }
    }

    /// Handles a document event whose payload has been decoded.
    pub fn on_document_event(&self, event: &ActivityEvent) -> (action: Action)
        ensures
            action@ == document_action(event@, self@.identity),
    {
        Action::Report(AgentInvocation::report(event, self.identity()))
    }
}

/// Handles an execute-command request whose payload has been decoded.
pub fn on_execute_command(id: RequestId, call: CommandCall) -> (action: Action)
    ensures
        action@ == command_action(id, command_kind_of(call.name@)),
{
    let command = Command::from_call(call);
    match command.execute() {
        CommandStep::Deliver(directive) => Action::Deliver { id, directive },
        CommandStep::Query(invocation) => Action::Query { id, invocation },
    }
}

/// Takes what came of querying the agent for the request `id`.
pub fn finish_query(id: RequestId, outcome: &QueryOutcome) -> (action: Action)
    ensures
        action@ == query_action(id, query_result_of(outcome@)),
{
    match relay_time_past(query_result(outcome)) {
        Ok(directive) => Action::Deliver { id, directive },
        Err(e) => Action::Respond { id, reply: Reply::CommandFailed(e) },
    }
}

/// Takes what came of delivering a directive for the request `id`.
pub fn finish_delivery(id: RequestId, delivered: bool) -> (action: Action)
    ensures
        action@ == delivery_action(id, delivered),
{
    match conclude(delivered) {
        Ok(_) => Action::Respond { id, reply: Reply::Empty },
        Err(e) => Action::Respond { id, reply: Reply::CommandFailed(e) },
    }
}

/// Method name of the initialize request.
pub open spec fn initialize_method() -> Seq<char> {
    "initialize"@
}

/// Method name of the shutdown request.
pub open spec fn shutdown_method() -> Seq<char> {
    "shutdown"@
}

/// Method name of the document-opened notification.
pub open spec fn did_open_method() -> Seq<char> {
    "textDocument/didOpen"@
}

/// Method name of the document-changed notification.
pub open spec fn did_change_method() -> Seq<char> {
    "textDocument/didChange"@
}

/// Method name of the document-closed notification.
pub open spec fn did_close_method() -> Seq<char> {
    "textDocument/didClose"@
}

/// Method name of the document-saved notification.
pub open spec fn did_save_method() -> Seq<char> {
    "textDocument/didSave"@
}

/// The member of an initialize payload that holds the client info.
pub open spec fn client_info_key() -> Seq<char> {
    "clientInfo"@
}

/// The JSON pointer to the document URI in the payload of a document
/// notification.
pub open spec fn document_uri_pointer() -> Seq<char> {
    "/textDocument/uri"@
}

/// The handlers a request can be routed to.
pub enum RequestRoute {
    Initialize,
    Shutdown,
    ExecuteCommand,
    /// The server does not implement the method.
    Unhandled,
}

/// The handler of a request, by exact match of its method name.
pub open spec fn request_route_of(method: Seq<char>) -> RequestRoute {
    if method == initialize_method() {
        RequestRoute::Initialize
    } else if method == shutdown_method() {
        RequestRoute::Shutdown
    } else if method == execute_command_method() {
        RequestRoute::ExecuteCommand
    } else {
        RequestRoute::Unhandled
    }
}

/// The document event that a notification reports, by exact match of its
/// method name; none for every other notification.
pub open spec fn document_kind_of(method: Seq<char>) -> Option<EventKind> {
    if method == did_open_method() {
        Some(EventKind::Opened)
    } else if method == did_change_method() {
        Some(EventKind::Changed)
    } else if method == did_close_method() {
        Some(EventKind::Closed)
    } else if method == did_save_method() {
        Some(EventKind::Saved)
    } else {
        None
    }
}

/// What handling a message came to, as contracts see it: the action, if
/// any, or the decode error.
pub open spec fn outcome_view(result: Result<Option<Action>, DecodeError>) -> Result<
    Option<ActionModel>,
    DecodeErrorModel,
> {
    match result {
        Ok(Some(action)) => Ok(Some(action@)),
        Ok(None) => Ok(None),
        Err(e) => Err(e@),
    }
}

/// The report of an event of `kind` on the document at `path`.
pub open spec fn document_report(path: Seq<char>, kind: EventKind, identity: Seq<char>) -> ActionModel {
    document_action(EventModel { entity_path: path, kind }, identity)
}

/// The path of the document that the payload of a document notification
/// names: the path component of the URI that stands at
/// `/textDocument/uri`. A payload without a string there, a string too
/// long for a URI and a string that is no URI each have no path, for the
/// reason given.
pub open spec fn entity_path_in(params: Value) -> Result<Seq<char>, DecodeReasonModel> {
    match text_at_of(params, document_uri_pointer()) {
        None => Err(DecodeReasonModel::NoUri),
        Some(text) => if byte_len(text) > uri_limit() {
            Err(DecodeReasonModel::OversizedUri)
        } else {
            match uri_of(text) {
                None => Err(DecodeReasonModel::InvalidUri),
                Some(uri) => Ok(path_of(uri)),
            }
        },
    }
}

/// The view of a decoded entity path.
pub open spec fn path_view(decoded: Result<String, DecodeReason>) -> Result<
    Seq<char>,
    DecodeReasonModel,
> {
    match decoded {
        Ok(path) => Ok(path@),
        Err(reason) => Err(reason@),
    }
}

/// What handling a request comes to.
///
/// A request is routed by its method name alone. An initialize request
/// whose client info decodes leads to what the session decides on; a
/// command that comes while the session is not ready is refused unread; a
/// command whose payload decodes leads to the first step of the command it
/// names. A payload that does not decode is an error that names the
/// method. A request of any other method is left unhandled.
pub open spec fn request_result(before: SessionModel, req: Request) -> Result<
    Option<ActionModel>,
    DecodeErrorModel,
> {
    let malformed = DecodeErrorModel { method: req.method@, reason: DecodeReasonModel::Payload };
    match request_route_of(req.method@) {
        RequestRoute::Initialize => match client_info_at_of(req.params, client_info_key()) {
            Some(_) => Ok(Some(initialize_action(before, req.id))),
            None => Err(malformed),
        },
        RequestRoute::Shutdown => Ok(
            Some(ActionModel::Respond { id: req.id, reply: ReplyModel::Empty }),
        ),
        RequestRoute::ExecuteCommand => if before.state != SessionState::Ready {
            Ok(Some(ActionModel::Respond { id: req.id, reply: ReplyModel::NotReady }))
        } else {
            match command_name_in(req.params) {
                Some(name) => Ok(Some(command_action(req.id, command_kind_of(name)))),
                None => Err(malformed),
            }
        },
        RequestRoute::Unhandled => Ok(None),
    }
}

/// The session once it has handled a request: an initialize request whose
/// client info decodes and a shutdown request change it, nothing else
/// does.
pub open spec fn session_after_request(before: SessionModel, req: Request) -> SessionModel {
    match request_route_of(req.method@) {
        RequestRoute::Initialize => match client_info_at_of(req.params, client_info_key()) {
            Some(client) => session_after_initialize(before, client),
            None => before,
        },
        RequestRoute::Shutdown => next_session(before, SessionEvent::Shutdown),
        _ => before,
    }
}

/// What handling a notification comes to.
///
/// While the session is ready, each of the four document notifications
/// leads to one report to the agent, of the kind that the method stands
/// for, on the document that the payload names and on behalf of the
/// session's identity; where the payload names no document, to an error
/// that names the method. While the session is not ready they are dropped
/// unread, as every other notification always is.
pub open spec fn notification_result(session: SessionModel, note: Notification) -> Result<
    Option<ActionModel>,
    DecodeErrorModel,
> {
    match document_kind_of(note.method@) {
        Some(kind) => if session.state != SessionState::Ready {
            Ok(None)
        } else {
            match entity_path_in(note.params) {
                Ok(path) => Ok(Some(document_report(path, kind, session.identity))),
                Err(reason) => Err(DecodeErrorModel { method: note.method@, reason }),
            }
        },
        None => Ok(None),
    }
}

/// What one turn of the main loop came to.
#[derive(Debug, PartialEq)]
pub struct Turn {
    /// What is to be done about the message, if anything.
    pub action: Option<Action>,
    /// Whether the loop ends after this turn: the session is shutting down.
    pub last: bool,
}

/// What a turn came to, as contracts see it.
pub open spec fn turn_view(result: Result<Turn, DecodeError>) -> Result<
    Option<ActionModel>,
    DecodeErrorModel,
> {
    match result {
        Ok(turn) => outcome_view(Ok(turn.action)),
        Err(e) => Err(e@),
    }
}

/// What a turn comes to: a request or a notification goes to its handler,
/// and a response of the host is only logged.
pub open spec fn message_result(before: SessionModel, message: Message) -> Result<
    Option<ActionModel>,
    DecodeErrorModel,
> {
    match message {
        Message::Request(req) => request_result(before, req),
        Message::Notification(note) => notification_result(before, note),
        Message::Response(response) => Ok(Some(ActionModel::Trace(response))),
    }
}

/// The session once it has taken a message.
pub open spec fn session_after_message(before: SessionModel, message: Message) -> SessionModel {
    match message {
        Message::Request(req) => session_after_request(before, req),
        _ => before,
    }
}

/// Reads which document event a notification's method stands for.
pub fn document_kind(method: &str) -> (kind: Option<EventKind>)
    ensures
        kind == document_kind_of(method@),
{
    if same_text(method, "textDocument/didOpen") {
        Some(EventKind::Opened)
    } else if same_text(method, "textDocument/didChange") {
        Some(EventKind::Changed)
    } else if same_text(method, "textDocument/didClose") {
        Some(EventKind::Closed)
    } else if same_text(method, "textDocument/didSave") {
        Some(EventKind::Saved)
    } else {
        None
    }
}

/// Reads the path of the document that the payload of a document
/// notification names.
pub fn entity_path(params: &Value) -> (decoded: Result<String, DecodeReason>)
    ensures
        path_view(decoded) == entity_path_in(*params),
{
    match text_at(params, "/textDocument/uri") {
        None => Err(DecodeReason::NoUri),
        Some(text) => {
            if text.as_str().len() > 0x7fff_ffff {
                return Err(DecodeReason::OversizedUri);
            }
            match parse_uri(text.as_str()) {
                None => Err(DecodeReason::InvalidUri),
                Some(uri) => Ok(uri_path(&uri)),
            }
        },
    }
}

impl LanguageServer {
    /// Routes a request to its handler.
    pub fn handle_request(&mut self, req: Request) -> (result: Result<Option<Action>, DecodeError>)
        ensures
            outcome_view(result) == request_result(old(self)@, req),
            final(self)@ == session_after_request(old(self)@, req),
    {
        if same_text(req.method.as_str(), "initialize") {
            return match client_info_at(&req.params, "clientInfo") {
                Ok(client) => Ok(Some(self.on_initialize(req.id, &client))),
                Err(error) => Err(
                    DecodeError { method: req.method, reason: DecodeReason::Payload(error) },
                ),
            };
        }
        if same_text(req.method.as_str(), "shutdown") {
            return Ok(Some(self.on_shutdown(req.id)));
        }
        if !same_text(req.method.as_str(), "workspace/executeCommand") {
            return Ok(None);
        }
        match self.state() {
            SessionState::Ready => {},
            _ => {
                return Ok(Some(Action::Respond { id: req.id, reply: Reply::NotReady }));
            },
        }
        match cast_execute_command(req) {
            RequestCast::Params { id, params } => Ok(Some(on_execute_command(id, params))),
            RequestCast::Malformed { method, error } => Err(
                DecodeError { method, reason: DecodeReason::Payload(error) },
            ),
            RequestCast::Mismatch(_) => Ok(None),
        }
    }

    /// Routes a notification to its handler.
    pub fn handle_notification(&self, note: Notification) -> (result: Result<
        Option<Action>,
        DecodeError,
    >)
        ensures
            outcome_view(result) == notification_result(self@, note),
    {
        let kind = match document_kind(note.method.as_str()) {
            Some(kind) => kind,
            None => {
                return Ok(None);
            },
        };
        match self.state() {
            SessionState::Ready => {},
            _ => {
                return Ok(None);
            },
        }
        match entity_path(&note.params) {
            Ok(path) => Ok(Some(self.on_document_event(&ActivityEvent::new(path, kind)))),
            Err(reason) => Err(DecodeError { method: note.method, reason }),
        }
    }

    /// Takes one inbound message: a request or a notification goes to its
    /// handler, and a response of the host is only logged.
    pub fn dispatch(&mut self, message: Message) -> (result: Result<Turn, DecodeError>)
        ensures
            turn_view(result) == message_result(old(self)@, message),
            final(self)@ == session_after_message(old(self)@, message),
            result matches Ok(turn) ==> turn.last == (final(self)@.state
                == SessionState::ShuttingDown),
    {
        let action = match message {
            Message::Request(req) => self.handle_request(req)?,
            Message::Notification(note) => self.handle_notification(note)?,
            Message::Response(response) => Some(Action::Trace(response)),
        };
        let last = match self.state() {
            SessionState::ShuttingDown => true,
            _ => false,
        };
        Ok(Turn { action, last })
    }
}

} // verus!
