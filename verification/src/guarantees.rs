//! What holds across the handlers, proved from their contracts.

use vstd::prelude::*;
use lsp_server::RequestId;
use crate::command::{
    command_kind_of, open_dashboard_name, show_time_past_name, unknown_command_text,
    CommandKindModel, DirectiveModel, MessageLevel,
};
use crate::dispatch::{
    client_info_key, command_action, delivery_action, document_kind_of, entity_path_in,
    initialize_action, notification_result, query_action, request_result, request_route_of,
    session_after_initialize, session_after_request, ActionModel, ReplyModel,
};
use crate::event::{EventKind, EventModel};
use crate::identity::{identity_of, plugin_identity, ClientModel};
use crate::invoker::{report_arguments_of, InvocationError};
use crate::message::{DecodeErrorModel, DecodeReasonModel, Notification, Request};
use crate::wire::{client_info_at_of, command_name_in};
use crate::session::{advertised, SessionModel, SessionState};

verus! {

/// Whether `name` directly followed by `value` stands among `arguments`.
pub open spec fn has_option(arguments: Seq<Seq<char>>, name: Seq<char>, value: Seq<char>) -> bool {
    exists|i: int|
        0 <= i && i + 1 < arguments.len() && #[trigger] arguments[i] == name && arguments[i + 1]
            == value
}

/// Whether `flag` stands among `arguments`.
pub open spec fn has_flag(arguments: Seq<Seq<char>>, flag: Seq<char>) -> bool {
    exists|i: int| 0 <= i < arguments.len() && #[trigger] arguments[i] == flag
}

/// Every report names the identity after `--plugin` and the document after
/// `--entity`.
pub proof fn report_names_identity_and_entity(event: EventModel, identity: Seq<char>)
    ensures
        has_option(report_arguments_of(event, identity), "--plugin"@, identity),
        has_option(report_arguments_of(event, identity), "--entity"@, event.entity_path),
{
    let arguments = report_arguments_of(event, identity);
    assert(arguments[0] == "--plugin"@ && arguments[1] == identity);
    assert(arguments[2] == "--entity"@ && arguments[3] == event.entity_path);
}

/// A report carries `--write` exactly if the event is a save, for every
/// identity and every path that do not themselves read `--write`.
pub proof fn write_flag_marks_a_save(event: EventModel, identity: Seq<char>)
    requires
        identity != "--write"@,
        event.entity_path != "--write"@,
    ensures
        has_flag(report_arguments_of(event, identity), "--write"@) <==> event.kind
            == EventKind::Saved,
{
    reveal_strlit("--write");
    reveal_strlit("--plugin");
    reveal_strlit("--entity");
    let arguments = report_arguments_of(event, identity);
    if event.kind == EventKind::Saved {
        assert(arguments[4] == "--write"@);
    } else {
        assert forall|i: int| 0 <= i < arguments.len() implies arguments[i] != "--write"@ by {
            if i == 0 {
                assert(arguments[0].len() == 8);
            } else if i == 2 {
                assert(arguments[2].len() == 8);
            }
        }
    }
}

/// Every document notification that a ready session takes, and whose
/// payload names a document, leads to a report that names the session's
/// identity after `--plugin` and the document's path after `--entity`, and
/// that carries `--write` exactly if the notification is the one of a save.
pub proof fn document_notification_reports(session: SessionModel, note: Notification)
    requires
        session.state == SessionState::Ready,
        document_kind_of(note.method@) is Some,
        entity_path_in(note.params) is Ok,
    ensures
        notification_result(session, note) is Ok,
        notification_result(session, note)->Ok_0 is Some,
        notification_result(session, note)->Ok_0->Some_0 is Report,
        has_option(
            notification_result(session, note)->Ok_0->Some_0->Report_0,
            "--plugin"@,
            session.identity,
        ),
        has_option(
            notification_result(session, note)->Ok_0->Some_0->Report_0,
            "--entity"@,
            entity_path_in(note.params)->Ok_0,
        ),
        session.identity != "--write"@ && entity_path_in(note.params)->Ok_0 != "--write"@
            ==> (has_flag(
            notification_result(session, note)->Ok_0->Some_0->Report_0,
            "--write"@,
        ) <==> document_kind_of(note.method@) == Some(EventKind::Saved)),
{
    let kind = document_kind_of(note.method@)->Some_0;
    let path = entity_path_in(note.params)->Ok_0;
    let event = EventModel { entity_path: path, kind };
    report_names_identity_and_entity(event, session.identity);
    if session.identity != "--write"@ && path != "--write"@ {
        write_flag_marks_a_save(event, session.identity);
    }
}

/// A payload of a known method that cannot be read is an error that names
/// the method, and nothing is done about the message: no action is taken
/// and the session stays as it was. This holds of each of the four
/// document notifications and of a command in a ready session, and of an
/// initialize request in every session.
pub proof fn unreadable_payload_is_an_error(session: SessionModel, req: Request, note: Notification)
    ensures
        session.state == SessionState::Ready && document_kind_of(note.method@) is Some
            && entity_path_in(note.params) is Err ==> notification_result(session, note) == Err::<
            Option<ActionModel>,
            DecodeErrorModel,
        >(
            DecodeErrorModel { method: note.method@, reason: entity_path_in(note.params)->Err_0 },
        ),
        session.state == SessionState::Ready && request_route_of(req.method@)
            is ExecuteCommand && command_name_in(req.params) is None ==> request_result(
            session,
            req,
        ) == Err::<Option<ActionModel>, DecodeErrorModel>(
            DecodeErrorModel { method: req.method@, reason: DecodeReasonModel::Payload },
        ) && session_after_request(session, req) == session,
        request_route_of(req.method@) is Initialize && client_info_at_of(
            req.params,
            client_info_key(),
        ) is None ==> request_result(session, req) == Err::<Option<ActionModel>, DecodeErrorModel>(
            DecodeErrorModel { method: req.method@, reason: DecodeReasonModel::Payload },
        ) && session_after_request(session, req) == session,
{
}

/// Nothing is handled while the session is not ready: a document
/// notification is dropped and a command is refused, both unread, and the
/// session stays as it was.
pub proof fn nothing_is_handled_before_ready(
    session: SessionModel,
    req: Request,
    note: Notification,
)
    requires
        session.state != SessionState::Ready,
    ensures
        notification_result(session, note) == Ok::<Option<ActionModel>, DecodeErrorModel>(None),
        request_route_of(req.method@) is ExecuteCommand ==> request_result(session, req) == Ok::<
            Option<ActionModel>,
            DecodeErrorModel,
        >(Some(ActionModel::Respond { id: req.id, reply: ReplyModel::NotReady }))
            && session_after_request(session, req) == session,
{
}

/// Whether `text` holds `part` as one piece.
pub open spec fn mentions(text: Seq<char>, part: Seq<char>) -> bool {
    exists|at: int|
        0 <= at && at + part.len() <= text.len() && #[trigger] text.subrange(
            at,
            at + part.len(),
        ) == part
}

/// A command that is not known never fails: it leads to exactly one
/// message for the host, at error level and mentioning the command's name,
/// and once that message is delivered the request is answered with success
/// and no value.
pub proof fn unknown_command_is_reported(id: RequestId, name: Seq<char>)
    requires
        name != open_dashboard_name(),
        name != show_time_past_name(),
    ensures
        command_action(id, command_kind_of(name)) == (ActionModel::Deliver {
            id,
            directive: DirectiveModel::LogMessage {
                level: MessageLevel::Error,
                text: unknown_command_text(name),
            },
        }),
        mentions(unknown_command_text(name), name),
        delivery_action(id, true) == (ActionModel::Respond { id, reply: ReplyModel::Empty }),
{
    let text = unknown_command_text(name);
    let at = "Unknown workspace command received: `"@.len() as int;
    assert(text.subrange(at, at + name.len()) =~= name);
}

/// The time that the agent answered is relayed to the host unchanged, as
/// an informational message; where the agent did not answer, the command
/// fails and no message is shown.
pub proof fn time_past_is_relayed_unchanged(
    id: RequestId,
    queried: Result<Seq<char>, InvocationError>,
)
    ensures
        queried matches Ok(text) ==> query_action(id, queried) == (ActionModel::Deliver {
            id,
            directive: DirectiveModel::LogMessage { level: MessageLevel::Info, text },
        }),
        queried is Err ==> query_action(id, queried) is Respond,
        queried matches Err(e) ==> query_action(id, queried)->Respond_reply
            == ReplyModel::CommandFailed(crate::command::CommandError::Internal(e)),
{
}

/// The request on whose behalf an action is taken, where there is one.
pub open spec fn request_of(action: ActionModel) -> Option<RequestId> {
    match action {
        ActionModel::Respond { id, .. } => Some(id),
        ActionModel::Bootstrap { id } => Some(id),
        ActionModel::Deliver { id, .. } => Some(id),
        ActionModel::Query { id, .. } => Some(id),
        ActionModel::Report(_) => None,
        ActionModel::Trace(_) => None,
    }
}

/// Every action taken for a request carries that request's id, and the
/// actions lead to its answer: a command begins with a query or a
/// delivery, a query is followed by a delivery or the answer, and a
/// delivery is followed by the answer.
pub proof fn request_is_answered_under_its_id(
    id: RequestId,
    session: SessionModel,
    kind: CommandKindModel,
    queried: Result<Seq<char>, InvocationError>,
    delivered: bool,
)
    ensures
        request_of(initialize_action(session, id)) == Some(id),
        request_of(command_action(id, kind)) == Some(id),
        request_of(query_action(id, queried)) == Some(id),
        request_of(delivery_action(id, delivered)) == Some(id),
        command_action(id, kind) is Query || command_action(id, kind) is Deliver,
        query_action(id, queried) is Deliver || query_action(id, queried) is Respond,
        delivery_action(id, delivered) is Respond,
{
}

/// Every command that is advertised is known to the executor.
pub proof fn advertised_commands_are_known(i: int)
    requires
        0 <= i < advertised().commands.len(),
    ensures
        !(command_kind_of(advertised().commands[i]) is Unknown),
{
}

/// Capabilities are advertised at once only by a session that does not
/// bootstrap, and that session is then ready; a session that bootstraps
/// answers nothing before the bootstrap has ended, and is not ready.
pub proof fn capabilities_follow_the_bootstrap(
    session: SessionModel,
    id: RequestId,
    client: Option<ClientModel>,
)
    requires
        session.state == SessionState::Created,
    ensures
        session_after_initialize(session, client).identity == identity_of(client),
        !session.bootstrap ==> initialize_action(session, id) is Respond
            && session_after_initialize(session, client).state == SessionState::Ready,
        session.bootstrap ==> initialize_action(session, id) is Bootstrap
            && session_after_initialize(session, client).state == SessionState::Initializing,
{
}

/// Without editor metadata the negotiated identity is the bare plugin
/// identity.
pub proof fn identity_without_client_is_bare()
    ensures
        identity_of(None) == plugin_identity(),
{
}

/// With editor metadata the identity ends in the segment
/// `<editor>-wakatime/<plugin-version>` and begins with the editor's name.
pub proof fn identity_ends_in_editor_segment(client: ClientModel)
    ensures
        identity_of(Some(client)).len() >= client.name.len() + "-wakatime/"@.len()
            + crate::identity::plugin_version().len(),
        identity_of(Some(client)).subrange(
            identity_of(Some(client)).len() - (client.name.len() + "-wakatime/"@.len()
                + crate::identity::plugin_version().len()),
            identity_of(Some(client)).len() as int,
        ) == client.name + "-wakatime/"@ + crate::identity::plugin_version(),
        identity_of(Some(client)).subrange(0, client.name.len() as int) == client.name,
{
    let identity = identity_of(Some(client));
    let segment = client.name + "-wakatime/"@ + crate::identity::plugin_version();
    assert(identity.subrange(identity.len() - segment.len(), identity.len() as int) =~= segment);
    assert(identity.subrange(0, client.name.len() as int) =~= client.name);
}

} // verus!
