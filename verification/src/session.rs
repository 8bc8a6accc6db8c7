//! The session: lifecycle state and the negotiated identity.

use vstd::prelude::*;
use crate::identity::{
    bare_identity, client_view, derive_identity, identity_of, plugin_identity, ClientInfo,
    ClientModel,
};
use crate::install::{InstallError, InstallErrorModel};

verus! {

/// Where a session stands in its life.
#[derive(Clone, Copy, Debug, PartialEq, Eq, Structural)]
pub enum SessionState {
    /// Nothing was negotiated yet.
    Created,
    /// The host asked to initialize; the identity is derived and the agent
    /// is being made available.
    Initializing,
    /// Capabilities were advertised.
    Ready,
    /// The host asked to shut down. Nothing leads out of this state.
    ShuttingDown,
}

/// How document contents are synchronized with the host.
#[derive(Clone, Copy, Debug, PartialEq, Eq, Structural)]
pub enum TextSync {
    /// Document contents are not synchronized.
    Off,
    Full,
    Incremental,
}

/// What the server tells the host it can do.
#[derive(Clone, Debug, PartialEq, Eq)]
pub struct Capabilities {
    pub text_sync: TextSync,
    /// The workspace commands the host may invoke.
    pub commands: Vec<String>,
}

/// Mathematical model of [`Capabilities`].
pub struct CapabilitiesModel {
    pub text_sync: TextSync,
    pub commands: Seq<Seq<char>>,
}

impl View for Capabilities {
    type V = CapabilitiesModel;

    open spec fn view(&self) -> CapabilitiesModel {
        CapabilitiesModel { text_sync: self.text_sync, commands: self.commands.deep_view() }
    }
}

/// The capabilities every session advertises: no text synchronization, and
/// the two workspace commands.
pub open spec fn advertised() -> CapabilitiesModel {
    CapabilitiesModel {
        text_sync: TextSync::Off,
        commands: seq![
            crate::command::open_dashboard_name(),
            crate::command::show_time_past_name(),
        ],
    }
}

/// A lifecycle call that came at the wrong time.
#[derive(Clone, Copy, Debug, PartialEq, Eq, Structural)]
pub enum SessionError {
    /// The session was asked to initialize a second time.
    AlreadyStarted,
    /// The session was told of a bootstrap while it was not initializing.
    NotInitializing,
}

/// Why a session did not become ready.
#[derive(Clone, Debug, PartialEq, Eq)]
pub enum InitializeError {
    /// The call came at the wrong time.
    Session(SessionError),
    /// The agent could not be made available.
    Install(InstallError),
}

/// Mathematical model of an [`InitializeError`].
pub enum InitializeErrorModel {
    Session(SessionError),
    Install(InstallErrorModel),
}

impl View for InitializeError {
    type V = InitializeErrorModel;

    open spec fn view(&self) -> InitializeErrorModel {
        match self {
            InitializeError::Session(e) => InitializeErrorModel::Session(*e),
            InitializeError::Install(e) => InitializeErrorModel::Install(e@),
        }
    }
}

/// The view of a bootstrap's outcome.
pub open spec fn bootstrap_view(bootstrap: Result<(), InstallError>) -> Result<
    (),
    InstallErrorModel,
> {
    match bootstrap {
        Ok(_) => Ok(()),
        Err(e) => Err(e@),
    }
}

/// The view of what concluding the initialization returns.
pub open spec fn ready_view(result: Result<Capabilities, InitializeError>) -> Result<
    CapabilitiesModel,
    InitializeErrorModel,
> {
    match result {
        Ok(capabilities) => Ok(capabilities@),
        Err(e) => Err(e@),
    }
}

/// What concluding the initialization returns: the capabilities to
/// advertise where the session was initializing and the agent is
/// available; the bootstrap's error where it is not; an error of its own
/// where the session was not initializing.
pub open spec fn ready_result_of(
    session: SessionModel,
    bootstrap: Result<(), InstallErrorModel>,
) -> Result<CapabilitiesModel, InitializeErrorModel> {
    if session.state != SessionState::Initializing {
        Err(InitializeErrorModel::Session(SessionError::NotInitializing))
    } else {
        match bootstrap {
            Ok(_) => Ok(advertised()),
            Err(e) => Err(InitializeErrorModel::Install(e)),
        }
    }
}

/// Mathematical model of a [`LanguageServer`].
pub struct SessionModel {
    pub state: SessionState,
    /// The caller identity sent with every agent invocation.
    pub identity: Seq<char>,
    /// Whether the agent is installed before the session becomes ready.
    pub bootstrap: bool,
}

/// What can happen to a session.
pub enum SessionEvent {
    /// The host asks to initialize, with or without editor metadata.
    Initialize(Option<ClientModel>),
    /// The bootstrap ended; `true` where the agent is available.
    Bootstrapped(bool),
    /// The host asks to shut down.
    Shutdown,
}

/// The lifecycle: `Created` becomes `Initializing` on initialize, which is
/// the one step that writes the identity; `Initializing` becomes `Ready`
/// once the agent is available; every state becomes `ShuttingDown` on
/// shutdown. An event that fits no step leaves the session as it is.
pub open spec fn next_session(session: SessionModel, event: SessionEvent) -> SessionModel {
    match event {
        SessionEvent::Initialize(client) => if session.state == SessionState::Created {
            SessionModel {
                state: SessionState::Initializing,
                identity: identity_of(client),
                bootstrap: session.bootstrap,
            }
        } else {
            session
        },
        SessionEvent::Bootstrapped(available) => if session.state == SessionState::Initializing
            && available {
            SessionModel { state: SessionState::Ready, ..session }
        } else {
            session
        },
        SessionEvent::Shutdown => SessionModel { state: SessionState::ShuttingDown, ..session },
    }
}

/// The session controller.
pub struct LanguageServer {
    state: SessionState,
    user_agent: String,
    bootstrap: bool,
}

impl View for LanguageServer {
    type V = SessionModel;

    closed spec fn view(&self) -> SessionModel {
        SessionModel { state: self.state, identity: self.user_agent@, bootstrap: self.bootstrap }
    }
}

impl LanguageServer {
    #[verifier::type_invariant]
    spec fn well_formed(&self) -> bool {
        self.state == SessionState::Created ==> self.user_agent@ == plugin_identity()
    }

    /// A session in which nothing was negotiated yet; its identity is the
    /// bare plugin identity. With `bootstrap` the agent is installed before
    /// the session becomes ready.
    #[must_use]
    pub fn new(bootstrap: bool) -> (server: LanguageServer)
        ensures
            server@ == (SessionModel {
                state: SessionState::Created,
                identity: plugin_identity(),
                bootstrap,
            }),
    {
        LanguageServer { state: SessionState::Created, user_agent: bare_identity(), bootstrap }
    }

    /// What every session advertises to the host.
    pub fn capabilities() -> (capabilities: Capabilities)
        ensures
            capabilities@ == advertised(),
    {
        let mut commands: Vec<String> = Vec::new();
        commands.push(String::from_str("open_dashboard"));
        commands.push(String::from_str("show_time_past"));
        let capabilities = Capabilities { text_sync: TextSync::Off, commands };
        assert(capabilities@.commands =~= advertised().commands);
        capabilities
    }

    /// Where the session stands.
    pub fn state(&self) -> (state: SessionState)
        ensures
            state == self@.state,
    {
        self.state
    }

    /// The caller identity.
    pub fn identity(&self) -> (identity: &str)
        ensures
            identity@ == self@.identity,
    {
        self.user_agent.as_str()
    }

    /// Whether the agent is installed before the session becomes ready.
    pub fn bootstraps(&self) -> (bootstrap: bool)
        ensures
            bootstrap == self@.bootstrap,
    {
        self.bootstrap
    }

    /// Handles the host's request to initialize: derives the identity from
    /// the editor metadata and starts initializing. A session that was
    /// started before refuses and stays as it is.
    pub fn start(&mut self, client: &Option<ClientInfo>) -> (result: Result<(), SessionError>)
        ensures
            final(self)@ == next_session(
                old(self)@,
                SessionEvent::Initialize(client_view(*client)),
            ),
            result == (if old(self)@.state == SessionState::Created {
                Ok::<(), SessionError>(())
            } else {
                Err::<(), SessionError>(SessionError::AlreadyStarted)
            }),
    {
        match self.state {
            SessionState::Created => {
                let user_agent = derive_identity(client);
                *self = LanguageServer {
                    state: SessionState::Initializing,
                    user_agent,
                    bootstrap: self.bootstrap,
                };
                Ok(())
            },
            _ => Err(SessionError::AlreadyStarted),
        }
    }

    /// Concludes initializing once the bootstrap ended. With the agent
    /// available the session becomes ready and the capabilities to
    /// advertise are returned; a failed bootstrap fails the call and the
    /// session does not become ready.
    pub fn ready(&mut self, bootstrap: Result<(), InstallError>) -> (result: Result<
        Capabilities,
        InitializeError,
    >)
        ensures
            final(self)@ == next_session(
                old(self)@,
                SessionEvent::Bootstrapped(bootstrap is Ok),
            ),
            ready_view(result) == ready_result_of(old(self)@, bootstrap_view(bootstrap)),
    {
        proof {
            use_type_invariant(&*self);
        }
        match self.state {
            SessionState::Initializing => match bootstrap {
                Ok(_) => {
                    self.state = SessionState::Ready;
                    Ok(Self::capabilities())
                },
                Err(e) => Err(InitializeError::Install(e)),
            },
            _ => Err(InitializeError::Session(SessionError::NotInitializing)),
        }
    }

    /// Handles the host's request to shut down. It always succeeds and
    /// changes nothing but the state.
    pub fn shutdown(&mut self)
        ensures
            final(self)@ == next_session(old(self)@, SessionEvent::Shutdown),
    {
        proof {
            use_type_invariant(&*self);
        }
        self.state = SessionState::ShuttingDown;
    }
}

/// Once a session has left `Created`, no event changes its identity.
pub proof fn identity_is_written_once(session: SessionModel, event: SessionEvent)
    requires
        session.state != SessionState::Created,
    ensures
        next_session(session, event).identity == session.identity,
{
}

/// A session becomes ready only from `Initializing`, and only when it is
/// told that the agent is available.
pub proof fn ready_only_after_bootstrap(session: SessionModel, event: SessionEvent)
    requires
        session.state != SessionState::Ready,
        next_session(session, event).state == SessionState::Ready,
    ensures
        session.state == SessionState::Initializing,
        event == SessionEvent::Bootstrapped(true),
{
}

/// Nothing leads out of `ShuttingDown`.
pub proof fn shutting_down_is_final(session: SessionModel, event: SessionEvent)
    requires
        session.state == SessionState::ShuttingDown,
    ensures
        next_session(session, event) == session,
{
}

/// No event changes whether a session bootstraps.
pub proof fn bootstrap_choice_is_kept(session: SessionModel, event: SessionEvent)
    ensures
        next_session(session, event).bootstrap == session.bootstrap,
{
}

} // verus!
