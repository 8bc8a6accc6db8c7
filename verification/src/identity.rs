//! The caller identity sent with every agent invocation.

use vstd::prelude::*;

verus! {

/// Name under which this plugin announces itself.
pub open spec fn plugin_name() -> Seq<char> {
    "wakatime-ls"@
}

/// Version of this plugin.
pub open spec fn plugin_version() -> Seq<char> {
    "0.1.0"@
}

/// The bare plugin identity, `<plugin-name>/<plugin-version>`.
pub open spec fn plugin_identity() -> Seq<char> {
    plugin_name() + "/"@ + plugin_version()
}

/// What the editor said about itself when the session was negotiated.
#[derive(Clone, Debug, PartialEq, Eq)]
pub struct ClientInfo {
    pub name: String,
    pub version: Option<String>,
}

/// Mathematical model of a [`ClientInfo`].
pub struct ClientModel {
    pub name: Seq<char>,
    pub version: Option<Seq<char>>,
}

impl View for ClientInfo {
    type V = ClientModel;

    open spec fn view(&self) -> ClientModel {
        ClientModel {
            name: self.name@,
            version: match self.version {
                Some(v) => Some(v@),
                None => None,
            },
        }
    }
}

/// The version segment of the editor part: the announced version, or
/// `unknown` where the editor gave none.
pub open spec fn editor_version(version: Option<Seq<char>>) -> Seq<char> {
    match version {
        Some(v) => v,
        None => "unknown"@,
    }
}

/// The identity negotiated for a session.
///
/// With editor metadata it is
/// `<editor>/<version> <plugin>/<plugin-version> <editor>-wakatime/<plugin-version>`;
/// without, the bare plugin identity.
pub open spec fn identity_of(client: Option<ClientModel>) -> Seq<char> {
    match client {
        Some(c) => c.name + "/"@ + editor_version(c.version) + " "@ + plugin_identity() + " "@
            + c.name + "-wakatime/"@ + plugin_version(),
        None => plugin_identity(),
    }
}

/// The view of an optional [`ClientInfo`].
pub open spec fn client_view(client: Option<ClientInfo>) -> Option<ClientModel> {
    match client {
        Some(c) => Some(c@),
        None => None,
    }
}

/// Builds the bare plugin identity.
pub fn bare_identity() -> (identity: String)
    ensures
        identity@ == plugin_identity(),
{
    let mut identity = String::from_str("wakatime-ls");
    identity.append("/");
    identity.append("0.1.0");
    identity
}

/// Derives the caller identity from the negotiated editor metadata.
pub fn derive_identity(client: &Option<ClientInfo>) -> (identity: String)
    ensures
        identity@ == identity_of(client_view(*client)),
{
    match client {
        None => bare_identity(),
        Some(info) => {
            let mut identity = info.name.clone();
            identity.append("/");
            match &info.version {
                Some(version) => identity.append(version.as_str()),
                None => identity.append("unknown"),
            }
            identity.append(" ");
            let plugin = bare_identity();
            identity.append(plugin.as_str());
            identity.append(" ");
            identity.append(info.name.as_str());
            identity.append("-wakatime/");
            identity.append("0.1.0");
            identity
        },
    }
}

} // verus!
