//! How a player's backend server is spoken to.

use crate::connection::error::{ConnectionError, Failure};
use crate::text::{is_text, split_by, split_text, texts};
use crate::version::{nearest, nearest_version, Epoch, ProtocolVersion};
use vstd::prelude::*;

verus! {

/// How a server learns who a player is.
#[derive(Clone, Copy, Debug, PartialEq, Eq, Structural)]
pub enum ForwardingMode {
    /// It does not.
    Off,
    /// By the address in the handshake.
    Bungeecord,
    /// By a question during the login.
    Velocity,
}

/// The mod loader that a client has shown.
#[derive(Clone, Copy, Debug, PartialEq, Eq, Structural)]
pub enum ModloaderKind {
    Unknown,
    Fml1,
    Fml2,
    Fml3,
    NeoForge,
    Fabric,
    Other,
}

/// The mode for a server: its own, or the one for all, or Bungeecord's where none is set but
/// addresses are to be forwarded.
pub open spec fn forwarding_mode(own: Option<ForwardingMode>, common: ForwardingMode, ip_forward: bool) -> ForwardingMode {
    match own {
        Some(mode) => mode,
        None => if common == ForwardingMode::Off && ip_forward {
            ForwardingMode::Bungeecord
        } else {
            common
        },
    }
}

/// The mode for a server.
pub fn effective_forwarding_mode(
    per_server_override: Option<ForwardingMode>,
    global: ForwardingMode,
    ip_forward: bool,
) -> (mode: ForwardingMode)
    ensures
        mode == forwarding_mode(per_server_override, global, ip_forward),
{
    match per_server_override {
        Some(mode) => mode,
        None => if global == ForwardingMode::Off && ip_forward {
            ForwardingMode::Bungeecord
        } else {
            global
        },
    }
}

/// A server as it is configured. A protocol of zero stands for none.
#[derive(Debug, PartialEq, Eq)]
pub struct ServerConfig {
    pub name: String,
    pub backend_protocol: u32,
}

/// The protocol that is configured for a name, zero where there is none.
pub open spec fn configured_protocol(servers: Seq<ServerConfig>, name: Seq<char>) -> u32
    decreases servers.len(),
{
    if servers.len() == 0 {
        0
    } else if servers[0].name@ == name {
        servers[0].backend_protocol
    } else {
        configured_protocol(servers.drop_first(), name)
    }
}

/// The lobby among the servers.
pub struct Lobby {
    pub name: String,
    pub protocol: u32,
}

/// Whether a server is the lobby.
pub open spec fn is_lobby(target: Option<Seq<char>>, lobby: Lobby) -> bool {
    target == Some(lobby.name@)
}

/// The protocol that is spoken to a server: the lobby's, or the one configured, or 1.12.2 for
/// clients of 1.7 and 1.8, or the client's.
pub open spec fn server_protocol(
    target: Option<Seq<char>>,
    lobby: Lobby,
    servers: Seq<ServerConfig>,
    client: u32,
) -> u32 {
    let configured = match target {
        Some(name) => configured_protocol(servers, name),
        None => 0,
    };
    let epoch = nearest_version(client).spec_epoch();
    if is_lobby(target, lobby) {
        lobby.protocol
    } else if configured > 0 {
        configured
    } else if epoch == Epoch::V1_7 || epoch == Epoch::V1_8 {
        ProtocolVersion::V1_12_2.spec_id()
    } else {
        client
    }
}

/// The view of a name that may be missing.
pub open spec fn name_view(name: Option<&String>) -> Option<Seq<char>> {
    match name {
        Some(name) => Some(name@),
        None => None,
    }
}

/// The protocol that is configured for a name.
fn find_configured(servers: &Vec<ServerConfig>, name: &String) -> (p: u32)
    ensures
        p == configured_protocol(servers@, name@),
{
    let mut i: usize = 0;
    assert(servers@.skip(0) =~= servers@);
    while i < servers.len()
        invariant
            i <= servers.len(),
            configured_protocol(servers@, name@) == configured_protocol(servers@.skip(i as int), name@),
        decreases servers.len() - i,
    {
        if is_text(name, servers[i].name.as_str()) {
            return servers[i].backend_protocol;
        }
        assert(servers@.skip(i as int).drop_first() =~= servers@.skip(i + 1));
        i = i + 1;
    }
    0
}

/// The protocol that is spoken to a server.
pub fn backend_protocol_for(
    target: Option<&String>,
    lobby: &Lobby,
    servers: &Vec<ServerConfig>,
    client: u32,
) -> (p: u32)
    ensures
        p == server_protocol(name_view(target), *lobby, servers@, client),
{
    if let Some(name) = target {
        if is_text(name, lobby.name.as_str()) {
            return lobby.protocol;
        }
        let configured: u32 = find_configured(servers, name);
        if configured > 0 {
            return configured;
        }
    }
    match nearest(client).epoch() {
        Epoch::V1_7 | Epoch::V1_8 => ProtocolVersion::V1_12_2.id(),
        _ => client,
    }
}

/// How the relay between a client and its server is set up.
#[derive(Clone, Copy, Debug, PartialEq, Eq)]
pub struct RelayPlan {
    /// The protocol that is spoken to the server.
    pub backend_protocol: u32,
    /// Whether the two sides differ: a client before 1.9 differs from every server, any other
    /// from a lobby of another protocol.
    pub sides_differ: bool,
    /// Whether the relay is told to convert: it is for the lobby.
    pub conversion_enabled: bool,
}

/// How the relay is set up.
pub open spec fn relay_plan_of(
    server: Option<Seq<char>>,
    lobby: Lobby,
    servers: Seq<ServerConfig>,
    client: u32,
) -> RelayPlan {
    let backend_protocol = server_protocol(server, lobby, servers, client);
    let epoch = nearest_version(client).spec_epoch();
    RelayPlan {
        backend_protocol,
        sides_differ: (is_lobby(server, lobby) && backend_protocol != client) || epoch == Epoch::PreNetty || epoch
            == Epoch::V1_7 || epoch == Epoch::V1_8,
        conversion_enabled: is_lobby(server, lobby),
    }
}

/// How the relay is set up.
pub fn relay_plan(server: Option<&String>, lobby: &Lobby, servers: &Vec<ServerConfig>, client: u32) -> (p: RelayPlan)
    ensures
        p == relay_plan_of(name_view(server), *lobby, servers@, client),
{
    let backend_protocol: u32 = backend_protocol_for(server, lobby, servers, client);
    let to_lobby: bool = match server {
        Some(name) => is_text(name, lobby.name.as_str()),
        None => false,
    };
    let old_client: bool = match nearest(client).epoch() {
        Epoch::PreNetty | Epoch::V1_7 | Epoch::V1_8 => true,
        _ => false,
    };
    RelayPlan {
        backend_protocol,
        sides_differ: (to_lobby && backend_protocol != client) || old_client,
        conversion_enabled: to_lobby,
    }
}

/// The host in an address, in front of what a mod loader has added to it.
pub open spec fn clean_host_of(address: Seq<char>) -> Seq<char> {
    split_by(address, '\0')[0]
}

/// The mark of a mod loader in an address.
pub open spec fn fml_mark(kind: ModloaderKind) -> Seq<char> {
    match kind {
        ModloaderKind::Fml1 => "\0FML\0"@,
        ModloaderKind::Fml2 => "\0FML2\0"@,
        ModloaderKind::Fml3 => "\0FML3\0"@,
        _ => ""@,
    }
}

/// The mark of a mod loader in an address.
pub fn fml_marker(kind: ModloaderKind) -> (s: &'static str)
    ensures
        s@ == fml_mark(kind),
{
    match kind {
        ModloaderKind::Fml1 => "\0FML\0",
        ModloaderKind::Fml2 => "\0FML2\0",
        ModloaderKind::Fml3 => "\0FML3\0",
        _ => "",
    }
}

/// The host in an address.
pub fn clean_host(address: &str) -> (s: String)
    ensures
        s@ == clean_host_of(address@),
{
    let parts: Vec<String> = split_text(address, '\0');
    proof {
        split_is_not_empty(address@, '\0');
        assert(texts(parts@).len() == parts@.len());
        assert(texts(parts@)[0] == parts@[0]@);
    }
    String::from_str(parts[0].as_str())
}

/// A text always has a first part.
proof fn split_is_not_empty(s: Seq<char>, c: char)
    ensures
        split_by(s, c).len() > 0,
    decreases s.len(),
{
    if s.len() > 0 {
        split_is_not_empty(s.drop_last(), c);
    }
}

/// The address in the handshake with a server. `suffix` is what Bungeecord's mode adds, or why
/// it cannot be made; `marked` is the host with the mark that a server with mods expects.
pub open spec fn handshake_address_of(
    host: Seq<char>,
    mode: ForwardingMode,
    forge_like: bool,
    kind: ModloaderKind,
    suffix: Result<Seq<char>, Seq<char>>,
    marked: Seq<char>,
) -> Result<Seq<char>, Failure> {
    match mode {
        ForwardingMode::Bungeecord => match suffix {
            Err(e) => Err(Failure::Auth("Failed to create Bungeecord suffix: "@ + e)),
            Ok(suffix) => Ok(
                if forge_like {
                    host + suffix + fml_mark(kind)
                } else {
                    host + suffix
                },
            ),
        },
        ForwardingMode::Velocity | ForwardingMode::Off => Ok(
            if forge_like {
                marked
            } else {
                host
            },
        ),
    }
}

/// The view of an outcome of texts.
pub open spec fn text_or_error(r: &Result<String, String>) -> Result<Seq<char>, Seq<char>> {
    match r {
        Ok(s) => Ok(s@),
        Err(e) => Err(e@),
    }
}

/// The address in the handshake with a server.
pub fn handshake_address(
    host: &str,
    mode: ForwardingMode,
    forge_like: bool,
    kind: ModloaderKind,
    suffix: &Result<String, String>,
    marked: &str,
) -> (r: Result<String, ConnectionError>)
    ensures
        match handshake_address_of(host@, mode, forge_like, kind, text_or_error(suffix), marked@) {
            Ok(address) => r matches Ok(got) && got@ == address,
            Err(e) => r matches Err(got) && got@ == e,
        },
{
    match mode {
        ForwardingMode::Bungeecord => match suffix {
            Err(e) => {
                let mut reason = String::from_str("Failed to create Bungeecord suffix: ");
                reason.append(e.as_str());
                Err(ConnectionError::Auth(reason))
            },
            Ok(suffix) => {
                let mut address = String::from_str(host);
                address.append(suffix.as_str());
                if forge_like {
                    address.append(fml_marker(kind));
                }
                Ok(address)
            },
        },
        ForwardingMode::Velocity | ForwardingMode::Off => Ok(
            String::from_str(
                if forge_like {
                    marked
                } else {
                    host
                },
            ),
        ),
    }
}

} // verus!
