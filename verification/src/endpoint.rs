//! The IPC endpoint descriptor the agent leaves for the desktop app, and where it lives.
//!
//! At startup the agent picks a listening address and a per-launch auth token, and
//! writes both to a handshake file beside its socket. The app reads the file, connects,
//! and presents the token.

use vstd::prelude::*;

use crate::hex::{encode, hex_encode};
use crate::ids::{is_v4_uuid, random_uuid_bytes};
use crate::paths::{dir_prefix, join, path_join};
use crate::protocol::PROTOCOL_VERSION;

verus! {

/// The handshake file's name inside the runtime directory.
pub const HANDSHAKE_FILE: &'static str = "agent-endpoint.json";

/// The Unix socket's name inside the runtime directory.
pub const SOCKET_FILE: &'static str = "agent.sock";

/// The prefix of the agent's named pipe on Windows.
pub const PIPE_PREFIX: &'static str = "\\\\.\\pipe\\ultidesk-agent-";

/// What a client needs to reach this launch of the agent.
#[derive(Debug, Clone, PartialEq, Eq)]
pub struct Endpoint {
    /// Where to connect: a named-pipe path on Windows, a Unix-socket path on Linux.
    pub endpoint_path: String,
    pub token: String,
    pub protocol_version: u32,
    pub pid: u32,
}

/// Whether `text` is the simple form of a random (version 4) uuid: the 32 lower-case
/// hex digits of its bytes.
pub open spec fn is_uuid_text(text: Seq<char>) -> bool {
    exists|b: Seq<u8>| #[trigger] is_v4_uuid(b) && hex_encode(b) == text
}

/// The simple text of a fresh random uuid.
fn random_uuid_text() -> (r: String)
    ensures
        is_uuid_text(r@),
{
    let bytes = random_uuid_bytes();
    let text = encode(&bytes);
    assert(is_v4_uuid(bytes@) && hex_encode(bytes@) == text@);
    text
}

impl Endpoint {
    /// The descriptor for this launch of process `pid`, listening at `endpoint_path`,
    /// with a fresh token that no earlier launch could have captured.
    pub fn generate(endpoint_path: String, pid: u32) -> (r: Self)
        ensures
            r.endpoint_path@ == endpoint_path@,
            r.pid == pid,
            r.protocol_version == PROTOCOL_VERSION,
            is_uuid_text(r.token@),
    {
        Endpoint { endpoint_path, token: random_uuid_text(), protocol_version: PROTOCOL_VERSION, pid }
    }
}

/// A fresh named-pipe path. The pipe namespace is machine-global, so a fixed name could
/// be squatted by another process; the random suffix prevents that.
pub fn pipe_path() -> (r: String)
    ensures
        exists|t: Seq<char>| is_uuid_text(t) && r@ == PIPE_PREFIX@ + t,
{
    let mut out = String::from_str(PIPE_PREFIX);
    let id = random_uuid_text();
    out.append(id.as_str());
    assert(is_uuid_text(id@) && out@ == PIPE_PREFIX@ + id@);
    out
}

/// The Unix socket the agent listens on, in the runtime directory `runtime_dir`.
pub fn socket_path(runtime_dir: &str) -> (r: String)
    ensures
        r@ == path_join(runtime_dir@, SOCKET_FILE@),
{
    join(runtime_dir, SOCKET_FILE)
}

/// The handshake file, beside the socket in the runtime directory `runtime_dir`.
pub fn handshake_path(runtime_dir: &str) -> (r: String)
    ensures
        r@ == path_join(runtime_dir@, HANDSHAKE_FILE@),
{
    join(runtime_dir, HANDSHAKE_FILE)
}

/// The handshake file lives beside the socket: both are their file name appended to the
/// same directory prefix, so a client that finds one finds the other.
pub proof fn lemma_handshake_beside_socket(runtime_dir: Seq<char>)
    ensures
        path_join(runtime_dir, HANDSHAKE_FILE@) == dir_prefix(runtime_dir) + HANDSHAKE_FILE@,
        path_join(runtime_dir, SOCKET_FILE@) == dir_prefix(runtime_dir) + SOCKET_FILE@,
{
    if runtime_dir.len() == 0 {
        assert(dir_prefix(runtime_dir) + HANDSHAKE_FILE@ =~= HANDSHAKE_FILE@);
        assert(dir_prefix(runtime_dir) + SOCKET_FILE@ =~= SOCKET_FILE@);
    } else if runtime_dir.last() != '/' {
        assert(runtime_dir + seq!['/'] + HANDSHAKE_FILE@ =~= (runtime_dir + seq!['/']) + HANDSHAKE_FILE@);
    }
}

} // verus!
