//! The local IPC wire protocol: what a client may ask the agent, and what it answers.

use vstd::prelude::*;
use vstd::string::StringSliceAdditionalSpecFns;

use crate::key::PeerKey;
use crate::protocol::MAX_MESSAGE_BYTES;
use crate::text::{trim, trim_str};

verus! {

/// What may be asked of a peer through the relay. A closed list, so a relay can never
/// be relayed.
#[derive(Debug, Clone, Copy, PartialEq, Eq, Structural)]
pub enum PeerQuery {
    AudioDevices,
    Monitors,
}

/// The peer's whole virtual desktop, in its own coordinates.
#[derive(Debug, Clone, Copy, PartialEq, Eq, Structural)]
pub struct VirtualScreenDto {
    pub left: i32,
    pub top: i32,
    pub width: i32,
    pub height: i32,
}

/// The three mouse buttons the wire protocol carries.
#[derive(Debug, Clone, Copy, PartialEq, Eq, Hash, Structural)]
pub enum MouseButtonDto {
    Left,
    Right,
    Middle,
}

/// Window info as sent to the desktop app. Titles are display-only, never logged.
#[derive(Debug, Clone, PartialEq, Eq)]
pub struct WindowDto {
    pub hwnd: i64,
    pub title: String,
    pub process_id: u32,
    pub left: i32,
    pub top: i32,
    pub right: i32,
    pub bottom: i32,
}

/// Requests a client sends to the agent.
#[derive(Debug, Clone, PartialEq, Eq)]
pub enum IpcRequest {
    /// Must be the first message on a token session; presents the per-launch token.
    Hello { token: String, protocol_version: u32 },
    Ping,
    EnumerateWindows,
    InjectMouseMove { screen_x: i32, screen_y: i32, virtual_screen: VirtualScreenDto },
    InjectMouseButton { button: MouseButtonDto, down: bool },
    InjectKey { scancode: u16, down: bool },
    /// Wheel movement in Win32 units, already whole notches in the receiver's sign
    /// convention.
    InjectScroll { delta_x: i32, delta_y: i32 },
    /// Release every key and button this session is holding. Idempotent.
    ReleaseAllInput,
    /// This machine's audio endpoints.
    ListAudioDevices,
    /// This machine's monitors, in its own virtual-desktop coordinates.
    ListMonitors,
    /// Put a question to a paired peer on the caller's behalf. Local callers only.
    AskPeer { peer: PeerKey, query: PeerQuery },
}

/// Answers the agent's session gives itself. The device and monitor listings, and a
/// peer's relayed answers, are assembled by the transport that holds the inventories.
#[derive(Debug, Clone, PartialEq, Eq)]
pub enum IpcResponse {
    HelloOk { agent_version: String, protocol_version: u32 },
    Pong,
    Windows { windows: Vec<WindowDto> },
    Injected,
    Released { count: usize },
    Error { code: String, message: String },
}

/// Whether a response is the error with this code and message.
pub open spec fn is_error(r: IpcResponse, code: Seq<char>, message: Seq<char>) -> bool {
    r matches IpcResponse::Error { code: c, message: m } && c@ == code && m@ == message
}

/// An error response.
pub fn err(code: &str, message: &str) -> (r: IpcResponse)
    ensures
        is_error(r, code@, message@),
{
    IpcResponse::Error { code: String::from_str(code), message: String::from_str(message) }
}

/// One line read off a connection, sorted before anything is parsed.
#[derive(Debug, Clone, PartialEq, Eq)]
pub enum Incoming {
    /// Over the size limit: answered with [`too_large`] and the connection closed,
    /// against a buggy or hostile client.
    TooLarge,
    /// Nothing but white space: skipped.
    Blank,
    /// The request text, trimmed, to parse.
    Request(String),
}

/// Sort one line read off a connection: too large if its bytes exceed
/// `MAX_MESSAGE_BYTES`, else blank if it is only white space, else the trimmed text.
pub fn frame_line(line: &str) -> (r: Incoming)
    ensures
        line.spec_bytes().len() > MAX_MESSAGE_BYTES ==> r == Incoming::TooLarge,
        line.spec_bytes().len() <= MAX_MESSAGE_BYTES && trim(line@).len() == 0 ==> r == Incoming::Blank,
        line.spec_bytes().len() <= MAX_MESSAGE_BYTES && trim(line@).len() > 0 ==> (r matches Incoming::Request(t)
            && t@ == trim(line@)),
{
    if line.as_bytes().len() > MAX_MESSAGE_BYTES {
        return Incoming::TooLarge;
    }
    let trimmed = trim_str(line);
    if trimmed.unicode_len() == 0 {
        Incoming::Blank
    } else {
        Incoming::Request(trimmed)
    }
}

/// The answer to a line over the size limit.
pub fn too_large() -> (r: IpcResponse)
    ensures
        is_error(r, "too_large"@, "message exceeds maximum size"@),
{
    err("too_large", "message exceeds maximum size")
}

/// The answer to a line that is not a request; `detail` says what the parser found.
pub fn bad_request(detail: &str) -> (r: IpcResponse)
    ensures
        is_error(r, "bad_request"@, "invalid request json: "@ + detail@),
{
    let mut message = String::from_str("invalid request json: ");
    message.append(detail);
    IpcResponse::Error { code: String::from_str("bad_request"), message }
}

} // verus!
