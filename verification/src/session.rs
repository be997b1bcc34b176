//! The agent's per-connection session: authentication, the permission gate, and the
//! record of every key and button the connection is holding, so that a dropped
//! connection can release them all.
//!
//! The session decides; the transport does. The session never touches the input
//! backend: every injection is handed back as an [`InjectorCall`] value, which the
//! transport makes on its [`Injector`] and whose result it hands to
//! [`Session::complete`]. A relay to a peer and the device and monitor listings are
//! handed back the same way, as [`Dispatch`] work.

use std::collections::HashSet;

use vstd::prelude::*;
use vstd::std_specs::hash::spec_hash_keys_iter;
use vstd::std_specs::iter::IteratorSpec;

use crate::ipc::{err, is_error, IpcRequest, IpcResponse, MouseButtonDto, PeerQuery, VirtualScreenDto, WindowDto};
use crate::key::PeerKey;
use crate::peers::{all_permissions, Permissions};
use crate::protocol::PROTOCOL_VERSION;
use crate::text::{decimal, decimal_text};

verus! {

/// The version this agent reports in `HelloOk`.
pub const AGENT_VERSION: &'static str = "0.1.0";

/// Why an injection failed, with an operator-facing message.
#[derive(Debug, Clone, PartialEq, Eq)]
pub enum InputError {
    /// This platform cannot inject input.
    Unsupported(String),
    /// The operating system blocked the injection.
    Blocked(String),
    /// Any other operating-system failure.
    Os(String),
}

/// The input backend a platform implements. The session never calls it: it names each
/// call as an [`InjectorCall`], and the transport makes that call, the method of the same
/// name with the call's arguments. Its results depend on the machine, so nothing is
/// assumed of them.
pub trait Injector {
    fn mouse_move(&self, screen_x: i32, screen_y: i32, vs: VirtualScreenDto) -> Result<(), InputError>;

    fn mouse_button(&self, button: MouseButtonDto, down: bool) -> Result<(), InputError>;

    fn key(&self, scancode: u16, down: bool) -> Result<(), InputError>;

    fn scroll(&self, delta_x: i32, delta_y: i32) -> Result<(), InputError>;

    fn enumerate(&self) -> Vec<WindowDto>;
}

/// Where a session's far end is.
#[derive(Debug, Clone, Copy, PartialEq, Eq, Structural)]
pub enum Origin {
    /// A process on this machine, holding the per-launch token.
    Local,
    /// Another device, authenticated by its pinned key.
    Peer,
}

/// What a peer must have been granted for a gated request.
#[derive(Debug, Clone, Copy, PartialEq, Eq, Structural)]
pub enum Needed {
    ControlInput,
    ReadDevices,
    ListWindows,
}

/// What a request costs.
#[derive(Debug, Clone, Copy, PartialEq, Eq, Structural)]
pub enum Gate {
    /// Available to anyone the session let in.
    Open,
    /// Needs a permission the operator granted this peer.
    Permission(Needed),
    /// Never available to a peer, whatever it has been granted.
    LocalOnly,
}

/// What the dispatcher decided to do with a request.
#[derive(Debug)]
pub enum Dispatch {
    /// Answer with this.
    Reply(IpcResponse),
    /// Authorised: the transport must ask the peer and answer on the session's behalf.
    AskPeer { peer: PeerKey, query: PeerQuery },
    /// Authorised: the transport answers with this machine's audio endpoints.
    ListAudioDevices,
    /// Authorised: the transport answers with this machine's monitors.
    ListMonitors,
    /// Authorised: the transport makes this one injector call and answers with what
    /// [`Session::complete`] makes of its result.
    Inject(InjectorCall),
    /// Authorised: the transport makes each of these release calls once, whatever each
    /// returns, makes no other, and answers with `reply`.
    ReleaseAll { calls: Vec<InjectorCall>, reply: IpcResponse },
}

/// One call of the injector, as a value.
#[derive(Debug, Clone, PartialEq, Eq, Structural)]
pub enum InjectorCall {
    MouseMove { screen_x: i32, screen_y: i32, virtual_screen: VirtualScreenDto },
    MouseButton { button: MouseButtonDto, down: bool },
    Key { scancode: u16, down: bool },
    Scroll { delta_x: i32, delta_y: i32 },
    Enumerate,
}

/// What an injector call came back with.
#[derive(Debug)]
pub enum CallResult {
    /// An injection: done, or why not.
    Done(Result<(), InputError>),
    /// The windows `enumerate` listed.
    Windows(Vec<WindowDto>),
}

/// The injector call a request is carried out by, if the injector serves it.
pub open spec fn injector_call_spec(req: IpcRequest) -> Option<InjectorCall> {
    match req {
        IpcRequest::InjectMouseMove { screen_x, screen_y, virtual_screen } => Some(
            InjectorCall::MouseMove { screen_x, screen_y, virtual_screen },
        ),
        IpcRequest::InjectMouseButton { button, down } => Some(InjectorCall::MouseButton { button, down }),
        IpcRequest::InjectKey { scancode, down } => Some(InjectorCall::Key { scancode, down }),
        IpcRequest::InjectScroll { delta_x, delta_y } => Some(InjectorCall::Scroll { delta_x, delta_y }),
        IpcRequest::EnumerateWindows => Some(InjectorCall::Enumerate),
        _ => None,
    }
}

/// Whether a result has the shape the call gives: a window list for `Enumerate`, an
/// injection outcome for every other call.
pub open spec fn result_fits(c: InjectorCall, res: CallResult) -> bool {
    (c is Enumerate) == (res is Windows)
}

/// The reply a call's result is answered with.
pub open spec fn completed_reply(res: CallResult, r: IpcResponse) -> bool {
    match res {
        CallResult::Windows(w) => r == (IpcResponse::Windows { windows: w }),
        CallResult::Done(Ok(_)) => r == IpcResponse::Injected,
        CallResult::Done(Err(e)) => is_error(r, input_error_code(e), input_error_message(e)),
    }
}

/// The session after a call's result: a successful press is held, a successful release
/// is no longer held, and anything else changes nothing.
pub open spec fn completed_state(s: SessionView, c: InjectorCall, res: CallResult) -> SessionView {
    if res matches CallResult::Done(Ok(_)) {
        match c {
            InjectorCall::MouseButton { button, down } => SessionView {
                held_buttons: if down { s.held_buttons.insert(button) } else { s.held_buttons.remove(button) },
                ..s
            },
            InjectorCall::Key { scancode, down } => SessionView {
                held_scancodes: if down { s.held_scancodes.insert(scancode) } else { s.held_scancodes.remove(scancode) },
                ..s
            },
            _ => s,
        }
    } else {
        s
    }
}

/// Whether `c` is one of the calls that release what the session `s` holds.
pub open spec fn release_call(s: SessionView, c: InjectorCall) -> bool {
    match c {
        InjectorCall::MouseButton { button, down } => !down && s.held_buttons.contains(button),
        InjectorCall::Key { scancode, down } => !down && s.held_scancodes.contains(scancode),
        _ => false,
    }
}

/// Whether `calls` are exactly the calls that let go of what a session in state `s`
/// holds: each held button and each held scancode released once, and nothing else.
pub open spec fn releases_exactly(s: SessionView, calls: Seq<InjectorCall>) -> bool {
    &&& calls.no_duplicates()
    &&& calls.len() == s.held_buttons.len() + s.held_scancodes.len()
    &&& forall|i: int| 0 <= i < calls.len() ==> release_call(s, #[trigger] calls[i])
    &&& forall|c: InjectorCall| release_call(s, c) ==> calls.contains(c)
}

/// The injector call, if any, that a request makes on a session in state `s`: none
/// before authentication, for a `Hello`, or for a refused request; otherwise the call
/// the request is carried out by.
pub open spec fn planned_call(s: SessionView, req: IpcRequest) -> Option<InjectorCall> {
    if s.authenticated && !refused(s, req) {
        injector_call_spec(req)
    } else {
        None
    }
}

/// The injector call a request is carried out by.
pub fn injector_call(req: &IpcRequest) -> (r: Option<InjectorCall>)
    ensures
        r == injector_call_spec(*req),
{
    match req {
        IpcRequest::InjectMouseMove { screen_x, screen_y, virtual_screen } => Some(
            InjectorCall::MouseMove { screen_x: *screen_x, screen_y: *screen_y, virtual_screen: *virtual_screen },
        ),
        IpcRequest::InjectMouseButton { button, down } => Some(InjectorCall::MouseButton { button: *button, down: *down }),
        IpcRequest::InjectKey { scancode, down } => Some(InjectorCall::Key { scancode: *scancode, down: *down }),
        IpcRequest::InjectScroll { delta_x, delta_y } => Some(InjectorCall::Scroll { delta_x: *delta_x, delta_y: *delta_y }),
        IpcRequest::EnumerateWindows => Some(InjectorCall::Enumerate),
        _ => None,
    }
}

/// The answer when this machine's audio endpoints could not be read.
pub fn audio_unavailable(message: &str) -> (r: IpcResponse)
    ensures
        is_error(r, "audio_unavailable"@, message@),
{
    err("audio_unavailable", message)
}

/// The answer when this machine's monitors could not be read.
pub fn monitors_unavailable(message: &str) -> (r: IpcResponse)
    ensures
        is_error(r, "monitors_unavailable"@, message@),
{
    err("monitors_unavailable", message)
}

pub open spec fn gate_spec(req: IpcRequest) -> Gate {
    match req {
        IpcRequest::Ping => Gate::Open,
        IpcRequest::Hello { .. } => Gate::Open,
        IpcRequest::InjectMouseMove { .. } => Gate::Permission(Needed::ControlInput),
        IpcRequest::InjectMouseButton { .. } => Gate::Permission(Needed::ControlInput),
        IpcRequest::InjectKey { .. } => Gate::Permission(Needed::ControlInput),
        IpcRequest::InjectScroll { .. } => Gate::Permission(Needed::ControlInput),
        IpcRequest::ReleaseAllInput => Gate::Open,
        IpcRequest::EnumerateWindows => Gate::Permission(Needed::ListWindows),
        IpcRequest::ListAudioDevices => Gate::Permission(Needed::ReadDevices),
        IpcRequest::ListMonitors => Gate::Permission(Needed::ReadDevices),
        IpcRequest::AskPeer { .. } => Gate::LocalOnly,
    }
}

pub open spec fn granted_by(n: Needed, p: Permissions) -> bool {
    match n {
        Needed::ControlInput => p.control_input,
        Needed::ReadDevices => p.read_devices,
        Needed::ListWindows => p.list_windows,
    }
}

pub open spec fn needed_name(n: Needed) -> Seq<char> {
    match n {
        Needed::ControlInput => "control-input"@,
        Needed::ReadDevices => "read-devices"@,
        Needed::ListWindows => "list-windows"@,
    }
}

/// Which permission a request needs, decided per request with no default arm.
pub fn gate_for(req: &IpcRequest) -> (r: Gate)
    ensures
        r == gate_spec(*req),
{
    match req {
        IpcRequest::Ping => Gate::Open,
        IpcRequest::Hello { .. } => Gate::Open,
        IpcRequest::InjectMouseMove { .. } => Gate::Permission(Needed::ControlInput),
        IpcRequest::InjectMouseButton { .. } => Gate::Permission(Needed::ControlInput),
        IpcRequest::InjectKey { .. } => Gate::Permission(Needed::ControlInput),
        IpcRequest::InjectScroll { .. } => Gate::Permission(Needed::ControlInput),
        // Releasing only undoes what this session already did: never gated.
        IpcRequest::ReleaseAllInput => Gate::Open,
        IpcRequest::EnumerateWindows => Gate::Permission(Needed::ListWindows),
        IpcRequest::ListAudioDevices => Gate::Permission(Needed::ReadDevices),
        IpcRequest::ListMonitors => Gate::Permission(Needed::ReadDevices),
        IpcRequest::AskPeer { .. } => Gate::LocalOnly,
    }
}

impl Needed {
    pub fn granted_by(self, p: &Permissions) -> (r: bool)
        ensures
            r == granted_by(self, *p),
    {
        match self {
            Needed::ControlInput => p.control_input,
            Needed::ReadDevices => p.read_devices,
            Needed::ListWindows => p.list_windows,
        }
    }

    pub fn name(self) -> (r: &'static str)
        ensures
            r@ == needed_name(self),
    {
        match self {
            Needed::ControlInput => "control-input",
            Needed::ReadDevices => "read-devices",
            Needed::ListWindows => "list-windows",
        }
    }
}

/// Byte equality that does the same work for every pair of inputs of the same longer
/// length: both are walked to the end of the longer one with no early exit, so neither
/// where they first differ nor whether their lengths differ shows in the time taken.
pub fn constant_time_eq(a: &[u8], b: &[u8]) -> (r: bool)
    ensures
        r == (a@ == b@),
{
    let n: usize = if a.len() > b.len() {
        a.len()
    } else {
        b.len()
    };
    let mut diff: u8 = if a.len() == b.len() {
        0
    } else {
        1
    };
    let mut i: usize = 0;
    while i < n
        invariant
            n == (if a@.len() > b@.len() {
                a@.len()
            } else {
                b@.len()
            }),
            i <= n,
            (diff == 0) == (a@.len() == b@.len() && forall|j: int| 0 <= j < i ==> a@[j] == b@[j]),
        decreases n - i,
    {
        let x: u8 = if i < a.len() {
            a[i]
        } else {
            0
        };
        let y: u8 = if i < b.len() {
            b[i]
        } else {
            0
        };
        assert((diff | (x ^ y)) == 0 <==> (diff == 0 && x == y)) by (bit_vector);
        diff = diff | (x ^ y);
        i = i + 1;
    }
    if diff == 0 {
        assert(a@ =~= b@);
    }
    diff == 0
}

/// Per-connection session state.
#[derive(Debug)]
pub struct Session {
    expected_token: Option<String>,
    origin: Origin,
    permissions: Permissions,
    authenticated: bool,
    /// Buttons this session holds down, each once. A list with no repeats rather than a
    /// hash set: the button is an enum of this crate, and a hash set's contract holds
    /// only for keys whose hashing vstd vouches for (integers and the like).
    held_buttons: Vec<MouseButtonDto>,
    /// Scancodes this session holds down.
    held_scancodes: HashSet<u16>,
}

/// A session, abstractly.
pub struct SessionView {
    /// The token a `Hello` must present, or `None` when the transport authenticated.
    pub expected_token: Option<Seq<char>>,
    pub origin: Origin,
    pub permissions: Permissions,
    pub authenticated: bool,
    pub held_buttons: Set<MouseButtonDto>,
    pub held_scancodes: Set<u16>,
}

impl View for Session {
    type V = SessionView;

    closed spec fn view(&self) -> SessionView {
        SessionView {
            expected_token: match self.expected_token {
                Some(t) => Some(t@),
                None => None,
            },
            origin: self.origin,
            permissions: self.permissions,
            authenticated: self.authenticated,
            held_buttons: self.held_buttons@.to_set(),
            held_scancodes: self.held_scancodes@,
        }
    }
}

/// The response code of an injection failure.
pub open spec fn input_error_code(e: InputError) -> Seq<char> {
    match e {
        InputError::Unsupported(_) => "input_unsupported"@,
        InputError::Blocked(_) => "input_blocked"@,
        InputError::Os(_) => "input_os_error"@,
    }
}

pub open spec fn input_error_message(e: InputError) -> Seq<char> {
    match e {
        InputError::Unsupported(m) => m@,
        InputError::Blocked(m) => m@,
        InputError::Os(m) => m@,
    }
}

fn input_err(e: InputError) -> (r: IpcResponse)
    ensures
        is_error(r, input_error_code(e), input_error_message(e)),
{
    let r = match &e {
        InputError::Unsupported(m) => err("input_unsupported", m.as_str()),
        InputError::Blocked(m) => err("input_blocked", m.as_str()),
        InputError::Os(m) => err("input_os_error", m.as_str()),
    };
    r
}

/// The message a protocol mismatch is refused with.
pub open spec fn mismatch_message(peer_version: u32) -> Seq<char> {
    "agent speaks v"@ + decimal_text(PROTOCOL_VERSION as nat) + ", client sent v"@ + decimal_text(peer_version as nat)
}

/// The session's state is unchanged.
pub open spec fn same_session(a: SessionView, b: SessionView) -> bool {
    a == b
}

/// The reply to a request on a session that has not authenticated, and whether it
/// authenticates the session.
pub open spec fn authenticate_spec(s: SessionView, req: IpcRequest, r: IpcResponse) -> bool {
    match req {
        IpcRequest::Hello { token, protocol_version } => match s.expected_token {
            None => is_error(r, "unauthorized"@, "this transport does not accept tokens"@),
            Some(expected) => if token@ != expected {
                is_error(r, "unauthorized"@, "invalid auth token"@)
            } else if protocol_version != PROTOCOL_VERSION {
                is_error(r, "protocol_mismatch"@, mismatch_message(protocol_version))
            } else {
                r matches IpcResponse::HelloOk { agent_version, protocol_version: v } && agent_version@
                    == AGENT_VERSION@ && v == PROTOCOL_VERSION
            },
        },
        _ => is_error(r, "unauthenticated"@, "must send Hello first"@),
    }
}

/// Whether a `Hello` authenticates a session in this state.
pub open spec fn hello_accepted(s: SessionView, req: IpcRequest) -> bool {
    req matches IpcRequest::Hello { token, protocol_version } && s.expected_token matches Some(
        expected,
    ) && token@ == expected && protocol_version == PROTOCOL_VERSION
}

/// The refusal, if any, an authenticated session gives a request before acting on it.
pub open spec fn refused(s: SessionView, req: IpcRequest) -> bool {
    req is Hello || match gate_spec(req) {
        Gate::Open => false,
        Gate::Permission(n) => !granted_by(n, s.permissions),
        Gate::LocalOnly => s.origin != Origin::Local,
    }
}

impl Session {
    #[verifier::type_invariant]
    closed spec fn inv(self) -> bool {
        &&& self.held_buttons@.no_duplicates()
    }

    /// A session gated by the per-launch token, and allowed everything: the only holder
    /// of the token is a process running as this user on this machine.
    pub fn new(expected_token: &str) -> (r: Self)
        ensures
            r@.expected_token == Some(expected_token@),
            r@.origin == Origin::Local,
            r@.permissions == all_permissions(),
            !r@.authenticated,
            r@.held_buttons == Set::<MouseButtonDto>::empty(),
            r@.held_scancodes == Set::<u16>::empty(),
    {
        let r = Session {
            expected_token: Some(String::from_str(expected_token)),
            origin: Origin::Local,
            permissions: Permissions::all(),
            authenticated: false,
            held_buttons: Vec::new(),
            held_scancodes: HashSet::new(),
        };
        proof {
            assert(r.held_buttons@.to_set() =~= Set::<MouseButtonDto>::empty());
        }
        r
    }

    /// A session whose peer the transport already authenticated by its pinned key: no
    /// token is accepted, and the peer gets exactly the permissions it was granted.
    pub fn for_authenticated_peer(permissions: Permissions) -> (r: Self)
        ensures
            r@.expected_token is None,
            r@.origin == Origin::Peer,
            r@.permissions == permissions,
            r@.authenticated,
            r@.held_buttons == Set::<MouseButtonDto>::empty(),
            r@.held_scancodes == Set::<u16>::empty(),
    {
        let r = Session {
            expected_token: None,
            origin: Origin::Peer,
            permissions,
            authenticated: true,
            held_buttons: Vec::new(),
            held_scancodes: HashSet::new(),
        };
        proof {
            assert(r.held_buttons@.to_set() =~= Set::<MouseButtonDto>::empty());
        }
        r
    }

    pub fn is_authenticated(&self) -> (r: bool)
        ensures
            r == self@.authenticated,
    {
        self.authenticated
    }

    /// How many keys and buttons this session is holding.
    pub fn held_count(&self) -> (r: usize)
        ensures
            r == self@.held_buttons.len() + self@.held_scancodes.len(),
    {
        proof {
            use_type_invariant(self);
            self.held_buttons@.unique_seq_to_set();
            assert(self.held_buttons@.len() <= 3) by {
                lemma_buttons_at_most_three(self.held_buttons@);
            }
            lemma_held_scancodes_bounded(&self.held_scancodes);
        }
        self.held_buttons.len() + self.held_scancodes.len()
    }

    /// Authorise a request, then either answer it or hand back the work the transport
    /// must do. The only injector work handed back is [`planned_call`] of the request,
    /// as [`Dispatch::Inject`], or the release calls for `ReleaseAllInput`: an
    /// unauthenticated, duplicate or refused request is answered and makes no call.
    pub fn dispatch(&mut self, req: IpcRequest) -> (r: Dispatch)
        ensures
            planned_call(old(self)@, req) matches Some(c) ==> r == Dispatch::Inject(c) && final(self)@ == old(self)@,
            r matches Dispatch::Inject(c) ==> planned_call(old(self)@, req) == Some(c),
            (r is Inject || r is ReleaseAll) ==> old(self)@.authenticated && !refused(old(self)@, req),
            // Before authentication, nothing but a valid Hello gets through.
            !old(self)@.authenticated ==> (r matches Dispatch::Reply(resp) && authenticate_spec(
                old(self)@,
                req,
                resp,
            )) && final(self)@ == (if hello_accepted(old(self)@, req) {
                SessionView { authenticated: true, ..old(self)@ }
            } else {
                old(self)@
            }),
            old(self)@.authenticated ==> final(self)@.authenticated,
            old(self)@.authenticated && req is Hello ==> (r matches Dispatch::Reply(resp) && is_error(
                resp,
                "already_authenticated"@,
                "duplicate Hello"@,
            )) && final(self)@ == old(self)@,
            old(self)@.authenticated && !(req is Hello) && refused(old(self)@, req) ==> (r matches Dispatch::Reply(resp)
                && match gate_spec(req) {
                Gate::Permission(n) => is_error(
                    resp,
                    "not_permitted"@,
                    "this device does not allow \""@ + needed_name(n) + "\" for the peer on this session"@,
                ),
                _ => is_error(resp, "local_only"@, "this request may only be made by a process on the machine itself"@),
            }) && final(self)@ == old(self)@,
            old(self)@.authenticated && !refused(old(self)@, req) ==> act_spec(old(self)@, req, r, final(self)@),
    {
        if !self.authenticated {
            return Dispatch::Reply(self.authenticate(req));
        }
        if let IpcRequest::Hello { .. } = req {
            return Dispatch::Reply(err("already_authenticated", "duplicate Hello"));
        }
        if let Some(refusal) = self.check_gate(&req) {
            return Dispatch::Reply(refusal);
        }
        if let IpcRequest::AskPeer { peer, query } = req {
            return Dispatch::AskPeer { peer, query };
        }
        self.act(req)
    }

    fn authenticate(&mut self, req: IpcRequest) -> (r: IpcResponse)
        requires
            !old(self)@.authenticated,
        ensures
            authenticate_spec(old(self)@, req, r),
            final(self)@ == (if hello_accepted(old(self)@, req) {
                SessionView { authenticated: true, ..old(self)@ }
            } else {
                old(self)@
            }),
    {
        proof {
            use_type_invariant(&*self);
        }
        let (token, protocol_version) = match req {
            IpcRequest::Hello { token, protocol_version } => (token, protocol_version),
            _ => {
                return err("unauthenticated", "must send Hello first");
            },
        };
        let matches = match &self.expected_token {
            None => {
                return err("unauthorized", "this transport does not accept tokens");
            },
            Some(expected) => constant_time_eq(token.as_str().as_bytes(), expected.as_str().as_bytes()),
        };
        proof {
            let expected = self.expected_token->0@;
            vstd::utf8::encode_utf8_decode_utf8(token@);
            vstd::utf8::encode_utf8_decode_utf8(expected);
        }
        if !matches {
            return err("unauthorized", "invalid auth token");
        }
        if protocol_version != PROTOCOL_VERSION {
            let mut message = String::from_str("agent speaks v");
            message.append(decimal(PROTOCOL_VERSION).as_str());
            message.append(", client sent v");
            message.append(decimal(protocol_version).as_str());
            return IpcResponse::Error { code: String::from_str("protocol_mismatch"), message };
        }
        self.authenticated = true;
        IpcResponse::HelloOk { agent_version: String::from_str(AGENT_VERSION), protocol_version: PROTOCOL_VERSION }
    }

    /// The refusal a request gets, if the session may not make it at all.
    fn check_gate(&self, req: &IpcRequest) -> (r: Option<IpcResponse>)
        requires
            !(*req is Hello),
        ensures
            r is Some == refused(self@, *req),
            r matches Some(resp) ==> match gate_spec(*req) {
                Gate::Permission(n) => is_error(
                    resp,
                    "not_permitted"@,
                    "this device does not allow \""@ + needed_name(n) + "\" for the peer on this session"@,
                ),
                _ => is_error(resp, "local_only"@, "this request may only be made by a process on the machine itself"@),
            },
    {
        match gate_for(req) {
            Gate::Open => None,
            Gate::Permission(needed) => {
                if needed.granted_by(&self.permissions) {
                    None
                } else {
                    let mut message = String::from_str("this device does not allow \"");
                    message.append(needed.name());
                    message.append("\" for the peer on this session");
                    Some(IpcResponse::Error { code: String::from_str("not_permitted"), message })
                }
            },
            Gate::LocalOnly => {
                if self.origin == Origin::Local {
                    None
                } else {
                    Some(
                        err(
                            "local_only",
                            "this request may only be made by a process on the machine itself",
                        ),
                    )
                }
            },
        }
    }

    /// Carry out a request that has been authenticated and authorised. A request the
    /// injector serves is handed back as its call ([`injector_call`]), to be settled by
    /// [`Session::complete`] once the transport has made it.
    fn act(&mut self, req: IpcRequest) -> (r: Dispatch)
        requires
            old(self)@.authenticated,
            !refused(old(self)@, req),
            !(req is AskPeer),
        ensures
            act_spec(old(self)@, req, r, final(self)@),
    {
        if let Some(call) = injector_call(&req) {
            return Dispatch::Inject(call);
        }
        match req {
            IpcRequest::Ping => Dispatch::Reply(IpcResponse::Pong),
            IpcRequest::ReleaseAllInput => {
                let calls = self.release_all();
                let count = calls.len();
                Dispatch::ReleaseAll { calls, reply: IpcResponse::Released { count } }
            },
            IpcRequest::ListAudioDevices => Dispatch::ListAudioDevices,
            IpcRequest::ListMonitors => Dispatch::ListMonitors,
            _ => Dispatch::Reply(err("unreachable", "this request is handled before dispatch reaches the backends")),
        }
    }

    /// Settle one injector call: its reply, and what the session holds afterwards. A
    /// press that succeeded is held, a release that succeeded is no longer held, and a
    /// failure changes nothing and is answered with its code and message.
    pub fn complete(&mut self, call: &InjectorCall, res: CallResult) -> (r: IpcResponse)
        ensures
            completed_reply(res, r),
            final(self)@ == completed_state(old(self)@, *call, res),
    {
        proof {
            use_type_invariant(&*self);
        }
        match res {
            CallResult::Windows(windows) => IpcResponse::Windows { windows },
            CallResult::Done(Err(e)) => input_err(e),
            CallResult::Done(Ok(())) => {
                match call {
                    InjectorCall::MouseButton { button, down } => {
                        let mut held: Vec<MouseButtonDto> = Vec::new();
                        std::mem::swap(&mut held, &mut self.held_buttons);
                        if *down {
                            hold_button(&mut held, *button);
                        } else {
                            drop_button(&mut held, *button);
                        }
                        self.held_buttons = held;
                    },
                    InjectorCall::Key { scancode, down } => {
                        broadcast use vstd::std_specs::hash::group_hash_axioms;

                        let mut held: HashSet<u16> = HashSet::new();
                        std::mem::swap(&mut held, &mut self.held_scancodes);
                        if *down {
                            held.insert(*scancode);
                        } else {
                            held.remove(scancode);
                        }
                        self.held_scancodes = held;
                    },
                    _ => {},
                }
                IpcResponse::Injected
            },
        }
    }

    /// The calls that let go of everything this session holds: one button release per
    /// held button and one key release per held scancode, each once.
    pub fn release_calls(&self) -> (r: Vec<InjectorCall>)
        ensures
            releases_exactly(self@, r@),
    {
        proof {
            use_type_invariant(self);
            self.held_buttons@.unique_seq_to_set();
            lemma_buttons_at_most_three(self.held_buttons@);
            lemma_held_scancodes_bounded(&self.held_scancodes);
        }
        let mut out: Vec<InjectorCall> = Vec::new();
        let mut i: usize = 0;
        while i < self.held_buttons.len()
            invariant
                i <= self.held_buttons@.len() <= 3,
                self.held_buttons@.no_duplicates(),
                out@.len() == i,
                forall|j: int| 0 <= j < i ==> #[trigger] out@[j] == (InjectorCall::MouseButton {
                    button: self.held_buttons@[j],
                    down: false,
                }),
            decreases self.held_buttons@.len() - i,
        {
            out.push(InjectorCall::MouseButton { button: self.held_buttons[i], down: false });
            i = i + 1;
        }
        let nb = self.held_buttons.len();
        let ghost keys = spec_hash_keys_iter(&self.held_scancodes).remaining();
        for k in it: self.held_scancodes.iter()
            invariant
                nb == self.held_buttons@.len() <= 3,
                keys == spec_hash_keys_iter(&self.held_scancodes).remaining(),
                it.seq() == keys,
                keys.len() <= 65536,
                out@.len() == nb + it.index(),
                forall|j: int| 0 <= j < nb ==> #[trigger] out@[j] == (InjectorCall::MouseButton {
                    button: self.held_buttons@[j],
                    down: false,
                }),
                forall|j: int| nb <= j < out@.len() ==> #[trigger] out@[j] == (InjectorCall::Key {
                    scancode: *keys[j - nb],
                    down: false,
                }),
        {
            out.push(InjectorCall::Key { scancode: *k, down: false });
        }
        proof {
            broadcast use vstd::std_specs::hash::group_hash_axioms;

            let b = self.held_buttons@;
            let c = keys.unref();
            assert(c.to_set() == self.held_scancodes@);
            assert(c.len() == keys.len());
            assert(out@.len() == nb + c.len());
            assert forall|x: int, y: int| 0 <= x < c.len() && 0 <= y < c.len() && x != y implies c[x] != c[y] by {
                assert(keys[x] != keys[y]);
            }
            assert forall|x: int, y: int| 0 <= x < out@.len() && 0 <= y < out@.len() && x != y implies out@[x]
                != out@[y] by {
                if x < nb && y < nb {
                    assert(b[x] != b[y]);
                } else if x >= nb && y >= nb {
                    assert(c[x - nb] != c[y - nb]);
                }
            }
            assert forall|i: int| 0 <= i < out@.len() implies release_call(self@, #[trigger] out@[i]) by {
                if i < nb {
                    assert(b.contains(b[i]));
                } else {
                    assert(c.contains(c[i - nb]));
                }
            }
            assert forall|cl: InjectorCall| release_call(self@, cl) implies out@.contains(cl) by {
                match cl {
                    InjectorCall::MouseButton { button, down } => {
                        let j = choose|j: int| 0 <= j < b.len() && b[j] == button;
                        assert(out@[j] == cl);
                    },
                    InjectorCall::Key { scancode, down } => {
                        assert(c.to_set().contains(scancode));
                        let j = choose|j: int| 0 <= j < c.len() && c[j] == scancode;
                        assert(out@[nb + j] == cl);
                    },
                    _ => {},
                }
            }
        }
        out
    }

    /// Let go of everything this session holds, as when its connection drops: the
    /// session no longer holds anything, and the calls returned are exactly those that
    /// release what it held, each once. The transport makes every one of them, whatever
    /// each returns, and nothing else; how many keys and buttons that was is their
    /// number.
    pub fn release_all(&mut self) -> (calls: Vec<InjectorCall>)
        ensures
            releases_exactly(old(self)@, calls@),
            final(self)@ == (SessionView {
                held_buttons: Set::empty(),
                held_scancodes: Set::empty(),
                ..old(self)@
            }),
    {
        proof {
            use_type_invariant(&*self);
        }
        let calls = self.release_calls();
        self.held_buttons = Vec::new();
        self.held_scancodes = HashSet::new();
        proof {
            assert(self.held_buttons@.to_set() =~= Set::<MouseButtonDto>::empty());
        }
        calls
    }
}

/// What an authorised request does: its answer, and the session after it. A request
/// the injector serves is handed back as exactly its call, with the session unchanged
/// until [`Session::complete`] settles the result.
pub open spec fn act_spec(s: SessionView, req: IpcRequest, r: Dispatch, t: SessionView) -> bool {
    match injector_call_spec(req) {
        Some(c) => r == Dispatch::Inject(c) && t == s,
        None => match req {
            IpcRequest::AskPeer { peer, query } => r == (Dispatch::AskPeer { peer, query }) && t == s,
            IpcRequest::Ping => r == Dispatch::Reply(IpcResponse::Pong) && t == s,
            IpcRequest::ListAudioDevices => r == Dispatch::ListAudioDevices && t == s,
            IpcRequest::ListMonitors => r == Dispatch::ListMonitors && t == s,
            IpcRequest::ReleaseAllInput => r matches Dispatch::ReleaseAll { calls, reply } && releases_exactly(
                s,
                calls@,
            ) && reply == (IpcResponse::Released { count: calls@.len() as usize }) && t == (SessionView {
                held_buttons: Set::empty(),
                held_scancodes: Set::empty(),
                ..s
            }),
            _ => true,
        },
    }
}

proof fn lemma_buttons_at_most_three(s: Seq<MouseButtonDto>)
    requires
        s.no_duplicates(),
    ensures
        s.len() <= 3,
{
    let all = set![MouseButtonDto::Left, MouseButtonDto::Right, MouseButtonDto::Middle];
    assert(s.to_set().subset_of(all)) by {
        assert forall|b: MouseButtonDto| s.to_set().contains(b) implies all.contains(b) by {
            match b {
                MouseButtonDto::Left => {},
                MouseButtonDto::Right => {},
                MouseButtonDto::Middle => {},
            }
        }
    }
    s.unique_seq_to_set();
    vstd::set_lib::lemma_len_subset(s.to_set(), all);
    assert(all.len() == 3) by {
        assert(all =~= set![MouseButtonDto::Left, MouseButtonDto::Right].insert(MouseButtonDto::Middle));
    }
}

proof fn lemma_scancodes_bounded(s: Seq<u16>)
    requires
        s.no_duplicates(),
    ensures
        s.len() <= 65536,
{
    let f = |x: u16| x as int;
    let set = s.to_set();
    let img = set.map(f);
    let range = vstd::set_lib::set_int_range(0, 65536);
    s.unique_seq_to_set();
    vstd::seq_lib::seq_to_set_is_finite(s);
    assert(vstd::relations::injective_on(f, set));
    vstd::set_lib::lemma_map_size(set, img, f);
    vstd::set_lib::lemma_int_range(0, 65536);
    assert(img.subset_of(range));
    vstd::set_lib::lemma_len_subset(img, range);
}

/// A set of held scancodes is finite and has at most one entry per `u16`.
proof fn lemma_held_scancodes_bounded(m: &HashSet<u16>)
    ensures
        m@.finite(),
        m@.len() <= 65536,
        spec_hash_keys_iter(m).remaining().len() <= 65536,
{
    broadcast use vstd::std_specs::hash::group_hash_axioms;

    let keys = spec_hash_keys_iter(m).remaining();
    let c = keys.unref();
    assert(c.to_set() == m@);
    assert forall|x: int, y: int| 0 <= x < c.len() && 0 <= y < c.len() && x != y implies c[x] != c[y] by {
        assert(keys[x] != keys[y]);
    }
    lemma_scancodes_bounded(c);
    vstd::seq_lib::seq_to_set_is_finite(c);
}

fn hold_button(v: &mut Vec<MouseButtonDto>, b: MouseButtonDto)
    requires
        old(v)@.no_duplicates(),
    ensures
        final(v)@.no_duplicates(),
        final(v)@.to_set() == old(v)@.to_set().insert(b),
{
    let mut i: usize = 0;
    while i < v.len()
        invariant
            i <= v@.len(),
            v@ == old(v)@,
            old(v)@.no_duplicates(),
            forall|j: int| 0 <= j < i ==> v@[j] != b,
        decreases v@.len() - i,
    {
        if v[i] == b {
            proof {
                assert(v@.to_set().contains(b));
                assert(v@.to_set().insert(b) =~= v@.to_set());
            }
            return;
        }
        i = i + 1;
    }
    let ghost before = v@;
    v.push(b);
    proof {
        assert forall|x| #[trigger] v@.to_set().contains(x) <==> before.to_set().insert(b).contains(x) by {
            vstd::seq_lib::lemma_seq_contains_after_push(before, b, x);
        }
        assert(v@.to_set() =~= before.to_set().insert(b));
        assert(v@.no_duplicates()) by {
            assert forall|x: int, y: int| 0 <= x < v@.len() && 0 <= y < v@.len() && x != y implies v@[x] != v@[y] by {
                if x == before.len() {
                    assert(before[y] != b);
                } else if y == before.len() {
                    assert(before[x] != b);
                }
            }
        }
    }
}

fn drop_button(v: &mut Vec<MouseButtonDto>, b: MouseButtonDto)
    requires
        old(v)@.no_duplicates(),
    ensures
        final(v)@.no_duplicates(),
        final(v)@.to_set() == old(v)@.to_set().remove(b),
{
    let mut i: usize = 0;
    while i < v.len()
        invariant
            i <= v@.len(),
            v@ == old(v)@,
            old(v)@.no_duplicates(),
            forall|j: int| 0 <= j < i ==> v@[j] != b,
        decreases v@.len() - i,
    {
        if v[i] == b {
            let ghost before = v@;
            v.remove(i);
            proof {
                assert forall|x: MouseButtonDto| v@.to_set().contains(x) <==> before.to_set().remove(b).contains(x) by {
                    if v@.contains(x) {
                        let k = choose|k: int| 0 <= k < v@.len() && v@[k] == x;
                        if k < i {
                            assert(before[k] == x);
                        } else {
                            assert(before[k + 1] == x);
                        }
                        assert(before.contains(x));
                    }
                    if before.contains(x) && x != b {
                        let k = choose|k: int| 0 <= k < before.len() && before[k] == x;
                        assert(k != i);
                        if k < i {
                            assert(v@[k] == x);
                        } else {
                            assert(v@[k - 1] == x);
                        }
                    }
                }
                assert(v@.to_set() =~= before.to_set().remove(b));
                assert(v@.no_duplicates()) by {
                    assert forall|x: int, y: int| 0 <= x < v@.len() && 0 <= y < v@.len() && x != y implies v@[x] != v@[y] by {
                        let xx = if x < i { x } else { x + 1 };
                        let yy = if y < i { y } else { y + 1 };
                        assert(v@[x] == before[xx]);
                        assert(v@[y] == before[yy]);
                    }
                }
            }
            return;
        }
        i = i + 1;
    }
    proof {
        assert(!v@.contains(b));
        assert(v@.to_set().remove(b) =~= v@.to_set());
    }
}



/// Releasing is open to every authenticated session, whatever it was granted: a peer
/// whose input permission is revoked can still let go of a held key.
pub proof fn lemma_release_is_never_refused(s: SessionView)
    ensures
        !refused(s, IpcRequest::ReleaseAllInput),
{
}

/// A peer session can never use this machine as a hop to a third one.
pub proof fn lemma_peer_cannot_relay(s: SessionView, peer: PeerKey, query: PeerQuery)
    requires
        s.origin == Origin::Peer,
    ensures
        refused(s, IpcRequest::AskPeer { peer, query }),
{
}

/// The local token session is allowed every request once authenticated.
pub proof fn lemma_local_session_allowed_everything(s: SessionView, req: IpcRequest)
    requires
        s.origin == Origin::Local,
        s.permissions == all_permissions(),
        !(req is Hello),
    ensures
        !refused(s, req),
{
}

/// A peer granted nothing can still be pinged and can still release what it holds,
/// and is refused everything else it could ask.
pub proof fn lemma_peer_allowed_nothing(s: SessionView, req: IpcRequest)
    requires
        s.origin == Origin::Peer,
        s.permissions == crate::peers::no_permissions(),
        !(req is Hello),
    ensures
        !refused(s, req) <==> (req is Ping || req is ReleaseAllInput),
{
}

} // verus!
