//! What one question to the local agent produced, as the control app shows it.
//!
//! No agent is a normal state rather than an error: every answer carries a note
//! instead of failing, and the panels say which parts are real.

use vstd::prelude::*;

use crate::text::str_eq;

verus! {

/// The note for a reply that was not the kind of answer the question asks for.
pub const UNEXPECTED_REPLY: &'static str = "the agent answered with something unexpected";

/// What one question to the agent produced.
pub struct Answer<T> {
    pub value: Option<T>,
    /// Why there is no value, or something the operator should know despite there
    /// being one.
    pub note: Option<String>,
}

impl<T> Answer<T> {
    /// No value, and why.
    pub fn missing(note: String) -> (r: Self)
        ensures
            r.value is None,
            r.note matches Some(n) && n@ == note@,
    {
        Answer { value: None, note: Some(note) }
    }

    /// The answer made from what was picked out of the agent's reply: the value when
    /// the reply was the expected kind, and a note saying it was not otherwise.
    pub fn from_reply(extracted: Option<T>) -> (r: Self)
        ensures
            extracted is Some ==> r.value == extracted && r.note is None,
            extracted is None ==> r.value is None && (r.note matches Some(n) && n@ == UNEXPECTED_REPLY@),
    {
        match extracted {
            Some(value) => Answer { value: Some(value), note: None },
            None => Self::missing(String::from_str(UNEXPECTED_REPLY)),
        }
    }
}

/// What the agent could tell about the other machine, `M` being a monitor and `D` an
/// audio endpoint.
pub struct PeerView<M, D> {
    pub name: String,
    pub monitors: Answer<Vec<M>>,
    pub audio: Answer<Vec<D>>,
}

/// Everything one refresh asks the agent, over one connection.
pub struct AgentView<M, D> {
    pub local_monitors: Answer<Vec<M>>,
    pub local_audio: Answer<Vec<D>>,
    pub peer: Option<PeerView<M, D>>,
    /// Set when there is no agent to ask at all.
    pub note: Option<String>,
}

/// The one line the operator is shown about where the arrangement's numbers came from.
pub open spec fn view_note<M, D>(view: AgentView<M, D>) -> Option<Seq<char>> {
    if view.note is Some {
        Some(view.note->0@)
    } else if view.local_monitors.note is Some {
        Some("this machine's screens: "@ + view.local_monitors.note->0@)
    } else {
        match view.peer {
            Some(p) => match p.monitors.note {
                Some(n) => Some(p.name@ + ": "@ + n@),
                None => None,
            },
            None => Some(NO_PEER@),
        }
    }
}

/// What is said when no peer is paired.
pub const NO_PEER: &'static str = "no peer is paired, so the second screen is a placeholder";

/// What to tell the operator about where the arrangement's numbers came from: that
/// there is no agent, else why this machine's screens are unknown, else why the peer's
/// are, else that there is no peer at all; nothing when every answer is real.
pub fn describe_view<M, D>(view: &AgentView<M, D>) -> (r: Option<String>)
    ensures
        match view_note(*view) {
            Some(t) => r matches Some(s) && s@ == t,
            None => r is None,
        },
{
    if let Some(note) = &view.note {
        return Some(note.clone());
    }
    if let Some(note) = &view.local_monitors.note {
        let mut out = String::from_str("this machine's screens: ");
        out.append(note.as_str());
        return Some(out);
    }
    match &view.peer {
        Some(peer) => match &peer.monitors.note {
            Some(note) => {
                let mut out = peer.name.clone();
                out.append(": ");
                out.append(note.as_str());
                Some(out)
            },
            None => None,
        },
        None => Some(String::from_str(NO_PEER)),
    }
}

/// Why a question to the agent got no answer, as far as the operator's next step
/// depends on it.
#[derive(Debug, Clone, PartialEq, Eq)]
pub enum AgentFailure {
    /// No agent is listening on this machine.
    NoAgent,
    /// The agent answered the question with a refusal.
    Refused { code: String, message: String },
    /// The agent did not answer in time.
    TimedOut,
    /// Anything else, in the client's own words.
    Other(String),
}

/// What the operator is told when there is no agent.
pub const NO_AGENT: &'static str =
    "no agent is running on this machine, so nothing here is live \u{2014} start `ultidesk-agent serve`";

/// What the operator is told of a failure: the next step where it depends on which
/// failure it was, and the client's own words otherwise.
pub open spec fn describe_spec(e: AgentFailure) -> Seq<char> {
    match e {
        AgentFailure::NoAgent => NO_AGENT@,
        AgentFailure::Refused { code, message } => if code@ == "peer_address_unknown"@ {
            message@
        } else if code@ == "peer_unreachable"@ {
            "the peer did not answer: "@ + message@
        } else {
            "the agent refused the connection: "@ + code@ + ": "@ + message@
        },
        AgentFailure::TimedOut => "the agent did not answer in time"@,
        AgentFailure::Other(text) => text@,
    }
}

/// Spell a failure out: "no agent is running" and "the peer did not answer" lead to
/// different next steps, and the raw messages bury that under transport detail.
pub fn describe(e: &AgentFailure) -> (r: String)
    ensures
        r@ == describe_spec(*e),
{
    match e {
        AgentFailure::NoAgent => String::from_str(NO_AGENT),
        AgentFailure::Refused { code, message } => {
            if str_eq(code.as_str(), "peer_address_unknown") {
                message.clone()
            } else if str_eq(code.as_str(), "peer_unreachable") {
                let mut out = String::from_str("the peer did not answer: ");
                out.append(message.as_str());
                out
            } else {
                let mut out = String::from_str("the agent refused the connection: ");
                out.append(code.as_str());
                out.append(": ");
                out.append(message.as_str());
                out
            }
        },
        AgentFailure::TimedOut => String::from_str("the agent did not answer in time"),
        AgentFailure::Other(text) => text.clone(),
    }
}

} // verus!
