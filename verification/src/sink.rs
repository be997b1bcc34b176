//! The bookkeeping of a connection that forwards input to a peer: whether the peer
//! accepted the handshake, and what it refused along the way. Input is pipelined, so
//! the peer's answers are read as they come and only counted; the connection's summary
//! is the [`PeerSinkReport`].

use vstd::prelude::*;

use crate::text::{contains_text, has_infix, trim, trim_str};

verus! {

/// What a peer's answer to a `Hello` holds when it accepted it.
pub const HELLO_OK: &'static str = "HelloOk";

/// What a peer's answer holds when it refused a request.
pub const ERROR_TAG: &'static str = "\"Error\"";

/// Whether the peer's answer to our `Hello` accepted it.
pub fn handshake_accepted(line: &str) -> (r: bool)
    ensures
        r == has_infix(line@, HELLO_OK@),
{
    contains_text(line, HELLO_OK)
}

/// What happened over the life of a connection to a peer.
#[derive(Debug, Clone, PartialEq, Eq)]
pub struct PeerSinkReport {
    /// Messages written.
    pub sent: u64,
    /// Answers that were refusals.
    pub refusals: u64,
    /// The first refusal, trimmed.
    pub first_error: Option<String>,
}

/// The text of an optional string.
pub open spec fn opt_text(s: Option<String>) -> Option<Seq<char>> {
    match s {
        Some(t) => Some(t@),
        None => None,
    }
}

impl PeerSinkReport {
    /// Nothing sent, nothing refused.
    pub fn new() -> (r: Self)
        ensures
            r.sent == 0,
            r.refusals == 0,
            r.first_error is None,
    {
        PeerSinkReport { sent: 0, refusals: 0, first_error: None }
    }

    /// One more message was written.
    pub fn note_sent(&mut self)
        requires
            old(self).sent < u64::MAX,
        ensures
            final(self).sent == old(self).sent + 1,
            final(self).refusals == old(self).refusals,
            opt_text(final(self).first_error) == opt_text(old(self).first_error),
    {
        self.sent = self.sent + 1;
    }

    /// One line the peer answered with. A refusal is counted, the count wrapping as an
    /// atomic counter does, and the first refusal is kept, trimmed; any other answer
    /// changes nothing.
    pub fn note_reply(&mut self, line: &str)
        ensures
            final(self).sent == old(self).sent,
            has_infix(line@, ERROR_TAG@) ==> final(self).refusals == (if old(self).refusals == u64::MAX {
                0
            } else {
                old(self).refusals + 1
            }) && opt_text(final(self).first_error) == (match old(self).first_error {
                Some(e) => Some(e@),
                None => Some(trim(line@)),
            }),
            !has_infix(line@, ERROR_TAG@) ==> final(self).refusals == old(self).refusals && opt_text(
                final(self).first_error,
            ) == opt_text(old(self).first_error),
    {
        if contains_text(line, ERROR_TAG) {
            self.refusals = if self.refusals == u64::MAX {
                0
            } else {
                self.refusals + 1
            };
            if self.first_error.is_none() {
                self.first_error = Some(trim_str(line));
            }
        }
    }
}

} // verus!
