//! What a user's open pages are told about their match.

use crate::interaction::Outcome;
use vstd::prelude::*;

verus! {

/// A change that a user's open pages have to show.
#[derive(Debug, Clone, Copy, PartialEq, Eq, Structural)]
pub enum SessionUpdate {
    /// A match against the user has been started.
    SchnickStarted,
    /// The reports contradicted each other; both players report again.
    SchnickRetried,
    /// The match is over, concluded or aborted.
    SchnickEnded,
    /// The user's report has been taken and waits for the opponent's.
    SchnickUpdated,
}

impl SessionUpdate {
    /// The update that follows from the answer to a report: `None` means
    /// that the report is pending now.
    pub open spec fn spec_after_interaction(reply: Option<Outcome>) -> SessionUpdate {
        match reply {
            None => SessionUpdate::SchnickUpdated,
            Some(Outcome::Retry) => SessionUpdate::SchnickRetried,
            Some(Outcome::Concluded) | Some(Outcome::Aborted) => SessionUpdate::SchnickEnded,
        }
    }

    /// Whether the opponent's pages have to show the update too. A report
    /// that is merely pending concerns only the player who made it.
    pub open spec fn spec_concerns_opponent(&self) -> bool {
        *self != SessionUpdate::SchnickUpdated
    }

    /// The update that follows from the answer to a report: `None` means
    /// that the report is pending now.
    #[verifier::when_used_as_spec(spec_after_interaction)]
    pub fn after_interaction(reply: Option<Outcome>) -> (update: SessionUpdate)
        ensures
            update == SessionUpdate::spec_after_interaction(reply),
    {
        match reply {
            None => SessionUpdate::SchnickUpdated,
            Some(Outcome::Retry) => SessionUpdate::SchnickRetried,
            Some(Outcome::Concluded) | Some(Outcome::Aborted) => SessionUpdate::SchnickEnded,
        }
    }

    /// Whether the opponent's pages have to show the update too.
    #[verifier::when_used_as_spec(spec_concerns_opponent)]
    pub fn concerns_opponent(&self) -> (yes: bool)
        ensures
            yes == self.spec_concerns_opponent(),
    {
        !matches!(self, SessionUpdate::SchnickUpdated)
    }
}

} // verus!
