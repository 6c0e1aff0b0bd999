//! Live matches as a mathematical value, and what each request makes of
//! them.
//!
//! Everything here is ghost code: the functions say what the engine in
//! [`crate::schnicks`] does, and the proofs say what follows from that.

use crate::error::Error;
use crate::interaction::{settled, Interaction, Outcome, SavedSchnick};
use crate::schnicks::SchnickRequest;
use vstd::prelude::*;

verus! {

/// The live matches, as a mathematical value.
///
/// `opponents` maps every user who is in a live match to the user they play
/// against. `submitted` maps the user who has a report pending, if any, to
/// that report.
#[verifier::ext_equal]
pub struct Matches {
    pub opponents: Map<i32, i32>,
    pub submitted: Map<i32, Interaction>,
}

impl Matches {
    /// No match at all.
    pub open spec fn empty() -> Matches {
        Matches { opponents: Map::empty(), submitted: Map::empty() }
    }

    /// Whether `id` is in a live match.
    pub open spec fn playing(self, id: i32) -> bool {
        self.opponents.contains_key(id)
    }

    /// Whether `a` and `b` are in a live match against each other.
    pub open spec fn matched(self, a: i32, b: i32) -> bool {
        self.opponents.contains_key(a) && self.opponents[a] == b
    }

    /// What makes the two maps a set of matches: opponents come in pairs of
    /// two different users, so that nobody is in two matches at once; only
    /// players have a report pending, and of the two players of a match at
    /// most one.
    pub open spec fn wf(self) -> bool {
        &&& forall|a: i32| #[trigger]
            self.opponents.contains_key(a) ==> {
                &&& self.opponents[a] != a
                &&& self.opponents.contains_key(self.opponents[a])
                &&& self.opponents[self.opponents[a]] == a
            }
        &&& forall|a: i32| #[trigger]
            self.submitted.contains_key(a) ==> {
                &&& self.opponents.contains_key(a)
                &&& !self.submitted.contains_key(self.opponents[a])
            }
    }

    /// How a request to start a match between `id` and `opponent` is
    /// answered. `already_schnicked` is what persistence said to the question
    /// whether the two have a recorded result against each other, or `None`
    /// if it could not say.
    pub open spec fn start_reply(
        self,
        id: i32,
        opponent: i32,
        already_schnicked: Option<bool>,
    ) -> Result<(), Error> {
        if id == opponent {
            Err(Error::CannotSchnickOneself)
        } else if already_schnicked is None {
            Err(Error::InternalServerError)
        } else if already_schnicked == Some(true) {
            Err(Error::CannotSchnickTwice)
        } else if self.playing(id) || self.playing(opponent) {
            Err(Error::AlreadySchnicking)
        } else {
            Ok(())
        }
    }

    /// The matches after that request.
    pub open spec fn after_start(
        self,
        id: i32,
        opponent: i32,
        already_schnicked: Option<bool>,
    ) -> Matches {
        if self.start_reply(id, opponent, already_schnicked) is Ok {
            Matches {
                opponents: self.opponents.insert(id, opponent).insert(opponent, id),
                submitted: self.submitted,
            }
        } else {
            self
        }
    }

    /// The report that `id` has to answer: the one their opponent has
    /// pending, if there is one.
    pub open spec fn awaited(self, id: i32) -> Option<Interaction> {
        if self.playing(id) && self.submitted.contains_key(self.opponents[id]) {
            Some(self.submitted[self.opponents[id]])
        } else {
            None
        }
    }

    /// The record that `interaction`, handed in by `id`, would settle the
    /// round with: there is one if the opponent's report is pending and the
    /// two agree.
    pub open spec fn conclusion(self, id: i32, interaction: Interaction) -> Option<SavedSchnick> {
        match self.awaited(id) {
            Some(first) => settled(self.opponents[id], first, id, interaction),
            None => None,
        }
    }

    /// How `interaction`, handed in by `id`, is answered. `persisted` says
    /// whether the record of [`Matches::conclusion`] has been stored; it
    /// matters only where there is such a record.
    pub open spec fn interaction_reply(
        self,
        id: i32,
        interaction: Interaction,
        persisted: bool,
    ) -> Result<Option<Outcome>, Error> {
        if !self.playing(id) {
            Err(Error::NotInSchnick)
        } else if self.awaited(id) is None {
            Ok(None)
        } else if self.conclusion(id, interaction) is None {
            Ok(Some(Outcome::Retry))
        } else if persisted {
            Ok(Some(Outcome::Concluded))
        } else {
            Err(Error::InternalServerError)
        }
    }

    /// The matches after that report: a first report, or a second thought of
    /// the player whose report is pending, becomes the pending report; a
    /// contradicting answer clears the pending report; an agreeing one ends
    /// the match.
    pub open spec fn after_interaction(
        self,
        id: i32,
        interaction: Interaction,
        persisted: bool,
    ) -> Matches {
        match self.interaction_reply(id, interaction, persisted) {
            Ok(None) => Matches {
                opponents: self.opponents,
                submitted: self.submitted.insert(id, interaction),
            },
            Ok(Some(Outcome::Retry)) => Matches {
                opponents: self.opponents,
                submitted: self.submitted.remove(self.opponents[id]),
            },
            Ok(Some(Outcome::Concluded)) => Matches {
                opponents: self.opponents.remove(id).remove(self.opponents[id]),
                submitted: self.submitted.remove(self.opponents[id]),
            },
            _ => self,
        }
    }

    /// The answer to the question whether `id` still has to hand in a
    /// report: yes, unless theirs is the pending one.
    pub open spec fn in_schnick_reply(self, id: i32) -> Result<bool, Error> {
        if self.playing(id) {
            Ok(!self.submitted.contains_key(id))
        } else {
            Err(Error::NotInSchnick)
        }
    }

    /// Whether `id` may wait for the outcome of the round: only the player
    /// whose report is pending may.
    pub open spec fn awaits_outcome(self, id: i32) -> bool {
        self.submitted.contains_key(id)
    }

    /// How a request of `id` to walk away is answered.
    pub open spec fn abort_reply(self, id: i32) -> Result<(), Error> {
        if self.playing(id) {
            Ok(())
        } else {
            Err(Error::NotInSchnick)
        }
    }

    /// The matches after that request: the match of `id` is gone for both
    /// players, and with it the pending report.
    pub open spec fn after_abort(self, id: i32) -> Matches {
        if self.playing(id) {
            Matches {
                opponents: self.opponents.remove(id).remove(self.opponents[id]),
                submitted: self.submitted.remove(id).remove(self.opponents[id]),
            }
        } else {
            self
        }
    }
}

/// The answer to a [`SchnickRequest`], as a mathematical value: one variant
/// for each kind of request. Of a subscription only its existence is told.
pub enum Reply {
    StartSchnick(Result<(), Error>),
    GetOutcomeReceiver(Result<(), Error>),
    HandleInteraction(Result<Option<Outcome>, Error>),
    InSchnick(Result<bool, Error>),
    AbortSchnick(Result<(), Error>),
}

impl Reply {
    /// Whether the request was turned down.
    pub open spec fn failed(self) -> bool {
        match self {
            Reply::StartSchnick(reply) => reply is Err,
            Reply::GetOutcomeReceiver(reply) => reply is Err,
            Reply::HandleInteraction(reply) => reply is Err,
            Reply::InSchnick(reply) => reply is Err,
            Reply::AbortSchnick(reply) => reply is Err,
        }
    }
}

impl Matches {
    /// How `request` is answered.
    pub open spec fn reply(self, request: SchnickRequest) -> Reply {
        match request {
            SchnickRequest::StartSchnick { id, opponent, already_schnicked } => Reply::StartSchnick(
                self.start_reply(id, opponent, already_schnicked),
            ),
            SchnickRequest::GetOutcomeReceiver { id } => Reply::GetOutcomeReceiver(
                if self.awaits_outcome(id) {
                    Ok(())
                } else {
                    Err(Error::NotFound)
                },
            ),
            SchnickRequest::HandleInteraction { id, interaction, persisted } => Reply::HandleInteraction(
                self.interaction_reply(id, interaction, persisted),
            ),
            SchnickRequest::InSchnick { id } => Reply::InSchnick(self.in_schnick_reply(id)),
            SchnickRequest::AbortSchnick { id } => Reply::AbortSchnick(self.abort_reply(id)),
        }
    }

    /// The matches after `request`.
    pub open spec fn after(self, request: SchnickRequest) -> Matches {
        match request {
            SchnickRequest::StartSchnick { id, opponent, already_schnicked } => self.after_start(
                id,
                opponent,
                already_schnicked,
            ),
            SchnickRequest::HandleInteraction { id, interaction, persisted } => self.after_interaction(
                id,
                interaction,
                persisted,
            ),
            SchnickRequest::AbortSchnick { id } => self.after_abort(id),
            SchnickRequest::GetOutcomeReceiver { .. } | SchnickRequest::InSchnick { .. } => self,
        }
    }

    /// Whether `request` ends the match between `a` and `b`: one of the two
    /// walks away, or hands in the report that concludes it.
    pub open spec fn ends_match(self, a: i32, b: i32, request: SchnickRequest) -> bool {
        match request {
            SchnickRequest::AbortSchnick { id } => id == a || id == b,
            SchnickRequest::HandleInteraction { id, interaction, persisted } => (id == a || id == b)
                && self.interaction_reply(id, interaction, persisted) == Ok::<
                Option<Outcome>,
                Error,
            >(Some(Outcome::Concluded)),
            _ => false,
        }
    }

    /// Starting a match leaves the matches well formed.
    pub proof fn start_keeps_well_formed(
        self,
        id: i32,
        opponent: i32,
        already_schnicked: Option<bool>,
    )
        requires
            self.wf(),
        ensures
            self.after_start(id, opponent, already_schnicked).wf(),
    {
    }

    /// Taking a report leaves the matches well formed.
    pub proof fn interaction_keeps_well_formed(
        self,
        id: i32,
        interaction: Interaction,
        persisted: bool,
    )
        requires
            self.wf(),
        ensures
            self.after_interaction(id, interaction, persisted).wf(),
    {
    }

    /// Aborting a match leaves the matches well formed.
    pub proof fn abort_keeps_well_formed(self, id: i32)
        requires
            self.wf(),
        ensures
            self.after_abort(id).wf(),
    {
    }

    /// Whatever is asked of the engine, nobody ends up in two matches at
    /// once, and no match ends up with two pending reports.
    pub proof fn request_keeps_well_formed(self, request: SchnickRequest)
        requires
            self.wf(),
        ensures
            self.after(request).wf(),
    {
        match request {
            SchnickRequest::StartSchnick { id, opponent, already_schnicked } => {
                self.start_keeps_well_formed(id, opponent, already_schnicked);
            },
            SchnickRequest::HandleInteraction { id, interaction, persisted } => {
                self.interaction_keeps_well_formed(id, interaction, persisted);
            },
            SchnickRequest::AbortSchnick { id } => {
                self.abort_keeps_well_formed(id);
            },
            _ => {},
        }
    }

    /// A request that is turned down changes nothing: whatever fails, with
    /// persistence or without, the matches are afterwards exactly what they
    /// were before.
    pub proof fn failed_request_changes_nothing(self, request: SchnickRequest)
        ensures
            self.reply(request).failed() ==> self.after(request) == self,
    {
    }

    /// A user cannot be matched against themselves, whatever the matches
    /// and whatever persistence says.
    pub proof fn nobody_plays_themselves(self, id: i32, already_schnicked: Option<bool>)
        ensures
            self.start_reply(id, id, already_schnicked) == Err::<(), Error>(
                Error::CannotSchnickOneself,
            ),
            self.after_start(id, id, already_schnicked) == self,
    {
    }

    /// Once a match between `a` and `b` has been started, both are in a
    /// match, against each other, and both have yet to report.
    pub proof fn started_match_holds_both_players(
        self,
        a: i32,
        b: i32,
        already_schnicked: Option<bool>,
    )
        requires
            self.wf(),
            self.start_reply(a, b, already_schnicked) is Ok,
        ensures
            a != b,
            already_schnicked == Some(false),
            !self.playing(a) && !self.playing(b),
            self.after_start(a, b, already_schnicked).matched(a, b),
            self.after_start(a, b, already_schnicked).matched(b, a),
            self.after_start(a, b, already_schnicked).in_schnick_reply(a) == Ok::<bool, Error>(true),
            self.after_start(a, b, already_schnicked).in_schnick_reply(b) == Ok::<bool, Error>(true),
    {
    }

    /// While `a` and `b` are matched, both are in a match, and nobody can
    /// start another match with either of them: a request of two different
    /// users with no result on record, one of whom is `a` or `b`, is turned
    /// down because they are busy, and changes nothing.
    pub proof fn matched_players_are_busy(self, a: i32, b: i32, x: i32, y: i32)
        requires
            self.wf(),
            self.matched(a, b),
            x != y,
            x == a || x == b || y == a || y == b,
        ensures
            self.matched(b, a),
            self.in_schnick_reply(a) is Ok,
            self.in_schnick_reply(b) is Ok,
            self.start_reply(x, y, Some(false)) == Err::<(), Error>(Error::AlreadySchnicking),
            self.after_start(x, y, Some(false)) == self,
    {
    }

    /// A match lasts until it is concluded or aborted: whatever else is
    /// asked of the engine, by whomever, `a` and `b` stay matched against
    /// each other, and so stay busy.
    pub proof fn match_lasts_until_concluded_or_aborted(
        self,
        a: i32,
        b: i32,
        request: SchnickRequest,
    )
        requires
            self.wf(),
            self.matched(a, b),
        ensures
            self.ends_match(a, b, request) || (self.after(request).matched(a, b) && self.after(
                request,
            ).matched(b, a)),
            self.ends_match(a, b, request) ==> !self.after(request).playing(a) && !self.after(
                request,
            ).playing(b),
    {
    }

    /// The matches after `requests`, one after the other.
    pub open spec fn after_all(self, requests: Seq<SchnickRequest>) -> Matches
        decreases requests.len(),
    {
        if requests.len() == 0 {
            self
        } else {
            self.after_all(requests.drop_last()).after(requests.last())
        }
    }

    /// Whether none of `requests`, one after the other, ends the match
    /// between `a` and `b`.
    pub open spec fn spares_match(self, a: i32, b: i32, requests: Seq<SchnickRequest>) -> bool
        decreases requests.len(),
    {
        if requests.len() == 0 {
            true
        } else {
            &&& self.spares_match(a, b, requests.drop_last())
            &&& !self.after_all(requests.drop_last()).ends_match(a, b, requests.last())
        }
    }

    /// However many requests are made, and by whomever: as long as none of
    /// them concludes or aborts the match between `a` and `b`, the two stay
    /// matched, and every attempt to start another match with either of them
    /// is turned down because they are busy.
    pub proof fn match_lasts_through(
        self,
        a: i32,
        b: i32,
        requests: Seq<SchnickRequest>,
        x: i32,
        y: i32,
    )
        requires
            self.wf(),
            self.matched(a, b),
            self.spares_match(a, b, requests),
        ensures
            self.after_all(requests).wf(),
            self.after_all(requests).matched(a, b),
            self.after_all(requests).matched(b, a),
            x != y && (x == a || x == b || y == a || y == b) ==> self.after_all(
                requests,
            ).start_reply(x, y, Some(false)) == Err::<(), Error>(Error::AlreadySchnicking),
        decreases requests.len(),
    {
        if requests.len() > 0 {
            let earlier = requests.drop_last();
            self.match_lasts_through(a, b, earlier, x, y);
            self.after_all(earlier).request_keeps_well_formed(requests.last());
            self.after_all(earlier).match_lasts_until_concluded_or_aborted(a, b, requests.last());
        }
    }

    /// Once a report has concluded a match, neither player is in a match or
    /// has a report pending; the match cannot be concluded a second time,
    /// since any further report of either is turned down, and the record it
    /// was concluded with is one between the two players.
    pub proof fn concluded_players_are_free(
        self,
        id: i32,
        interaction: Interaction,
        persisted: bool,
        later: Interaction,
    )
        requires
            self.wf(),
            self.interaction_reply(id, interaction, persisted) == Ok::<Option<Outcome>, Error>(
                Some(Outcome::Concluded),
            ),
        ensures
            ({
                let opponent = self.opponents[id];
                let then = self.after_interaction(id, interaction, persisted);
                &&& persisted
                &&& self.conclusion(id, interaction) is Some
                &&& self.conclusion(id, interaction)->Some_0.between(id, opponent)
                &&& !then.playing(id) && !then.playing(opponent)
                &&& !then.awaits_outcome(id) && !then.awaits_outcome(opponent)
                &&& then.conclusion(id, later) is None && then.conclusion(opponent, later) is None
                &&& then.interaction_reply(id, later, persisted) == Err::<Option<Outcome>, Error>(
                    Error::NotInSchnick,
                )
                &&& then.interaction_reply(opponent, later, persisted) == Err::<
                    Option<Outcome>,
                    Error,
                >(Error::NotInSchnick)
            }),
    {
    }

    /// A report that contradicts the pending one is answered with `Retry`
    /// and nothing else: both players stay in their match, and both have to
    /// report again.
    pub proof fn contradiction_keeps_the_match(
        self,
        id: i32,
        interaction: Interaction,
        persisted: bool,
    )
        requires
            self.wf(),
            self.awaited(id) is Some,
            !self.awaited(id)->Some_0.spec_compatible(&interaction),
        ensures
            ({
                let opponent = self.opponents[id];
                let then = self.after_interaction(id, interaction, persisted);
                &&& self.interaction_reply(id, interaction, persisted) == Ok::<
                    Option<Outcome>,
                    Error,
                >(Some(Outcome::Retry))
                &&& then.matched(id, opponent) && then.matched(opponent, id)
                &&& then.in_schnick_reply(id) == Ok::<bool, Error>(true)
                &&& then.in_schnick_reply(opponent) == Ok::<bool, Error>(true)
            }),
    {
    }
}

/// How many of the persisted `records` are results of `a` against `b`,
/// whoever won.
pub open spec fn times_schnicked(records: Seq<SavedSchnick>, a: i32, b: i32) -> nat
    decreases records.len(),
{
    if records.len() == 0 {
        0
    } else {
        times_schnicked(records.drop_last(), a, b) + if records.last().between(a, b) {
            1nat
        } else {
            0nat
        }
    }
}

/// One more record is one more result between the players it names, and
/// between nobody else.
pub proof fn times_schnicked_after_record(
    records: Seq<SavedSchnick>,
    record: SavedSchnick,
    a: i32,
    b: i32,
)
    ensures
        times_schnicked(records.push(record), a, b) == times_schnicked(records, a, b) + if record.between(
            a,
            b,
        ) {
            1nat
        } else {
            0nat
        },
{
    assert(records.push(record).drop_last() =~= records);
}

/// A result of `a` against `b` is a result of `b` against `a`.
pub proof fn times_schnicked_is_symmetric(records: Seq<SavedSchnick>, a: i32, b: i32)
    ensures
        times_schnicked(records, a, b) == times_schnicked(records, b, a),
    decreases records.len(),
{
    if records.len() > 0 {
        times_schnicked_is_symmetric(records.drop_last(), a, b);
    }
}

impl Matches {
    /// Whether matches and persisted records fit together: no two users have
    /// more than one result against each other, and players of a live match
    /// have none yet.
    pub open spec fn consistent_with(self, records: Seq<SavedSchnick>) -> bool {
        &&& forall|a: i32, b: i32| #[trigger] times_schnicked(records, a, b) <= 1
        &&& forall|a: i32| #[trigger]
            self.opponents.contains_key(a) ==> times_schnicked(records, a, self.opponents[a]) == 0
    }

    /// Whether `request` tells the truth about `records`: where it says
    /// whether two users have a result against each other, they do or do not.
    pub open spec fn truthful(request: SchnickRequest, records: Seq<SavedSchnick>) -> bool {
        match request {
            SchnickRequest::StartSchnick { id, opponent, already_schnicked } => {
                already_schnicked is Some ==> already_schnicked == Some(
                    times_schnicked(records, id, opponent) > 0,
                )
            },
            _ => true,
        }
    }

    /// The persisted records after `request`: a report that concludes a
    /// match comes with its record stored, and nothing else is ever stored.
    pub open spec fn records_after(
        self,
        records: Seq<SavedSchnick>,
        request: SchnickRequest,
    ) -> Seq<SavedSchnick> {
        match request {
            SchnickRequest::HandleInteraction { id, interaction, persisted } => {
                if persisted && self.conclusion(id, interaction) is Some {
                    records.push(self.conclusion(id, interaction)->Some_0)
                } else {
                    records
                }
            },
            _ => records,
        }
    }

    /// Two users who have a result against each other are never matched
    /// again, whatever else is going on.
    pub proof fn recorded_pair_never_rematches(self, records: Seq<SavedSchnick>, a: i32, b: i32)
        requires
            a != b,
            times_schnicked(records, a, b) > 0,
        ensures
            Matches::truthful(
                SchnickRequest::StartSchnick { id: a, opponent: b, already_schnicked: Some(true) },
                records,
            ),
            !Matches::truthful(
                SchnickRequest::StartSchnick { id: a, opponent: b, already_schnicked: Some(false) },
                records,
            ),
            self.start_reply(a, b, Some(true)) == Err::<(), Error>(Error::CannotSchnickTwice),
            self.after_start(a, b, Some(true)) == self,
    {
    }

    /// As long as the engine is told the truth about the persisted records,
    /// and every record it hands out on a conclusion is stored, no two users
    /// ever have more than one result against each other.
    pub proof fn records_stay_consistent(self, records: Seq<SavedSchnick>, request: SchnickRequest)
        requires
            self.wf(),
            self.consistent_with(records),
            Matches::truthful(request, records),
        ensures
            self.after(request).consistent_with(self.records_after(records, request)),
    {
        let then = self.after(request);
        let stored = self.records_after(records, request);
        match request {
            SchnickRequest::HandleInteraction { id, interaction, persisted } => {
                if persisted && self.conclusion(id, interaction) is Some {
                    let record = self.conclusion(id, interaction)->Some_0;
                    let opponent = self.opponents[id];
                    assert forall|a: i32, b: i32| #[trigger] times_schnicked(stored, a, b) <= 1 by {
                        times_schnicked_after_record(records, record, a, b);
                    }
                    assert forall|a: i32| #[trigger] then.opponents.contains_key(a) implies times_schnicked(
                        stored,
                        a,
                        then.opponents[a],
                    ) == 0 by {
                        times_schnicked_after_record(records, record, a, then.opponents[a]);
                    }
                }
            },
            SchnickRequest::StartSchnick { id, opponent, already_schnicked } => {
                if self.start_reply(id, opponent, already_schnicked) is Ok {
                    times_schnicked_is_symmetric(records, id, opponent);
                    assert forall|a: i32| #[trigger] then.opponents.contains_key(a) implies times_schnicked(
                        stored,
                        a,
                        then.opponents[a],
                    ) == 0 by {}
                }
            },
            SchnickRequest::AbortSchnick { id } => {
                assert forall|a: i32| #[trigger] then.opponents.contains_key(a) implies times_schnicked(
                    stored,
                    a,
                    then.opponents[a],
                ) == 0 by {}
            },
            _ => {},
        }
    }

    /// A conclusion stores exactly one record between its two players: they
    /// had none before, and have one, the one of this conclusion, after.
    pub proof fn concluded_pair_is_recorded_once(
        self,
        records: Seq<SavedSchnick>,
        id: i32,
        interaction: Interaction,
    )
        requires
            self.wf(),
            self.consistent_with(records),
            self.conclusion(id, interaction) is Some,
        ensures
            ({
                let request = SchnickRequest::HandleInteraction { id, interaction, persisted: true };
                let opponent = self.opponents[id];
                &&& self.reply(request) == Reply::HandleInteraction(Ok(Some(Outcome::Concluded)))
                &&& times_schnicked(records, id, opponent) == 0
                &&& self.records_after(records, request) == records.push(
                    self.conclusion(id, interaction)->Some_0,
                )
                &&& times_schnicked(self.records_after(records, request), id, opponent) == 1
                &&& times_schnicked(self.records_after(records, request), opponent, id) == 1
            }),
    {
        let record = self.conclusion(id, interaction)->Some_0;
        let opponent = self.opponents[id];
        times_schnicked_after_record(records, record, id, opponent);
        times_schnicked_after_record(records, record, opponent, id);
        times_schnicked_is_symmetric(records, id, opponent);
    }
}

} // verus!
