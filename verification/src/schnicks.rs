//! The match coordination engine.
//!
//! [`Schnicker`] owns every live match. It is the executable side of
//! [`Matches`]: each of its operations changes the matches exactly as the
//! function of the same name there says.

use crate::channel;
use crate::error::Error;
use crate::graphs::GraphUpdate;
use crate::interaction::{settled, Interaction, Outcome, SavedSchnick};
use crate::matches::{Matches, Reply};
use std::collections::HashMap;
use tokio::sync::watch;
use vstd::prelude::*;

verus! {

/// What can be asked of the engine.
///
/// Where the answer depends on persistence, the request carries what
/// persistence said.
#[derive(Debug, Clone, Copy, PartialEq, Eq, Structural)]
pub enum SchnickRequest {
    /// See [`Schnicker::start_schnick`].
    StartSchnick { id: i32, opponent: i32, already_schnicked: Option<bool> },
    /// See [`Schnicker::get_outcome_receiver`].
    GetOutcomeReceiver { id: i32 },
    /// See [`Schnicker::handle_interaction`].
    HandleInteraction { id: i32, interaction: Interaction, persisted: bool },
    /// See [`Schnicker::in_schnick`].
    InSchnick { id: i32 },
    /// See [`Schnicker::abort_schnick`].
    AbortSchnick { id: i32 },
}

/// The engine's answer to a [`SchnickRequest`], one variant for each kind of
/// request.
#[derive(Debug)]
pub enum SchnickResponse {
    StartSchnick(Result<(), Error>),
    GetOutcomeReceiver(Result<watch::Receiver<Outcome>, Error>),
    HandleInteraction(Result<Option<Outcome>, Error>),
    InSchnick(Result<bool, Error>),
    AbortSchnick(Result<(), Error>),
}

impl View for SchnickResponse {
    type V = Reply;

    open spec fn view(&self) -> Reply {
        match *self {
            SchnickResponse::StartSchnick(reply) => Reply::StartSchnick(reply),
            SchnickResponse::GetOutcomeReceiver(reply) => Reply::GetOutcomeReceiver(
                match reply {
                    Ok(_) => Ok(()),
                    Err(error) => Err(error),
                },
            ),
            SchnickResponse::HandleInteraction(reply) => Reply::HandleInteraction(reply),
            SchnickResponse::InSchnick(reply) => Reply::InSchnick(reply),
            SchnickResponse::AbortSchnick(reply) => Reply::AbortSchnick(reply),
        }
    }
}

/// What is to be done, outside the engine, about a report that concludes a
/// match.
#[derive(Debug)]
pub struct Conclusion {
    /// The record to persist, before the report is handed to the engine.
    pub saved: SavedSchnick,
    /// The event to publish once the engine has concluded the match.
    pub played: GraphUpdate,
    /// The users to request invites for once the engine has concluded the
    /// match, in this order.
    pub invitees: (i32, i32),
}

/// A report that waits for its answer, and the channel on which whoever
/// waits with it will hear how it ended.
struct Pending {
    interaction: Interaction,
    sender: watch::Sender<Outcome>,
}

/// The engine: every live match and its pending report.
///
/// The engine is meant to have one owner that hands it one request after
/// the other. A user is in at most one match at any time.
pub struct Schnicker {
    opponents: HashMap<i32, i32>,
    pending: HashMap<i32, Pending>,
}

/// The pending reports without their channels.
spec fn reports(pending: Map<i32, Pending>) -> Map<i32, Interaction> {
    pending.map_values(|p: Pending| p.interaction)
}

/// The matches that the two tables of an engine stand for.
spec fn tables_view(opponents: Map<i32, i32>, pending: Map<i32, Pending>) -> Matches {
    Matches { opponents, submitted: reports(pending) }
}

impl View for Schnicker {
    type V = Matches;

    closed spec fn view(&self) -> Matches {
        tables_view(self.opponents@, self.pending@)
    }
}

impl Schnicker {
    /// What holds of every engine, at all times: its tables stand for
    /// well-formed matches.
    #[verifier::type_invariant]
    spec fn inv(self) -> bool {
        self@.wf()
    }

    /// An engine without any match.
    pub fn new() -> (engine: Schnicker)
        ensures
            engine@ == Matches::empty(),
            engine@.wf(),
    {
        let engine = Schnicker { opponents: HashMap::new(), pending: HashMap::new() };
        assert(engine@ =~= Matches::empty());
        engine
    }

    /// Empties the engine and hands out its two tables, to be changed and put
    /// back as a whole.
    fn take(&mut self) -> (tables: (HashMap<i32, i32>, HashMap<i32, Pending>))
        ensures
            tables.0 == old(self).opponents,
            tables.1 == old(self).pending,
    {
        let mut taken = Schnicker::new();
        std::mem::swap(self, &mut taken);
        let Schnicker { opponents, pending } = taken;
        (opponents, pending)
    }

    /// The record that two reports settle on, if they agree: the winner is
    /// whoever claimed the win, and the weapon is the winner's.
    pub fn saved_schnick(
        old_id: i32,
        old_interaction: &Interaction,
        id: i32,
        interaction: &Interaction,
    ) -> (saved: Option<SavedSchnick>)
        ensures
            saved == settled(old_id, *old_interaction, id, *interaction),
    {
        if old_interaction.compatible(interaction) {
            let (winner, loser, weapon) = if old_interaction.won {
                (old_id, id, old_interaction.weapon)
            } else {
                (id, old_id, interaction.weapon)
            };
            Some(SavedSchnick { winner, loser, weapon: weapon.code() })
        } else {
            None
        }
    }

    /// The opponent of `id`, if `id` is in a live match.
    pub fn opponent(&self, id: i32) -> (opponent: Option<i32>)
        ensures
            opponent is Some <==> self@.playing(id),
            opponent is Some ==> opponent == Some(self@.opponents[id]),
            self@.wf(),
    {
        proof {
            use_type_invariant(self);
        }
        broadcast use vstd::std_specs::hash::group_hash_axioms;

        match self.opponents.get(&id) {
            Some(opponent) => Some(*opponent),
            None => None,
        }
    }

    /// Starts a match between `id` and `opponent`.
    ///
    /// `already_schnicked` is what persistence said to the question whether
    /// the two have a recorded result against each other, in either order, or
    /// `None` if it could not say. A user cannot play against themselves, two
    /// users never play each other twice, and nobody plays two matches at
    /// once; the checks are made in this order. The new match has no report
    /// pending.
    pub fn start_schnick(&mut self, id: i32, opponent: i32, already_schnicked: Option<bool>) -> (reply:
        Result<(), Error>)
        ensures
            reply == old(self)@.start_reply(id, opponent, already_schnicked),
            final(self)@ == old(self)@.after_start(id, opponent, already_schnicked),
            final(self)@.wf(),
            id == opponent ==> reply == Err::<(), Error>(Error::CannotSchnickOneself),
            id != opponent && already_schnicked == Some(true) ==> reply == Err::<(), Error>(
                Error::CannotSchnickTwice,
            ),
            reply is Ok ==> final(self)@.matched(id, opponent) && final(self)@.matched(opponent, id),
    {
        proof {
            use_type_invariant(&*self);
        }
        broadcast use vstd::std_specs::hash::group_hash_axioms;

        if id == opponent {
            return Err(Error::CannotSchnickOneself);
        }
        match already_schnicked {
            None => {
                return Err(Error::InternalServerError);
            },
            Some(true) => {
                return Err(Error::CannotSchnickTwice);
            },
            Some(false) => {},
        }
        if self.opponents.contains_key(&id) || self.opponents.contains_key(&opponent) {
            return Err(Error::AlreadySchnicking);
        }
        let (mut opponents, pending) = self.take();
        opponents.insert(id, opponent);
        opponents.insert(opponent, id);
        proof {
            old(self)@.start_keeps_well_formed(id, opponent, already_schnicked);
            assert(tables_view(opponents@, pending@) =~= old(self)@.after_start(
                id,
                opponent,
                already_schnicked,
            ));
        }
        *self = Schnicker { opponents, pending };
        Ok(())
    }

    /// What is to be done about `interaction`, handed in by `id`, if it is
    /// going to conclude the match: the record to persist before the report
    /// itself is handed to [`Schnicker::handle_interaction`], and, once that
    /// has answered `Concluded`, the event to publish, which names the player
    /// who reported first and then `id`, and the users to request invites
    /// for, `id` and then the other.
    pub fn conclusion(&self, id: i32, interaction: &Interaction) -> (conclusion: Option<Conclusion>)
        ensures
            match conclusion {
                Some(conclusion) => {
                    &&& self@.conclusion(id, *interaction) == Some(conclusion.saved)
                    &&& conclusion.played == GraphUpdate::Schnick { a: self@.opponents[id], b: id }
                    &&& conclusion.invitees == (id, self@.opponents[id])
                },
                None => self@.conclusion(id, *interaction) is None,
            },
            self@.wf(),
    {
        proof {
            use_type_invariant(self);
        }
        broadcast use vstd::std_specs::hash::group_hash_axioms;

        let opponent = match self.opponents.get(&id) {
            Some(opponent) => *opponent,
            None => {
                return None;
            },
        };
        let first = match self.pending.get(&opponent) {
            Some(first) => first.interaction,
            None => {
                return None;
            },
        };
        match Self::saved_schnick(opponent, &first, id, interaction) {
            Some(saved) => Some(
                Conclusion {
                    saved,
                    played: GraphUpdate::Schnick { a: opponent, b: id },
                    invitees: (id, opponent),
                },
            ),
            None => None,
        }
    }

    /// Takes the report of `id` about the round.
    ///
    /// A first report is kept as pending, and so is a second thought of the
    /// player whose report is pending already: the answer is `None`, the
    /// round goes on. A report that answers the opponent's pending one
    /// either contradicts it, which clears the pending report (`Retry`), or
    /// agrees with it, which ends the match (`Concluded`). Whoever waits on
    /// the pending report is told the outcome.
    ///
    /// `persisted` says whether the record of [`Schnicker::conclusion`] has
    /// been stored. It is read only when the reports agree; if the record
    /// could not be stored, nothing changes. What else is to be done about a
    /// conclusion is laid down in [`Conclusion`].
    pub fn handle_interaction(&mut self, id: i32, interaction: &Interaction, persisted: bool) -> (reply:
        Result<Option<Outcome>, Error>)
        ensures
            reply == old(self)@.interaction_reply(id, *interaction, persisted),
            final(self)@ == old(self)@.after_interaction(id, *interaction, persisted),
            final(self)@.wf(),
    {
        proof {
            use_type_invariant(&*self);
        }
        broadcast use vstd::std_specs::hash::group_hash_axioms;

        let ghost after = self@.after_interaction(id, *interaction, persisted);
        proof {
            self@.interaction_keeps_well_formed(id, *interaction, persisted);
        }
        let opponent = match self.opponents.get(&id) {
            Some(opponent) => *opponent,
            None => {
                return Err(Error::NotInSchnick);
            },
        };
        let first = match self.pending.get(&opponent) {
            Some(first) => first.interaction,
            None => {
                let (opponents, mut pending) = self.take();
                let sender = match pending.remove(&id) {
                    Some(own) => own.sender,
                    None => channel::open(Outcome::Retry),
                };
                pending.insert(id, Pending { interaction: *interaction, sender });
                assert(tables_view(opponents@, pending@) =~= after);
                *self = Schnicker { opponents, pending };
                return Ok(None);
            },
        };
        match Self::saved_schnick(opponent, &first, id, interaction) {
            None => {
                let (opponents, mut pending) = self.take();
                let answered = pending.remove(&opponent);
                assert(tables_view(opponents@, pending@) =~= after);
                *self = Schnicker { opponents, pending };
                if let Some(answered) = answered {
                    channel::announce(&answered.sender, Outcome::Retry);
                }
                Ok(Some(Outcome::Retry))
            },
            Some(_) => {
                if !persisted {
                    return Err(Error::InternalServerError);
                }
                let (mut opponents, mut pending) = self.take();
                let answered = pending.remove(&opponent);
                opponents.remove(&id);
                opponents.remove(&opponent);
                assert(tables_view(opponents@, pending@) =~= after);
                *self = Schnicker { opponents, pending };
                if let Some(answered) = answered {
                    channel::announce(&answered.sender, Outcome::Concluded);
                }
                Ok(Some(Outcome::Concluded))
            },
        }
    }

    /// Whether `id`, who is in a live match, still has to hand in a report.
    pub fn in_schnick(&self, id: i32) -> (reply: Result<bool, Error>)
        ensures
            reply == self@.in_schnick_reply(id),
            self@.wf(),
    {
        proof {
            use_type_invariant(self);
        }
        broadcast use vstd::std_specs::hash::group_hash_axioms;

        if self.opponents.contains_key(&id) {
            Ok(!self.pending.contains_key(&id))
        } else {
            Err(Error::NotInSchnick)
        }
    }

    /// A subscription to the outcome of the round, for the player whose
    /// report is pending. Everybody else is told that there is nothing to
    /// wait for.
    pub fn get_outcome_receiver(&self, id: i32) -> (reply: Result<watch::Receiver<Outcome>, Error>)
        ensures
            reply is Ok <==> self@.awaits_outcome(id),
            reply is Err ==> reply->Err_0 == Error::NotFound,
            self@.wf(),
    {
        proof {
            use_type_invariant(self);
        }
        broadcast use vstd::std_specs::hash::group_hash_axioms;

        match self.pending.get(&id) {
            Some(own) => Ok(channel::subscribe(&own.sender)),
            None => Err(Error::NotFound),
        }
    }

    /// Ends the match of `id` without a result. Whoever waits on a pending
    /// report of the match is told that it was aborted.
    pub fn abort_schnick(&mut self, id: i32) -> (reply: Result<(), Error>)
        ensures
            reply == old(self)@.abort_reply(id),
            final(self)@ == old(self)@.after_abort(id),
            final(self)@.wf(),
    {
        proof {
            use_type_invariant(&*self);
        }
        broadcast use vstd::std_specs::hash::group_hash_axioms;

        let ghost after = self@.after_abort(id);
        proof {
            self@.abort_keeps_well_formed(id);
        }
        let opponent = match self.opponents.get(&id) {
            Some(opponent) => *opponent,
            None => {
                return Err(Error::NotInSchnick);
            },
        };
        let (mut opponents, mut pending) = self.take();
        opponents.remove(&id);
        opponents.remove(&opponent);
        let own = pending.remove(&id);
        let other = pending.remove(&opponent);
        assert(tables_view(opponents@, pending@) =~= after);
        *self = Schnicker { opponents, pending };
        if let Some(own) = own {
            channel::announce(&own.sender, Outcome::Aborted);
        }
        if let Some(other) = other {
            channel::announce(&other.sender, Outcome::Aborted);
        }
        Ok(())
    }

    /// Answers one request, whatever it is: what the owner of the engine
    /// does with each request it receives.
    pub fn serve(&mut self, request: SchnickRequest) -> (response: SchnickResponse)
        ensures
            response@ == old(self)@.reply(request),
            final(self)@ == old(self)@.after(request),
            final(self)@.wf(),
    {
        proof {
            use_type_invariant(&*self);
        }
        match request {
            SchnickRequest::StartSchnick { id, opponent, already_schnicked } => {
                SchnickResponse::StartSchnick(self.start_schnick(id, opponent, already_schnicked))
            },
            SchnickRequest::GetOutcomeReceiver { id } => {
                SchnickResponse::GetOutcomeReceiver(self.get_outcome_receiver(id))
            },
            SchnickRequest::HandleInteraction { id, interaction, persisted } => {
                SchnickResponse::HandleInteraction(
                    self.handle_interaction(id, &interaction, persisted),
                )
            },
            SchnickRequest::InSchnick { id } => SchnickResponse::InSchnick(self.in_schnick(id)),
            SchnickRequest::AbortSchnick { id } => SchnickResponse::AbortSchnick(
                self.abort_schnick(id),
            ),
        }
    }
}

} // verus!
