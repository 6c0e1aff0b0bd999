//! The session and invite authority.
//!
//! The authority knows, for every user it has seen, the login credential
//! that proves who they are and the invite credential that they may hand to
//! somebody else. It learns of a user the first time they log in, from
//! persistence, and never forgets them; from then on it alone decides.

use crate::channel;
use crate::credentials::{
    after_authenticate, after_register, after_renew, after_root, authenticate_reply, invite_valid,
    register_reply, renew_reply, root_reply, Credentials, RegistrationView,
    AUTHENTICATOR_ROOT_ID, REGISTER_ATTEMPTS,
};
use crate::error::Error;
use crate::graphs::GraphUpdate;
use crate::token::Token;
use crate::username::{generate_username, is_generated_username};
use std::collections::HashMap;
use tokio::sync::watch;
use vstd::prelude::*;

verus! {

/// What the authority holds for a user: the credentials, and the channel on
/// which the user's open pages hear that the invite has changed.
#[derive(Debug)]
pub struct AuthenticatorEntry {
    pub token: Token,
    pub invite: Token,
    pub channel: watch::Sender<()>,
}

impl View for AuthenticatorEntry {
    type V = Credentials;

    open spec fn view(&self) -> Credentials {
        Credentials { token: self.token, invite: self.invite }
    }
}

impl Clone for AuthenticatorEntry {
    /// The same credentials, and a second handle to the same channel.
    fn clone(&self) -> (copy: AuthenticatorEntry)
        ensures
            copy@ == self@,
    {
        AuthenticatorEntry {
            token: self.token,
            invite: self.invite,
            channel: channel::share(&self.channel),
        }
    }
}

/// An invitation as a client presents it: who invites, and their invite
/// credential.
#[derive(Debug, Clone, Copy, PartialEq, Eq, Structural)]
pub struct Invite {
    pub id: i32,
    pub token: Token,
}

/// A user that is to be inserted into persistence.
#[derive(Debug)]
pub struct NewUser {
    pub parent: i32,
    pub username: String,
}

impl Clone for NewUser {
    fn clone(&self) -> (copy: NewUser)
        ensures
            copy == *self,
    {
        NewUser { parent: self.parent, username: self.username.clone() }
    }
}

/// What persistence answered when asked for a user's login credential.
#[derive(Debug, Clone, Copy, PartialEq, Eq, Structural)]
pub enum Stored {
    /// Persistence failed.
    Unavailable,
    /// There is no such user.
    Missing,
    /// The user's login credential.
    Found(Token),
}

/// What persistence answered when asked to insert a [`NewUser`].
#[derive(Debug)]
pub enum Inserted {
    /// Persistence failed.
    Unavailable,
    /// The name is taken by another user.
    Taken,
    /// The user exists now, under this identity and with this login
    /// credential.
    Created { id: i32, token: Token, username: String },
}

/// How an attempt to register a user went on.
#[derive(Debug)]
pub enum Registration {
    /// The user is registered and known to the authority. Their creation
    /// is to be published.
    Registered { id: i32, entry: AuthenticatorEntry, created: GraphUpdate },
    /// The name was taken; this user is to be inserted next, in the attempt
    /// with this number.
    Retry { user: NewUser, attempt: u32 },
    /// Registration is over, without a new user.
    Failed(Error),
}

impl View for Registration {
    type V = RegistrationView;

    open spec fn view(&self) -> RegistrationView {
        match *self {
            Registration::Registered { id, entry, created } => RegistrationView::Registered {
                id,
                credentials: entry@,
                created,
            },
            Registration::Retry { user, attempt } => RegistrationView::Retry { user, attempt },
            Registration::Failed(error) => RegistrationView::Failed(error),
        }
    }
}

/// What can be asked of the authority.
///
/// Where the answer depends on persistence, the request carries what
/// persistence said.
#[derive(Debug)]
pub enum AuthenticationRequest {
    /// See [`Authenticator::authenticate`].
    Authenticate { id: i32, token: Token, stored: Stored },
    /// See [`Authenticator::register`].
    Register { parent: i32, invite: Token, attempt: u32, inserted: Inserted },
    /// See [`Authenticator::renew_invite`].
    RenewInvite { id: i32 },
    /// See [`Authenticator::create_invite_if_not_exists`].
    CreateInvite { id: i32 },
}

/// The authority's answer to an [`AuthenticationRequest`], one variant for
/// each kind of request.
#[derive(Debug)]
pub enum AuthenticationResponse {
    Authenticate(Result<AuthenticatorEntry, Error>),
    Register(Registration),
    RenewInvite(Result<(), Error>),
    CreateInvite(Result<(), Error>),
}

/// Whether `response` and `then` are the answer to `request` and what the
/// authority knows after it, given that it knew `known`. Where the authority
/// draws an invite or a name while answering, any draw will do.
pub open spec fn answers(
    known: Map<i32, Credentials>,
    request: AuthenticationRequest,
    response: AuthenticationResponse,
    then: Map<i32, Credentials>,
) -> bool {
    match request {
        AuthenticationRequest::Authenticate { id, token, stored } => {
            &&& response is Authenticate
            &&& exists|fresh: Token|
                {
                    &&& fresh.is_random()
                    &&& credentials_in(response->Authenticate_0) == #[trigger] authenticate_reply(
                        known,
                        id,
                        token,
                        stored,
                        fresh,
                    )
                    &&& then == after_authenticate(known, id, token, stored, fresh)
                }
        },
        AuthenticationRequest::Register { parent, invite, attempt, inserted } => {
            &&& response is Register
            &&& exists|fresh: Token, next_name: String|
                {
                    &&& fresh.is_random()
                    &&& is_generated_username(next_name@)
                    &&& response->Register_0@ == #[trigger] register_reply(
                        known,
                        parent,
                        invite,
                        attempt,
                        inserted,
                        fresh,
                        next_name,
                    )
                    &&& then == after_register(known, parent, invite, inserted, fresh)
                }
        },
        AuthenticationRequest::RenewInvite { id } => {
            &&& response is RenewInvite
            &&& exists|fresh: Token|
                {
                    &&& fresh.is_random()
                    &&& response->RenewInvite_0 == #[trigger] renew_reply(known, id, fresh)
                    &&& then == after_renew(known, id, fresh)
                }
        },
        AuthenticationRequest::CreateInvite { id } => {
            &&& response is CreateInvite
            &&& response->CreateInvite_0 == if known.contains_key(id) {
                Ok::<(), Error>(())
            } else {
                Err::<(), Error>(Error::NotFound)
            }
            &&& then == known
        },
    }
}

/// The credentials in an answer to a login.
pub open spec fn credentials_in(reply: Result<AuthenticatorEntry, Error>) -> Result<
    Credentials,
    Error,
> {
    match reply {
        Ok(entry) => Ok(entry@),
        Err(error) => Err(error),
    }
}

/// The credentials in a table of entries.
spec fn credentials(cache: Map<i32, AuthenticatorEntry>) -> Map<i32, Credentials> {
    cache.map_values(|entry: AuthenticatorEntry| entry@)
}

/// The authority: every user it has seen, with their credentials.
///
/// The authority is meant to have one owner that hands it one request after
/// the other. It never forgets a user.
pub struct Authenticator {
    cache: HashMap<i32, AuthenticatorEntry>,
}

impl View for Authenticator {
    type V = Map<i32, Credentials>;

    closed spec fn view(&self) -> Map<i32, Credentials> {
        credentials(self.cache@)
    }
}

impl Authenticator {
    /// An authority that knows nobody yet.
    pub fn new() -> (authority: Authenticator)
        ensures
            authority@ == Map::<i32, Credentials>::empty(),
    {
        let authority = Authenticator { cache: HashMap::new() };
        assert(authority@ =~= Map::<i32, Credentials>::empty());
        authority
    }

    /// Whether the authority knows `id`, so that persistence need not be
    /// asked about them.
    pub fn knows(&self, id: i32) -> (yes: bool)
        ensures
            yes == self@.contains_key(id),
    {
        broadcast use vstd::std_specs::hash::group_hash_axioms;

        self.cache.contains_key(&id)
    }

    /// Checks the login of `id` with `submitted_token`, and gives a user
    /// that is let in for the first time `fresh` for an invite.
    ///
    /// `stored` is what persistence holds for `id`. It is read only if the
    /// authority does not know `id` yet.
    pub fn authenticate_with(
        &mut self,
        id: i32,
        submitted_token: &Token,
        stored: Stored,
        fresh: Token,
    ) -> (reply: Result<AuthenticatorEntry, Error>)
        ensures
            credentials_in(reply) == authenticate_reply(
                old(self)@,
                id,
                *submitted_token,
                stored,
                fresh,
            ),
            final(self)@ == after_authenticate(old(self)@, id, *submitted_token, stored, fresh),
    {
        broadcast use vstd::std_specs::hash::group_hash_axioms;

        let ghost after = after_authenticate(self@, id, *submitted_token, stored, fresh);
        match self.cache.get(&id) {
            Some(entry) => {
                if entry.token == *submitted_token {
                    Ok(entry.clone())
                } else {
                    Err(Error::InvalidLogin)
                }
            },
            None => match stored {
                Stored::Unavailable => Err(Error::InternalServerError),
                Stored::Missing => Err(Error::InvalidLogin),
                Stored::Found(token) => {
                    if token == *submitted_token {
                        let entry = AuthenticatorEntry {
                            token,
                            invite: fresh,
                            channel: channel::open(()),
                        };
                        let copy = entry.clone();
                        self.cache.insert(id, entry);
                        assert(self@ =~= after);
                        Ok(copy)
                    } else {
                        Err(Error::InvalidLogin)
                    }
                },
            },
        }
    }

    /// Checks the login of `id` with `submitted_token`.
    ///
    /// A user that the authority knows is judged by what it knows. Any other
    /// is let in if `stored`, which is what persistence holds for `id`, is
    /// the submitted credential; the authority then knows them, with a
    /// newly drawn invite.
    pub fn authenticate(&mut self, id: i32, submitted_token: &Token, stored: Stored) -> (reply: Result<
        AuthenticatorEntry,
        Error,
    >)
        ensures
            exists|fresh: Token|
                {
                    &&& fresh.is_random()
                    &&& credentials_in(reply) == #[trigger] authenticate_reply(
                        old(self)@,
                        id,
                        *submitted_token,
                        stored,
                        fresh,
                    )
                    &&& final(self)@ == after_authenticate(
                        old(self)@,
                        id,
                        *submitted_token,
                        stored,
                        fresh,
                    )
                },
    {
        let fresh = Token::fresh();
        self.authenticate_with(id, submitted_token, stored, fresh)
    }

    /// Whether `submitted_invite` is the current invite of `parent`.
    pub fn check_invite(&self, parent: i32, submitted_invite: &Token) -> (reply: Result<(), Error>)
        ensures
            invite_valid(self@, parent, *submitted_invite) ==> reply == Ok::<(), Error>(()),
            !invite_valid(self@, parent, *submitted_invite) ==> reply == Err::<(), Error>(
                Error::InvalidInvite,
            ),
    {
        broadcast use vstd::std_specs::hash::group_hash_axioms;

        match self.cache.get(&parent) {
            Some(entry) => {
                if entry.invite == *submitted_invite {
                    Ok(())
                } else {
                    Err(Error::InvalidInvite)
                }
            },
            None => Err(Error::InvalidInvite),
        }
    }

    /// Opens a registration: if `submitted_invite` is the current invite of
    /// `parent`, the answer is the user to insert into persistence, under a
    /// newly drawn name.
    pub fn new_user(&self, parent: i32, submitted_invite: &Token) -> (reply: Result<NewUser, Error>)
        ensures
            reply is Ok <==> invite_valid(self@, parent, *submitted_invite),
            reply is Err ==> reply->Err_0 == Error::InvalidInvite,
            reply is Ok ==> reply->Ok_0.parent == parent && is_generated_username(
                reply->Ok_0.username@,
            ),
    {
        match self.check_invite(parent, submitted_invite) {
            Ok(()) => Ok(NewUser { parent, username: generate_username() }),
            Err(error) => Err(error),
        }
    }

    /// Goes on with a registration, once persistence has answered `inserted`
    /// to the attempt with the number `attempt`, counted from 0.
    ///
    /// A user that was created is known to the authority from now on, with
    /// `fresh` for an invite, and the answer holds the event to publish. If
    /// the name was taken, `next_name` is to be tried, unless this was the
    /// last of the [`REGISTER_ATTEMPTS`]. The invite of `parent` stays what
    /// it is, whatever happens.
    pub fn register_with(
        &mut self,
        parent: i32,
        submitted_invite: &Token,
        attempt: u32,
        inserted: Inserted,
        fresh: Token,
        next_name: String,
    ) -> (reply: Registration)
        ensures
            reply@ == register_reply(
                old(self)@,
                parent,
                *submitted_invite,
                attempt,
                inserted,
                fresh,
                next_name,
            ),
            final(self)@ == after_register(old(self)@, parent, *submitted_invite, inserted, fresh),
    {
        broadcast use vstd::std_specs::hash::group_hash_axioms;

        let ghost after = after_register(self@, parent, *submitted_invite, inserted, fresh);
        if self.check_invite(parent, submitted_invite).is_err() {
            return Registration::Failed(Error::InvalidInvite);
        }
        match inserted {
            Inserted::Unavailable => Registration::Failed(Error::InternalServerError),
            Inserted::Taken => {
                if attempt < REGISTER_ATTEMPTS - 1 {
                    Registration::Retry {
                        user: NewUser { parent, username: next_name },
                        attempt: attempt + 1,
                    }
                } else {
                    Registration::Failed(Error::InternalServerError)
                }
            },
            Inserted::Created { id, token, username } => {
                let entry = AuthenticatorEntry { token, invite: fresh, channel: channel::open(()) };
                let copy = entry.clone();
                self.cache.insert(id, entry);
                assert(self@ =~= after);
                Registration::Registered {
                    id,
                    entry: copy,
                    created: GraphUpdate::UserCreated { id, parent, name: username },
                }
            },
        }
    }

    /// Goes on with a registration, once persistence has answered `inserted`
    /// to the attempt with the number `attempt`, counted from 0.
    ///
    /// A user that was created is known to the authority from now on, with a
    /// newly drawn invite. If the name was taken, a newly drawn name is to be
    /// tried, unless this was the last of the [`REGISTER_ATTEMPTS`].
    pub fn register(
        &mut self,
        parent: i32,
        submitted_invite: &Token,
        attempt: u32,
        inserted: Inserted,
    ) -> (reply: Registration)
        ensures
            exists|fresh: Token, next_name: String|
                {
                    &&& fresh.is_random()
                    &&& is_generated_username(next_name@)
                    &&& reply@ == #[trigger] register_reply(
                        old(self)@,
                        parent,
                        *submitted_invite,
                        attempt,
                        inserted,
                        fresh,
                        next_name,
                    )
                    &&& final(self)@ == after_register(
                        old(self)@,
                        parent,
                        *submitted_invite,
                        inserted,
                        fresh,
                    )
                },
    {
        let fresh = Token::fresh();
        let next_name = generate_username();
        self.register_with(parent, submitted_invite, attempt, inserted, fresh, next_name)
    }

    /// Replaces the invite of `id` by `fresh` and tells whoever waits for
    /// the invite of `id` to change. `fresh` has to differ from the invite it
    /// replaces; if it does not, nothing happens and the caller may try
    /// again.
    pub fn renew_invite_with(&mut self, id: i32, fresh: Token) -> (reply: Result<(), Error>)
        ensures
            reply == renew_reply(old(self)@, id, fresh),
            final(self)@ == after_renew(old(self)@, id, fresh),
    {
        broadcast use vstd::std_specs::hash::group_hash_axioms;

        let ghost after = after_renew(self@, id, fresh);
        match self.cache.get(&id) {
            None => {
                return Err(Error::NotFound);
            },
            Some(entry) => {
                if entry.invite == fresh {
                    return Err(Error::InternalServerError);
                }
            },
        }
        if let Some(entry) = self.cache.remove(&id) {
            let renewed = AuthenticatorEntry {
                token: entry.token,
                invite: fresh,
                channel: entry.channel,
            };
            channel::announce(&renewed.channel, ());
            self.cache.insert(id, renewed);
        }
        assert(self@ =~= after);
        Ok(())
    }

    /// Replaces the invite of `id` by a newly drawn one, so that the old one
    /// is of no use any more, and tells whoever waits for the invite of `id`
    /// to change. An unknown user has no invite to renew. Should the draw
    /// return the very invite it is to replace, nothing happens and the
    /// caller may try again.
    pub fn renew_invite(&mut self, id: i32) -> (reply: Result<(), Error>)
        ensures
            exists|fresh: Token|
                {
                    &&& fresh.is_random()
                    &&& reply == #[trigger] renew_reply(old(self)@, id, fresh)
                    &&& final(self)@ == after_renew(old(self)@, id, fresh)
                },
            !old(self)@.contains_key(id) ==> reply == Err::<(), Error>(Error::NotFound),
            reply is Ok ==> final(self)@[id].invite != old(self)@[id].invite,
    {
        let fresh = Token::fresh();
        self.renew_invite_with(id, fresh)
    }

    /// Makes sure that `id` has an invite. Every user the authority knows has
    /// one, so nothing is ever issued; an unknown user cannot be given one.
    pub fn create_invite_if_not_exists(&self, id: i32) -> (reply: Result<(), Error>)
        ensures
            self@.contains_key(id) ==> reply == Ok::<(), Error>(()),
            !self@.contains_key(id) ==> reply == Err::<(), Error>(Error::NotFound),
    {
        if self.knows(id) {
            Ok(())
        } else {
            Err(Error::NotFound)
        }
    }

    /// The invitation by the root user, with `fresh` for an invite if the
    /// root user is let in for the first time.
    ///
    /// `stored` is what persistence holds for the root user; without it
    /// there is no invitation.
    pub fn root_invite_with(&mut self, stored: Stored, fresh: Token) -> (invite: Option<Invite>)
        ensures
            invite == root_reply(old(self)@, stored, fresh),
            final(self)@ == after_root(old(self)@, stored, fresh),
    {
        match stored {
            Stored::Found(token) => {
                match self.authenticate_with(AUTHENTICATOR_ROOT_ID, &token, stored, fresh) {
                    Ok(entry) => Some(Invite { id: AUTHENTICATOR_ROOT_ID, token: entry.invite }),
                    Err(_) => None,
                }
            },
            _ => None,
        }
    }

    /// The invitation by the root user, from which everybody else descends.
    ///
    /// `stored` is what persistence holds for the root user; without it
    /// there is no invitation.
    pub fn root_invite(&mut self, stored: Stored) -> (invite: Option<Invite>)
        ensures
            exists|fresh: Token|
                {
                    &&& fresh.is_random()
                    &&& invite == #[trigger] root_reply(old(self)@, stored, fresh)
                    &&& final(self)@ == after_root(old(self)@, stored, fresh)
                },
            invite is Some ==> invite->Some_0.id == AUTHENTICATOR_ROOT_ID,
    {
        let fresh = Token::fresh();
        self.root_invite_with(stored, fresh)
    }

    /// Answers one request, whatever it is: what the owner of the authority
    /// does with each request it receives.
    pub fn serve(&mut self, request: AuthenticationRequest) -> (response: AuthenticationResponse)
        ensures
            answers(old(self)@, request, response, final(self)@),
    {
        match request {
            AuthenticationRequest::Authenticate { id, token, stored } => {
                AuthenticationResponse::Authenticate(self.authenticate(id, &token, stored))
            },
            AuthenticationRequest::Register { parent, invite, attempt, inserted } => {
                AuthenticationResponse::Register(self.register(parent, &invite, attempt, inserted))
            },
            AuthenticationRequest::RenewInvite { id } => AuthenticationResponse::RenewInvite(
                self.renew_invite(id),
            ),
            AuthenticationRequest::CreateInvite { id } => AuthenticationResponse::CreateInvite(
                self.create_invite_if_not_exists(id),
            ),
        }
    }
}

} // verus!
