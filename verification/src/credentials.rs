//! What the authority knows as a mathematical value, and what each request
//! makes of it.
//!
//! Everything here is ghost code: the functions say what the authority in
//! [`crate::auth`] does, and the proofs say what follows from that.

use crate::auth::{Inserted, Invite, NewUser, Stored};
use crate::error::Error;
use crate::graphs::GraphUpdate;
use crate::token::Token;
use vstd::prelude::*;

verus! {

/// The user that exists before anybody was invited.
pub const AUTHENTICATOR_ROOT_ID: i32 = 1i32;

/// How many names are tried for a new user before registration gives up.
pub const REGISTER_ATTEMPTS: u32 = 10u32;

/// The two credentials of a user.
#[derive(Debug, Clone, Copy, PartialEq, Eq, Structural)]
pub struct Credentials {
    /// Proves who the user is. Never changes.
    pub token: Token,
    /// Lets somebody else register or start a match with the user. Replaced
    /// whenever it is renewed.
    pub invite: Token,
}

/// [`Registration`] as a mathematical value.
pub enum RegistrationView {
    Registered { id: i32, credentials: Credentials, created: GraphUpdate },
    Retry { user: NewUser, attempt: u32 },
    Failed(Error),
}

/// How a login of `id` with `token` is answered by an authority that knows
/// `known`. A user that the authority knows is judged by what it knows. For
/// any other, `stored` decides, and a user that is let in gets `fresh` for
/// an invite.
pub open spec fn authenticate_reply(
    known: Map<i32, Credentials>,
    id: i32,
    token: Token,
    stored: Stored,
    fresh: Token,
) -> Result<Credentials, Error> {
    if known.contains_key(id) {
        if known[id].token == token {
            Ok(known[id])
        } else {
            Err(Error::InvalidLogin)
        }
    } else if stored == Stored::Unavailable {
        Err(Error::InternalServerError)
    } else if stored == Stored::Found(token) {
        Ok(Credentials { token, invite: fresh })
    } else {
        Err(Error::InvalidLogin)
    }
}

/// What the authority knows after that login: a user that was let in for the
/// first time is known from now on.
pub open spec fn after_authenticate(
    known: Map<i32, Credentials>,
    id: i32,
    token: Token,
    stored: Stored,
    fresh: Token,
) -> Map<i32, Credentials> {
    if !known.contains_key(id) && stored == Stored::Found(token) {
        known.insert(id, Credentials { token, invite: fresh })
    } else {
        known
    }
}

/// Whether `invite` is the current invite credential of `parent`.
pub open spec fn invite_valid(known: Map<i32, Credentials>, parent: i32, invite: Token) -> bool {
    known.contains_key(parent) && known[parent].invite == invite
}

/// How an attempt to register a user invited by `parent` goes on, once
/// persistence has answered `inserted` to the attempt with the number
/// `attempt`, counted from 0. A new user gets `fresh` for an invite, and
/// their creation is to be published; if the name was taken and attempts are
/// left, `next_name` is tried next, in the attempt with the next number.
pub open spec fn register_reply(
    known: Map<i32, Credentials>,
    parent: i32,
    invite: Token,
    attempt: u32,
    inserted: Inserted,
    fresh: Token,
    next_name: String,
) -> RegistrationView {
    if !invite_valid(known, parent, invite) {
        RegistrationView::Failed(Error::InvalidInvite)
    } else {
        match inserted {
            Inserted::Unavailable => RegistrationView::Failed(Error::InternalServerError),
            Inserted::Taken => if attempt + 1 < REGISTER_ATTEMPTS {
                RegistrationView::Retry {
                    user: NewUser { parent, username: next_name },
                    attempt: (attempt + 1) as u32,
                }
            } else {
                RegistrationView::Failed(Error::InternalServerError)
            },
            Inserted::Created { id, token, username } => RegistrationView::Registered {
                id,
                credentials: Credentials { token, invite: fresh },
                created: GraphUpdate::UserCreated { id, parent, name: username },
            },
        }
    }
}

/// What the authority knows after that attempt: the new user, if there is
/// one, beside everybody it knew.
pub open spec fn after_register(
    known: Map<i32, Credentials>,
    parent: i32,
    invite: Token,
    inserted: Inserted,
    fresh: Token,
) -> Map<i32, Credentials> {
    match inserted {
        Inserted::Created { id, token, username } if invite_valid(known, parent, invite) =>
            known.insert(id, Credentials { token, invite: fresh }),
        _ => known,
    }
}

/// How a request to replace the invite of `id` by `fresh` is answered. An
/// invite is never replaced by itself: the old one would stay valid.
pub open spec fn renew_reply(known: Map<i32, Credentials>, id: i32, fresh: Token) -> Result<
    (),
    Error,
> {
    if !known.contains_key(id) {
        Err(Error::NotFound)
    } else if known[id].invite == fresh {
        Err(Error::InternalServerError)
    } else {
        Ok(())
    }
}

/// What the authority knows after that request.
pub open spec fn after_renew(known: Map<i32, Credentials>, id: i32, fresh: Token) -> Map<
    i32,
    Credentials,
> {
    if renew_reply(known, id, fresh) is Ok {
        known.insert(id, Credentials { token: known[id].token, invite: fresh })
    } else {
        known
    }
}

/// The invitation by the root user, if `stored` is a login credential that
/// lets the root user in.
pub open spec fn root_reply(known: Map<i32, Credentials>, stored: Stored, fresh: Token) -> Option<
    Invite,
> {
    match stored {
        Stored::Found(token) => match authenticate_reply(
            known,
            AUTHENTICATOR_ROOT_ID,
            token,
            stored,
            fresh,
        ) {
            Ok(credentials) => Some(Invite { id: AUTHENTICATOR_ROOT_ID, token: credentials.invite }),
            Err(_) => None,
        },
        _ => None,
    }
}

/// What the authority knows after it was asked for the root user's
/// invitation.
pub open spec fn after_root(known: Map<i32, Credentials>, stored: Stored, fresh: Token) -> Map<
    i32,
    Credentials,
> {
    match stored {
        Stored::Found(token) => after_authenticate(known, AUTHENTICATOR_ROOT_ID, token, stored, fresh),
        _ => known,
    }
}

/// Renewing an invite makes the old one useless: it no longer opens a
/// registration, whatever persistence says, while the new one does. The
/// login credential is not touched.
pub proof fn renewal_invalidates_invite(
    known: Map<i32, Credentials>,
    id: i32,
    fresh: Token,
    attempt: u32,
    inserted: Inserted,
    newer: Token,
    next_name: String,
)
    requires
        renew_reply(known, id, fresh) is Ok,
    ensures
        ({
            let old_invite = known[id].invite;
            let then = after_renew(known, id, fresh);
            &&& invite_valid(known, id, old_invite)
            &&& !invite_valid(then, id, old_invite)
            &&& invite_valid(then, id, fresh)
            &&& then[id].token == known[id].token
            &&& register_reply(then, id, old_invite, attempt, inserted, newer, next_name)
                == RegistrationView::Failed(Error::InvalidInvite)
            &&& after_register(then, id, old_invite, inserted, newer) == then
        }),
{
}

/// Registering a user changes nothing for anybody else: the inviting user
/// keeps their invite, which therefore opens the next registration too.
pub proof fn registration_keeps_invites(
    known: Map<i32, Credentials>,
    parent: i32,
    invite: Token,
    inserted: Inserted,
    fresh: Token,
    other: i32,
)
    requires
        known.contains_key(other),
        inserted is Created ==> inserted->id != other,
    ensures
        after_register(known, parent, invite, inserted, fresh).contains_key(other),
        after_register(known, parent, invite, inserted, fresh)[other] == known[other],
        other == parent ==> (invite_valid(known, parent, invite) <==> invite_valid(
            after_register(known, parent, invite, inserted, fresh),
            parent,
            invite,
        )),
{
}

/// A user the authority knows is judged by what it knows: persistence has
/// no say, and nothing changes.
pub proof fn known_users_are_judged_without_persistence(
    known: Map<i32, Credentials>,
    id: i32,
    token: Token,
    stored: Stored,
    fresh: Token,
    otherwise: Stored,
    other_fresh: Token,
)
    requires
        known.contains_key(id),
    ensures
        authenticate_reply(known, id, token, stored, fresh) == authenticate_reply(
            known,
            id,
            token,
            otherwise,
            other_fresh,
        ),
        authenticate_reply(known, id, token, stored, fresh) is Ok <==> known[id].token == token,
        after_authenticate(known, id, token, stored, fresh) == known,
{
}

/// The authority never forgets a user, and never changes a login
/// credential: whoever is known stays known, with the credential they were
/// let in with.
pub proof fn nobody_is_forgotten(
    known: Map<i32, Credentials>,
    id: i32,
    token: Token,
    stored: Stored,
    fresh: Token,
    other: i32,
)
    requires
        known.contains_key(other),
    ensures
        after_authenticate(known, id, token, stored, fresh).contains_key(other),
        after_authenticate(known, id, token, stored, fresh)[other] == known[other],
        after_renew(known, id, fresh).contains_key(other),
        after_renew(known, id, fresh)[other].token == known[other].token,
        other != id ==> after_renew(known, id, fresh)[other] == known[other],
        after_root(known, stored, fresh).contains_key(other),
        after_root(known, stored, fresh)[other] == known[other],
{
}

/// A request that is turned down changes nothing: whatever fails, with
/// persistence or without, the authority knows afterwards exactly what it
/// knew before.
pub proof fn failed_request_changes_nothing(
    known: Map<i32, Credentials>,
    id: i32,
    token: Token,
    stored: Stored,
    fresh: Token,
    attempt: u32,
    inserted: Inserted,
    next_name: String,
)
    ensures
        authenticate_reply(known, id, token, stored, fresh) is Err ==> after_authenticate(
            known,
            id,
            token,
            stored,
            fresh,
        ) == known,
        !(register_reply(known, id, token, attempt, inserted, fresh, next_name) is Registered)
            ==> after_register(known, id, token, inserted, fresh) == known,
        renew_reply(known, id, fresh) is Err ==> after_renew(known, id, fresh) == known,
        root_reply(known, stored, fresh) is None ==> after_root(known, stored, fresh) == known,
{
}

} // verus!
