//! The closed set of failures that requests can end in.

use vstd::prelude::*;

verus! {

/// Why a request was turned down.
///
/// The variants carry no payload: a caller learns the kind of failure and
/// nothing about anybody else's state.
#[derive(Debug, Clone, Copy, PartialEq, Eq, Structural)]
pub enum Error {
    /// The request carried no login at all.
    NoLogin,
    /// The login token does not belong to the user, or the user is unknown.
    InvalidLogin,
    /// The invite token is not the inviting user's current one.
    InvalidInvite,
    /// Persistence or a channel failed. The only failure worth retrying.
    InternalServerError,
    /// A user tried to start a match against themselves.
    CannotSchnickOneself,
    /// The two users already have a recorded result against each other.
    CannotSchnickTwice,
    /// One of the two users is in a live match already.
    AlreadySchnicking,
    /// There is no such thing for this user.
    NotFound,
    /// The user is in no live match.
    NotInSchnick,
    /// The user has already handed in a result for the round.
    AlreadySubmitted,
    /// The submitted settings are malformed.
    InvalidSettings,
}

/// The HTTP status each failure is reported with.
pub open spec fn status_of(error: Error) -> u16 {
    match error {
        Error::NoLogin | Error::InvalidLogin | Error::InvalidInvite => 403,
        Error::InternalServerError => 500,
        Error::CannotSchnickOneself
        | Error::CannotSchnickTwice
        | Error::AlreadySchnicking
        | Error::AlreadySubmitted => 409,
        Error::NotFound | Error::NotInSchnick => 404,
        Error::InvalidSettings => 400,
    }
}

/// The page a user is sent on to after reading about a failure.
pub open spec fn redirect_of(error: Error) -> Seq<char> {
    match error {
        Error::AlreadySchnicking | Error::AlreadySubmitted => "/schnick"@,
        Error::InvalidSettings => "/settings"@,
        _ => "/"@,
    }
}

/// The sentence a user is shown for each failure.
pub open spec fn message_of(error: Error) -> Seq<char> {
    match error {
        Error::NoLogin =>
            "This page is only accessible with a user account. You have to be invited to obtain a user account."@,
        Error::InvalidLogin =>
            "The login token you saved is invalid. Try restoring your cookies or clear them and get invited again."@,
        Error::InvalidInvite =>
            "The invite you tried to use is invalid. Ask the person who invited you to show you their invite again."@,
        Error::InternalServerError =>
            "An internal error occured while loading this page. Try again later."@,
        Error::CannotSchnickOneself =>
            "You cannot start a schnick with yourself. Try inviting another person."@,
        Error::CannotSchnickTwice =>
            "You cannot schnick with the same person twice. Try schnicking with another person."@,
        Error::AlreadySchnicking =>
            "You are already currently schnicking. Finish or abort your current schnick before starting another one."@,
        Error::NotFound => "The page you tried to open does not exist."@,
        Error::NotInSchnick =>
            "You are not currently in a schnick. This page is only accessible while schnicking."@,
        Error::AlreadySubmitted =>
            "You have already submitted a result for this schnick. Wait for the other person to submit their result."@,
        Error::InvalidSettings => "The settings you tried to submit are not valid. Try again."@,
    }
}

impl Error {
    /// Whether a caller may repeat the request unchanged and hope for
    /// another answer.
    pub open spec fn retryable(self) -> bool {
        self == Error::InternalServerError
    }

    /// The HTTP status this failure is reported with.
    pub fn status(&self) -> (code: u16)
        ensures
            code == status_of(*self),
            400 <= code < 600,
    {
        match self {
            Error::NoLogin | Error::InvalidLogin | Error::InvalidInvite => 403,
            Error::InternalServerError => 500,
            Error::CannotSchnickOneself
            | Error::CannotSchnickTwice
            | Error::AlreadySchnicking
            | Error::AlreadySubmitted => 409,
            Error::NotFound | Error::NotInSchnick => 404,
            Error::InvalidSettings => 400,
        }
    }

    /// The sentence shown to the user.
    pub fn message(&self) -> (text: &'static str)
        ensures
            text@ == message_of(*self),
    {
        match self {
            Error::NoLogin =>
                "This page is only accessible with a user account. You have to be invited to obtain a user account.",
            Error::InvalidLogin =>
                "The login token you saved is invalid. Try restoring your cookies or clear them and get invited again.",
            Error::InvalidInvite =>
                "The invite you tried to use is invalid. Ask the person who invited you to show you their invite again.",
            Error::InternalServerError =>
                "An internal error occured while loading this page. Try again later.",
            Error::CannotSchnickOneself =>
                "You cannot start a schnick with yourself. Try inviting another person.",
            Error::CannotSchnickTwice =>
                "You cannot schnick with the same person twice. Try schnicking with another person.",
            Error::AlreadySchnicking =>
                "You are already currently schnicking. Finish or abort your current schnick before starting another one.",
            Error::NotFound => "The page you tried to open does not exist.",
            Error::NotInSchnick =>
                "You are not currently in a schnick. This page is only accessible while schnicking.",
            Error::AlreadySubmitted =>
                "You have already submitted a result for this schnick. Wait for the other person to submit their result.",
            Error::InvalidSettings => "The settings you tried to submit are not valid. Try again.",
        }
    }

    /// The page the user is sent on to.
    pub fn redirect(&self) -> (path: &'static str)
        ensures
            path@ == redirect_of(*self),
    {
        match self {
            Error::AlreadySchnicking | Error::AlreadySubmitted => "/schnick",
            Error::InvalidSettings => "/settings",
            _ => "/",
        }
    }

    /// Whether a caller may repeat the request unchanged.
    pub fn is_retryable(&self) -> (yes: bool)
        ensures
            yes == self.retryable(),
    {
        matches!(self, Error::InternalServerError)
    }
}

} // verus!
