//! Coordination of single-round rock-paper-scissors matches ("schnicks")
//! between pairs of users, and of the credentials that let users log in and
//! invite each other.
//!
//! Two state machines make up the core of the crate.
//! [`schnicks::Schnicker`] tracks every live match and resolves the players'
//! reports about the round; [`auth::Authenticator`] holds each known user's
//! login and invite credential. Both are meant to be owned by a single
//! worker that feeds them one request at a time. Neither touches a database
//! or a socket: what persistence answered is handed in as a plain value, and
//! what has to be persisted or published is handed back.
//!
//! What each of them does is laid down over mathematical values, in
//! [`matches`] and [`credentials`], together with proofs of what follows:
//! that nobody is ever in two matches at once, that a match lasts until it is
//! concluded or aborted, that no two users ever have more than one result
//! against each other, and that a renewed invite makes the old one useless.
//!
//! Around the core stand the things it works with: [`interaction`] for the
//! players' reports, [`token`] for credentials, [`username`] for the names of
//! new users, [`error`] for failures, [`graphs`] for the picture of who
//! invited and played whom, [`users`] for a user's figures and settings,
//! [`session`] for what a user's open pages are told, and [`channel`] for the
//! channels on which waiting clients are woken.

pub mod auth;
pub mod channel;
pub mod credentials;
pub mod error;
pub mod graphs;
pub mod interaction;
pub mod matches;
pub mod schnicks;
pub mod session;
pub mod token;
pub mod username;
pub mod users;
