//! The picture of who invited whom and who played whom, as it is shown to
//! onlookers.
//!
//! The picture lags behind: what happens is noted as it happens, and worked
//! into the picture once the picture has grown old enough.

use std::collections::HashMap;
use vstd::prelude::*;

verus! {

/// How many seconds a picture is shown before it is drawn anew.
pub const GRAPHS_UPDATE_INTERVAL: i64 = 10i64;

/// Something that happened and changes the picture.
#[derive(Debug)]
pub enum GraphUpdate {
    /// `a` and `b` have played each other.
    Schnick { a: i32, b: i32 },
    /// `parent` has invited `id`, who goes by `name`.
    UserCreated { id: i32, parent: i32, name: String },
    /// `id` goes by `name` from now on.
    UserRenamed { id: i32, name: String },
}

/// The picture as a mathematical value: every user with who invited them and
/// their name, and every match that was played, oldest first.
#[verifier::ext_equal]
pub struct Graph {
    pub users: Map<i32, (i32, String)>,
    pub schnicks: Seq<(i32, i32)>,
}

impl Graph {
    /// The picture with `update` worked in. Renaming a user that is not in
    /// the picture changes nothing.
    pub open spec fn apply(self, update: GraphUpdate) -> Graph {
        match update {
            GraphUpdate::Schnick { a, b } => Graph {
                users: self.users,
                schnicks: self.schnicks.push((a, b)),
            },
            GraphUpdate::UserCreated { id, parent, name } => Graph {
                users: self.users.insert(id, (parent, name)),
                schnicks: self.schnicks,
            },
            GraphUpdate::UserRenamed { id, name } => if self.users.contains_key(id) {
                Graph { users: self.users.insert(id, (self.users[id].0, name)), schnicks: self.schnicks }
            } else {
                self
            },
        }
    }

    /// The picture with `updates` worked in, one after the other.
    pub open spec fn apply_all(self, updates: Seq<GraphUpdate>) -> Graph
        decreases updates.len(),
    {
        if updates.len() == 0 {
            self
        } else {
            self.apply_all(updates.drop_last()).apply(updates.last())
        }
    }
}

/// The users that the rows of persistence stand for: identity, inviting
/// user, name. Of two rows for one identity the later counts.
pub open spec fn users_of(rows: Seq<(i32, i32, String)>) -> Map<i32, (i32, String)>
    decreases rows.len(),
{
    if rows.len() == 0 {
        Map::empty()
    } else {
        users_of(rows.drop_last()).insert(rows.last().0, (rows.last().1, rows.last().2))
    }
}

/// Whether a picture drawn at `drawn` is due to be drawn anew at `now`.
pub open spec fn due(drawn: i64, now: i64) -> bool {
    now - drawn >= GRAPHS_UPDATE_INTERVAL
}

/// The picture, what has happened since it was drawn, and when that was.
pub struct Graphs {
    users: HashMap<i32, (i32, String)>,
    schnicks: Vec<(i32, i32)>,
    updates: Vec<GraphUpdate>,
    cache_time: i64,
}

impl Graphs {
    /// The picture as it was last drawn.
    pub closed spec fn graph(&self) -> Graph {
        Graph { users: self.users@, schnicks: self.schnicks@ }
    }

    /// What has happened since, oldest first.
    pub closed spec fn pending(&self) -> Seq<GraphUpdate> {
        self.updates@
    }

    /// When the picture was last drawn, in seconds.
    pub closed spec fn drawn(&self) -> i64 {
        self.cache_time
    }

    /// The picture of what persistence holds right now: its users, as rows
    /// of identity, inviting user and name, and the matches that were played.
    pub fn with_records(users: Vec<(i32, i32, String)>, schnicks: Vec<(i32, i32)>) -> (graphs: Graphs)
        ensures
            graphs.graph() == (Graph { users: users_of(users@), schnicks: schnicks@ }),
            graphs.pending() == Seq::<GraphUpdate>::empty(),
    {
        Graphs::with_records_at(users, schnicks, now())
    }

    /// The picture of what persistence holds at `now`: its users, as rows of
    /// identity, inviting user and name, and the matches that were played.
    pub fn with_records_at(
        users: Vec<(i32, i32, String)>,
        schnicks: Vec<(i32, i32)>,
        now: i64,
    ) -> (graphs: Graphs)
        ensures
            graphs.graph() == (Graph { users: users_of(users@), schnicks: schnicks@ }),
            graphs.pending() == Seq::<GraphUpdate>::empty(),
            graphs.drawn() == now,
    {
        broadcast use vstd::std_specs::hash::group_hash_axioms;

        let mut known: HashMap<i32, (i32, String)> = HashMap::new();
        let mut i: usize = 0;
        while i < users.len()
            invariant
                i <= users.len(),
                known@ == users_of(users@.take(i as int)),
            decreases users.len() - i,
        {
            let row = &users[i];
            known.insert(row.0, (row.1, row.2.clone()));
            proof {
                let longer = users@.take(i + 1);
                assert(longer.drop_last() =~= users@.take(i as int));
            }
            i += 1;
        }
        assert(users@.take(i as int) =~= users@);
        Graphs { users: known, schnicks, updates: Vec::new(), cache_time: now }
    }

    /// Every user in the picture, with who invited them and their name.
    pub fn users(&self) -> (users: &HashMap<i32, (i32, String)>)
        ensures
            users@ == self.graph().users,
    {
        &self.users
    }

    /// Every match in the picture, oldest first.
    pub fn schnicks(&self) -> (schnicks: &Vec<(i32, i32)>)
        ensures
            schnicks@ == self.graph().schnicks,
    {
        &self.schnicks
    }

    /// What has happened since the picture was drawn, oldest first.
    pub fn updates(&self) -> (updates: &Vec<GraphUpdate>)
        ensures
            updates@ == self.pending(),
    {
        &self.updates
    }

    /// Works `update` into the picture at once.
    pub fn handle_update(&mut self, update: GraphUpdate)
        ensures
            final(self).graph() == old(self).graph().apply(update),
            final(self).pending() == old(self).pending(),
            final(self).drawn() == old(self).drawn(),
    {
        broadcast use vstd::std_specs::hash::group_hash_axioms;

        match update {
            GraphUpdate::UserCreated { id, parent, name } => {
                self.users.insert(id, (parent, name));
            },
            GraphUpdate::Schnick { a, b } => {
                self.schnicks.push((a, b));
            },
            GraphUpdate::UserRenamed { id, name } => {
                if let Some(known) = self.users.remove(&id) {
                    self.users.insert(id, (known.0, name));
                }
            },
        }
        assert(self.graph() =~= old(self).graph().apply(update));
    }

    /// Notes that `update` has happened. The picture stays as it is.
    pub fn record(&mut self, update: GraphUpdate)
        ensures
            final(self).pending() == old(self).pending().push(update),
            final(self).graph() == old(self).graph(),
            final(self).drawn() == old(self).drawn(),
    {
        self.updates.push(update);
    }

    /// Draws the picture anew if it is due right now: see
    /// [`Graphs::refresh_at`].
    pub fn refresh(&mut self) -> (redrawn: bool)
        ensures
            !redrawn ==> final(self).graph() == old(self).graph(),
            !redrawn ==> final(self).pending() == old(self).pending(),
            !redrawn ==> final(self).drawn() == old(self).drawn(),
            redrawn ==> final(self).graph() == old(self).graph().apply_all(old(self).pending()),
            redrawn ==> final(self).pending() == Seq::<GraphUpdate>::empty(),
            redrawn ==> due(old(self).drawn(), final(self).drawn()),
    {
        self.refresh_at(now())
    }

    /// Draws the picture anew if it is due at `now`, which is when it is at
    /// least [`GRAPHS_UPDATE_INTERVAL`] seconds old: everything noted since
    /// is worked in, in the order in which it happened.
    pub fn refresh_at(&mut self, now: i64) -> (redrawn: bool)
        ensures
            redrawn == due(old(self).drawn(), now),
            redrawn ==> final(self).graph() == old(self).graph().apply_all(old(self).pending()),
            redrawn ==> final(self).pending() == Seq::<GraphUpdate>::empty(),
            redrawn ==> final(self).drawn() == now,
            !redrawn ==> final(self).graph() == old(self).graph(),
            !redrawn ==> final(self).pending() == old(self).pending(),
            !redrawn ==> final(self).drawn() == old(self).drawn(),
    {
        if (now as i128) - (self.cache_time as i128) < (GRAPHS_UPDATE_INTERVAL as i128) {
            return false;
        }
        let mut noted: Vec<GraphUpdate> = Vec::new();
        std::mem::swap(&mut noted, &mut self.updates);
        let mut i: usize = 0;
        while i < noted.len()
            invariant
                i <= noted.len(),
                noted@ == old(self).pending(),
                self.graph() == old(self).graph().apply_all(noted@.take(i as int)),
                self.updates@ == Seq::<GraphUpdate>::empty(),
            decreases noted.len() - i,
        {
            let update = match &noted[i] {
                GraphUpdate::Schnick { a, b } => GraphUpdate::Schnick { a: *a, b: *b },
                GraphUpdate::UserCreated { id, parent, name } => GraphUpdate::UserCreated {
                    id: *id,
                    parent: *parent,
                    name: name.clone(),
                },
                GraphUpdate::UserRenamed { id, name } => GraphUpdate::UserRenamed {
                    id: *id,
                    name: name.clone(),
                },
            };
            self.handle_update(update);
            proof {
                let longer = noted@.take(i + 1);
                assert(longer.drop_last() =~= noted@.take(i as int));
            }
            i += 1;
        }
        assert(noted@.take(i as int) =~= noted@);
        self.cache_time = now;
        true
    }
}

/// Calls `chrono::Local::now` and takes the result's `timestamp`: the
/// seconds since the start of 1970, by the machine's clock.
///
/// Trusted, and nothing is claimed of the result: a clock may say anything.
#[verifier::external_body]
fn now() -> i64 {
    chrono::Local::now().timestamp()
}

} // verus!
