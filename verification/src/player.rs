//! The leaderboard data model: one ranked player and their rating profile.

use vstd::prelude::*;

verus! {

/// The rating block attached to each player record.
pub struct Profile {
    pub rating: u32,
}

/// One player record of the leaderboard. Records are immutable once fetched;
/// a player's identity is their `uuid`.
pub struct Player {
    pub discord_id: String,
    pub username: String,
    pub uuid: String,
    pub profile: Profile,
    pub position: u32,
}

impl Clone for Profile {
    fn clone(&self) -> (r: Self)
        ensures
            r == *self,
    {
        Profile { rating: self.rating }
    }
}

impl Clone for Player {
    fn clone(&self) -> (r: Self)
        ensures
            r == *self,
    {
        Player {
            discord_id: self.discord_id.clone(),
            username: self.username.clone(),
            uuid: self.uuid.clone(),
            profile: self.profile.clone(),
            position: self.position,
        }
    }
}

/// Copies a snapshot element by element, so that the copy holds exactly the
/// same records in the same order.
pub fn copy_players(v: &Vec<Player>) -> (r: Vec<Player>)
    ensures
        r@ == v@,
{
    let mut r: Vec<Player> = Vec::new();
    let mut i: usize = 0;
    while i < v.len()
        invariant
            i <= v.len(),
            r@ == v@.take(i as int),
        decreases v.len() - i,
    {
        r.push(v[i].clone());
        proof {
            assert(v@.take(i as int).push(v@[i as int]) =~= v@.take(i as int + 1));
        }
        i += 1;
    }
    proof {
        assert(v@.take(v@.len() as int) =~= v@);
    }
    r
}

} // verus!
