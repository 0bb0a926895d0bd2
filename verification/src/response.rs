//! The shape of the one HTTP answer this service gives: the endpoint is
//! designed never to fail, so every response reports success and carries
//! whatever snapshot is available — possibly a partial or empty one.

use vstd::prelude::*;
use crate::player::Player;

verus! {

/// The body served for a leaderboard request.
pub struct LeaderboardResponse {
    pub success: bool,
    pub data: Vec<Player>,
}

/// Wraps a snapshot for serving. `success` is always true — partial data is
/// preferred over an error answer — and the snapshot is passed on unchanged.
pub fn make_response(data: Vec<Player>) -> (r: LeaderboardResponse)
    ensures
        r.success == true,
        r.data@ == data@,
{
    LeaderboardResponse { success: true, data }
}

} // verus!
