//! The matchmaking ready check: a read-only snapshot per poll, and the
//! test that decides whether the accept call is due for it.

use vstd::prelude::*;
use crate::strutil::str_eq;

verus! {

/// One snapshot of the ready-check resource. The timer is whole seconds
/// remaining on the prompt.
pub struct ReadyCheck {
    pub state: String,
    pub player_response: Option<String>,
    pub suppress_ux: bool,
    pub timer: u64,
}

/// The snapshot shows a running prompt that the player has not yet
/// answered.
pub open spec fn wants_accept(state: Seq<char>, player_response: Option<Seq<char>>) -> bool {
    state == "InProgress"@ && player_response is None
}

/// Decides whether this snapshot calls for an accept: the prompt is in
/// progress and carries no player response yet.
pub fn ready_check_wants_accept(rc: &ReadyCheck) -> (r: bool)
    ensures
        r == wants_accept(rc.state@, crate::credentials::opt_str_view(rc.player_response)),
{
    match &rc.player_response {
        Some(_) => false,
        None => str_eq(rc.state.as_str(), "InProgress"),
    }
}

} // verus!
