//! The players of a roster, by whether they are still on it.
use vstd::prelude::*;

use crate::models::{User, UserTeam};

verus! {

/// A user together with their membership on a roster.
#[derive(Debug, Clone)]
pub struct RosterPlayer {
    pub user: User,
    pub assoc: UserTeam,
}

pub open spec fn is_current(p: RosterPlayer) -> bool {
    p.assoc.ended_at is None
}

pub open spec fn is_past(p: RosterPlayer) -> bool {
    p.assoc.ended_at is Some
}

/// Splits the players into those still on the roster and those who left, each
/// in the given order.
pub fn split_players(players: Vec<RosterPlayer>) -> (r: (Vec<RosterPlayer>, Vec<RosterPlayer>))
    ensures
        r.0@ == players@.filter(|p: RosterPlayer| is_current(p)),
        r.1@ == players@.filter(|p: RosterPlayer| is_past(p)),
{
    let ghost all = players@;
    let mut current: Vec<RosterPlayer> = Vec::new();
    let mut past: Vec<RosterPlayer> = Vec::new();
    let mut rest = players;
    let ghost taken: Seq<RosterPlayer> = Seq::empty();
    while rest.len() > 0
        invariant
            rest@.len() + taken.len() == all.len(),
            taken + rest@ =~= all,
            current@ == taken.filter(|p: RosterPlayer| is_current(p)),
            past@ == taken.filter(|p: RosterPlayer| is_past(p)),
        decreases rest@.len(),
    {
        let ghost before = rest@;
        let p = rest.remove(0);
        proof {
            let t2 = taken.push(p);
            reveal(Seq::filter);
            assert(t2.drop_last() =~= taken);
            assert(t2 + rest@ =~= taken + before);
            taken = t2;
        }
        if p.assoc.ended_at.is_none() {
            current.push(p);
        } else {
            past.push(p);
        }
    }
    assert(taken =~= all);
    (current, past)
}

} // verus!
