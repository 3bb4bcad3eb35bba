//! Coordinates of fuzzing states, and the rule that derives a successor.
//!
//! A coordinate is a pair `(client_round, server_round)`. Deriving a state
//! advances exactly one of the two rounds by one: the server round where the
//! round being advanced is the server's, the client round otherwise. So every
//! coordinate reached from the origin `(0, 0)` counts the client and the
//! server rounds that led to it, and no round is ever lowered or reset.

use vstd::prelude::*;

verus! {

/// The rounds of a coordinate as natural numbers.
pub open spec fn rounds(state: (u32, u32)) -> (nat, nat) {
    (state.0 as nat, state.1 as nat)
}

/// The coordinate that follows `state` when the round being advanced is the
/// server's (`cur_is_server`) or the client's.
pub open spec fn successor(state: (nat, nat), cur_is_server: bool) -> (nat, nat) {
    if cur_is_server {
        (state.0, state.1 + 1)
    } else {
        (state.0 + 1, state.1)
    }
}

/// Whether the round that `cur_is_server` selects can still grow.
pub open spec fn advances(state: (u32, u32), cur_is_server: bool) -> bool {
    if cur_is_server {
        state.1 < u32::MAX
    } else {
        state.0 < u32::MAX
    }
}

/// The coordinate reached from `start` by advancing once per entry of
/// `roles`, in order.
pub open spec fn descendant(start: (nat, nat), roles: Seq<bool>) -> (nat, nat)
    decreases roles.len(),
{
    if roles.len() == 0 {
        start
    } else {
        successor(descendant(start, roles.drop_last()), roles.last())
    }
}

/// How many entries of `roles` are server rounds.
pub open spec fn server_rounds(roles: Seq<bool>) -> nat
    decreases roles.len(),
{
    if roles.len() == 0 {
        0
    } else if roles.last() {
        server_rounds(roles.drop_last()) + 1
    } else {
        server_rounds(roles.drop_last())
    }
}

/// Tells whether `next_state_path` may be called on these arguments: the
/// round to advance is below `u32::MAX`.
pub fn can_advance(state_path: (u32, u32), cur_is_server: bool) -> (ok: bool)
    ensures
        ok == advances(state_path, cur_is_server),
{
    if cur_is_server {
        state_path.1 < u32::MAX
    } else {
        state_path.0 < u32::MAX
    }
}

/// Derives the coordinate that follows `state_path`. When the round being
/// advanced is the server's, the server round grows by one and the client
/// round is carried over; otherwise the client round grows by one and the
/// server round is carried over.
///
/// The result depends on the two arguments alone. A round counter at
/// `u32::MAX` cannot advance; callers guard against it with `can_advance`.
pub fn next_state_path(state_path: (u32, u32), cur_is_server: bool) -> (next: (u32, u32))
    requires
        advances(state_path, cur_is_server),
    ensures
        rounds(next) == successor(rounds(state_path), cur_is_server),
        cur_is_server ==> next.0 == state_path.0 && next.1 == state_path.1 + 1,
        !cur_is_server ==> next.0 == state_path.0 + 1 && next.1 == state_path.1,
{
    if cur_is_server {
        (state_path.0, state_path.1 + 1)
    } else {
        (state_path.0 + 1, state_path.1)
    }
}

/// `next_state_path` is deterministic: whatever two calls on the same
/// arguments return is one and the same coordinate.
pub proof fn lemma_next_state_path_is_deterministic(
    state_path: (u32, u32),
    cur_is_server: bool,
    first: (u32, u32),
    second: (u32, u32),
)
    requires
        call_ensures(next_state_path, (state_path, cur_is_server), first),
        call_ensures(next_state_path, (state_path, cur_is_server), second),
    ensures
        first == second,
{
}

/// A transition changes exactly one round, by exactly one, and never lowers
/// either.
pub proof fn lemma_successor_changes_one_round(state: (nat, nat), cur_is_server: bool)
    ensures
        ({
            let next = successor(state, cur_is_server);
            &&& next.0 >= state.0
            &&& next.1 >= state.1
            &&& next.0 + next.1 == state.0 + state.1 + 1
            &&& (next.0 == state.0) != (next.1 == state.1)
            &&& (next.1 != state.1) == cur_is_server
        }),
{
}

/// Transitions do not collide: the two successors of a state differ from
/// each other and from the state, and under one role different states have
/// different successors.
pub proof fn lemma_successors_do_not_collide(a: (nat, nat), b: (nat, nat), cur_is_server: bool)
    ensures
        successor(a, true) != successor(a, false),
        successor(a, cur_is_server) != a,
        successor(a, cur_is_server) == successor(b, cur_is_server) ==> a == b,
{
}

/// Along any chain of transitions the rounds only grow: the server round by
/// the number of server rounds advanced, the client round by the number of
/// the others.
pub proof fn lemma_descendant_counts_rounds(start: (nat, nat), roles: Seq<bool>)
    ensures
        server_rounds(roles) <= roles.len(),
        descendant(start, roles).0 == start.0 + roles.len() - server_rounds(roles),
        descendant(start, roles).1 == start.1 + server_rounds(roles),
    decreases roles.len(),
{
    if roles.len() > 0 {
        lemma_descendant_counts_rounds(start, roles.drop_last());
    }
}

} // verus!
