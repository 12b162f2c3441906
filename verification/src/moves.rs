//! The moves and the settlement engine: a pure, total function from a
//! pair of moves to an outcome.

use vstd::prelude::*;

verus! {

/// The three moves a player may throw. `Rippy` plays the role of scissors.
#[derive(Clone, Copy, PartialEq, Eq, Structural, Debug)]
pub enum Moves {
    Rock,
    Paper,
    Rippy,
}

/// How a pair of moves settles: the first mover wins, the second mover
/// wins, or the pair is a draw.
#[derive(Clone, Copy, PartialEq, Eq, Structural, Debug)]
pub enum Outcome {
    Draw,
    Player1Wins,
    Player2Wins,
}

/// The cyclic "beats" relation: Rock beats Rippy, Rippy beats Paper, and
/// Paper beats Rock.
pub open spec fn beats(a: Moves, b: Moves) -> bool {
    ||| (a is Rock && b is Rippy)
    ||| (a is Rippy && b is Paper)
    ||| (a is Paper && b is Rock)
}

/// Settlement of a move pair: equal moves draw; otherwise the player whose
/// move beats the other's wins.
pub open spec fn spec_resolve(move1: Moves, move2: Moves) -> Outcome {
    if move1 == move2 {
        Outcome::Draw
    } else if beats(move1, move2) {
        Outcome::Player1Wins
    } else {
        Outcome::Player2Wins
    }
}

/// The identity of the winning player, if any; `None` encodes a draw.
pub open spec fn settle_winner(move1: Moves, move2: Moves, player1: u64, player2: u64) -> Option<
    u64,
> {
    match spec_resolve(move1, move2) {
        Outcome::Draw => None,
        Outcome::Player1Wins => Some(player1),
        Outcome::Player2Wins => Some(player2),
    }
}

/// The settlement engine: a total, deterministic function of the move pair
/// and of nothing else.
pub fn resolve(move1: Moves, move2: Moves) -> (outcome: Outcome)
    ensures
        outcome == spec_resolve(move1, move2),
{
    if move1 == move2 {
        Outcome::Draw
    } else {
        match (move1, move2) {
            (Moves::Rock, Moves::Rippy) => Outcome::Player1Wins,
            (Moves::Rippy, Moves::Paper) => Outcome::Player1Wins,
            (Moves::Paper, Moves::Rock) => Outcome::Player1Wins,
            _ => Outcome::Player2Wins,
        }
    }
}

/// The "beats" relation is a three-cycle: no move beats itself, and of any
/// two distinct moves exactly one beats the other.
pub proof fn lemma_beats_three_cycle()
    ensures
        beats(Moves::Rock, Moves::Rippy),
        beats(Moves::Rippy, Moves::Paper),
        beats(Moves::Paper, Moves::Rock),
        forall|m: Moves| !beats(m, m),
        forall|a: Moves, b: Moves| a != b ==> (beats(a, b) <==> !beats(b, a)),
{
}

/// Settlement is exhaustive and sound: a pair draws exactly when the moves
/// are equal, and a player wins exactly when their move beats the other's.
pub proof fn lemma_resolve_total(move1: Moves, move2: Moves)
    ensures
        (spec_resolve(move1, move2) == Outcome::Draw) <==> (move1 == move2),
        (spec_resolve(move1, move2) == Outcome::Player1Wins) <==> (move1 != move2 && beats(
            move1,
            move2,
        )),
        (spec_resolve(move1, move2) == Outcome::Player2Wins) <==> (move1 != move2 && beats(
            move2,
            move1,
        )),
{
}

} // verus!
