//! One game session: the per-room record tracking both players, their
//! moves, the resolution state, the response deadline, and which payouts
//! have already been collected.
//!
//! A single collected flag cannot guard every payout path: besides the
//! winner's prize, a drawn session owes a refund to each participant
//! separately. So the record keeps `prize_collected` for the prize, set
//! when the winner collects it, and one refund flag per participant,
//! each set when that participant takes their one-unit wager back.

use crate::errors::RoshamboError;
use crate::moves::{settle_winner, Moves, Outcome, resolve};
use vstd::prelude::*;

verus! {

/// Seconds granted to the second player, counted from the first move.
pub const RESPONSE_WINDOW_SECONDS: u64 = 8;

/// A game session. `winner == None` means either "draw" or "not yet
/// resolved"; the two are told apart by `game_complete`. Identities and
/// timestamps are plain values: an account as a number, time as whole
/// seconds.
#[derive(Clone, Copy, Debug)]
pub struct Game {
    pub player1: u64,
    pub move1: Moves,
    pub player2: Option<u64>,
    pub move2: Option<Moves>,
    pub winner: Option<u64>,
    pub game_complete: bool,
    pub deadline: u64,
    pub prize_collected: bool,
    pub refund1_collected: bool,
    pub refund2_collected: bool,
}

impl Game {
    /// Internal consistency: the second player, their move, and
    /// completion appear together; a winner exists only in a completed
    /// session and is exactly what the settlement engine yields on the
    /// recorded move pair; collection flags never precede what they
    /// record.
    pub open spec fn wf(self) -> bool {
        &&& (self.player2 is Some <==> self.game_complete)
        &&& (self.move2 is Some <==> self.game_complete)
        &&& (self.winner is Some ==> self.game_complete)
        &&& (self.game_complete ==> self.winner == settle_winner(
            self.move1,
            self.move2->0,
            self.player1,
            self.player2->0,
        ))
        &&& (self.prize_collected ==> self.winner is Some)
        &&& (self.refund2_collected ==> self.player2 is Some)
    }

    /// The fresh session opened by the first move at time `now`.
    pub open spec fn spec_new(player1: u64, move1: Moves, now: u64) -> Game {
        Game {
            player1,
            move1,
            player2: None,
            move2: None,
            winner: None,
            game_complete: false,
            deadline: (now + RESPONSE_WINDOW_SECONDS) as u64,
            prize_collected: false,
            refund1_collected: false,
            refund2_collected: false,
        }
    }

    /// Open a session: record the first mover and their move, and start
    /// the response window.
    pub fn new(player1: u64, move1: Moves, now: u64) -> (game: Game)
        requires
            now + RESPONSE_WINDOW_SECONDS <= u64::MAX,
        ensures
            game == Game::spec_new(player1, move1, now),
            game.wf(),
    {
        Game {
            player1,
            move1,
            player2: None,
            move2: None,
            winner: None,
            game_complete: false,
            deadline: now + RESPONSE_WINDOW_SECONDS,
            prize_collected: false,
            refund1_collected: false,
            refund2_collected: false,
        }
    }

    /// The session after the second move settles the game.
    pub open spec fn spec_completed(self, player2: u64, move2: Moves) -> Game {
        Game {
            player2: Some(player2),
            move2: Some(move2),
            winner: settle_winner(self.move1, move2, self.player1, player2),
            game_complete: true,
            ..self
        }
    }

    /// Record the second move and run the settlement engine: the session
    /// becomes complete, with the winner — or a draw — fixed forever.
    pub fn complete_with(self, player2: u64, move2: Moves) -> (game: Game)
        requires
            self.wf(),
            !self.game_complete,
        ensures
            game == self.spec_completed(player2, move2),
            game.wf(),
    {
        let winner = match resolve(self.move1, move2) {
            Outcome::Draw => None,
            Outcome::Player1Wins => Some(self.player1),
            Outcome::Player2Wins => Some(player2),
        };
        Game { player2: Some(player2), move2: Some(move2), winner, game_complete: true, ..self }
    }

    /// The payout, in stake units, that `claimant` is currently due from
    /// this session, if any: two units for an uncollected win, one unit
    /// for a participant's uncollected refund when no winner is recorded
    /// (a draw, or a session the deadline passed with one mover).
    pub open spec fn claim_grant(self, claimant: u64) -> Option<u64> {
        if self.winner is Some {
            if self.winner == Some(claimant) && self.game_complete && !self.prize_collected {
                Some(2u64)
            } else {
                None
            }
        } else {
            if claimant == self.player1 && !self.refund1_collected {
                Some(1u64)
            } else if claimant != self.player1 && self.player2 == Some(claimant)
                && !self.refund2_collected {
                Some(1u64)
            } else {
                None
            }
        }
    }

    /// The session after `claimant` collects the payout they are due:
    /// only the matching collection flag is set.
    pub open spec fn spec_after_claim(self, claimant: u64) -> Game {
        if self.winner == Some(claimant) {
            Game { prize_collected: true, ..self }
        } else if self.winner is None && claimant == self.player1 {
            Game { refund1_collected: true, ..self }
        } else if self.winner is None && claimant != self.player1 && self.player2 == Some(
            claimant,
        ) {
            Game { refund2_collected: true, ..self }
        } else {
            self
        }
    }

    /// The second-move transition on one session: a further move to a
    /// settled session is refused, a move past the deadline is refused,
    /// and a timely move settles the game.
    pub fn process_second_move(self, player2: u64, move2: Moves, now: u64) -> (outcome: Result<
        Game,
        RoshamboError,
    >)
        requires
            self.wf(),
        ensures
            self.game_complete ==> outcome == Err::<Game, RoshamboError>(
                RoshamboError::GameAlreadyResolved,
            ),
            !self.game_complete && now > self.deadline ==> outcome == Err::<
                Game,
                RoshamboError,
            >(RoshamboError::DeadlineExceeded),
            !self.game_complete && now <= self.deadline ==> outcome == Ok::<
                Game,
                RoshamboError,
            >(self.spec_completed(player2, move2)),
            outcome matches Ok(game) ==> game.wf(),
    {
        if self.game_complete {
            Err(RoshamboError::GameAlreadyResolved)
        } else if now > self.deadline {
            Err(RoshamboError::DeadlineExceeded)
        } else {
            Ok(self.complete_with(player2, move2))
        }
    }

    /// The claim processor on one session: decide what `claimant` is due
    /// and what the session looks like once they collect it. The caller
    /// performs the actual withdrawal and stores the returned record only
    /// if the withdrawal succeeds.
    pub fn process_claim(self, claimant: u64) -> (outcome: Result<
        (Option<u64>, Game),
        RoshamboError,
    >)
        ensures
            self.winner is Some && !self.game_complete ==> outcome == Err::<
                (Option<u64>, Game),
                RoshamboError,
            >(RoshamboError::GameInProgress),
            self.winner is Some && self.game_complete && self.winner != Some(claimant)
                ==> outcome == Err::<(Option<u64>, Game), RoshamboError>(
                RoshamboError::NotWinner,
            ),
            self.winner is None || (self.game_complete && self.winner == Some(claimant))
                ==> outcome == Ok::<(Option<u64>, Game), RoshamboError>(
                (self.claim_grant(claimant), self.spec_after_claim(claimant)),
            ),
    {
        match self.winner {
            Some(winner) => {
                if !self.game_complete {
                    Err(RoshamboError::GameInProgress)
                } else if winner == claimant {
                    if self.prize_collected {
                        Ok((None, self))
                    } else {
                        let mut updated = self;
                        updated.prize_collected = true;
                        Ok((Some(2), updated))
                    }
                } else {
                    Err(RoshamboError::NotWinner)
                }
            },
            None => {
                if claimant == self.player1 {
                    if self.refund1_collected {
                        Ok((None, self))
                    } else {
                        let mut updated = self;
                        updated.refund1_collected = true;
                        Ok((Some(1), updated))
                    }
                } else {
                    match self.player2 {
                        Some(player2) => {
                            if player2 == claimant {
                                if self.refund2_collected {
                                    Ok((None, self))
                                } else {
                                    let mut updated = self;
                                    updated.refund2_collected = true;
                                    Ok((Some(1), updated))
                                }
                            } else {
                                Ok((None, self))
                            }
                        },
                        None => Ok((None, self)),
                    }
                }
            },
        }
    }

    /// A two-unit payout is winner-exclusive and single: it is due only
    /// to the recorded winner of a completed session, and once collected
    /// it is never due again.
    pub proof fn lemma_winner_exclusive_payout(self, claimant: u64)
        requires
            self.claim_grant(claimant) == Some(2u64),
        ensures
            self.winner == Some(claimant),
            self.game_complete,
            self.spec_after_claim(claimant).claim_grant(claimant) is None,
    {
    }

    /// A one-unit refund goes only to a participant of an unresolved or
    /// drawn session, and each participant collects it at most once.
    pub proof fn lemma_refund_once(self, claimant: u64)
        requires
            self.claim_grant(claimant) == Some(1u64),
        ensures
            self.winner is None,
            claimant == self.player1 || self.player2 == Some(claimant),
            self.spec_after_claim(claimant).claim_grant(claimant) is None,
    {
    }

    /// Distinct claimants are independent: one identity collecting its
    /// payout leaves exactly what any other identity is due unchanged.
    pub proof fn lemma_claims_independent(self, p: u64, q: u64)
        requires
            p != q,
        ensures
            self.spec_after_claim(p).claim_grant(q) == self.claim_grant(q),
    {
    }

    /// Collecting a payout never changes the game itself: players, moves,
    /// winner, completion and deadline are untouched, and a well-formed
    /// session stays well-formed.
    pub proof fn lemma_claim_preserves_game(self, claimant: u64)
        ensures
            self.spec_after_claim(claimant).player1 == self.player1,
            self.spec_after_claim(claimant).move1 == self.move1,
            self.spec_after_claim(claimant).player2 == self.player2,
            self.spec_after_claim(claimant).move2 == self.move2,
            self.spec_after_claim(claimant).winner == self.winner,
            self.spec_after_claim(claimant).game_complete == self.game_complete,
            self.spec_after_claim(claimant).deadline == self.deadline,
            self.wf() ==> self.spec_after_claim(claimant).wf(),
    {
    }
}

/// A deadline once missed stays missed: the clock is monotonic, so if one
/// submission arrives after the deadline, every later submission does
/// too, and a session the deadline passed with only one mover never
/// reaches completion.
pub proof fn lemma_deadline_final(deadline: u64, earlier: u64, later: u64)
    requires
        earlier > deadline,
        later >= earlier,
    ensures
        later > deadline,
{
}

} // verus!
