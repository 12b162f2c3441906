//! The component: the session registry and the escrow vault, with the two
//! operations callers reach — submitting a move and claiming a payout.
//!
//! Caller authentication and the clock are external collaborators: each
//! operation takes the already-read current time in whole seconds and the
//! outcome of the host's caller-identity check, and states what it does
//! for every value of both.

use crate::errors::RoshamboError;
use crate::moves::Moves;
use crate::registry::{unchanged_except, SessionRegistry};
use crate::session::{Game, RESPONSE_WINDOW_SECONDS};
use crate::vault::{deposited_one, withdrew, Stake, Vault};
use vstd::prelude::*;

verus! {

/// A stake is valid when it is of the configured asset and exactly one
/// unit.
pub open spec fn valid_stake(stake: Stake, resource: u64) -> bool {
    stake.resource == resource && stake.amount == 1
}

/// The match coordinator: every session ever opened, and the pooled
/// escrow of all wagers.
pub struct Roshambo {
    pub games: SessionRegistry,
    pub prize_winnings: Vault,
}

impl Roshambo {
    /// The registry and vault are well-formed, and so is every recorded
    /// session.
    pub open spec fn wf(self) -> bool {
        &&& self.prize_winnings.wf()
        &&& self.games.wf()
        &&& forall|code: Seq<char>|
            #[trigger] self.games.contains_key(code) ==> self.games.spec_get(code).wf()
    }

    /// Create a coordinator that plays for the given stake asset, with no
    /// sessions and an empty vault.
    pub fn instantiate_roshambo(clams: u64) -> (component: Roshambo)
        ensures
            component.wf(),
            component.prize_winnings.resource == clams,
            component.prize_winnings.balance == 0,
            component.prize_winnings.deposited@ == 0,
            component.prize_winnings.paid_out@ == 0,
            forall|code: Seq<char>| !component.games.contains_key(code),
    {
        Roshambo { games: SessionRegistry::new(), prize_winnings: Vault::new(clams) }
    }

    /// Submit a move for a room.
    ///
    /// An unauthenticated caller or an invalid stake is rejected before
    /// the deposit, leaving everything unchanged. Otherwise the stake is
    /// deposited first and the session looked up second, so a submission
    /// refused afterwards — a third move to a settled session, or a
    /// second move past the deadline — forfeits the deposited stake into
    /// the pool. That asymmetry is deliberate and kept.
    ///
    /// The first move for a fresh room code opens the session and starts
    /// the response window; a timely second move runs the settlement
    /// engine and completes the session once and for all.
    pub fn play_game(
        &mut self,
        player: u64,
        player_move: Moves,
        room_code: String,
        clam: Stake,
        now: u64,
        caller_verified: bool,
    ) -> (result: Result<(), RoshamboError>)
        requires
            old(self).wf(),
            old(self).prize_winnings.balance < u64::MAX,
            now + RESPONSE_WINDOW_SECONDS <= u64::MAX,
        ensures
            final(self).wf(),
            final(self).prize_winnings.resource == old(self).prize_winnings.resource,
            !caller_verified ==> {
                &&& result == Err::<(), RoshamboError>(RoshamboError::Unauthorized)
                &&& *final(self) == *old(self)
            },
            caller_verified && !valid_stake(clam, old(self).prize_winnings.resource) ==> {
                &&& result == Err::<(), RoshamboError>(RoshamboError::InvalidStake)
                &&& *final(self) == *old(self)
            },
            caller_verified && valid_stake(clam, old(self).prize_winnings.resource) && !old(
                self,
            ).games.contains_key(room_code@) ==> {
                &&& result == Ok::<(), RoshamboError>(())
                &&& deposited_one(old(self).prize_winnings, final(self).prize_winnings)
                &&& final(self).games.contains_key(room_code@)
                &&& final(self).games.spec_get(room_code@) == Game::spec_new(
                    player,
                    player_move,
                    now,
                )
                &&& unchanged_except(old(self).games, final(self).games, room_code@)
            },
            caller_verified && valid_stake(clam, old(self).prize_winnings.resource) && old(
                self,
            ).games.contains_key(room_code@) && old(self).games.spec_get(
                room_code@,
            ).game_complete ==> {
                &&& result == Err::<(), RoshamboError>(RoshamboError::GameAlreadyResolved)
                &&& deposited_one(old(self).prize_winnings, final(self).prize_winnings)
                &&& final(self).games == old(self).games
            },
            caller_verified && valid_stake(clam, old(self).prize_winnings.resource) && old(
                self,
            ).games.contains_key(room_code@) && !old(self).games.spec_get(
                room_code@,
            ).game_complete && now > old(self).games.spec_get(room_code@).deadline ==> {
                &&& result == Err::<(), RoshamboError>(RoshamboError::DeadlineExceeded)
                &&& deposited_one(old(self).prize_winnings, final(self).prize_winnings)
                &&& final(self).games == old(self).games
            },
            caller_verified && valid_stake(clam, old(self).prize_winnings.resource) && old(
                self,
            ).games.contains_key(room_code@) && !old(self).games.spec_get(
                room_code@,
            ).game_complete && now <= old(self).games.spec_get(room_code@).deadline ==> {
                &&& result == Ok::<(), RoshamboError>(())
                &&& deposited_one(old(self).prize_winnings, final(self).prize_winnings)
                &&& final(self).games.contains_key(room_code@)
                &&& final(self).games.spec_get(room_code@) == old(self).games.spec_get(
                    room_code@,
                ).spec_completed(player, player_move)
                &&& unchanged_except(old(self).games, final(self).games, room_code@)
            },
    {
        if !caller_verified {
            return Err(RoshamboError::Unauthorized);
        }
        if clam.resource != self.prize_winnings.resource || clam.amount != 1 {
            return Err(RoshamboError::InvalidStake);
        }
        self.prize_winnings.deposit(clam);
        let existing = self.games.get(&room_code);
        match existing {
            None => {
                let game = Game::new(player, player_move, now);
                let ghost pre_games = self.games;
                self.games.put(room_code, game);
                proof {
                    self.lemma_wf_after_put(pre_games, room_code@, game);
                }
                Ok(())
            },
            Some(game) => {
                match game.process_second_move(player, player_move, now) {
                    Err(refusal) => Err(refusal),
                    Ok(updated) => {
                        let ghost pre_games = self.games;
                        self.games.put(room_code, updated);
                        proof {
                            self.lemma_wf_after_put(pre_games, room_code@, updated);
                        }
                        Ok(())
                    },
                }
            },
        }
    }

    /// Claim a payout from a room.
    ///
    /// The recorded winner of a completed session collects two units,
    /// once; after a draw — and equally for a session the deadline passed
    /// with only one mover — each participant collects their own one-unit
    /// wager back, once. A participant whose payout was already collected,
    /// and any caller who is due nothing, gets `Ok(None)`. A payout that
    /// the pooled balance cannot cover is refused and changes nothing.
    pub fn claim(&mut self, player: u64, room_code: String, caller_verified: bool) -> (result:
        Result<Option<Stake>, RoshamboError>)
        requires
            old(self).wf(),
        ensures
            final(self).wf(),
            final(self).prize_winnings.resource == old(self).prize_winnings.resource,
            !caller_verified ==> {
                &&& result == Err::<Option<Stake>, RoshamboError>(RoshamboError::Unauthorized)
                &&& *final(self) == *old(self)
            },
            caller_verified && !old(self).games.contains_key(room_code@) ==> {
                &&& result == Err::<Option<Stake>, RoshamboError>(RoshamboError::SessionNotFound)
                &&& *final(self) == *old(self)
            },
            caller_verified && old(self).games.contains_key(room_code@) && old(
                self,
            ).games.spec_get(room_code@).winner is Some && old(self).games.spec_get(
                room_code@,
            ).winner != Some(player) ==> {
                &&& result == Err::<Option<Stake>, RoshamboError>(RoshamboError::NotWinner)
                &&& *final(self) == *old(self)
            },
            caller_verified && old(self).games.contains_key(room_code@) && old(
                self,
            ).games.spec_get(room_code@).claim_grant(player) is None && (old(self).games.spec_get(
                room_code@,
            ).winner is None || old(self).games.spec_get(room_code@).winner == Some(player)) ==> {
                &&& result == Ok::<Option<Stake>, RoshamboError>(None)
                &&& *final(self) == *old(self)
            },
            caller_verified && old(self).games.contains_key(room_code@) ==> (old(
                self,
            ).games.spec_get(room_code@).claim_grant(player) matches Some(amount) ==> {
                &&& amount <= old(self).prize_winnings.balance ==> {
                    &&& result == Ok::<Option<Stake>, RoshamboError>(
                        Some((Stake { resource: old(self).prize_winnings.resource, amount })),
                    )
                    &&& withdrew(old(self).prize_winnings, final(self).prize_winnings, amount)
                    &&& final(self).games.contains_key(room_code@)
                    &&& final(self).games.spec_get(room_code@) == old(self).games.spec_get(
                        room_code@,
                    ).spec_after_claim(player)
                    &&& final(self).games.spec_get(room_code@).claim_grant(player) is None
                    &&& unchanged_except(old(self).games, final(self).games, room_code@)
                }
                &&& amount > old(self).prize_winnings.balance ==> {
                    &&& result == Err::<Option<Stake>, RoshamboError>(
                        RoshamboError::InsufficientVaultBalance,
                    )
                    &&& *final(self) == *old(self)
                }
            }),
            result matches Ok(Some(stake)) ==> {
                &&& stake.resource == old(self).prize_winnings.resource
                &&& old(self).games.contains_key(room_code@)
                &&& old(self).games.spec_get(room_code@).claim_grant(player) == Some(stake.amount)
                &&& (stake.amount == 2 ==> old(self).games.spec_get(room_code@).winner == Some(
                    player,
                ))
                &&& (stake.amount == 1 ==> old(self).games.spec_get(room_code@).winner is None)
            },
    {
        if !caller_verified {
            return Err(RoshamboError::Unauthorized);
        }
        let existing = self.games.get(&room_code);
        let game = match existing {
            None => { return Err(RoshamboError::SessionNotFound) },
            Some(game) => game,
        };
        match game.process_claim(player) {
            Err(refusal) => Err(refusal),
            Ok((grant, updated)) => match grant {
                None => Ok(None),
                Some(amount) => {
                    match self.prize_winnings.withdraw(amount) {
                        Some(payout) => {
                            let ghost pre_games = self.games;
                            self.games.put(room_code, updated);
                            proof {
                                self.lemma_wf_after_put(pre_games, room_code@, updated);
                            }
                            Ok(Some(payout))
                        },
                        None => Err(RoshamboError::InsufficientVaultBalance),
                    }
                },
            },
        }
    }

    /// After storing one well-formed session into a registry whose other
    /// sessions were all well-formed, every session is well-formed.
    proof fn lemma_wf_after_put(self, pre: SessionRegistry, code: Seq<char>, game: Game)
        requires
            self.games.wf(),
            game.wf(),
            self.games.contains_key(code),
            self.games.spec_get(code) == game,
            unchanged_except(pre, self.games, code),
            forall|c: Seq<char>| #[trigger] pre.contains_key(c) ==> pre.spec_get(c).wf(),
        ensures
            forall|c: Seq<char>|
                #[trigger] self.games.contains_key(c) ==> self.games.spec_get(c).wf(),
    {
        assert forall|c: Seq<char>| #[trigger] self.games.contains_key(c)
            implies self.games.spec_get(c).wf() by {
            if c != code {
                assert(pre.contains_key(c));
                assert(self.games.spec_get(c) == pre.spec_get(c));
            }
        }
    }
}

} // verus!
