//! Whole-game flows through the component: submissions, settlement,
//! claims, errors, and stake conservation.

use roshambo::{Moves, Roshambo, RoshamboError, Stake};

const CLAMS: u64 = 7;

fn one_clam() -> Stake {
    Stake { resource: CLAMS, amount: 1 }
}

#[test]
fn winner_takes_two_units() {
    let mut table = Roshambo::instantiate_roshambo(CLAMS);
    let x: u64 = 1;
    let y: u64 = 2;
    assert_eq!(table.play_game(x, Moves::Rock, String::from("A"), one_clam(), 100, true), Ok(()));
    let opened = table.games.get(&String::from("A")).unwrap();
    assert!(!opened.game_complete);
    assert_eq!(opened.deadline, 108);
    assert_eq!(table.play_game(y, Moves::Rippy, String::from("A"), one_clam(), 104, true), Ok(()));
    let settled = table.games.get(&String::from("A")).unwrap();
    assert!(settled.game_complete);
    assert_eq!(settled.winner, Some(x));
    assert_eq!(
        table.claim(x, String::from("A"), true),
        Ok(Some(Stake { resource: CLAMS, amount: 2 }))
    );
    assert_eq!(table.claim(y, String::from("A"), true), Err(RoshamboError::NotWinner));
    assert_eq!(table.prize_winnings.balance, 0);
}

#[test]
fn draw_refunds_each_participant_once() {
    let mut table = Roshambo::instantiate_roshambo(CLAMS);
    let x: u64 = 10;
    let y: u64 = 20;
    let stranger: u64 = 30;
    assert_eq!(table.play_game(x, Moves::Paper, String::from("B"), one_clam(), 50, true), Ok(()));
    assert_eq!(table.play_game(y, Moves::Paper, String::from("B"), one_clam(), 55, true), Ok(()));
    let settled = table.games.get(&String::from("B")).unwrap();
    assert!(settled.game_complete);
    assert_eq!(settled.winner, None);
    assert_eq!(
        table.claim(x, String::from("B"), true),
        Ok(Some(Stake { resource: CLAMS, amount: 1 }))
    );
    assert_eq!(
        table.claim(y, String::from("B"), true),
        Ok(Some(Stake { resource: CLAMS, amount: 1 }))
    );
    assert_eq!(table.claim(stranger, String::from("B"), true), Ok(None));
    // a second refund attempt by either participant yields nothing
    assert_eq!(table.claim(x, String::from("B"), true), Ok(None));
    assert_eq!(table.claim(y, String::from("B"), true), Ok(None));
    assert_eq!(table.prize_winnings.balance, 0);
}

#[test]
fn late_second_move_forfeits_the_stake() {
    let mut table = Roshambo::instantiate_roshambo(CLAMS);
    let x: u64 = 1;
    let y: u64 = 2;
    assert_eq!(table.play_game(x, Moves::Rock, String::from("C"), one_clam(), 100, true), Ok(()));
    // the 8-second window ends at 108; 109 is too late
    assert_eq!(
        table.play_game(y, Moves::Paper, String::from("C"), one_clam(), 109, true),
        Err(RoshamboError::DeadlineExceeded)
    );
    let session = table.games.get(&String::from("C")).unwrap();
    assert!(!session.game_complete);
    assert_eq!(session.player2, None);
    // the late stake was already deposited and stays in the pool
    assert_eq!(table.prize_winnings.balance, 2);
    // the first mover recovers exactly their own wager
    assert_eq!(
        table.claim(x, String::from("C"), true),
        Ok(Some(Stake { resource: CLAMS, amount: 1 }))
    );
    // the late mover has no refund path
    assert_eq!(table.claim(y, String::from("C"), true), Ok(None));
    assert_eq!(table.prize_winnings.balance, 1);
}

#[test]
fn third_move_to_resolved_session_errors() {
    let mut table = Roshambo::instantiate_roshambo(CLAMS);
    assert_eq!(table.play_game(1, Moves::Rock, String::from("D"), one_clam(), 100, true), Ok(()));
    assert_eq!(table.play_game(2, Moves::Rippy, String::from("D"), one_clam(), 101, true), Ok(()));
    assert_eq!(
        table.play_game(3, Moves::Paper, String::from("D"), one_clam(), 102, true),
        Err(RoshamboError::GameAlreadyResolved)
    );
    // the session is untouched by the refused submission
    let session = table.games.get(&String::from("D")).unwrap();
    assert_eq!(session.winner, Some(1));
    assert_eq!(session.player2, Some(2));
}

#[test]
fn third_move_after_draw_errors() {
    let mut table = Roshambo::instantiate_roshambo(CLAMS);
    assert_eq!(table.play_game(1, Moves::Rock, String::from("E"), one_clam(), 100, true), Ok(()));
    assert_eq!(table.play_game(2, Moves::Rock, String::from("E"), one_clam(), 101, true), Ok(()));
    // a drawn session is settled too: no further move may touch it
    assert_eq!(
        table.play_game(1, Moves::Paper, String::from("E"), one_clam(), 102, true),
        Err(RoshamboError::GameAlreadyResolved)
    );
}

#[test]
fn unauthenticated_caller_is_rejected() {
    let mut table = Roshambo::instantiate_roshambo(CLAMS);
    assert_eq!(
        table.play_game(1, Moves::Rock, String::from("F"), one_clam(), 100, false),
        Err(RoshamboError::Unauthorized)
    );
    assert_eq!(table.prize_winnings.balance, 0);
    assert!(table.games.get(&String::from("F")).is_none());
    assert_eq!(table.claim(1, String::from("F"), false), Err(RoshamboError::Unauthorized));
}

#[test]
fn wrong_asset_or_amount_is_rejected_before_deposit() {
    let mut table = Roshambo::instantiate_roshambo(CLAMS);
    assert_eq!(
        table.play_game(1, Moves::Rock, String::from("G"), Stake { resource: 99, amount: 1 }, 100, true),
        Err(RoshamboError::InvalidStake)
    );
    assert_eq!(
        table.play_game(1, Moves::Rock, String::from("G"), Stake { resource: CLAMS, amount: 2 }, 100, true),
        Err(RoshamboError::InvalidStake)
    );
    assert_eq!(
        table.play_game(1, Moves::Rock, String::from("G"), Stake { resource: CLAMS, amount: 0 }, 100, true),
        Err(RoshamboError::InvalidStake)
    );
    assert_eq!(table.prize_winnings.balance, 0);
    assert!(table.games.get(&String::from("G")).is_none());
}

#[test]
fn claim_on_unknown_room_errors() {
    let mut table = Roshambo::instantiate_roshambo(CLAMS);
    assert_eq!(
        table.claim(1, String::from("nowhere"), true),
        Err(RoshamboError::SessionNotFound)
    );
}

#[test]
fn winner_collects_only_once() {
    let mut table = Roshambo::instantiate_roshambo(CLAMS);
    assert_eq!(table.play_game(1, Moves::Rippy, String::from("H"), one_clam(), 10, true), Ok(()));
    assert_eq!(table.play_game(2, Moves::Paper, String::from("H"), one_clam(), 11, true), Ok(()));
    assert_eq!(
        table.claim(1, String::from("H"), true),
        Ok(Some(Stake { resource: CLAMS, amount: 2 }))
    );
    assert_eq!(table.claim(1, String::from("H"), true), Ok(None));
    assert_eq!(table.prize_winnings.balance, 0);
}

#[test]
fn first_mover_may_reclaim_before_resolution() {
    let mut table = Roshambo::instantiate_roshambo(CLAMS);
    assert_eq!(table.play_game(1, Moves::Rock, String::from("I"), one_clam(), 100, true), Ok(()));
    // no winner is recorded and the session is open: the first mover's
    // refund path is already available
    assert_eq!(
        table.claim(1, String::from("I"), true),
        Ok(Some(Stake { resource: CLAMS, amount: 1 }))
    );
    assert_eq!(table.claim(1, String::from("I"), true), Ok(None));
}

#[test]
fn early_refund_can_leave_prize_uncovered() {
    let mut table = Roshambo::instantiate_roshambo(CLAMS);
    assert_eq!(table.play_game(1, Moves::Rock, String::from("J"), one_clam(), 100, true), Ok(()));
    // the first mover reclaims their wager while the window is open
    assert_eq!(
        table.claim(1, String::from("J"), true),
        Ok(Some(Stake { resource: CLAMS, amount: 1 }))
    );
    // a timely second move still settles the game, won by the second mover
    assert_eq!(table.play_game(2, Moves::Paper, String::from("J"), one_clam(), 104, true), Ok(()));
    // only one unit is pooled; the two-unit prize cannot be covered
    assert_eq!(table.prize_winnings.balance, 1);
    assert_eq!(
        table.claim(2, String::from("J"), true),
        Err(RoshamboError::InsufficientVaultBalance)
    );
}

#[test]
fn rooms_are_independent() {
    let mut table = Roshambo::instantiate_roshambo(CLAMS);
    assert_eq!(table.play_game(1, Moves::Rock, String::from("K"), one_clam(), 100, true), Ok(()));
    assert_eq!(table.play_game(2, Moves::Paper, String::from("L"), one_clam(), 100, true), Ok(()));
    assert_eq!(table.play_game(3, Moves::Paper, String::from("K"), one_clam(), 101, true), Ok(()));
    let k = table.games.get(&String::from("K")).unwrap();
    let l = table.games.get(&String::from("L")).unwrap();
    assert_eq!(k.winner, Some(3));
    assert!(k.game_complete);
    assert!(!l.game_complete);
    assert_eq!(l.player1, 2);
    assert_eq!(table.prize_winnings.balance, 3);
}

#[test]
fn balance_tracks_deposits_minus_payouts() {
    let mut table = Roshambo::instantiate_roshambo(CLAMS);
    let mut deposited: u64 = 0;
    let mut paid_out: u64 = 0;
    assert_eq!(table.play_game(1, Moves::Rock, String::from("M"), one_clam(), 0, true), Ok(()));
    deposited += 1;
    assert_eq!(table.play_game(2, Moves::Rippy, String::from("M"), one_clam(), 1, true), Ok(()));
    deposited += 1;
    assert_eq!(table.play_game(3, Moves::Paper, String::from("N"), one_clam(), 2, true), Ok(()));
    deposited += 1;
    assert_eq!(table.prize_winnings.balance, deposited - paid_out);
    assert_eq!(
        table.claim(1, String::from("M"), true),
        Ok(Some(Stake { resource: CLAMS, amount: 2 }))
    );
    paid_out += 2;
    assert_eq!(table.prize_winnings.balance, deposited - paid_out);
    assert_eq!(
        table.claim(3, String::from("N"), true),
        Ok(Some(Stake { resource: CLAMS, amount: 1 }))
    );
    paid_out += 1;
    assert_eq!(table.prize_winnings.balance, deposited - paid_out);
    assert_eq!(deposited - paid_out, 0);
}
