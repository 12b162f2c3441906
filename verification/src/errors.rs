//! The errors an operation can surface to its caller.

use vstd::prelude::*;

verus! {

/// Why an operation was refused. Every error aborts the operation it
/// arose in; none is retried.
#[derive(Clone, Copy, PartialEq, Eq, Structural, Debug)]
pub enum RoshamboError {
    /// The caller could not prove the claimed identity.
    Unauthorized,
    /// The submitted stake is of the wrong asset or is not one unit.
    InvalidStake,
    /// A further move was submitted to an already settled session.
    GameAlreadyResolved,
    /// The second move arrived after the response window closed.
    DeadlineExceeded,
    /// A claim named a room code with no recorded session.
    SessionNotFound,
    /// A claim reached a session whose winner is recorded but whose
    /// settlement has not run.
    GameInProgress,
    /// A claim for the prize by an identity other than the winner.
    NotWinner,
    /// A payout was due but the pooled balance cannot cover it.
    InsufficientVaultBalance,
}

} // verus!
