//! A two-party, stake-backed rock-paper-scissors match coordinator.
//!
//! Each participant escrows exactly one unit of a configured stake asset
//! per move. The first move for a fresh room code opens a session; a
//! timely second move settles it through the settlement engine; a claim
//! releases the payout to the rightful claimant: two units to the winner,
//! or one unit back to each participant after a draw or a missed deadline.
//!
//! The ledger primitives the component runs against on a real host — the
//! asset-custody vault, the per-component key-value store, the clock, and
//! caller authentication — are external collaborators. Here they are
//! modelled on plain values: identities and asset kinds as integers, time
//! as whole seconds, the pooled escrow as a balance with running deposit
//! and payout totals, so that the state machine and its escrow rules are
//! what gets verified.

mod errors;
mod moves;
mod registry;
mod roshambo;
mod session;
mod vault;

pub use errors::RoshamboError;
pub use moves::{beats, lemma_beats_three_cycle, lemma_resolve_total, resolve, settle_winner,
    spec_resolve, Moves, Outcome};
pub use registry::{unchanged_except, Entry, SessionRegistry};
pub use roshambo::{valid_stake, Roshambo};
pub use session::{lemma_deadline_final, Game, RESPONSE_WINDOW_SECONDS};
pub use vault::{deposited_one, withdrew, Stake, Vault};
