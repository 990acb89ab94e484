//! An escrow for a delivery between a buyer, a transporter and a seller.
//!
//! The buyer deposits funds. Once delivery is marked, anyone may release them:
//! a tenth goes to the transporter and the rest to the seller. Until then the
//! buyer may take them back. The escrow decides; the host ledger identifies
//! callers, tells the time and moves the value.
//!
//! [`state`] describes the state machine, [`escrow`] runs it, and [`history`]
//! proves what holds over any sequence of calls.

pub mod error;
pub mod escrow;
pub mod history;
pub mod ledger;
pub mod shares;
pub mod state;
pub mod transfer;

pub use error::EscrowError;
pub use escrow::DeliveryEscrow;
pub use ledger::{AccountId, Balance, ProofHash, Timestamp};
pub use state::EscrowState;
pub use transfer::{Payout, Transfer};
