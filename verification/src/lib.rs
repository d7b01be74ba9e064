//! Accounting and vesting engine for a fixed-supply token sale.
//!
//! Investors exchange a payment asset for an allocation of a sale asset during
//! a funding window, then claim that allocation over a vesting schedule with an
//! optional cliff; an admin-triggered cancellation path lets investors reclaim
//! what they spent instead.  The surrounding runtime (record storage, caller
//! identity, the clock, asset settlement and event delivery) stays outside this
//! crate: every operation takes the records it touches and the current instant
//! as plain values and returns the updated records, the event to deliver, or a
//! typed error, and never mutates anything on failure.

pub mod error;
pub mod laws;
pub mod price;
pub mod sale;
pub mod state;
pub mod vesting;
