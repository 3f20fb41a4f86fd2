//! Two-party atomic-swap escrow: one party deposits a native settlement
//! asset, the other a stablecoin amount, and the escrow enforces that either
//! both transfers complete together or, after a deadline, each depositor is
//! refunded their own asset.
//!
//! The crate holds the escrow state machine and validation logic:
//! instruction parsing, precondition checking, the deposit / exchange /
//! refund transitions, and the all-or-nothing semantics around the
//! two-legged exchange transfer. Asset movement itself, signature checking
//! and clock reading are the host's business; the host's transfer primitive
//! is modelled by transfer requests that the handlers emit and by injectable
//! per-leg failures in the model executor.

pub mod codec;
pub mod errors;
pub mod executor;
pub mod handlers;
pub mod instruction;
pub mod laws;
pub mod ledger;
pub mod record;
pub mod validate;
