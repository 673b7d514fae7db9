//! A token issuance and redemption ledger: an admin-gated mint, cumulative
//! issuance and redemption counters, and per-user redemption records.
//!
//! Every transition validates its accounts and arguments against the stored
//! state, and either fails with a typed error leaving the state untouched, or
//! commits its state change and names the single token-ledger call the caller
//! must issue for it.
use vstd::prelude::*;

pub mod identity;
pub mod address;
pub mod state;
pub mod program;
pub mod laws;

pub use address::{find_associated_address, find_record_address, find_state_address, state_address};
pub use identity::Identity;
pub use program::{
    change_admin, close_redemption_record, initialize, mint, process_change_admin, process_close,
    process_mint, process_redeem, redeem,
};
pub use state::{
    ChangeAdmin, CloseRedemptionRecord, CustomError, Initialize, LedgerCall, MintTokens,
    RedeemTokens, RedemptionRecord, State,
};
