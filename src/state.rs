use vstd::prelude::*;

use crate::identity::Identity;

verus! {

/// The singleton global state.
#[derive(Clone, Copy, Debug)]
pub struct State {
    /// The identity allowed to mint and to hand the admin role on.
    pub admin: Identity,
    /// Total tokens minted since genesis.
    pub minted: u64,
    /// Total tokens redeemed since genesis.
    pub redeemed: u64,
    /// The token account that receives redeemed tokens.
    pub treasury: Identity,
    /// The salt that, with the state seed, derives the controlling identity.
    pub bump: u8,
}

/// A user's redemption history, kept until the user closes it.
#[derive(Clone, Copy, Debug)]
pub struct RedemptionRecord {
    pub user: Identity,
    /// Cumulative amount redeemed since the record was created.
    pub amount: u64,
    /// Time of the most recent redemption.
    pub timestamp: i64,
    /// Number of redemptions since the record was created.
    pub redemption_count: u64,
}

/// Why a transition was refused.
#[derive(Clone, Copy, Debug, PartialEq, Eq, Structural)]
pub enum CustomError {
    /// The caller lacks the required privilege.
    Unauthorized,
    /// A counter addition would leave the range of `u64`.
    Overflow,
    /// The treasury argument is not the recorded treasury.
    InvalidTreasury,
    /// The funding token account is not owned by the caller.
    InvalidTokenAccount,
    /// The amount is zero.
    InvalidAmount,
    /// An account is not at the address derived from its seeds.
    ConstraintSeeds,
    /// The account to create already holds data.
    AccountAlreadyInitialized,
    /// The account to read holds no data.
    AccountNotInitialized,
}

/// The single token-ledger operation a successful transition asks for.
#[derive(Clone, Copy, Debug)]
pub enum LedgerCall {
    /// Move the minting authority of `mint` from `current_authority` to `new_authority`.
    SetMintAuthority { mint: Identity, current_authority: Identity, new_authority: Identity },
    /// Mint `amount` of `mint` into `to`, signed by the controlling identity
    /// `authority`, derived from the state seed and `bump`.
    MintTo { mint: Identity, to: Identity, authority: Identity, bump: u8, amount: u64 },
    /// Move `amount` from `from` to `to`, signed by its owner `authority`.
    Transfer { from: Identity, to: Identity, authority: Identity, amount: u64 },
}

/// The accounts of `initialize`.
#[derive(Clone, Copy, Debug)]
pub struct Initialize {
    /// This program.
    pub program_id: Identity,
    /// Where the global state is to live.
    pub state: Identity,
    /// The mint whose authority the admin holds.
    pub mint: Identity,
    /// The treasury token account to create.
    pub treasury: Identity,
    /// The signing admin-to-be.
    pub admin: Identity,
    pub token_program: Identity,
    pub associated_token_program: Identity,
}

/// The accounts of `mint`.
#[derive(Clone, Copy, Debug)]
pub struct MintTokens {
    pub program_id: Identity,
    pub state: Identity,
    pub mint: Identity,
    /// The token account that receives the minted tokens.
    pub recipient: Identity,
    /// The signer, who must be the admin.
    pub admin: Identity,
}

/// The accounts of `redeem`.
#[derive(Clone, Copy, Debug)]
pub struct RedeemTokens {
    pub program_id: Identity,
    pub state: Identity,
    /// The token account the tokens come from.
    pub from: Identity,
    /// The owner recorded in the `from` token account.
    pub from_owner: Identity,
    /// The token account the tokens go to.
    pub treasury: Identity,
    /// Where the user's redemption record lives.
    pub redemption_record: Identity,
    /// The signing user.
    pub user: Identity,
}

/// The accounts of `change_admin`.
#[derive(Clone, Copy, Debug)]
pub struct ChangeAdmin {
    pub program_id: Identity,
    pub state: Identity,
    /// The signer, who must be the admin.
    pub current_admin: Identity,
}

/// The accounts of `close_redemption_record`.
#[derive(Clone, Copy, Debug)]
pub struct CloseRedemptionRecord {
    pub program_id: Identity,
    /// Where the user's redemption record lives.
    pub redemption_record: Identity,
    /// The signing user, who receives the record's storage deposit back.
    pub user: Identity,
}

} // verus!
