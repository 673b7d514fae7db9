use vstd::prelude::*;

use crate::address::{
    associated_seeds, canonical_address_of, find_associated_address, find_state_address,
    is_canonical_address, is_record_account, is_state_account, is_state_address, record_seeds,
    state_seed,
};
use crate::identity::Identity;
use crate::state::{
    ChangeAdmin, CloseRedemptionRecord, CustomError, Initialize, LedgerCall, MintTokens,
    RedeemTokens, RedemptionRecord, State,
};

verus! {

/// The state `initialize` creates, or why it refuses.
pub open spec fn initialize_outcome(existing: Option<State>, a: Initialize) -> Result<State, CustomError> {
    if existing is Some {
        Err(CustomError::AccountAlreadyInitialized)
    } else {
        match canonical_address_of(seq![state_seed()], a.program_id@) {
            None => Err(CustomError::ConstraintSeeds),
            Some(found) => if found.0 != a.state@ {
                Err(CustomError::ConstraintSeeds)
            } else if !is_canonical_address(
                associated_seeds(a.state, a.token_program, a.mint),
                a.associated_token_program,
                a.treasury,
            ) {
                Err(CustomError::ConstraintSeeds)
            } else if a.admin.is_empty() {
                Err(CustomError::Unauthorized)
            } else if a.treasury.is_empty() {
                Err(CustomError::InvalidTreasury)
            } else {
                Ok(State { admin: a.admin, minted: 0, redeemed: 0, treasury: a.treasury, bump: found.1 })
            },
        }
    }
}

/// The ledger call of a successful `initialize`: the mint authority passes
/// from the admin to the state's derived identity.
pub open spec fn initialize_call(a: Initialize) -> LedgerCall {
    LedgerCall::SetMintAuthority { mint: a.mint, current_authority: a.admin, new_authority: a.state }
}

/// The state after `mint`, or why it refuses.
pub open spec fn mint_outcome(s: State, a: MintTokens, amount: u64) -> Result<State, CustomError> {
    if !is_state_address(a.program_id, a.state, s.bump) {
        Err(CustomError::ConstraintSeeds)
    } else {
        process_mint_outcome(s, a, amount)
    }
}

/// The state after a mint whose accounts are at their addresses, or why it refuses.
pub open spec fn process_mint_outcome(s: State, a: MintTokens, amount: u64) -> Result<State, CustomError> {
    if a.admin@ != s.admin@ {
        Err(CustomError::Unauthorized)
    } else if amount == 0 {
        Err(CustomError::InvalidAmount)
    } else if s.minted + amount > u64::MAX {
        Err(CustomError::Overflow)
    } else {
        Ok(State { minted: (s.minted + amount) as u64, ..s })
    }
}

/// The ledger call of a successful `mint`, signed by the state's derived identity.
pub open spec fn mint_call(s: State, a: MintTokens, amount: u64) -> LedgerCall {
    LedgerCall::MintTo { mint: a.mint, to: a.recipient, authority: a.state, bump: s.bump, amount }
}

/// A user's record before a redemption: the stored one, or a fresh one.
pub open spec fn record_or_fresh(rec: Option<RedemptionRecord>, user: Identity) -> RedemptionRecord {
    match rec {
        Some(r) => r,
        None => RedemptionRecord { user, amount: 0, timestamp: 0, redemption_count: 0 },
    }
}

/// The state and the user's record after `redeem`, or why it refuses.
pub open spec fn redeem_outcome(
    s: State,
    rec: Option<RedemptionRecord>,
    a: RedeemTokens,
    amount: u64,
    now: i64,
) -> Result<(State, RedemptionRecord), CustomError> {
    if !is_state_address(a.program_id, a.state, s.bump) {
        Err(CustomError::ConstraintSeeds)
    } else if !is_canonical_address(record_seeds(a.user), a.program_id, a.redemption_record) {
        Err(CustomError::ConstraintSeeds)
    } else {
        process_redeem_outcome(s, rec, a, amount, now)
    }
}

/// The state and the user's record after a redemption whose accounts are at
/// their addresses, or why it refuses.
pub open spec fn process_redeem_outcome(
    s: State,
    rec: Option<RedemptionRecord>,
    a: RedeemTokens,
    amount: u64,
    now: i64,
) -> Result<(State, RedemptionRecord), CustomError> {
    let base = record_or_fresh(rec, a.user);
    if amount == 0 {
        Err(CustomError::InvalidAmount)
    } else if a.treasury@ != s.treasury@ {
        Err(CustomError::InvalidTreasury)
    } else if a.from_owner@ != a.user@ {
        Err(CustomError::InvalidTokenAccount)
    } else if s.redeemed + amount > u64::MAX || base.amount + amount > u64::MAX
        || base.redemption_count + 1 > u64::MAX {
        Err(CustomError::Overflow)
    } else {
        Ok(
            (
                State { redeemed: (s.redeemed + amount) as u64, ..s },
                RedemptionRecord {
                    user: a.user,
                    amount: (base.amount + amount) as u64,
                    timestamp: now,
                    redemption_count: (base.redemption_count + 1) as u64,
                },
            ),
        )
    }
}

/// The ledger call of a successful `redeem`, signed by the user.
pub open spec fn redeem_call(a: RedeemTokens, amount: u64) -> LedgerCall {
    LedgerCall::Transfer { from: a.from, to: a.treasury, authority: a.user, amount }
}

/// The state after `change_admin`, or why it refuses.
pub open spec fn change_admin_outcome(s: State, a: ChangeAdmin, new_admin: Identity) -> Result<State, CustomError> {
    if !is_state_address(a.program_id, a.state, s.bump) {
        Err(CustomError::ConstraintSeeds)
    } else {
        process_change_admin_outcome(s, a, new_admin)
    }
}

/// The state after an admin change whose state account is at its address, or why it refuses.
pub open spec fn process_change_admin_outcome(s: State, a: ChangeAdmin, new_admin: Identity) -> Result<State, CustomError> {
    if a.current_admin@ != s.admin@ {
        Err(CustomError::Unauthorized)
    } else {
        Ok(State { admin: new_admin, ..s })
    }
}

/// Whether `close_redemption_record` succeeds, or why it refuses.
pub open spec fn close_outcome(rec: Option<RedemptionRecord>, a: CloseRedemptionRecord) -> Result<(), CustomError> {
    if !is_canonical_address(record_seeds(a.user), a.program_id, a.redemption_record) {
        Err(CustomError::ConstraintSeeds)
    } else {
        process_close_outcome(rec, a)
    }
}

/// Whether closing a record whose account is at its address succeeds, or why it refuses.
pub open spec fn process_close_outcome(rec: Option<RedemptionRecord>, a: CloseRedemptionRecord) -> Result<(), CustomError> {
    {
        match rec {
            None => Err(CustomError::AccountNotInitialized),
            Some(r) => if r.user@ != a.user@ {
                Err(CustomError::Unauthorized)
            } else {
                Ok(())
            },
        }
    }
}

/// Creates the global state, unless it exists or the admin or treasury is
/// the all-zero identity, and asks for the mint authority to pass to the
/// state's derived identity.
pub fn initialize(state: &mut Option<State>, accounts: &Initialize) -> (r: Result<LedgerCall, CustomError>)
    ensures
        match initialize_outcome(*old(state), *accounts) {
            Ok(s) => *final(state) == Some(s) && r == Ok::<LedgerCall, CustomError>(initialize_call(*accounts)),
            Err(e) => *final(state) == *old(state) && r == Err::<LedgerCall, CustomError>(e),
        },
        r is Ok ==> is_state_address(accounts.program_id, accounts.state, final(state)->Some_0.bump),
        r is Ok ==> !final(state)->Some_0.admin.is_empty() && !final(state)->Some_0.treasury.is_empty(),
{
    if state.is_some() {
        return Err(CustomError::AccountAlreadyInitialized);
    }
    let bump = match find_state_address(&accounts.program_id) {
        None => {
            return Err(CustomError::ConstraintSeeds);
        },
        Some(found) => {
            if !(found.0 == accounts.state) {
                return Err(CustomError::ConstraintSeeds);
            }
            found.1
        },
    };
    let treasury_ok = match find_associated_address(
        &accounts.state,
        &accounts.token_program,
        &accounts.mint,
        &accounts.associated_token_program,
    ) {
        None => false,
        Some(found) => found.0 == accounts.treasury,
    };
    if !treasury_ok {
        return Err(CustomError::ConstraintSeeds);
    }
    if accounts.admin.is_zero() {
        return Err(CustomError::Unauthorized);
    }
    if accounts.treasury.is_zero() {
        return Err(CustomError::InvalidTreasury);
    }
    *state = Some(
        State { admin: accounts.admin, minted: 0, redeemed: 0, treasury: accounts.treasury, bump },
    );
    Ok(
        LedgerCall::SetMintAuthority {
            mint: accounts.mint,
            current_authority: accounts.admin,
            new_authority: accounts.state,
        },
    )
}

/// Admits a mint of `amount` by the admin, counts it, and asks for it to be
/// issued to the recipient.
pub fn mint(state: &mut State, accounts: &MintTokens, amount: u64) -> (r: Result<LedgerCall, CustomError>)
    ensures
        match mint_outcome(*old(state), *accounts, amount) {
            Ok(s) => *final(state) == s && r == Ok::<LedgerCall, CustomError>(mint_call(*old(state), *accounts, amount)),
            Err(e) => *final(state) == *old(state) && r == Err::<LedgerCall, CustomError>(e),
        },
        final(state).minted >= old(state).minted,
{
    if !is_state_account(&accounts.program_id, &accounts.state, state.bump) {
        return Err(CustomError::ConstraintSeeds);
    }
    process_mint(state, accounts, amount)
}

/// The checks and effects of `mint` once its state account is at its address.
pub fn process_mint(state: &mut State, accounts: &MintTokens, amount: u64) -> (r: Result<LedgerCall, CustomError>)
    ensures
        match process_mint_outcome(*old(state), *accounts, amount) {
            Ok(s) => *final(state) == s && r == Ok::<LedgerCall, CustomError>(mint_call(*old(state), *accounts, amount)),
            Err(e) => *final(state) == *old(state) && r == Err::<LedgerCall, CustomError>(e),
        },
        final(state).minted >= old(state).minted,
{
    if !(accounts.admin == state.admin) {
        return Err(CustomError::Unauthorized);
    }
    if amount == 0 {
        return Err(CustomError::InvalidAmount);
    }
    let minted = match state.minted.checked_add(amount) {
        Some(m) => m,
        None => {
            return Err(CustomError::Overflow);
        },
    };
    state.minted = minted;
    Ok(
        LedgerCall::MintTo {
            mint: accounts.mint,
            to: accounts.recipient,
            authority: accounts.state,
            bump: state.bump,
            amount,
        },
    )
}

/// Admits a redemption of `amount` by the user at time `now`, counts it in
/// the global state and in the user's record (created if missing), and asks
/// for the tokens to move to the treasury.
pub fn redeem(
    state: &mut State,
    record: &mut Option<RedemptionRecord>,
    accounts: &RedeemTokens,
    amount: u64,
    now: i64,
) -> (r: Result<LedgerCall, CustomError>)
    ensures
        match redeem_outcome(*old(state), *old(record), *accounts, amount, now) {
            Ok(after) => {
                &&& *final(state) == after.0
                &&& *final(record) == Some(after.1)
                &&& r == Ok::<LedgerCall, CustomError>(redeem_call(*accounts, amount))
            },
            Err(e) => {
                &&& *final(state) == *old(state)
                &&& *final(record) == *old(record)
                &&& r == Err::<LedgerCall, CustomError>(e)
            },
        },
        final(state).redeemed >= old(state).redeemed,
{
    if !is_state_account(&accounts.program_id, &accounts.state, state.bump) {
        return Err(CustomError::ConstraintSeeds);
    }
    if !is_record_account(&accounts.program_id, &accounts.redemption_record, &accounts.user) {
        return Err(CustomError::ConstraintSeeds);
    }
    process_redeem(state, record, accounts, amount, now)
}

/// The checks and effects of `redeem` once its accounts are at their addresses.
pub fn process_redeem(
    state: &mut State,
    record: &mut Option<RedemptionRecord>,
    accounts: &RedeemTokens,
    amount: u64,
    now: i64,
) -> (r: Result<LedgerCall, CustomError>)
    ensures
        match process_redeem_outcome(*old(state), *old(record), *accounts, amount, now) {
            Ok(after) => {
                &&& *final(state) == after.0
                &&& *final(record) == Some(after.1)
                &&& r == Ok::<LedgerCall, CustomError>(redeem_call(*accounts, amount))
            },
            Err(e) => {
                &&& *final(state) == *old(state)
                &&& *final(record) == *old(record)
                &&& r == Err::<LedgerCall, CustomError>(e)
            },
        },
        final(state).redeemed >= old(state).redeemed,
{
    if amount == 0 {
        return Err(CustomError::InvalidAmount);
    }
    if !(accounts.treasury == state.treasury) {
        return Err(CustomError::InvalidTreasury);
    }
    if !(accounts.from_owner == accounts.user) {
        return Err(CustomError::InvalidTokenAccount);
    }
    let (base_amount, base_count) = match record {
        Some(rec) => (rec.amount, rec.redemption_count),
        None => (0u64, 0u64),
    };
    let redeemed = match state.redeemed.checked_add(amount) {
        Some(v) => v,
        None => {
            return Err(CustomError::Overflow);
        },
    };
    let total = match base_amount.checked_add(amount) {
        Some(v) => v,
        None => {
            return Err(CustomError::Overflow);
        },
    };
    let count = match base_count.checked_add(1) {
        Some(v) => v,
        None => {
            return Err(CustomError::Overflow);
        },
    };
    state.redeemed = redeemed;
    *record = Some(
        RedemptionRecord { user: accounts.user, amount: total, timestamp: now, redemption_count: count },
    );
    Ok(
        LedgerCall::Transfer {
            from: accounts.from,
            to: accounts.treasury,
            authority: accounts.user,
            amount,
        },
    )
}

/// Hands the admin role to `new_admin`; only the current admin may.
pub fn change_admin(state: &mut State, accounts: &ChangeAdmin, new_admin: Identity) -> (r: Result<(), CustomError>)
    ensures
        match change_admin_outcome(*old(state), *accounts, new_admin) {
            Ok(s) => *final(state) == s && r == Ok::<(), CustomError>(()),
            Err(e) => *final(state) == *old(state) && r == Err::<(), CustomError>(e),
        },
{
    if !is_state_account(&accounts.program_id, &accounts.state, state.bump) {
        return Err(CustomError::ConstraintSeeds);
    }
    process_change_admin(state, accounts, new_admin)
}

/// The checks and effects of `change_admin` once its state account is at its address.
pub fn process_change_admin(state: &mut State, accounts: &ChangeAdmin, new_admin: Identity) -> (r: Result<(), CustomError>)
    ensures
        match process_change_admin_outcome(*old(state), *accounts, new_admin) {
            Ok(s) => *final(state) == s && r == Ok::<(), CustomError>(()),
            Err(e) => *final(state) == *old(state) && r == Err::<(), CustomError>(e),
        },
{
    if !(accounts.current_admin == state.admin) {
        return Err(CustomError::Unauthorized);
    }
    state.admin = new_admin;
    Ok(())
}

/// Discards the user's redemption record; its storage deposit goes back to the user.
pub fn close_redemption_record(
    record: &mut Option<RedemptionRecord>,
    accounts: &CloseRedemptionRecord,
) -> (r: Result<(), CustomError>)
    ensures
        match close_outcome(*old(record), *accounts) {
            Ok(_) => *final(record) == None::<RedemptionRecord> && r == Ok::<(), CustomError>(()),
            Err(e) => *final(record) == *old(record) && r == Err::<(), CustomError>(e),
        },
{
    if !is_record_account(&accounts.program_id, &accounts.redemption_record, &accounts.user) {
        return Err(CustomError::ConstraintSeeds);
    }
    process_close(record, accounts)
}

/// The checks and effects of `close_redemption_record` once its account is at its address.
pub fn process_close(
    record: &mut Option<RedemptionRecord>,
    accounts: &CloseRedemptionRecord,
) -> (r: Result<(), CustomError>)
    ensures
        match process_close_outcome(*old(record), *accounts) {
            Ok(_) => *final(record) == None::<RedemptionRecord> && r == Ok::<(), CustomError>(()),
            Err(e) => *final(record) == *old(record) && r == Err::<(), CustomError>(e),
        },
{
    match record {
        None => {
            return Err(CustomError::AccountNotInitialized);
        },
        Some(rec) => {
            if !(rec.user == accounts.user) {
                return Err(CustomError::Unauthorized);
            }
        },
    }
    *record = None;
    Ok(())
}

} // verus!
