use vstd::prelude::*;

use crate::address::{is_canonical_address, is_state_address, record_seeds};
use crate::identity::Identity;
use crate::program::{
    change_admin_outcome, close_outcome, mint_outcome, redeem_outcome,
};
use crate::state::{
    ChangeAdmin, CloseRedemptionRecord, CustomError, MintTokens, RedeemTokens, RedemptionRecord,
    State,
};

verus! {

/// Applies the mints in order, stopping at the first refusal.
pub open spec fn run_mints(s: State, calls: Seq<(MintTokens, u64)>) -> Result<State, CustomError>
    decreases calls.len(),
{
    if calls.len() == 0 {
        Ok(s)
    } else {
        match run_mints(s, calls.drop_last()) {
            Ok(s1) => mint_outcome(s1, calls.last().0, calls.last().1),
            Err(e) => Err(e),
        }
    }
}

/// The sum of the amounts of a run of mints.
pub open spec fn mint_total(calls: Seq<(MintTokens, u64)>) -> int
    decreases calls.len(),
{
    if calls.len() == 0 {
        0
    } else {
        mint_total(calls.drop_last()) + calls.last().1
    }
}

/// Over any run of mints that all succeed, `minted` grows by exactly the sum
/// of their amounts, and nothing else in the state changes.
pub proof fn lemma_minted_is_sum(s: State, calls: Seq<(MintTokens, u64)>)
    requires
        run_mints(s, calls) is Ok,
    ensures
        run_mints(s, calls)->Ok_0.minted == s.minted + mint_total(calls),
        run_mints(s, calls)->Ok_0 == (State { minted: run_mints(s, calls)->Ok_0.minted, ..s }),
    decreases calls.len(),
{
    if calls.len() > 0 {
        lemma_minted_is_sum(s, calls.drop_last());
    }
}

/// A mint that would carry `minted` past the range of `u64` is refused, with
/// `Overflow` once the state account and the admin check out.
pub proof fn lemma_overflowing_mint_rejected(s: State, a: MintTokens, amount: u64)
    requires
        s.minted + amount > u64::MAX,
    ensures
        mint_outcome(s, a, amount) is Err,
        is_state_address(a.program_id, a.state, s.bump) && a.admin@ == s.admin@
            ==> mint_outcome(s, a, amount) == Err::<State, CustomError>(CustomError::Overflow),
{
}

/// A mint of zero is always refused, with `InvalidAmount` once the state
/// account and the admin check out.
pub proof fn lemma_zero_mint_rejected(s: State, a: MintTokens)
    ensures
        mint_outcome(s, a, 0) is Err,
        is_state_address(a.program_id, a.state, s.bump) && a.admin@ == s.admin@
            ==> mint_outcome(s, a, 0) == Err::<State, CustomError>(CustomError::InvalidAmount),
{
}

/// A mint signed by anyone but the admin is always refused, with
/// `Unauthorized` once the state account checks out.
pub proof fn lemma_non_admin_mint_rejected(s: State, a: MintTokens, amount: u64)
    requires
        a.admin@ != s.admin@,
    ensures
        mint_outcome(s, a, amount) is Err,
        is_state_address(a.program_id, a.state, s.bump)
            ==> mint_outcome(s, a, amount) == Err::<State, CustomError>(CustomError::Unauthorized),
{
}

/// Whether the state account and the user's record account of a redemption
/// are at their derived addresses.
pub open spec fn redeem_accounts_valid(s: State, a: RedeemTokens) -> bool {
    &&& is_state_address(a.program_id, a.state, s.bump)
    &&& is_canonical_address(record_seeds(a.user), a.program_id, a.redemption_record)
}

/// A redemption from a token account the user does not own is always
/// refused, with `InvalidTokenAccount` once the accounts, the amount and the
/// treasury check out; no transfer is asked for.
pub proof fn lemma_foreign_account_redeem_rejected(
    s: State,
    rec: Option<RedemptionRecord>,
    a: RedeemTokens,
    amount: u64,
    now: i64,
)
    requires
        a.from_owner@ != a.user@,
    ensures
        redeem_outcome(s, rec, a, amount, now) is Err,
        redeem_accounts_valid(s, a) && amount > 0 && a.treasury@ == s.treasury@
            ==> redeem_outcome(s, rec, a, amount, now)
            == Err::<(State, RedemptionRecord), CustomError>(CustomError::InvalidTokenAccount),
{
}

/// A redemption to any account but the recorded treasury is always refused,
/// with `InvalidTreasury` once the accounts and the amount check out.
pub proof fn lemma_wrong_treasury_redeem_rejected(
    s: State,
    rec: Option<RedemptionRecord>,
    a: RedeemTokens,
    amount: u64,
    now: i64,
)
    requires
        a.treasury@ != s.treasury@,
    ensures
        redeem_outcome(s, rec, a, amount, now) is Err,
        redeem_accounts_valid(s, a) && amount > 0 ==> redeem_outcome(s, rec, a, amount, now)
            == Err::<(State, RedemptionRecord), CustomError>(CustomError::InvalidTreasury),
{
}

/// Once the admin role has passed from one identity to another, the old
/// admin's mints and admin changes are refused as `Unauthorized`, and the new
/// admin's succeed.
pub proof fn lemma_admin_handover(
    s: State,
    a: ChangeAdmin,
    new_admin: Identity,
    m: MintTokens,
    amount: u64,
    c: ChangeAdmin,
    next_admin: Identity,
)
    requires
        change_admin_outcome(s, a, new_admin) is Ok,
        new_admin@ != s.admin@,
        is_state_address(m.program_id, m.state, s.bump),
        is_state_address(c.program_id, c.state, s.bump),
    ensures
        ({
            let s2 = change_admin_outcome(s, a, new_admin)->Ok_0;
            &&& s2 == (State { admin: new_admin, ..s })
            &&& m.admin@ == s.admin@ ==> mint_outcome(s2, m, amount) == Err::<State, CustomError>(
                CustomError::Unauthorized,
            )
            &&& c.current_admin@ == s.admin@ ==> change_admin_outcome(s2, c, next_admin) == Err::<
                State,
                CustomError,
            >(CustomError::Unauthorized)
            &&& m.admin@ == new_admin@ && amount > 0 && s.minted + amount <= u64::MAX
                ==> mint_outcome(s2, m, amount) == Ok::<State, CustomError>(
                State { minted: (s.minted + amount) as u64, ..s2 },
            )
            &&& c.current_admin@ == new_admin@ ==> change_admin_outcome(s2, c, next_admin) == Ok::<
                State,
                CustomError,
            >(State { admin: next_admin, ..s2 })
        }),
{
}

/// A step of the redemption side of the ledger.
pub enum RedemptionEvent {
    Redeem { redeem_accounts: RedeemTokens, amount: u64, now: i64 },
    Close { close_accounts: CloseRedemptionRecord },
}

/// The global state with every user's redemption record, keyed by user.
pub type Ledger = (State, Map<Seq<u8>, RedemptionRecord>);

/// The record of user `u`, if it exists.
pub open spec fn record_of(m: Map<Seq<u8>, RedemptionRecord>, u: Seq<u8>) -> Option<RedemptionRecord> {
    if m.contains_key(u) {
        Some(m[u])
    } else {
        None
    }
}

/// The ledger after one event, or why the event is refused.
pub open spec fn apply_event(l: Ledger, e: RedemptionEvent) -> Result<Ledger, CustomError> {
    match e {
        RedemptionEvent::Redeem { redeem_accounts: accounts, amount, now } => match redeem_outcome(
            l.0,
            record_of(l.1, accounts.user@),
            accounts,
            amount,
            now,
        ) {
            Ok(after) => Ok((after.0, l.1.insert(accounts.user@, after.1))),
            Err(err) => Err(err),
        },
        RedemptionEvent::Close { close_accounts: accounts } => match close_outcome(record_of(l.1, accounts.user@), accounts) {
            Ok(_) => Ok((l.0, l.1.remove(accounts.user@))),
            Err(err) => Err(err),
        },
    }
}

/// Applies the events in order, stopping at the first refusal.
pub open spec fn run_events(l: Ledger, events: Seq<RedemptionEvent>) -> Result<Ledger, CustomError>
    decreases events.len(),
{
    if events.len() == 0 {
        Ok(l)
    } else {
        match run_events(l, events.drop_last()) {
            Ok(l1) => apply_event(l1, events.last()),
            Err(err) => Err(err),
        }
    }
}

/// The sum of all redeemed amounts among the events.
pub open spec fn redeemed_total(events: Seq<RedemptionEvent>) -> int
    decreases events.len(),
{
    if events.len() == 0 {
        0
    } else {
        redeemed_total(events.drop_last()) + match events.last() {
            RedemptionEvent::Redeem { amount, .. } => amount as int,
            RedemptionEvent::Close { .. } => 0,
        }
    }
}

/// Whether the event is a redemption by user `u`.
pub open spec fn is_redeem_by(e: RedemptionEvent, u: Seq<u8>) -> bool {
    e is Redeem && e->Redeem_redeem_accounts.user@ == u
}

/// Whether the event is a close of user `u`'s record.
pub open spec fn is_close_by(e: RedemptionEvent, u: Seq<u8>) -> bool {
    e is Close && e->Close_close_accounts.user@ == u
}

/// The sum of the amounts user `u` redeemed among the events.
pub open spec fn user_redeemed(events: Seq<RedemptionEvent>, u: Seq<u8>) -> int
    decreases events.len(),
{
    if events.len() == 0 {
        0
    } else if is_redeem_by(events.last(), u) {
        user_redeemed(events.drop_last(), u) + events.last()->Redeem_amount
    } else {
        user_redeemed(events.drop_last(), u)
    }
}

/// The number of redemptions by user `u` among the events.
pub open spec fn user_redemptions(events: Seq<RedemptionEvent>, u: Seq<u8>) -> int
    decreases events.len(),
{
    if events.len() == 0 {
        0
    } else if is_redeem_by(events.last(), u) {
        user_redemptions(events.drop_last(), u) + 1
    } else {
        user_redemptions(events.drop_last(), u)
    }
}

/// The index of the last close of user `u`'s record among the events, or -1.
pub open spec fn last_close(events: Seq<RedemptionEvent>, u: Seq<u8>) -> int
    decreases events.len(),
{
    if events.len() == 0 {
        -1
    } else if is_close_by(events.last(), u) {
        events.len() - 1
    } else {
        last_close(events.drop_last(), u)
    }
}

/// The events after the last close of user `u`'s record (all of them if none).
pub open spec fn since_last_close(events: Seq<RedemptionEvent>, u: Seq<u8>) -> Seq<RedemptionEvent> {
    events.subrange(last_close(events, u) + 1, events.len() as int)
}

/// The record user `u`'s history since the last close builds on: none after
/// a close, else the one held before the events.
pub open spec fn base_record(m: Map<Seq<u8>, RedemptionRecord>, events: Seq<RedemptionEvent>, u: Seq<u8>) -> Option<RedemptionRecord> {
    if last_close(events, u) < 0 {
        record_of(m, u)
    } else {
        None
    }
}

/// The cumulative amount of a record, zero for none.
pub open spec fn amount_of(r: Option<RedemptionRecord>) -> int {
    match r {
        Some(r) => r.amount as int,
        None => 0,
    }
}

/// The redemption count of a record, zero for none.
pub open spec fn count_of(r: Option<RedemptionRecord>) -> int {
    match r {
        Some(r) => r.redemption_count as int,
        None => 0,
    }
}

proof fn lemma_last_close_bounds(events: Seq<RedemptionEvent>, u: Seq<u8>)
    ensures
        -1 <= last_close(events, u) < events.len(),
    decreases events.len(),
{
    if events.len() > 0 {
        lemma_last_close_bounds(events.drop_last(), u);
    }
}

proof fn lemma_no_redemption_no_amount(events: Seq<RedemptionEvent>, u: Seq<u8>)
    ensures
        user_redemptions(events, u) >= 0,
        user_redemptions(events, u) == 0 ==> user_redeemed(events, u) == 0,
    decreases events.len(),
{
    if events.len() > 0 {
        lemma_no_redemption_no_amount(events.drop_last(), u);
    }
}

/// Over any run of redemptions and closes that all succeed, `redeemed` grows
/// by exactly the sum of the redeemed amounts. For each user, the record's
/// `amount` and `redemption_count` are those held before the run (none if the
/// run closed the record) plus the user's redeemed amounts and the number of
/// the user's redemptions since the record's last close; a user with no
/// redemption since then has exactly that starting record.
pub proof fn lemma_redemptions_are_counted(l: Ledger, events: Seq<RedemptionEvent>, u: Seq<u8>)
    requires
        run_events(l, events) is Ok,
    ensures
        ({
            let l2 = run_events(l, events)->Ok_0;
            let since = since_last_close(events, u);
            let base = base_record(l.1, events, u);
            &&& l2.0.redeemed == l.0.redeemed + redeemed_total(events)
            &&& user_redemptions(since, u) == 0 ==> record_of(l2.1, u) == base
            &&& user_redemptions(since, u) > 0 ==> {
                &&& record_of(l2.1, u) is Some
                &&& amount_of(record_of(l2.1, u)) == amount_of(base) + user_redeemed(since, u)
                &&& count_of(record_of(l2.1, u)) == count_of(base) + user_redemptions(since, u)
            }
        }),
    decreases events.len(),
{
    if events.len() > 0 {
        let prev = events.drop_last();
        let e = events.last();
        lemma_redemptions_are_counted(l, prev, u);
        lemma_last_close_bounds(prev, u);
        let l1 = run_events(l, prev)->Ok_0;
        let l2 = run_events(l, events)->Ok_0;
        assert(l2 == apply_event(l1, e)->Ok_0);
        assert(l2.0.redeemed == l1.0.redeemed + match e {
            RedemptionEvent::Redeem { amount, .. } => amount as int,
            RedemptionEvent::Close { .. } => 0,
        });
        if !is_close_by(e, u) {
            let k = last_close(prev, u);
            assert(last_close(events, u) == k);
            let since = since_last_close(events, u);
            let since_prev = since_last_close(prev, u);
            assert(since.drop_last() =~= since_prev);
            assert(since.last() == e);
            assert(base_record(l.1, events, u) == base_record(l.1, prev, u));
            if is_redeem_by(e, u) {
                lemma_no_redemption_no_amount(since_prev, u);
                assert(user_redemptions(since, u) == user_redemptions(since_prev, u) + 1);
                assert(user_redeemed(since, u) == user_redeemed(since_prev, u) + e->Redeem_amount);
                assert(record_of(l2.1, u) is Some);
                assert(amount_of(record_of(l2.1, u)) == amount_of(record_of(l1.1, u)) + e->Redeem_amount);
                assert(count_of(record_of(l2.1, u)) == count_of(record_of(l1.1, u)) + 1);
            } else {
                assert(user_redemptions(since, u) == user_redemptions(since_prev, u));
                assert(user_redeemed(since, u) == user_redeemed(since_prev, u));
                assert(record_of(l2.1, u) == record_of(l1.1, u));
            }
        } else {
            assert(since_last_close(events, u) =~= Seq::<RedemptionEvent>::empty());
            assert(record_of(l2.1, u) is None);
        }
    }
}

/// After a user's record is closed, the user's next redemption starts a
/// fresh record holding that redemption alone.
pub proof fn lemma_fresh_record_after_close(
    l: Ledger,
    c: CloseRedemptionRecord,
    a: RedeemTokens,
    amount: u64,
    now: i64,
)
    requires
        a.user@ == c.user@,
        run_events(l, seq![RedemptionEvent::Close { close_accounts: c }, RedemptionEvent::Redeem { redeem_accounts: a, amount, now }]) is Ok,
    ensures
        ({
            let l2 = run_events(l, seq![RedemptionEvent::Close { close_accounts: c }, RedemptionEvent::Redeem { redeem_accounts: a, amount, now }])->Ok_0;
            &&& l2.1.contains_key(a.user@)
            &&& l2.1[a.user@].user == a.user
            &&& l2.1[a.user@].amount == amount
            &&& l2.1[a.user@].redemption_count == 1
        }),
{
    let events = seq![RedemptionEvent::Close { close_accounts: c }, RedemptionEvent::Redeem { redeem_accounts: a, amount, now }];
    assert(events.drop_last() =~= seq![RedemptionEvent::Close { close_accounts: c }]);
    assert(events.drop_last().drop_last() =~= Seq::<RedemptionEvent>::empty());
    let l1 = run_events(l, events.drop_last())->Ok_0;
    assert(!l1.1.contains_key(a.user@));
}

} // verus!
