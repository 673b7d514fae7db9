use meat_coin::{
    change_admin, close_redemption_record, find_associated_address, find_record_address,
    find_state_address, initialize, mint, process_change_admin, process_close, process_mint,
    process_redeem, redeem, state_address, ChangeAdmin, CloseRedemptionRecord, CustomError,
    Identity, Initialize, LedgerCall, MintTokens, RedeemTokens, RedemptionRecord, State,
};

fn id(b: u8) -> Identity {
    Identity::new([b; 32])
}

const PROGRAM: u8 = 9;
const TOKEN_PROGRAM: u8 = 6;
const ATA_PROGRAM: u8 = 8;
const MINT: u8 = 7;

struct Setup {
    state: Option<State>,
    state_key: Identity,
    treasury: Identity,
}

fn setup(admin: Identity) -> Setup {
    let program = id(PROGRAM);
    let (state_key, _) = find_state_address(&program).unwrap();
    let (treasury, _) =
        find_associated_address(&state_key, &id(TOKEN_PROGRAM), &id(MINT), &id(ATA_PROGRAM)).unwrap();
    let accounts = Initialize {
        program_id: program,
        state: state_key,
        mint: id(MINT),
        treasury,
        admin,
        token_program: id(TOKEN_PROGRAM),
        associated_token_program: id(ATA_PROGRAM),
    };
    let mut state = None;
    let call = initialize(&mut state, &accounts).unwrap();
    match call {
        LedgerCall::SetMintAuthority { mint, current_authority, new_authority } => {
            assert!(mint == id(MINT));
            assert!(current_authority == admin);
            assert!(new_authority == state_key);
        }
        _ => panic!("initialize must ask for an authority change"),
    }
    Setup { state, state_key, treasury }
}

fn mint_accounts(st: &Setup, admin: Identity, recipient: Identity) -> MintTokens {
    MintTokens { program_id: id(PROGRAM), state: st.state_key, mint: id(MINT), recipient, admin }
}

fn redeem_accounts(st: &Setup, user: Identity, from: Identity, treasury: Identity) -> RedeemTokens {
    let (record_key, _) = find_record_address(&id(PROGRAM), &user).unwrap();
    RedeemTokens {
        program_id: id(PROGRAM),
        state: st.state_key,
        from,
        from_owner: user,
        treasury,
        redemption_record: record_key,
        user,
    }
}

fn close_accounts(user: Identity) -> CloseRedemptionRecord {
    let (record_key, _) = find_record_address(&id(PROGRAM), &user).unwrap();
    CloseRedemptionRecord { program_id: id(PROGRAM), redemption_record: record_key, user }
}

fn plain_state(admin: Identity) -> State {
    State { admin, minted: 0, redeemed: 0, treasury: id(50), bump: 255 }
}

#[test]
fn scenario_mint_redeem_change_admin() {
    let a = id(1);
    let b = id(2);
    let r = id(3);
    let r_token = id(4);
    let mut st = setup(a);
    let mut state = st.state.take().unwrap();
    assert_eq!(state.minted, 0);
    assert_eq!(state.redeemed, 0);
    assert!(state.admin == a);
    assert!(state.treasury == st.treasury);

    let call = mint(&mut state, &mint_accounts(&st, a, r_token), 100).unwrap();
    match call {
        LedgerCall::MintTo { to, authority, amount, bump, .. } => {
            assert!(to == r_token);
            assert!(authority == st.state_key);
            assert_eq!(amount, 100);
            assert_eq!(bump, state.bump);
        }
        _ => panic!("mint must ask for a mint"),
    }
    assert_eq!(state.minted, 100);

    let mut record: Option<RedemptionRecord> = None;
    let ra = redeem_accounts(&st, r, r_token, st.treasury);
    let call = redeem(&mut state, &mut record, &ra, 40, 1000).unwrap();
    match call {
        LedgerCall::Transfer { from, to, authority, amount } => {
            assert!(from == r_token);
            assert!(to == st.treasury);
            assert!(authority == r);
            assert_eq!(amount, 40);
        }
        _ => panic!("redeem must ask for a transfer"),
    }
    assert_eq!(state.redeemed, 40);
    let rec = record.unwrap();
    assert_eq!(rec.amount, 40);
    assert_eq!(rec.redemption_count, 1);
    assert_eq!(rec.timestamp, 1000);
    assert!(rec.user == r);

    redeem(&mut state, &mut record, &ra, 10, 2000).unwrap();
    assert_eq!(state.redeemed, 50);
    let rec = record.unwrap();
    assert_eq!(rec.amount, 50);
    assert_eq!(rec.redemption_count, 2);
    assert_eq!(rec.timestamp, 2000);

    let ca = ChangeAdmin { program_id: id(PROGRAM), state: st.state_key, current_admin: a };
    change_admin(&mut state, &ca, b).unwrap();
    assert!(state.admin == b);

    let refused = mint(&mut state, &mint_accounts(&st, a, r_token), 5);
    assert!(matches!(refused, Err(CustomError::Unauthorized)));
    assert_eq!(state.minted, 100);

    mint(&mut state, &mint_accounts(&st, b, r_token), 5).unwrap();
    assert_eq!(state.minted, 105);
}

#[test]
fn initialize_twice_is_refused() {
    let a = id(1);
    let st = setup(a);
    let mut state = st.state;
    let before = state.unwrap();
    let accounts = Initialize {
        program_id: id(PROGRAM),
        state: st.state_key,
        mint: id(MINT),
        treasury: st.treasury,
        admin: id(2),
        token_program: id(TOKEN_PROGRAM),
        associated_token_program: id(ATA_PROGRAM),
    };
    let r = initialize(&mut state, &accounts);
    assert!(matches!(r, Err(CustomError::AccountAlreadyInitialized)));
    assert!(state.unwrap().admin == before.admin);
}

#[test]
fn initialize_at_wrong_address_is_refused() {
    let mut state = None;
    let (state_key, _) = find_state_address(&id(PROGRAM)).unwrap();
    let (treasury, _) =
        find_associated_address(&state_key, &id(TOKEN_PROGRAM), &id(MINT), &id(ATA_PROGRAM)).unwrap();
    let wrong_state = Initialize {
        program_id: id(PROGRAM),
        state: id(40),
        mint: id(MINT),
        treasury,
        admin: id(1),
        token_program: id(TOKEN_PROGRAM),
        associated_token_program: id(ATA_PROGRAM),
    };
    assert!(matches!(initialize(&mut state, &wrong_state), Err(CustomError::ConstraintSeeds)));
    assert!(state.is_none());
    let wrong_treasury = Initialize { state: state_key, treasury: id(41), ..wrong_state };
    assert!(matches!(initialize(&mut state, &wrong_treasury), Err(CustomError::ConstraintSeeds)));
    assert!(state.is_none());
}

#[test]
fn state_address_is_derived_not_copied() {
    let program = id(PROGRAM);
    let (key, bump) = find_state_address(&program).unwrap();
    assert!(!(key == program));
    let again = state_address(&program, bump).unwrap();
    assert!(again == key);
    let other = find_state_address(&id(10)).unwrap();
    assert!(!(other.0 == key));
}

#[test]
fn record_address_depends_on_user() {
    let (k1, _) = find_record_address(&id(PROGRAM), &id(1)).unwrap();
    let (k2, _) = find_record_address(&id(PROGRAM), &id(2)).unwrap();
    assert!(!(k1 == k2));
    assert!(!(k1 == id(1)));
}

#[test]
fn mint_with_wrong_state_account_is_refused() {
    let a = id(1);
    let mut st = setup(a);
    let mut state = st.state.take().unwrap();
    let mut accounts = mint_accounts(&st, a, id(4));
    accounts.state = id(44);
    assert!(matches!(mint(&mut state, &accounts, 5), Err(CustomError::ConstraintSeeds)));
    assert_eq!(state.minted, 0);
}

#[test]
fn zero_mint_is_refused() {
    let a = id(1);
    let mut state = plain_state(a);
    state.minted = 7;
    let accounts = MintTokens { program_id: id(PROGRAM), state: id(11), mint: id(MINT), recipient: id(4), admin: a };
    assert!(matches!(process_mint(&mut state, &accounts, 0), Err(CustomError::InvalidAmount)));
    assert_eq!(state.minted, 7);
}

#[test]
fn non_admin_mint_is_refused() {
    let mut state = plain_state(id(1));
    let accounts = MintTokens { program_id: id(PROGRAM), state: id(11), mint: id(MINT), recipient: id(4), admin: id(2) };
    assert!(matches!(process_mint(&mut state, &accounts, 10), Err(CustomError::Unauthorized)));
    assert!(matches!(process_mint(&mut state, &accounts, 0), Err(CustomError::Unauthorized)));
    assert_eq!(state.minted, 0);
}

#[test]
fn overflowing_mint_is_refused() {
    let a = id(1);
    let mut state = plain_state(a);
    state.minted = u64::MAX - 3;
    let accounts = MintTokens { program_id: id(PROGRAM), state: id(11), mint: id(MINT), recipient: id(4), admin: a };
    assert!(matches!(process_mint(&mut state, &accounts, 4), Err(CustomError::Overflow)));
    assert_eq!(state.minted, u64::MAX - 3);
    process_mint(&mut state, &accounts, 3).unwrap();
    assert_eq!(state.minted, u64::MAX);
}

#[test]
fn minted_is_sum_of_mints() {
    let a = id(1);
    let mut state = plain_state(a);
    let accounts = MintTokens { program_id: id(PROGRAM), state: id(11), mint: id(MINT), recipient: id(4), admin: a };
    let mut total: u64 = 0;
    for amount in [1u64, 20, 300, 4000, 50000] {
        process_mint(&mut state, &accounts, amount).unwrap();
        total += amount;
    }
    assert_eq!(state.minted, total);
    assert_eq!(state.minted, 54321);
    assert_eq!(state.redeemed, 0);
}

fn plain_redeem(user: Identity, treasury: Identity) -> RedeemTokens {
    RedeemTokens {
        program_id: id(PROGRAM),
        state: id(11),
        from: id(20),
        from_owner: user,
        treasury,
        redemption_record: id(12),
        user,
    }
}

#[test]
fn redeem_from_foreign_account_is_refused() {
    let mut state = plain_state(id(1));
    let mut record: Option<RedemptionRecord> = None;
    let mut accounts = plain_redeem(id(3), state.treasury);
    accounts.from_owner = id(5);
    let r = process_redeem(&mut state, &mut record, &accounts, 10, 1);
    assert!(matches!(r, Err(CustomError::InvalidTokenAccount)));
    assert_eq!(state.redeemed, 0);
    assert!(record.is_none());
}

#[test]
fn redeem_to_wrong_treasury_is_refused() {
    let mut state = plain_state(id(1));
    let mut record: Option<RedemptionRecord> = None;
    let accounts = plain_redeem(id(3), id(51));
    let r = process_redeem(&mut state, &mut record, &accounts, 10, 1);
    assert!(matches!(r, Err(CustomError::InvalidTreasury)));
    assert_eq!(state.redeemed, 0);
    assert!(record.is_none());
}

#[test]
fn zero_redeem_is_refused() {
    let mut state = plain_state(id(1));
    let mut record: Option<RedemptionRecord> = None;
    let accounts = plain_redeem(id(3), state.treasury);
    let r = process_redeem(&mut state, &mut record, &accounts, 0, 1);
    assert!(matches!(r, Err(CustomError::InvalidAmount)));
}

#[test]
fn overflowing_redeem_is_refused() {
    let mut state = plain_state(id(1));
    let accounts = plain_redeem(id(3), state.treasury);
    state.redeemed = u64::MAX;
    let mut record: Option<RedemptionRecord> = None;
    assert!(matches!(process_redeem(&mut state, &mut record, &accounts, 1, 1), Err(CustomError::Overflow)));
    assert!(record.is_none());

    state.redeemed = 0;
    let full = RedemptionRecord { user: id(3), amount: u64::MAX, timestamp: 5, redemption_count: 2 };
    let mut record = Some(full);
    assert!(matches!(process_redeem(&mut state, &mut record, &accounts, 1, 9), Err(CustomError::Overflow)));
    assert_eq!(state.redeemed, 0);
    assert_eq!(record.unwrap().timestamp, 5);

    let busy = RedemptionRecord { user: id(3), amount: 0, timestamp: 5, redemption_count: u64::MAX };
    let mut record = Some(busy);
    assert!(matches!(process_redeem(&mut state, &mut record, &accounts, 1, 9), Err(CustomError::Overflow)));
    assert_eq!(state.redeemed, 0);
}

#[test]
fn redeem_with_wrong_record_account_is_refused() {
    let a = id(1);
    let mut st = setup(a);
    let mut state = st.state.take().unwrap();
    let mut record: Option<RedemptionRecord> = None;
    let mut accounts = redeem_accounts(&st, id(3), id(4), st.treasury);
    accounts.redemption_record = id(45);
    assert!(matches!(redeem(&mut state, &mut record, &accounts, 5, 1), Err(CustomError::ConstraintSeeds)));
    assert!(record.is_none());
}

#[test]
fn redemptions_are_counted_per_user() {
    let mut state = plain_state(id(1));
    let mut rec_x: Option<RedemptionRecord> = None;
    let mut rec_y: Option<RedemptionRecord> = None;
    let ax = plain_redeem(id(3), state.treasury);
    let ay = plain_redeem(id(4), state.treasury);
    process_redeem(&mut state, &mut rec_x, &ax, 5, 1).unwrap();
    process_redeem(&mut state, &mut rec_y, &ay, 7, 2).unwrap();
    process_redeem(&mut state, &mut rec_x, &ax, 11, 3).unwrap();
    assert_eq!(state.redeemed, 23);
    assert_eq!(rec_x.unwrap().amount, 16);
    assert_eq!(rec_x.unwrap().redemption_count, 2);
    assert_eq!(rec_y.unwrap().amount, 7);
    assert_eq!(rec_y.unwrap().redemption_count, 1);
}

#[test]
fn close_then_redeem_starts_fresh() {
    let a = id(1);
    let user = id(3);
    let mut st = setup(a);
    let mut state = st.state.take().unwrap();
    let mut record: Option<RedemptionRecord> = None;
    let ra = redeem_accounts(&st, user, id(4), st.treasury);
    redeem(&mut state, &mut record, &ra, 40, 1).unwrap();
    redeem(&mut state, &mut record, &ra, 2, 2).unwrap();
    close_redemption_record(&mut record, &close_accounts(user)).unwrap();
    assert!(record.is_none());
    redeem(&mut state, &mut record, &ra, 9, 3).unwrap();
    let rec = record.unwrap();
    assert_eq!(rec.amount, 9);
    assert_eq!(rec.redemption_count, 1);
    assert_eq!(state.redeemed, 51);
}

#[test]
fn close_missing_record_is_refused() {
    let mut record: Option<RedemptionRecord> = None;
    let r = close_redemption_record(&mut record, &close_accounts(id(3)));
    assert!(matches!(r, Err(CustomError::AccountNotInitialized)));
}

#[test]
fn close_of_another_users_record_is_refused() {
    let other = RedemptionRecord { user: id(5), amount: 3, timestamp: 1, redemption_count: 1 };
    let mut record = Some(other);
    let accounts = CloseRedemptionRecord { program_id: id(PROGRAM), redemption_record: id(12), user: id(3) };
    assert!(matches!(process_close(&mut record, &accounts), Err(CustomError::Unauthorized)));
    assert!(record.is_some());
    let mut bad = close_accounts(id(3));
    bad.redemption_record = id(46);
    assert!(matches!(close_redemption_record(&mut record, &bad), Err(CustomError::ConstraintSeeds)));
}

#[test]
fn change_admin_hands_over() {
    let a = id(1);
    let b = id(2);
    let mut state = plain_state(a);
    let by_a = ChangeAdmin { program_id: id(PROGRAM), state: id(11), current_admin: a };
    let by_b = ChangeAdmin { current_admin: b, ..by_a };
    assert!(matches!(process_change_admin(&mut state, &by_b, b), Err(CustomError::Unauthorized)));
    process_change_admin(&mut state, &by_a, b).unwrap();
    assert!(state.admin == b);
    assert!(matches!(process_change_admin(&mut state, &by_a, a), Err(CustomError::Unauthorized)));
    assert!(state.admin == b);
    process_change_admin(&mut state, &by_b, b).unwrap();
    assert!(state.admin == b);
    assert_eq!(state.minted, 0);
    assert!(state.treasury == id(50));
}

#[test]
fn change_admin_with_wrong_state_account_is_refused() {
    let a = id(1);
    let mut st = setup(a);
    let mut state = st.state.take().unwrap();
    let ca = ChangeAdmin { program_id: id(PROGRAM), state: id(47), current_admin: a };
    assert!(matches!(change_admin(&mut state, &ca, id(2)), Err(CustomError::ConstraintSeeds)));
    assert!(state.admin == a);
}

#[test]
fn identity_equality_is_bytewise() {
    let mut bytes = [1u8; 32];
    assert!(Identity::new(bytes) == id(1));
    bytes[31] = 2;
    assert!(!(Identity::new(bytes) == id(1)));
    assert_eq!(Identity::new(bytes).to_bytes(), bytes);
    assert!(Identity::zero() == id(0));
}

#[test]
fn initialize_with_zero_admin_is_refused() {
    let mut state = None;
    let (state_key, _) = find_state_address(&id(PROGRAM)).unwrap();
    let (treasury, _) =
        find_associated_address(&state_key, &id(TOKEN_PROGRAM), &id(MINT), &id(ATA_PROGRAM)).unwrap();
    let accounts = Initialize {
        program_id: id(PROGRAM),
        state: state_key,
        mint: id(MINT),
        treasury,
        admin: Identity::zero(),
        token_program: id(TOKEN_PROGRAM),
        associated_token_program: id(ATA_PROGRAM),
    };
    assert!(matches!(initialize(&mut state, &accounts), Err(CustomError::Unauthorized)));
    assert!(state.is_none());
    assert!(Identity::zero().is_zero());
    assert!(!id(1).is_zero());
}
