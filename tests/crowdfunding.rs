use crowdfunding::{
    donate, reconcile, start_fundraiser, withdraw, Address, CrowdFundError, Donate, Failure,
    Fundraiser, StartFundraiser, Status, TokenAccount, Withdraw, FUNDRAISER_LEN,
};

fn key(n: u128) -> Address {
    Address { hi: n, lo: n * 7 + 1 }
}

fn owner() -> Address {
    key(1)
}

fn pot_key() -> Address {
    key(2)
}

fn mint() -> Address {
    key(3)
}

fn other_mint() -> Address {
    key(4)
}

fn donor() -> Address {
    key(5)
}

fn fresh_ctx() -> StartFundraiser {
    StartFundraiser {
        fund_starter: owner(),
        fundraiser_state: None,
        receiving_wallet_key: pot_key(),
        receiving_wallet: None,
        bump: 254,
    }
}

fn started(target: u64, description: &str) -> (Fundraiser, TokenAccount) {
    let mut ctx = fresh_ctx();
    start_fundraiser(&mut ctx, description.to_string(), target, mint()).unwrap();
    (ctx.fundraiser_state.unwrap(), ctx.receiving_wallet.unwrap())
}

fn donor_wallet(amount: u64) -> TokenAccount {
    TokenAccount { mint: mint(), owner: donor(), amount }
}

fn donate_ctx(record: Fundraiser, pot: Option<TokenAccount>, from: TokenAccount) -> Donate {
    Donate { fundraiser_state: record, receiving_wallet: pot, donator: donor(), donator_wallet: from }
}

fn withdraw_ctx(record: Fundraiser, pot: Option<TokenAccount>, signer: Address) -> Withdraw {
    Withdraw {
        fundraiser_state: record,
        receiving_wallet: pot,
        fund_starter: signer,
        wallet_to_withdraw_to: TokenAccount { mint: mint(), owner: signer, amount: 0 },
    }
}

#[test]
fn start_sets_fresh_record() {
    let mut ctx = fresh_ctx();
    assert_eq!(start_fundraiser(&mut ctx, "help".to_string(), 1000, mint()), Ok(()));
    let f = ctx.fundraiser_state.unwrap();
    assert_eq!(f.balance, 0);
    assert_eq!(f.status, Status::DonationsOpen.to_u8());
    assert_eq!(f.target, 1000);
    assert_eq!(f.description, "help");
    assert_eq!(f.fund_starter, owner());
    assert_eq!(f.receiving_wallet, pot_key());
    assert_eq!(f.token_mint, mint());
    assert_eq!(f.bump, 254);
    assert_eq!(ctx.receiving_wallet, Some(TokenAccount { mint: mint(), owner: owner(), amount: 0 }));
}

#[test]
fn zero_target_is_refused_and_nothing_is_written() {
    let mut ctx = fresh_ctx();
    let r = start_fundraiser(&mut ctx, "help".to_string(), 0, mint());
    assert_eq!(r, Err(Failure::Program(CrowdFundError::InvalidTarget)));
    assert!(ctx.fundraiser_state.is_none());
    assert!(ctx.receiving_wallet.is_none());
}

#[test]
fn description_limit_counts_characters() {
    let exact: String = "é".repeat(200);
    let mut ctx = fresh_ctx();
    assert_eq!(start_fundraiser(&mut ctx, exact, 1, mint()), Ok(()));

    let long: String = "a".repeat(201);
    let mut ctx = fresh_ctx();
    let r = start_fundraiser(&mut ctx, long, 1, mint());
    assert_eq!(r, Err(Failure::Program(CrowdFundError::DescriptionTooLong)));
    assert!(ctx.fundraiser_state.is_none());
}

#[test]
fn second_start_for_same_owner_is_refused() {
    let mut ctx = fresh_ctx();
    start_fundraiser(&mut ctx, "one".to_string(), 10, mint()).unwrap();
    let r = start_fundraiser(&mut ctx, "two".to_string(), 20, mint());
    assert_eq!(r, Err(Failure::AccountInUse));
    assert_eq!(ctx.fundraiser_state.unwrap().description, "one");
}

#[test]
fn donations_accumulate_in_balance_and_wallet() {
    let (record, pot) = started(1_000_000, "help");
    let mut ctx = donate_ctx(record, Some(pot), donor_wallet(100));
    let mut sum: u64 = 0;
    for d in [5u64, 0, 17, 40] {
        donate(&mut ctx, d).unwrap();
        sum += d;
        assert_eq!(ctx.fundraiser_state.balance, sum);
        assert_eq!(ctx.receiving_wallet.unwrap().amount, sum);
    }
    assert_eq!(ctx.donator_wallet.amount, 100 - sum);
    assert_eq!(ctx.fundraiser_state.status, Status::DonationsOpen.to_u8());
}

#[test]
fn help_campaign_end_to_end() {
    let (record, pot) = started(1000, "help");
    let mut d = donate_ctx(record, Some(pot), donor_wallet(5000));
    donate(&mut d, 400).unwrap();
    donate(&mut d, 600).unwrap();
    assert_eq!(d.fundraiser_state.balance, 1000);
    assert_eq!(d.receiving_wallet.unwrap().amount, 1000);

    let mut w = withdraw_ctx(d.fundraiser_state, d.receiving_wallet, owner());
    assert_eq!(withdraw(&mut w), Ok(()));
    assert_eq!(w.wallet_to_withdraw_to.amount, 1000);
    assert!(w.receiving_wallet.is_none());
    assert_eq!(w.fundraiser_state.status, Status::CampaignEnded.to_u8());
}

#[test]
fn reaching_target_closes_donations() {
    let (record, pot) = started(1000, "help");
    let mut d = donate_ctx(record, Some(pot), donor_wallet(5000));
    donate(&mut d, 999).unwrap();
    assert_eq!(d.fundraiser_state.status, Status::DonationsOpen.to_u8());
    donate(&mut d, 1).unwrap();
    assert_eq!(d.fundraiser_state.status, Status::DonationsClosed.to_u8());
    assert_eq!(donate(&mut d, 1), Err(Failure::Program(CrowdFundError::ClosedToDonations)));
    assert_eq!(d.fundraiser_state.balance, 1000);
    assert_eq!(d.receiving_wallet.unwrap().amount, 1000);
    assert_eq!(d.donator_wallet.amount, 4000);
}

#[test]
fn ended_campaign_refuses_donations() {
    let (mut record, pot) = started(1000, "help");
    record.status = Status::CampaignEnded.to_u8();
    let mut d = donate_ctx(record, Some(pot), donor_wallet(50));
    assert_eq!(donate(&mut d, 10), Err(Failure::Program(CrowdFundError::ClosedToDonations)));
    assert_eq!(d.fundraiser_state.balance, 0);
    assert_eq!(d.receiving_wallet.unwrap().amount, 0);
    assert_eq!(d.donator_wallet.amount, 50);
}

#[test]
fn unknown_status_tag_is_refused() {
    let (mut record, pot) = started(1000, "help");
    record.status = 9;
    let mut d = donate_ctx(record, Some(pot), donor_wallet(50));
    assert_eq!(donate(&mut d, 10), Err(Failure::Program(CrowdFundError::InvalidStatus)));
    let (mut record, pot) = started(1000, "help");
    record.status = 0;
    let mut w = withdraw_ctx(record, Some(pot), owner());
    assert_eq!(withdraw(&mut w), Err(Failure::Program(CrowdFundError::InvalidStatus)));
}

#[test]
fn mismatched_token_donation_fails_before_any_change() {
    let (record, pot) = started(1000, "help");
    let from = TokenAccount { mint: other_mint(), owner: donor(), amount: 500 };
    let mut d = donate_ctx(record, Some(pot), from);
    assert_eq!(donate(&mut d, 100), Err(Failure::MintMismatch));
    assert_eq!(d.fundraiser_state.balance, 0);
    assert_eq!(d.receiving_wallet.unwrap().amount, 0);
    assert_eq!(d.donator_wallet.amount, 500);
}

#[test]
fn donor_must_own_the_wallet() {
    let (record, pot) = started(1000, "help");
    let from = TokenAccount { mint: mint(), owner: key(9), amount: 500 };
    let mut d = donate_ctx(record, Some(pot), from);
    assert_eq!(donate(&mut d, 100), Err(Failure::OwnerMismatch));
}

#[test]
fn donation_beyond_wallet_is_refused() {
    let (record, pot) = started(1000, "help");
    let mut d = donate_ctx(record, Some(pot), donor_wallet(50));
    assert_eq!(donate(&mut d, 51), Err(Failure::InsufficientFunds));
    assert_eq!(d.donator_wallet.amount, 50);
}

#[test]
fn donation_overflow_is_refused() {
    let (mut record, mut pot) = started(u64::MAX, "help");
    record.balance = u64::MAX - 1;
    pot.amount = u64::MAX - 1;
    let mut d = donate_ctx(record, Some(pot), donor_wallet(10));
    assert_eq!(donate(&mut d, 2), Err(Failure::Overflow));
    assert_eq!(d.fundraiser_state.balance, u64::MAX - 1);
}

#[test]
fn drifted_balance_is_reported() {
    let (record, mut pot) = started(1000, "help");
    pot.amount = 3;
    let mut d = donate_ctx(record, Some(pot), donor_wallet(10));
    assert_eq!(donate(&mut d, 2), Err(Failure::Program(CrowdFundError::ErroneousBalance)));
    assert_eq!(d.fundraiser_state.balance, 0);
    assert_eq!(d.receiving_wallet.unwrap().amount, 3);
    assert_eq!(d.donator_wallet.amount, 10);
}

#[test]
fn donation_to_closed_wallet_is_refused() {
    let (record, _) = started(1000, "help");
    let mut d = donate_ctx(record, None, donor_wallet(10));
    assert_eq!(donate(&mut d, 2), Err(Failure::WalletClosed));
}

#[test]
fn stranger_cannot_withdraw() {
    let (record, mut pot) = started(1000, "help");
    pot.amount = 700;
    let mut w = withdraw_ctx(record, Some(pot), key(9));
    assert_eq!(withdraw(&mut w), Err(Failure::Unauthorized));
    assert_eq!(w.receiving_wallet.unwrap().amount, 700);
    assert_eq!(w.wallet_to_withdraw_to.amount, 0);
    assert_eq!(w.fundraiser_state.status, Status::DonationsOpen.to_u8());
}

#[test]
fn withdraw_needs_matching_destination() {
    let (record, pot) = started(1000, "help");
    let mut w = withdraw_ctx(record, Some(pot), owner());
    w.wallet_to_withdraw_to.mint = other_mint();
    assert_eq!(withdraw(&mut w), Err(Failure::MintMismatch));
    let (record, pot) = started(1000, "help");
    let mut w = withdraw_ctx(record, Some(pot), owner());
    w.wallet_to_withdraw_to.owner = key(9);
    assert_eq!(withdraw(&mut w), Err(Failure::OwnerMismatch));
}

#[test]
fn withdraw_twice_fails_cleanly() {
    let (record, mut pot) = started(1000, "help");
    pot.amount = 250;
    let mut w = withdraw_ctx(record, Some(pot), owner());
    w.wallet_to_withdraw_to.amount = 50;
    assert_eq!(withdraw(&mut w), Ok(()));
    assert_eq!(w.wallet_to_withdraw_to.amount, 300);
    assert!(w.receiving_wallet.is_none());
    assert_eq!(withdraw(&mut w), Err(Failure::WalletClosed));
    assert_eq!(w.wallet_to_withdraw_to.amount, 300);
}

#[test]
fn withdraw_of_empty_wallet_closes_it() {
    let (record, pot) = started(1000, "help");
    let mut w = withdraw_ctx(record, Some(pot), owner());
    assert_eq!(withdraw(&mut w), Ok(()));
    assert!(w.receiving_wallet.is_none());
    assert_eq!(w.wallet_to_withdraw_to.amount, 0);
    assert_eq!(w.fundraiser_state.status, Status::CampaignEnded.to_u8());
}

#[test]
fn withdraw_overflow_is_refused() {
    let (record, mut pot) = started(1000, "help");
    pot.amount = 2;
    let mut w = withdraw_ctx(record, Some(pot), owner());
    w.wallet_to_withdraw_to.amount = u64::MAX;
    assert_eq!(withdraw(&mut w), Err(Failure::Overflow));
    assert_eq!(w.receiving_wallet.unwrap().amount, 2);
}

#[test]
fn status_tags_round_trip() {
    for s in [Status::DonationsOpen, Status::DonationsClosed, Status::CampaignEnded] {
        assert_eq!(Status::from(s.to_u8()), Ok(s));
    }
    assert_eq!(Status::DonationsOpen.to_u8(), 1);
    assert_eq!(Status::DonationsClosed.to_u8(), 2);
    assert_eq!(Status::CampaignEnded.to_u8(), 3);
    assert_eq!(Status::from(0), Err(CrowdFundError::InvalidStatus));
    assert_eq!(Status::from(4), Err(CrowdFundError::InvalidStatus));
}

#[test]
fn reconcile_compares_balance_with_wallet() {
    let w = TokenAccount { mint: mint(), owner: owner(), amount: 42 };
    assert_eq!(reconcile(42, &w), Ok(()));
    assert_eq!(reconcile(41, &w), Err(CrowdFundError::ErroneousBalance));
}

#[test]
fn record_size_is_fixed() {
    assert_eq!(FUNDRAISER_LEN, 96 + 204 + 16 + 2 + 8);
}
