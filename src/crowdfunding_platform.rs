use vstd::prelude::*;
use vstd::string::*;

use crate::accounts::{held, Address, TokenAccount};
use crate::error::{CrowdFundError, Failure};
use crate::fundraiser::{reconcile, Fundraiser, MAX_DESCRIPTION_LEN};
use crate::status::{rank, status_of, valid_tag, Status, TAG_CLOSED, TAG_ENDED, TAG_OPEN};

verus! {

/// The accounts that starting a campaign touches.
pub struct StartFundraiser {
    /// The signer, who becomes the campaign's owner.
    pub fund_starter: Address,
    /// The record slot at the address derived from the owner.
    pub fundraiser_state: Option<Fundraiser>,
    /// The address derived from the owner for the custodial wallet.
    pub receiving_wallet_key: Address,
    /// The custodial wallet slot at that address.
    pub receiving_wallet: Option<TokenAccount>,
    /// The bump seed found for the record's address.
    pub bump: u8,
}

/// Why starting a campaign fails, checked in this order; `None` when it succeeds.
pub open spec fn start_error(ctx: StartFundraiser, description: Seq<char>, target: u64) -> Option<
    Failure,
> {
    if ctx.fundraiser_state is Some || ctx.receiving_wallet is Some {
        Some(Failure::AccountInUse)
    } else if target == 0 {
        Some(Failure::Program(CrowdFundError::InvalidTarget))
    } else if description.len() > MAX_DESCRIPTION_LEN {
        Some(Failure::Program(CrowdFundError::DescriptionTooLong))
    } else {
        None
    }
}

/// `f` is the record that a successful start writes.
pub open spec fn fresh_record(
    f: Fundraiser,
    ctx: StartFundraiser,
    description: Seq<char>,
    target: u64,
    token_mint: Address,
) -> bool {
    &&& f.fund_starter == ctx.fund_starter
    &&& f.receiving_wallet == ctx.receiving_wallet_key
    &&& f.description@ == description
    &&& f.target == target
    &&& f.balance == 0
    &&& f.token_mint == token_mint
    &&& f.bump == ctx.bump
    &&& f.status == TAG_OPEN
}

/// Creates the campaign record and its empty custodial wallet, controlled
/// by the owner and holding `token_mint`.
pub fn start_fundraiser(
    ctx: &mut StartFundraiser,
    description: String,
    target: u64,
    token_mint: Address,
) -> (r: Result<(), Failure>)
    ensures
        r is Ok <==> start_error(*old(ctx), description@, target) is None,
        r is Err ==> r == Err::<(), Failure>(start_error(*old(ctx), description@, target)->Some_0)
            && *final(ctx) == *old(ctx),
        r is Ok ==> {
            &&& final(ctx).fund_starter == old(ctx).fund_starter
            &&& final(ctx).receiving_wallet_key == old(ctx).receiving_wallet_key
            &&& final(ctx).bump == old(ctx).bump
            &&& final(ctx).fundraiser_state is Some
            &&& fresh_record(
                final(ctx).fundraiser_state->Some_0,
                *old(ctx),
                description@,
                target,
                token_mint,
            )
            &&& final(ctx).fundraiser_state->Some_0.wf()
            &&& final(ctx).receiving_wallet == Some(
                TokenAccount::new_spec(token_mint, old(ctx).fund_starter),
            )
        },
{
    if ctx.fundraiser_state.is_some() || ctx.receiving_wallet.is_some() {
        return Err(Failure::AccountInUse);
    }
    if target == 0 {
        return Err(Failure::Program(CrowdFundError::InvalidTarget));
    }
    if description.as_str().unicode_len() > MAX_DESCRIPTION_LEN {
        return Err(Failure::Program(CrowdFundError::DescriptionTooLong));
    }
    let record = Fundraiser {
        fund_starter: ctx.fund_starter,
        receiving_wallet: ctx.receiving_wallet_key,
        description,
        target,
        balance: 0,
        token_mint,
        bump: ctx.bump,
        status: Status::DonationsOpen.to_u8(),
    };
    ctx.fundraiser_state = Some(record);
    ctx.receiving_wallet = Some(TokenAccount::new(token_mint, ctx.fund_starter));
    Ok(())
}

/// The accounts that a donation touches.
pub struct Donate {
    /// The campaign record.
    pub fundraiser_state: Fundraiser,
    /// The campaign's custodial wallet, `None` once closed.
    pub receiving_wallet: Option<TokenAccount>,
    /// The signer who gives.
    pub donator: Address,
    /// The wallet the gift comes from.
    pub donator_wallet: TokenAccount,
}

/// Why a donation of `amount` fails, checked in this order; `None` when it succeeds.
pub open spec fn donate_error(ctx: Donate, amount: u64) -> Option<Failure> {
    let f = ctx.fundraiser_state;
    let from = ctx.donator_wallet;
    if !valid_tag(f.status) {
        Some(Failure::Program(CrowdFundError::InvalidStatus))
    } else if f.status != TAG_OPEN {
        Some(Failure::Program(CrowdFundError::ClosedToDonations))
    } else if from.mint != f.token_mint {
        Some(Failure::MintMismatch)
    } else if from.owner != ctx.donator {
        Some(Failure::OwnerMismatch)
    } else if ctx.receiving_wallet is None {
        Some(Failure::WalletClosed)
    } else if ctx.receiving_wallet->Some_0.mint != from.mint {
        Some(Failure::MintMismatch)
    } else if from.amount < amount {
        Some(Failure::InsufficientFunds)
    } else if ctx.receiving_wallet->Some_0.amount + amount > u64::MAX {
        Some(Failure::Overflow)
    } else if f.balance + amount > u64::MAX {
        Some(Failure::Overflow)
    } else if f.balance != ctx.receiving_wallet->Some_0.amount {
        Some(Failure::Program(CrowdFundError::ErroneousBalance))
    } else {
        None
    }
}

/// `post` is `pre` after `amount` moved from the donor to the custodial
/// wallet, the balance grew by it, and the campaign closed if it reached
/// its target.
pub open spec fn donation_applied(pre: Donate, amount: u64, post: Donate) -> bool {
    let f = pre.fundraiser_state;
    let g = post.fundraiser_state;
    let new_balance = f.balance + amount;
    &&& g.fund_starter == f.fund_starter
    &&& g.receiving_wallet == f.receiving_wallet
    &&& g.description == f.description
    &&& g.target == f.target
    &&& g.token_mint == f.token_mint
    &&& g.bump == f.bump
    &&& g.balance == new_balance
    &&& g.status == (if new_balance >= f.target { TAG_CLOSED } else { TAG_OPEN })
    &&& post.receiving_wallet is Some
    &&& post.receiving_wallet->Some_0.mint == pre.receiving_wallet->Some_0.mint
    &&& post.receiving_wallet->Some_0.owner == pre.receiving_wallet->Some_0.owner
    &&& post.receiving_wallet->Some_0.amount == held(pre.receiving_wallet) + amount
    &&& post.donator == pre.donator
    &&& post.donator_wallet.mint == pre.donator_wallet.mint
    &&& post.donator_wallet.owner == pre.donator_wallet.owner
    &&& post.donator_wallet.amount == pre.donator_wallet.amount - amount
}

/// Moves `amount` from the donor's wallet into the custodial wallet and
/// adds it to the campaign's balance; nothing changes when it fails.
pub fn donate(ctx: &mut Donate, amount: u64) -> (r: Result<(), Failure>)
    ensures
        r is Ok <==> donate_error(*old(ctx), amount) is None,
        r is Err ==> r == Err::<(), Failure>(donate_error(*old(ctx), amount)->Some_0)
            && *final(ctx) == *old(ctx),
        r is Ok ==> donation_applied(*old(ctx), amount, *final(ctx)),
        r is Ok ==> final(ctx).fundraiser_state.balance == held(final(ctx).receiving_wallet),
        old(ctx).fundraiser_state.wf() ==> final(ctx).fundraiser_state.wf(),
        valid_tag(old(ctx).fundraiser_state.status) ==> rank(
            status_of(old(ctx).fundraiser_state.status),
        ) <= rank(status_of(final(ctx).fundraiser_state.status)),
{
    let current_status = match Status::from(ctx.fundraiser_state.status) {
        Ok(s) => s,
        Err(e) => return Err(Failure::Program(e)),
    };
    match current_status {
        Status::DonationsOpen => {},
        _ => return Err(Failure::Program(CrowdFundError::ClosedToDonations)),
    }
    if ctx.donator_wallet.mint != ctx.fundraiser_state.token_mint {
        return Err(Failure::MintMismatch);
    }
    if ctx.donator_wallet.owner != ctx.donator {
        return Err(Failure::OwnerMismatch);
    }
    let pot = match ctx.receiving_wallet {
        Some(w) => w,
        None => return Err(Failure::WalletClosed),
    };
    if pot.mint != ctx.donator_wallet.mint {
        return Err(Failure::MintMismatch);
    }
    if ctx.donator_wallet.amount < amount {
        return Err(Failure::InsufficientFunds);
    }
    let pot_amount = match pot.amount.checked_add(amount) {
        Some(a) => a,
        None => return Err(Failure::Overflow),
    };
    let balance = match ctx.fundraiser_state.balance.checked_add(amount) {
        Some(b) => b,
        None => return Err(Failure::Overflow),
    };
    let pot_after = TokenAccount { amount: pot_amount, ..pot };
    if let Err(e) = reconcile(balance, &pot_after) {
        return Err(Failure::Program(e));
    }
    let status = if balance >= ctx.fundraiser_state.target {
        Status::DonationsClosed.to_u8()
    } else {
        Status::DonationsOpen.to_u8()
    };
    ctx.donator_wallet.amount = ctx.donator_wallet.amount - amount;
    ctx.receiving_wallet = Some(pot_after);
    ctx.fundraiser_state.balance = balance;
    ctx.fundraiser_state.status = status;
    Ok(())
}

/// The accounts that a withdrawal touches.
pub struct Withdraw {
    /// The campaign record.
    pub fundraiser_state: Fundraiser,
    /// The campaign's custodial wallet, `None` once closed.
    pub receiving_wallet: Option<TokenAccount>,
    /// The signer, who must be the campaign's owner.
    pub fund_starter: Address,
    /// The owner's wallet that receives the funds.
    pub wallet_to_withdraw_to: TokenAccount,
}

/// Why a withdrawal fails, checked in this order; `None` when it succeeds.
pub open spec fn withdraw_error(ctx: Withdraw) -> Option<Failure> {
    let f = ctx.fundraiser_state;
    let to = ctx.wallet_to_withdraw_to;
    if ctx.fund_starter != f.fund_starter {
        Some(Failure::Unauthorized)
    } else if to.mint != f.token_mint {
        Some(Failure::MintMismatch)
    } else if to.owner != ctx.fund_starter {
        Some(Failure::OwnerMismatch)
    } else if !valid_tag(f.status) {
        Some(Failure::Program(CrowdFundError::InvalidStatus))
    } else if ctx.receiving_wallet is None {
        Some(Failure::WalletClosed)
    } else if ctx.receiving_wallet->Some_0.owner != ctx.fund_starter {
        Some(Failure::Unauthorized)
    } else if ctx.receiving_wallet->Some_0.mint != to.mint {
        Some(Failure::MintMismatch)
    } else if to.amount + ctx.receiving_wallet->Some_0.amount > u64::MAX {
        Some(Failure::Overflow)
    } else {
        None
    }
}

/// Ends the campaign, moves everything the custodial wallet holds to the
/// owner's wallet, and closes the custodial wallet once it is empty;
/// nothing changes when it fails.
pub fn withdraw(ctx: &mut Withdraw) -> (r: Result<(), Failure>)
    ensures
        r is Ok <==> withdraw_error(*old(ctx)) is None,
        r is Err ==> r == Err::<(), Failure>(withdraw_error(*old(ctx))->Some_0)
            && *final(ctx) == *old(ctx),
        r is Ok ==> {
            &&& final(ctx).wallet_to_withdraw_to == (TokenAccount {
                amount: (old(ctx).wallet_to_withdraw_to.amount + held(old(ctx).receiving_wallet))
                    as u64,
                ..old(ctx).wallet_to_withdraw_to
            })
            &&& final(ctx).receiving_wallet is None
            &&& final(ctx).fundraiser_state.status == TAG_ENDED
            &&& final(ctx).fundraiser_state.balance == old(ctx).fundraiser_state.balance
            &&& final(ctx).fundraiser_state.target == old(ctx).fundraiser_state.target
            &&& final(ctx).fundraiser_state.fund_starter == old(ctx).fundraiser_state.fund_starter
            &&& final(ctx).fundraiser_state.receiving_wallet
                == old(ctx).fundraiser_state.receiving_wallet
            &&& final(ctx).fundraiser_state.token_mint == old(ctx).fundraiser_state.token_mint
            &&& final(ctx).fundraiser_state.description == old(ctx).fundraiser_state.description
            &&& final(ctx).fundraiser_state.bump == old(ctx).fundraiser_state.bump
            &&& final(ctx).fund_starter == old(ctx).fund_starter
        },
        old(ctx).fundraiser_state.wf() ==> final(ctx).fundraiser_state.wf(),
        valid_tag(old(ctx).fundraiser_state.status) ==> rank(
            status_of(old(ctx).fundraiser_state.status),
        ) <= rank(status_of(final(ctx).fundraiser_state.status)),
{
    if ctx.fund_starter != ctx.fundraiser_state.fund_starter {
        return Err(Failure::Unauthorized);
    }
    if ctx.wallet_to_withdraw_to.mint != ctx.fundraiser_state.token_mint {
        return Err(Failure::MintMismatch);
    }
    if ctx.wallet_to_withdraw_to.owner != ctx.fund_starter {
        return Err(Failure::OwnerMismatch);
    }
    if let Err(e) = Status::from(ctx.fundraiser_state.status) {
        return Err(Failure::Program(e));
    }
    let pot = match ctx.receiving_wallet {
        Some(w) => w,
        None => return Err(Failure::WalletClosed),
    };
    if pot.owner != ctx.fund_starter {
        return Err(Failure::Unauthorized);
    }
    if pot.mint != ctx.wallet_to_withdraw_to.mint {
        return Err(Failure::MintMismatch);
    }
    // Everything the wallet holds right now is what leaves it.
    let amount_to_withdraw = pot.amount;
    let received = match ctx.wallet_to_withdraw_to.amount.checked_add(amount_to_withdraw) {
        Some(a) => a,
        None => return Err(Failure::Overflow),
    };
    let remaining = pot.amount - amount_to_withdraw;
    ctx.fundraiser_state.status = Status::CampaignEnded.to_u8();
    ctx.wallet_to_withdraw_to.amount = received;
    ctx.receiving_wallet = if remaining == 0 {
        None
    } else {
        Some(TokenAccount { amount: remaining, ..pot })
    };
    Ok(())
}

} // verus!
