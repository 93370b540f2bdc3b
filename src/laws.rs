use vstd::prelude::*;

use crate::accounts::held;
use crate::crowdfunding_platform::{
    donate_error, donation_applied, start_error, withdraw_error, Donate, StartFundraiser, Withdraw,
};
use crate::error::{CrowdFundError, Failure};
use crate::fundraiser::MAX_DESCRIPTION_LEN;
use crate::status::{TAG_CLOSED, TAG_ENDED};

verus! {

/// The sum of a sequence of amounts.
pub open spec fn total(amounts: Seq<u64>) -> int
    decreases amounts.len(),
{
    if amounts.len() == 0 {
        0
    } else {
        total(amounts.drop_last()) + amounts.last()
    }
}

/// A zero target is refused before anything is written.
pub proof fn lemma_zero_target_refused(ctx: StartFundraiser, description: Seq<char>)
    requires
        ctx.fundraiser_state is None,
        ctx.receiving_wallet is None,
    ensures
        start_error(ctx, description, 0) == Some(Failure::Program(CrowdFundError::InvalidTarget)),
{
}

/// A description longer than the limit is refused.
pub proof fn lemma_long_description_refused(
    ctx: StartFundraiser,
    description: Seq<char>,
    target: u64,
)
    requires
        ctx.fundraiser_state is None,
        ctx.receiving_wallet is None,
        target > 0,
        description.len() > MAX_DESCRIPTION_LEN,
    ensures
        start_error(ctx, description, target) == Some(
            Failure::Program(CrowdFundError::DescriptionTooLong),
        ),
{
}

/// A campaign that is closed or ended refuses every donation, whatever
/// the donor and the amount.
pub proof fn lemma_closed_refuses_donations(ctx: Donate, amount: u64)
    requires
        ctx.fundraiser_state.status == TAG_CLOSED || ctx.fundraiser_state.status == TAG_ENDED,
    ensures
        donate_error(ctx, amount) == Some(Failure::Program(CrowdFundError::ClosedToDonations)),
{
}

/// Only the campaign's owner can withdraw.
pub proof fn lemma_only_owner_withdraws(ctx: Withdraw)
    requires
        ctx.fund_starter != ctx.fundraiser_state.fund_starter,
    ensures
        withdraw_error(ctx) == Some(Failure::Unauthorized),
{
}

/// After each donation of a run of successful donations into a fresh
/// campaign, the balance is the sum of the amounts so far and equals what
/// the custodial wallet holds. `steps[i]` is the state before and after the
/// `i`-th donation; each one starts from the record and wallet the previous
/// one left.
pub proof fn lemma_donations_accumulate(steps: Seq<(Donate, Donate)>, amounts: Seq<u64>)
    requires
        steps.len() == amounts.len(),
        steps.len() > 0 ==> steps[0].0.fundraiser_state.balance == 0 && held(
            steps[0].0.receiving_wallet,
        ) == 0,
        forall|i: int| 0 <= i < steps.len() ==> donation_applied(steps[i].0, amounts[i], steps[i].1),
        forall|i: int|
            0 <= i < steps.len() - 1 ==> steps[i + 1].0.fundraiser_state == steps[i].1.fundraiser_state
                && #[trigger] steps[i + 1].0.receiving_wallet == steps[i].1.receiving_wallet,
    ensures
        forall|i: int|
            0 <= i < steps.len() ==> {
                &&& (#[trigger] steps[i]).1.fundraiser_state.balance == total(amounts.take(i + 1))
                &&& held(steps[i].1.receiving_wallet) == total(amounts.take(i + 1))
            },
{
    assert forall|i: int| 0 <= i < steps.len() implies {
        &&& (#[trigger] steps[i]).1.fundraiser_state.balance == total(amounts.take(i + 1))
        &&& held(steps[i].1.receiving_wallet) == total(amounts.take(i + 1))
    } by {
        lemma_prefix(steps, amounts, i);
    }
}

proof fn lemma_prefix(steps: Seq<(Donate, Donate)>, amounts: Seq<u64>, k: int)
    requires
        0 <= k < steps.len(),
        steps.len() == amounts.len(),
        steps[0].0.fundraiser_state.balance == 0 && held(steps[0].0.receiving_wallet) == 0,
        forall|i: int| 0 <= i < steps.len() ==> donation_applied(steps[i].0, amounts[i], steps[i].1),
        forall|i: int|
            0 <= i < steps.len() - 1 ==> steps[i + 1].0.fundraiser_state == steps[i].1.fundraiser_state
                && #[trigger] steps[i + 1].0.receiving_wallet == steps[i].1.receiving_wallet,
    ensures
        steps[k].1.fundraiser_state.balance == total(amounts.take(k + 1)),
        held(steps[k].1.receiving_wallet) == total(amounts.take(k + 1)),
    decreases k,
{
    assert(amounts.take(k + 1).drop_last() =~= amounts.take(k));
    assert(donation_applied(steps[k].0, amounts[k], steps[k].1));
    if k == 0 {
        assert(amounts.take(0) =~= Seq::<u64>::empty());
        assert(total(amounts.take(0)) == 0);
    } else {
        lemma_prefix(steps, amounts, k - 1);
        assert(steps[k].0.receiving_wallet == steps[k - 1].1.receiving_wallet);
    }
}

} // verus!
