use vstd::prelude::*;

use crate::accounts::{Address, TokenAccount};
use crate::error::CrowdFundError;
use crate::status::valid_tag;

verus! {

/// Longest description accepted, in characters.
pub const MAX_DESCRIPTION_LEN: usize = 200;

/// Bytes an account identity takes in storage.
pub const PUBKEY_LEN: usize = 32;

/// Bytes the description takes in storage: a 4-byte length and its text.
pub const STRING_LEN: usize = MAX_DESCRIPTION_LEN + 4;

/// Bytes a 64-bit integer takes in storage.
pub const UNSIGNED_64_LEN: usize = 8;

/// Bytes of the account-type tag that precedes a stored record.
pub const DISCRIMINATOR_LEN: usize = 8;

/// Bytes of the bump seed and of the status tag.
pub const TAG_FIELDS_LEN: usize = 2;

/// The fixed size of a stored fundraiser record.
pub const FUNDRAISER_LEN: usize = PUBKEY_LEN * 3 + STRING_LEN + UNSIGNED_64_LEN * 2
    + TAG_FIELDS_LEN + DISCRIMINATOR_LEN;

/// The persistent record of one campaign.
pub struct Fundraiser {
    /// The identity that started the campaign.
    pub fund_starter: Address,
    /// The custodial wallet that receives the donations.
    pub receiving_wallet: Address,
    /// What the campaign is for.
    pub description: String,
    /// The amount the campaign seeks to raise.
    pub target: u64,
    /// The donations received so far.
    pub balance: u64,
    /// The token type the campaign accepts.
    pub token_mint: Address,
    /// The bump seed of the record's derived address.
    pub bump: u8,
    /// The lifecycle state, as its persisted tag.
    pub status: u8,
}

impl Fundraiser {
    /// What every record satisfies from its creation on.
    pub open spec fn wf(&self) -> bool {
        &&& self.target > 0
        &&& self.description@.len() <= MAX_DESCRIPTION_LEN
        &&& valid_tag(self.status)
    }

}

/// Checks after a transfer that the tracked balance equals what the
/// custodial wallet really holds.
pub fn reconcile(balance: u64, wallet: &TokenAccount) -> (r: Result<(), CrowdFundError>)
    ensures
        r is Ok <==> balance == wallet.amount,
        r is Err ==> r == Err::<(), CrowdFundError>(CrowdFundError::ErroneousBalance),
{
    if balance == wallet.amount {
        Ok(())
    } else {
        Err(CrowdFundError::ErroneousBalance)
    }
}

} // verus!
