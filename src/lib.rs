//! Bookkeeping for a token crowdfunding campaign: a fundraiser record, its
//! custodial wallet, and the three operations that create, fund and drain it.

pub mod error;
pub mod status;
pub mod accounts;
pub mod fundraiser;
pub mod crowdfunding_platform;
pub mod laws;

pub use accounts::{Address, TokenAccount};
pub use crowdfunding_platform::{
    donate, start_fundraiser, withdraw, Donate, StartFundraiser, Withdraw,
};
pub use error::{CrowdFundError, Failure};
pub use fundraiser::{reconcile, Fundraiser, FUNDRAISER_LEN, MAX_DESCRIPTION_LEN};
pub use status::Status;
