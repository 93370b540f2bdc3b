use vstd::prelude::*;

use crate::error::CrowdFundError;

verus! {

/// Lifecycle of a campaign, strictly ordered from open to ended.
#[derive(Clone, Copy, Debug, PartialEq, Eq, Structural)]
pub enum Status {
    DonationsOpen,
    DonationsClosed,
    CampaignEnded,
}

pub const TAG_OPEN: u8 = 1;
pub const TAG_CLOSED: u8 = 2;
pub const TAG_ENDED: u8 = 3;

/// The persisted tag of each state.
pub open spec fn tag_of(s: Status) -> u8 {
    match s {
        Status::DonationsOpen => TAG_OPEN,
        Status::DonationsClosed => TAG_CLOSED,
        Status::CampaignEnded => TAG_ENDED,
    }
}

/// A tag that some state encodes to.
pub open spec fn valid_tag(t: u8) -> bool {
    TAG_OPEN <= t <= TAG_ENDED
}

/// The state that a valid tag stands for.
pub open spec fn status_of(t: u8) -> Status
    recommends
        valid_tag(t),
{
    if t == TAG_OPEN {
        Status::DonationsOpen
    } else if t == TAG_CLOSED {
        Status::DonationsClosed
    } else {
        Status::CampaignEnded
    }
}

/// Position of a state in the lifecycle; transitions never lower it.
pub open spec fn rank(s: Status) -> nat {
    tag_of(s) as nat
}

impl Status {
    /// Decodes a persisted tag, failing on an unknown one.
    pub fn from(val: u8) -> (r: Result<Status, CrowdFundError>)
        ensures
            valid_tag(val) ==> r == Ok::<Status, CrowdFundError>(status_of(val)),
            !valid_tag(val) ==> r == Err::<Status, CrowdFundError>(CrowdFundError::InvalidStatus),
    {
        match val {
            1 => Ok(Status::DonationsOpen),
            2 => Ok(Status::DonationsClosed),
            3 => Ok(Status::CampaignEnded),
            _ => Err(CrowdFundError::InvalidStatus),
        }
    }

    /// The tag under which this state is persisted.
    pub fn to_u8(&self) -> (r: u8)
        ensures
            r == tag_of(*self),
    {
        match self {
            Status::DonationsOpen => TAG_OPEN,
            Status::DonationsClosed => TAG_CLOSED,
            Status::CampaignEnded => TAG_ENDED,
        }
    }
}

/// Encoding a state and decoding the tag gives the state back.
pub proof fn lemma_tag_round_trip(s: Status)
    ensures
        valid_tag(tag_of(s)),
        status_of(tag_of(s)) == s,
{
}

} // verus!
