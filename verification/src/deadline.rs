//! How long the gateway has to tell the outcome of an HTLC.
use vstd::prelude::*;

use crate::htlc::Htlc;

verus! {

/// How often the height of the chain is read while the gateway decides on an HTLC, in seconds.
pub const BLOCKHEIGHT_INTERVAL_SECS: u64 = 30;

/// How long a block takes to come, on average, in seconds.
pub const BLOCK_SECS: u64 = 600;

/// Until when the gateway has to tell the outcome of an HTLC: the HTLC expires.
///
/// The height of the chain tells when that is. Where it cannot be read, time stands in for it:
/// the readings that fail may add up to as long as the chain takes, on average, to get there.
#[derive(Clone, Copy, Debug, PartialEq, Eq, Structural)]
pub struct Deadline {
    /// The height at which the HTLC expires.
    pub cltv_expiry: u32,
    /// The number of failed readings that are left. The last of them ends the wait, and so does
    /// the first where none was left to begin with.
    pub untold: u64,
}

/// The number of readings in the time that a number of blocks takes to come, on average.
pub open spec fn readings_in(blocks: u32) -> nat {
    (blocks * BLOCK_SECS / (BLOCKHEIGHT_INTERVAL_SECS as int)) as nat
}

impl Deadline {
    /// The deadline of an HTLC.
    pub open spec fn of(htlc: Htlc) -> Deadline {
        Deadline {
            cltv_expiry: htlc.cltv_expiry,
            untold: readings_in(htlc.cltv_expiry_relative) as u64,
        }
    }

    /// Whether the HTLC has expired when the chain is at a height.
    pub open spec fn expired(self, blockheight: u32) -> bool {
        blockheight >= self.cltv_expiry
    }

    /// What is left after the height of the chain was read, or could not be; nothing when the
    /// deadline is over.
    pub open spec fn after(self, blockheight: Option<u32>) -> Option<Deadline> {
        match blockheight {
            Some(height) => if self.expired(height) {
                None
            } else {
                Some(self)
            },
            None => if self.untold <= 1 {
                None
            } else {
                Some(Deadline { untold: (self.untold - 1) as u64, ..self })
            },
        }
    }

    /// The deadline of an HTLC.
    pub fn of_htlc(htlc: &Htlc) -> (r: Deadline)
        ensures
            r == Deadline::of(*htlc),
            r.untold == readings_in(htlc.cltv_expiry_relative),
            r.cltv_expiry == htlc.cltv_expiry,
            r.untold == 20 * htlc.cltv_expiry_relative,
    {
        let secs: u64 = htlc.cltv_expiry_relative as u64 * BLOCK_SECS;
        Deadline { cltv_expiry: htlc.cltv_expiry, untold: secs / BLOCKHEIGHT_INTERVAL_SECS }
    }

    /// Goes on after the height of the chain was read, or could not be.
    pub fn read(self, blockheight: Option<u32>) -> (r: Option<Deadline>)
        ensures
            r == self.after(blockheight),
            blockheight matches Some(height) ==> r == (if height >= self.cltv_expiry {
                None
            } else {
                Some(self)
            }),
            blockheight is None ==> (r is None <==> self.untold <= 1),
            blockheight is None ==> (r matches Some(left) ==> left.untold + 1 == self.untold
                && left.cltv_expiry == self.cltv_expiry),
    {
        match blockheight {
            Some(height) => {
                if height >= self.cltv_expiry {
                    None
                } else {
                    Some(self)
                }
            },
            None => {
                if self.untold <= 1 {
                    None
                } else {
                    Some(Deadline { cltv_expiry: self.cltv_expiry, untold: self.untold - 1 })
                }
            },
        }
    }
}

/// The deadline of an HTLC is the height at which it expires. The readings that may fail are twenty
/// to a block.
pub proof fn law_deadline_is_the_expiry(htlc: Htlc)
    ensures
        Deadline::of(htlc).cltv_expiry == htlc.cltv_expiry,
        Deadline::of(htlc).untold == 20 * htlc.cltv_expiry_relative,
{
}

/// The deadline is over with the first height that is not below the expiry, and no other height
/// touches it. A reading that failed takes away one of those that may fail, and the last of them
/// ends it.
pub proof fn law_deadline_ends_at_the_expiry(deadline: Deadline, blockheight: u32)
    ensures
        deadline.expired(blockheight) <==> blockheight >= deadline.cltv_expiry,
        blockheight >= deadline.cltv_expiry <==> deadline.after(Some(blockheight)) is None,
        blockheight < deadline.cltv_expiry <==> deadline.after(Some(blockheight)) == Some(deadline),
        deadline.untold <= 1 <==> deadline.after(None) is None,
        deadline.after(None) matches Some(left) ==> left.untold + 1 == deadline.untold
            && left.cltv_expiry == deadline.cltv_expiry,
{
}

} // verus!
