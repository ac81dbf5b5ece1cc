//! What the factory reports to its audit log, and the transfers it asks for.
use crate::amount::Amount;
use crate::identity::Identity;
use vstd::prelude::*;

verus! {

/// An entry for the append-only audit log.
#[derive(Clone, Debug)]
pub enum FactoryEvent {
    CreatorRegistered { creator: Identity, name: String },
    TipSent { supporter: Identity, creator: Identity, amount: Amount, message: String },
    PlatformFeeAccrued { supporter: Identity, creator: Identity, fee_amount: Amount },
    TipsWithdrawn { creator: Identity, amount: Amount, platform_fee: Amount },
    CreatorProfileUpdated { creator: Identity },
    PlatformFeeUpdated { old_fee_bps: Amount, new_fee_bps: Amount },
    FeeRecipientUpdated { old_recipient: Identity, new_recipient: Identity },
}

/// Whether `e` records a fee of `fee` taken from a tip by `supporter` to
/// `creator`.
pub open spec fn is_fee_accrued(e: FactoryEvent, supporter: Identity, creator: Identity, fee: nat) -> bool {
    e matches FactoryEvent::PlatformFeeAccrued { supporter: s, creator: c, fee_amount: f } && s
        == supporter && c == creator && f.value() == fee
}

/// A transfer of `amount` to `to`, asked for by a withdrawal after the ledger
/// has already been debited. If the transfer fails, the whole call must be
/// rolled back.
#[derive(Clone, Copy, Debug, PartialEq, Eq, Structural)]
pub struct Payout {
    pub to: Identity,
    pub amount: Amount,
}

impl Payout {
    /// The log entry for a creator's withdrawal, to be written once the
    /// transfer went through; fees were taken at tip time, so it records none.
    pub fn withdrawn_event(&self) -> (r: FactoryEvent)
        ensures
            r matches FactoryEvent::TipsWithdrawn { creator, amount, platform_fee }
                && creator == self.to && amount == self.amount && platform_fee.value() == 0,
    {
        FactoryEvent::TipsWithdrawn {
            creator: self.to,
            amount: self.amount,
            platform_fee: Amount::zero(),
        }
    }
}

} // verus!
