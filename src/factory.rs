//! The factory: creator registry, balance ledger, fee accrual and the
//! owner-gated administration, as one explicit state object. Each operation
//! takes the calling identity (and, for a tip, the value sent) as arguments.
use crate::amount::{amount_modulus, checked_add, greater_than, is_zero, lemma_value_bound, Amount};
use crate::error::FactoryError;
use crate::event::{is_fee_accrued, FactoryEvent, Payout};
use crate::fee::{compute_fee, fee_of, net_of, split_fits, MAX_FEE_BPS};
use crate::identity::Identity;
use crate::profile::{empty_profile, CreatorProfile, ProfileView};
use vstd::prelude::*;

verus! {

/// The text fields of a registered creator's profile.
struct ProfileText {
    name: String,
    bio: String,
    avatar_url: String,
}

/// The counters of a registered creator, and their withdrawable balance.
#[derive(Clone, Copy)]
struct CreatorStats {
    total_tips_received: Amount,
    tip_count: Amount,
    balance: Amount,
}

/// Sum of the withdrawable balances in `s`.
spec fn sum_balances(s: Seq<CreatorStats>) -> nat
    decreases s.len(),
{
    if s.len() == 0 {
        0
    } else {
        sum_balances(s.drop_last()) + s.last().balance.value()
    }
}

proof fn lemma_sum_push(s: Seq<CreatorStats>, x: CreatorStats)
    ensures
        sum_balances(s.push(x)) == sum_balances(s) + x.balance.value(),
{
    assert(s.push(x).drop_last() =~= s);
}

proof fn lemma_sum_update(s: Seq<CreatorStats>, i: int, x: CreatorStats)
    requires
        0 <= i < s.len(),
    ensures
        sum_balances(s.update(i, x)) + s[i].balance.value() == sum_balances(s)
            + x.balance.value(),
    decreases s.len(),
{
    if i == s.len() - 1 {
        assert(s.update(i, x).drop_last() =~= s.drop_last());
    } else {
        lemma_sum_update(s.drop_last(), i, x);
        assert(s.update(i, x).drop_last() =~= s.drop_last().update(i, x));
    }
}

proof fn lemma_sum_prefix(s: Seq<CreatorStats>, j: int)
    requires
        0 <= j <= s.len(),
    ensures
        sum_balances(s.take(j)) <= sum_balances(s),
    decreases s.len(),
{
    if j < s.len() {
        lemma_sum_prefix(s.drop_last(), j);
        assert(s.drop_last().take(j) =~= s.take(j));
    } else {
        assert(s.take(j) =~= s);
    }
}

/// The whole state of the tipping factory.
pub struct CoffeeFactory {
    owner: Identity,
    fee_recipient: Identity,
    platform_fee_basis_points: Amount,
    platform_fees_accrued: Amount,
    /// Registered creators in order of registration; `texts` and `stats`
    /// run parallel to it.
    creators: Vec<Identity>,
    texts: Vec<ProfileText>,
    stats: Vec<CreatorStats>,
    /// Everything ever tipped, and everything ever paid out.
    tipped: Ghost<nat>,
    withdrawn: Ghost<nat>,
}

impl CoffeeFactory {
    pub closed spec fn owner(self) -> Identity {
        self.owner
    }

    pub closed spec fn fee_recipient(self) -> Identity {
        self.fee_recipient
    }

    pub closed spec fn fee_bps(self) -> Amount {
        self.platform_fee_basis_points
    }

    pub closed spec fn fees_accrued(self) -> nat {
        self.platform_fees_accrued.value()
    }

    /// Registered creators, in order of registration.
    pub closed spec fn creators(self) -> Seq<Identity> {
        self.creators@
    }

    pub open spec fn is_registered(self, id: Identity) -> bool {
        self.creators().contains(id)
    }

    /// The position of a registered identity in the registry.
    closed spec fn slot(self, id: Identity) -> int {
        choose|i: int| 0 <= i < self.creators@.len() && self.creators@[i] == id
    }

    /// The identity's withdrawable balance; zero for one never registered.
    pub closed spec fn balance_of(self, id: Identity) -> nat {
        if self.creators@.contains(id) {
            self.stats@[self.slot(id)].balance.value()
        } else {
            0
        }
    }

    /// The identity's profile; empty and inactive for one never registered.
    pub closed spec fn profile_of(self, id: Identity) -> ProfileView {
        if self.creators@.contains(id) {
            let t = self.texts@[self.slot(id)];
            let s = self.stats@[self.slot(id)];
            ProfileView {
                name: t.name@,
                bio: t.bio@,
                avatar_url: t.avatar_url@,
                is_active: true,
                total_tips_received: s.total_tips_received.value(),
                tip_count: s.tip_count.value(),
            }
        } else {
            empty_profile()
        }
    }

    /// Sum of all creators' withdrawable balances.
    pub closed spec fn total_balances(self) -> nat {
        sum_balances(self.stats@)
    }

    /// Sum of every tip ever accepted.
    pub closed spec fn total_tipped(self) -> nat {
        self.tipped@
    }

    /// Sum of every payout ever handed out, to creators and to the platform.
    pub closed spec fn total_withdrawn(self) -> nat {
        self.withdrawn@
    }

    /// The registry is consistent, and value is conserved: what is held plus
    /// what was paid out is exactly what was tipped.
    pub closed spec fn wf(self) -> bool {
        &&& self.texts@.len() == self.creators@.len()
        &&& self.stats@.len() == self.creators@.len()
        &&& forall|i: int, j: int|
            0 <= i < self.creators@.len() && 0 <= j < self.creators@.len() && i != j
                ==> self.creators@[i] != self.creators@[j]
        &&& self.total_balances() + self.fees_accrued() + self.total_withdrawn()
            == self.total_tipped()
    }

    /// The owner, fee recipient, fee rate and accrued fees agree.
    pub open spec fn same_config(self, other: CoffeeFactory) -> bool {
        &&& self.owner() == other.owner()
        &&& self.fee_recipient() == other.fee_recipient()
        &&& self.fee_bps() == other.fee_bps()
        &&& self.fees_accrued() == other.fees_accrued()
    }

    /// The registry, every profile and every balance agree.
    pub open spec fn same_ledger(self, other: CoffeeFactory) -> bool {
        &&& self.creators() == other.creators()
        &&& forall|c: Identity| #[trigger]
            self.profile_of(c) == other.profile_of(c) && self.balance_of(c)
                == other.balance_of(c)
    }

    /// Conservation of value: in every state the operations can reach, the
    /// creators' balances plus the accrued platform fees plus everything paid
    /// out so far add up to exactly the sum of all tips accepted.
    pub proof fn lemma_value_conserved(self)
        requires
            self.wf(),
        ensures
            self.total_balances() + self.fees_accrued() + self.total_withdrawn()
                == self.total_tipped(),
    {
    }

    /// A profile is active exactly when its identity is in the registry, the
    /// registry lists no identity twice, and an identity that never
    /// registered has a zero balance and the empty profile.
    pub proof fn lemma_active_iff_registered(self, c: Identity)
        requires
            self.wf(),
        ensures
            self.profile_of(c).is_active == self.is_registered(c),
            !self.is_registered(c) ==> self.balance_of(c) == 0 && self.profile_of(c)
                == empty_profile(),
            forall|i: int, j: int|
                0 <= i < j < self.creators().len() ==> self.creators()[i] != self.creators()[j],
    {
    }

    proof fn lemma_slot(self, i: int)
        requires
            self.wf(),
            0 <= i < self.creators@.len(),
        ensures
            self.slot(self.creators@[i]) == i,
            self.creators@.contains(self.creators@[i]),
    {
        assert(self.creators@[i] == self.creators@[i]);
    }

    /// A fresh factory: the caller becomes owner and fee recipient, and the
    /// fee rate is taken as given.
    pub fn constructor(caller: Identity, platform_fee_bp: Amount) -> (r: CoffeeFactory)
        ensures
            r.wf(),
            r.owner() == caller,
            r.fee_recipient() == caller,
            r.fee_bps() == platform_fee_bp,
            r.fees_accrued() == 0,
            r.creators() == Seq::<Identity>::empty(),
            r.total_tipped() == 0,
            r.total_withdrawn() == 0,
            forall|c: Identity| r.balance_of(c) == 0 && r.profile_of(c) == empty_profile(),
    {
        let r = CoffeeFactory {
            owner: caller,
            fee_recipient: caller,
            platform_fee_basis_points: platform_fee_bp,
            platform_fees_accrued: Amount::zero(),
            creators: Vec::new(),
            texts: Vec::new(),
            stats: Vec::new(),
            tipped: Ghost(0),
            withdrawn: Ghost(0),
        };
        assert(r.creators@ =~= Seq::<Identity>::empty());
        r
    }

    proof fn lemma_slot_of(self, id: Identity)
        requires
            self.creators@.contains(id),
        ensures
            0 <= self.slot(id) < self.creators@.len(),
            self.creators@[self.slot(id)] == id,
    {
    }

    /// Registers the caller as an active creator with the given profile text
    /// and zeroed counters, appending them to the registry. Fails with
    /// `AlreadyRegistered`, changing nothing, if the caller is already active.
    pub fn register_creator(
        &mut self,
        caller: Identity,
        name: String,
        bio: String,
        avatar_url: String,
    ) -> (r: Result<Vec<FactoryEvent>, FactoryError>)
        requires
            old(self).wf(),
        ensures
            final(self).wf(),
            old(self).is_registered(caller) ==> r == Err::<Vec<FactoryEvent>, FactoryError>(
                FactoryError::AlreadyRegistered,
            ) && *final(self) == *old(self),
            !old(self).is_registered(caller) ==> {
                &&& r matches Ok(evs) && evs@ == seq![
                    FactoryEvent::CreatorRegistered { creator: caller, name },
                ]
                &&& final(self).creators() == old(self).creators().push(caller)
                &&& final(self).profile_of(caller) == (ProfileView {
                    name: name@,
                    bio: bio@,
                    avatar_url: avatar_url@,
                    is_active: true,
                    total_tips_received: 0,
                    tip_count: 0,
                })
                &&& final(self).balance_of(caller) == 0
                &&& forall|c: Identity|
                    c != caller ==> final(self).profile_of(c) == old(self).profile_of(c)
                        && final(self).balance_of(c) == old(self).balance_of(c)
                &&& final(self).same_config(*old(self))
                &&& final(self).total_tipped() == old(self).total_tipped()
                &&& final(self).total_withdrawn() == old(self).total_withdrawn()
            },
    {
        if self.find_creator(caller).is_some() {
            return Err(FactoryError::AlreadyRegistered);
        }
        let zero = Amount::zero();
        let fresh = CreatorStats { total_tips_received: zero, tip_count: zero, balance: zero };
        let event_name = name.clone();
        self.creators.push(caller);
        self.texts.push(ProfileText { name, bio, avatar_url });
        self.stats.push(fresh);
        proof {
            let n = old(self).creators@.len() as int;
            lemma_sum_push(old(self).stats@, fresh);
            assert(self.stats@ =~= old(self).stats@.push(fresh));
            assert(self.wf());
            self.lemma_slot(n);
            assert forall|c: Identity| c != caller implies self.profile_of(c) == old(self).profile_of(
                c,
            ) && self.balance_of(c) == old(self).balance_of(c) by {
                if old(self).creators@.contains(c) {
                    old(self).lemma_slot_of(c);
                    let i = old(self).slot(c);
                    self.lemma_slot(i);
                } else {
                    assert(!self.creators@.contains(c));
                }
            }
        }
        let mut events: Vec<FactoryEvent> = Vec::new();
        events.push(FactoryEvent::CreatorRegistered { creator: caller, name: event_name });
        proof {
            assert(events@ =~= seq![FactoryEvent::CreatorRegistered { creator: caller, name }]);
        }
        Ok(events)
    }

    /// Replaces the caller's profile text, leaving their counters and balance
    /// alone. Fails with `NotRegistered`, changing nothing, if the caller is
    /// not an active creator.
    pub fn update_profile(
        &mut self,
        caller: Identity,
        name: String,
        bio: String,
        avatar_url: String,
    ) -> (r: Result<Vec<FactoryEvent>, FactoryError>)
        requires
            old(self).wf(),
        ensures
            final(self).wf(),
            !old(self).is_registered(caller) ==> r == Err::<Vec<FactoryEvent>, FactoryError>(
                FactoryError::NotRegistered,
            ) && *final(self) == *old(self),
            old(self).is_registered(caller) ==> {
                &&& r matches Ok(evs) && evs@ == seq![
                    FactoryEvent::CreatorProfileUpdated { creator: caller },
                ]
                &&& final(self).creators() == old(self).creators()
                &&& final(self).profile_of(caller) == (ProfileView {
                    name: name@,
                    bio: bio@,
                    avatar_url: avatar_url@,
                    ..old(self).profile_of(caller)
                })
                &&& forall|c: Identity|
                    final(self).balance_of(c) == old(self).balance_of(c) && (c != caller
                        ==> final(self).profile_of(c) == old(self).profile_of(c))
                &&& final(self).same_config(*old(self))
                &&& final(self).total_tipped() == old(self).total_tipped()
                &&& final(self).total_withdrawn() == old(self).total_withdrawn()
            },
    {
        let i = match self.find_creator(caller) {
            Some(i) => i,
            None => return Err(FactoryError::NotRegistered),
        };
        self.texts.set(i, ProfileText { name, bio, avatar_url });
        proof {
            assert forall|c: Identity| c != caller implies self.profile_of(c) == old(self).profile_of(
                c,
            ) by {
                if old(self).creators@.contains(c) {
                    old(self).lemma_slot_of(c);
                }
            }
        }
        let mut events: Vec<FactoryEvent> = Vec::new();
        events.push(FactoryEvent::CreatorProfileUpdated { creator: caller });
        proof {
            assert(events@ =~= seq![FactoryEvent::CreatorProfileUpdated { creator: caller }]);
        }
        Ok(events)
    }

    /// Whether a tip of `amount` to `creator` at the current rate keeps every
    /// counter it touches within 256 bits.
    pub open spec fn tip_fits(self, creator: Identity, amount: nat) -> bool {
        let bps = self.fee_bps().value();
        &&& split_fits(amount, bps)
        &&& self.fees_accrued() + fee_of(amount, bps) < amount_modulus()
        &&& self.balance_of(creator) + net_of(amount, bps) < amount_modulus()
        &&& self.profile_of(creator).total_tips_received + amount < amount_modulus()
        &&& self.profile_of(creator).tip_count + 1 < amount_modulus()
    }

    /// Accepts a tip of `amount` from `supporter` to `creator`: the fee at the
    /// current rate goes to the platform's accrued fees, the rest to the
    /// creator's balance, and the creator's gross total and tip count grow.
    /// Fails, changing nothing, with `ZeroAmount` for an empty tip, with
    /// `CreatorInactive` for an identity that is not an active creator, and
    /// with `Overflow` when a counter would leave 256 bits.
    pub fn tip_creator(
        &mut self,
        supporter: Identity,
        creator: Identity,
        amount: Amount,
        message: String,
    ) -> (r: Result<Vec<FactoryEvent>, FactoryError>)
        requires
            old(self).wf(),
        ensures
            final(self).wf(),
            amount.value() == 0 ==> r == Err::<Vec<FactoryEvent>, FactoryError>(
                FactoryError::ZeroAmount,
            ) && *final(self) == *old(self),
            amount.value() > 0 && !old(self).is_registered(creator) ==> r == Err::<
                Vec<FactoryEvent>,
                FactoryError,
            >(FactoryError::CreatorInactive) && *final(self) == *old(self),
            amount.value() > 0 && old(self).is_registered(creator) && !old(self).tip_fits(
                creator,
                amount.value(),
            ) ==> r == Err::<Vec<FactoryEvent>, FactoryError>(FactoryError::Overflow)
                && *final(self) == *old(self),
            amount.value() > 0 && old(self).is_registered(creator) && old(self).tip_fits(
                creator,
                amount.value(),
            ) ==> {
                let bps = old(self).fee_bps().value();
                let fee = fee_of(amount.value(), bps);
                let net = net_of(amount.value(), bps);
                &&& r matches Ok(evs) && evs@.len() == 2 && evs@[0] == (FactoryEvent::TipSent {
                    supporter,
                    creator,
                    amount,
                    message,
                }) && is_fee_accrued(evs@[1], supporter, creator, fee)
                &&& final(self).creators() == old(self).creators()
                &&& final(self).fees_accrued() == old(self).fees_accrued() + fee
                &&& final(self).balance_of(creator) == old(self).balance_of(creator) + net
                &&& final(self).profile_of(creator) == (ProfileView {
                    total_tips_received: old(self).profile_of(creator).total_tips_received
                        + amount.value(),
                    tip_count: old(self).profile_of(creator).tip_count + 1,
                    ..old(self).profile_of(creator)
                })
                &&& forall|c: Identity|
                    c != creator ==> final(self).profile_of(c) == old(self).profile_of(c)
                        && final(self).balance_of(c) == old(self).balance_of(c)
                &&& final(self).owner() == old(self).owner()
                &&& final(self).fee_recipient() == old(self).fee_recipient()
                &&& final(self).fee_bps() == old(self).fee_bps()
                &&& final(self).total_tipped() == old(self).total_tipped() + amount.value()
                &&& final(self).total_withdrawn() == old(self).total_withdrawn()
            },
    {
        if is_zero(amount) {
            return Err(FactoryError::ZeroAmount);
        }
        let i = match self.find_creator(creator) {
            Some(i) => i,
            None => return Err(FactoryError::CreatorInactive),
        };
        let split = match compute_fee(amount, self.platform_fee_basis_points) {
            Ok(s) => s,
            Err(e) => return Err(e),
        };
        let accrued = match checked_add(self.platform_fees_accrued, split.fee) {
            Some(a) => a,
            None => return Err(FactoryError::Overflow),
        };
        let st = self.stats[i];
        let balance = match checked_add(st.balance, split.net) {
            Some(b) => b,
            None => return Err(FactoryError::Overflow),
        };
        let total = match checked_add(st.total_tips_received, amount) {
            Some(t) => t,
            None => return Err(FactoryError::Overflow),
        };
        let count = match checked_add(st.tip_count, Amount::from_u64(1)) {
            Some(n) => n,
            None => return Err(FactoryError::Overflow),
        };
        let updated = CreatorStats { total_tips_received: total, tip_count: count, balance };
        self.platform_fees_accrued = accrued;
        self.stats.set(i, updated);
        self.tipped = Ghost(self.tipped@ + amount.value());
        proof {
            lemma_sum_update(old(self).stats@, i as int, updated);
            assert forall|c: Identity| c != creator implies self.profile_of(c) == old(
                self,
            ).profile_of(c) && self.balance_of(c) == old(self).balance_of(c) by {
                if old(self).creators@.contains(c) {
                    old(self).lemma_slot_of(c);
                }
            }
        }
        let mut events: Vec<FactoryEvent> = Vec::new();
        events.push(FactoryEvent::TipSent { supporter, creator, amount, message });
        events.push(FactoryEvent::PlatformFeeAccrued { supporter, creator, fee_amount: split.fee });
        Ok(events)
    }

    /// Empties the caller's balance and asks for it to be paid out to them.
    /// The ledger is debited before the payout is handed back, so a call that
    /// re-enters during the transfer finds nothing left. Fails with
    /// `NothingToWithdraw`, changing nothing, when the balance is zero.
    pub fn withdraw_my_tips(&mut self, caller: Identity) -> (r: Result<Payout, FactoryError>)
        requires
            old(self).wf(),
        ensures
            final(self).wf(),
            old(self).balance_of(caller) == 0 ==> r == Err::<Payout, FactoryError>(
                FactoryError::NothingToWithdraw,
            ) && *final(self) == *old(self),
            old(self).balance_of(caller) > 0 ==> {
                &&& r matches Ok(p) && p.to == caller && p.amount.value() == old(self).balance_of(
                    caller,
                )
                &&& final(self).balance_of(caller) == 0
                &&& final(self).creators() == old(self).creators()
                &&& forall|c: Identity|
                    final(self).profile_of(c) == old(self).profile_of(c) && (c != caller
                        ==> final(self).balance_of(c) == old(self).balance_of(c))
                &&& final(self).same_config(*old(self))
                &&& final(self).total_tipped() == old(self).total_tipped()
                &&& final(self).total_withdrawn() == old(self).total_withdrawn() + old(
                    self,
                ).balance_of(caller)
            },
    {
        let i = match self.find_creator(caller) {
            Some(i) => i,
            None => return Err(FactoryError::NothingToWithdraw),
        };
        let st = self.stats[i];
        if is_zero(st.balance) {
            return Err(FactoryError::NothingToWithdraw);
        }
        let drained = CreatorStats { balance: Amount::zero(), ..st };
        self.stats.set(i, drained);
        self.withdrawn = Ghost(self.withdrawn@ + st.balance.value());
        proof {
            lemma_sum_update(old(self).stats@, i as int, drained);
            assert forall|c: Identity| self.profile_of(c) == old(self).profile_of(c) && (c
                != caller ==> self.balance_of(c) == old(self).balance_of(c)) by {
                if old(self).creators@.contains(c) {
                    old(self).lemma_slot_of(c);
                }
            }
        }
        Ok(Payout { to: caller, amount: st.balance })
    }

    /// Owner only: empties the accrued platform fees and asks for them to be
    /// paid out to the fee recipient, debiting before the payout is handed
    /// back. With nothing accrued it succeeds without a payout. Fails with
    /// `Unauthorized`, changing nothing, for any other caller.
    pub fn withdraw_platform_fees(&mut self, caller: Identity) -> (r: Result<
        Option<Payout>,
        FactoryError,
    >)
        requires
            old(self).wf(),
        ensures
            final(self).wf(),
            caller != old(self).owner() ==> r == Err::<Option<Payout>, FactoryError>(
                FactoryError::Unauthorized,
            ) && *final(self) == *old(self),
            caller == old(self).owner() && old(self).fees_accrued() == 0 ==> r == Ok::<
                Option<Payout>,
                FactoryError,
            >(None) && *final(self) == *old(self),
            caller == old(self).owner() && old(self).fees_accrued() > 0 ==> {
                &&& r matches Ok(Some(p)) && p.to == old(self).fee_recipient()
                    && p.amount.value() == old(self).fees_accrued()
                &&& final(self).fees_accrued() == 0
                &&& final(self).owner() == old(self).owner()
                &&& final(self).fee_recipient() == old(self).fee_recipient()
                &&& final(self).fee_bps() == old(self).fee_bps()
                &&& final(self).same_ledger(*old(self))
                &&& final(self).total_tipped() == old(self).total_tipped()
                &&& final(self).total_withdrawn() == old(self).total_withdrawn()
                    + old(self).fees_accrued()
            },
    {
        if caller != self.owner {
            return Err(FactoryError::Unauthorized);
        }
        let fees = self.platform_fees_accrued;
        if is_zero(fees) {
            return Ok(None);
        }
        self.platform_fees_accrued = Amount::zero();
        self.withdrawn = Ghost(self.withdrawn@ + fees.value());
        Ok(Some(Payout { to: self.fee_recipient, amount: fees }))
    }

    /// Owner only: sets the fee rate. Fails, changing nothing, with
    /// `Unauthorized` for any other caller and with `FeeTooHigh` for a rate
    /// above 500 basis points.
    pub fn set_platform_fee_basis_points(&mut self, caller: Identity, new_bps: Amount) -> (r:
        Result<Vec<FactoryEvent>, FactoryError>)
        requires
            old(self).wf(),
        ensures
            final(self).wf(),
            caller != old(self).owner() ==> r == Err::<Vec<FactoryEvent>, FactoryError>(
                FactoryError::Unauthorized,
            ) && *final(self) == *old(self),
            caller == old(self).owner() && new_bps.value() > MAX_FEE_BPS ==> r == Err::<
                Vec<FactoryEvent>,
                FactoryError,
            >(FactoryError::FeeTooHigh) && *final(self) == *old(self),
            caller == old(self).owner() && new_bps.value() <= MAX_FEE_BPS ==> {
                &&& r matches Ok(evs) && evs@ == seq![
                    FactoryEvent::PlatformFeeUpdated {
                        old_fee_bps: old(self).fee_bps(),
                        new_fee_bps: new_bps,
                    },
                ]
                &&& final(self).fee_bps() == new_bps
                &&& final(self).owner() == old(self).owner()
                &&& final(self).fee_recipient() == old(self).fee_recipient()
                &&& final(self).fees_accrued() == old(self).fees_accrued()
                &&& final(self).same_ledger(*old(self))
                &&& final(self).total_tipped() == old(self).total_tipped()
                &&& final(self).total_withdrawn() == old(self).total_withdrawn()
            },
    {
        if caller != self.owner {
            return Err(FactoryError::Unauthorized);
        }
        if greater_than(new_bps, Amount::from_u64(MAX_FEE_BPS)) {
            return Err(FactoryError::FeeTooHigh);
        }
        let old_bps = self.platform_fee_basis_points;
        self.platform_fee_basis_points = new_bps;
        let mut events: Vec<FactoryEvent> = Vec::new();
        events.push(FactoryEvent::PlatformFeeUpdated { old_fee_bps: old_bps, new_fee_bps: new_bps });
        proof {
            assert(events@ =~= seq![
                FactoryEvent::PlatformFeeUpdated { old_fee_bps: old_bps, new_fee_bps: new_bps },
            ]);
        }
        Ok(events)
    }

    /// Owner only: sets where withdrawn platform fees are paid. Fails with
    /// `Unauthorized`, changing nothing, for any other caller.
    pub fn set_fee_recipient(&mut self, caller: Identity, new_recipient: Identity) -> (r: Result<
        Vec<FactoryEvent>,
        FactoryError,
    >)
        requires
            old(self).wf(),
        ensures
            final(self).wf(),
            caller != old(self).owner() ==> r == Err::<Vec<FactoryEvent>, FactoryError>(
                FactoryError::Unauthorized,
            ) && *final(self) == *old(self),
            caller == old(self).owner() ==> {
                &&& r matches Ok(evs) && evs@ == seq![
                    FactoryEvent::FeeRecipientUpdated {
                        old_recipient: old(self).fee_recipient(),
                        new_recipient,
                    },
                ]
                &&& final(self).fee_recipient() == new_recipient
                &&& final(self).owner() == old(self).owner()
                &&& final(self).fee_bps() == old(self).fee_bps()
                &&& final(self).fees_accrued() == old(self).fees_accrued()
                &&& final(self).same_ledger(*old(self))
                &&& final(self).total_tipped() == old(self).total_tipped()
                &&& final(self).total_withdrawn() == old(self).total_withdrawn()
            },
    {
        if caller != self.owner {
            return Err(FactoryError::Unauthorized);
        }
        let old_recipient = self.fee_recipient;
        self.fee_recipient = new_recipient;
        let mut events: Vec<FactoryEvent> = Vec::new();
        events.push(FactoryEvent::FeeRecipientUpdated { old_recipient, new_recipient });
        proof {
            assert(events@ =~= seq![
                FactoryEvent::FeeRecipientUpdated { old_recipient, new_recipient },
            ]);
        }
        Ok(events)
    }

    /// The identity's withdrawable balance; zero for one never registered.
    pub fn get_creator_balance(&self, creator: Identity) -> (r: Amount)
        requires
            self.wf(),
        ensures
            r.value() == self.balance_of(creator),
    {
        match self.find_creator(creator) {
            Some(i) => self.stats[i].balance,
            None => Amount::zero(),
        }
    }

    /// The identity's profile; an empty, inactive one for an identity that
    /// never registered.
    pub fn get_creator_profile(&self, creator: Identity) -> (r: CreatorProfile)
        requires
            self.wf(),
        ensures
            r@ == self.profile_of(creator),
    {
        match self.find_creator(creator) {
            Some(i) => {
                let t = &self.texts[i];
                let st = self.stats[i];
                CreatorProfile {
                    name: t.name.clone(),
                    bio: t.bio.clone(),
                    avatar_url: t.avatar_url.clone(),
                    is_active: true,
                    total_tips_received: st.total_tips_received,
                    tip_count: st.tip_count,
                }
            },
            None => {
                let zero = Amount::zero();
                let r = CreatorProfile {
                    name: String::new(),
                    bio: String::new(),
                    avatar_url: String::new(),
                    is_active: false,
                    total_tips_received: zero,
                    tip_count: zero,
                };
                proof {
                    assert(r@.name =~= Seq::<char>::empty());
                    assert(r@.bio =~= Seq::<char>::empty());
                    assert(r@.avatar_url =~= Seq::<char>::empty());
                }
                r
            },
        }
    }

    /// Every registered creator, in order of registration.
    pub fn get_registered_creators(&self) -> (r: Vec<Identity>)
        ensures
            r@ == self.creators(),
    {
        let mut out: Vec<Identity> = Vec::new();
        let mut i: usize = 0;
        while i < self.creators.len()
            invariant
                i <= self.creators@.len(),
                out@ == self.creators@.take(i as int),
            decreases self.creators@.len() - i,
        {
            out.push(self.creators[i]);
            i = i + 1;
            proof {
                assert(out@ =~= self.creators@.take(i as int));
            }
        }
        proof {
            assert(self.creators@.take(i as int) =~= self.creators@);
        }
        out
    }

    pub fn get_platform_fee(&self) -> (r: Amount)
        ensures
            r == self.fee_bps(),
    {
        self.platform_fee_basis_points
    }

    pub fn get_fee_recipient(&self) -> (r: Identity)
        ensures
            r == self.fee_recipient(),
    {
        self.fee_recipient
    }

    pub fn get_platform_fees_accrued(&self) -> (r: Amount)
        ensures
            r.value() == self.fees_accrued(),
    {
        self.platform_fees_accrued
    }

    /// The sum of all creators' balances, or `None` when it does not fit in
    /// 256 bits.
    pub fn get_total_creator_balances(&self) -> (r: Option<Amount>)
        requires
            self.wf(),
        ensures
            r.is_some() <==> self.total_balances() < amount_modulus(),
            r matches Some(t) ==> t.value() == self.total_balances(),
    {
        let mut total = Amount::zero();
        let mut i: usize = 0;
        proof {
            assert(self.stats@.take(0) =~= Seq::<CreatorStats>::empty());
        }
        while i < self.stats.len()
            invariant
                i <= self.stats@.len(),
                total.value() == sum_balances(self.stats@.take(i as int)),
            decreases self.stats@.len() - i,
        {
            let b = self.stats[i].balance;
            proof {
                assert(self.stats@.take(i + 1).drop_last() =~= self.stats@.take(i as int));
            }
            total = match checked_add(total, b) {
                Some(t) => t,
                None => {
                    proof {
                        lemma_sum_prefix(self.stats@, i + 1);
                    }
                    return None;
                },
            };
            i = i + 1;
        }
        proof {
            assert(self.stats@.take(i as int) =~= self.stats@);
            lemma_value_bound(total);
        }
        Some(total)
    }

    /// The position of `id` in the registry, if it is registered.
    fn find_creator(&self, id: Identity) -> (r: Option<usize>)
        requires
            self.wf(),
        ensures
            r matches Some(i) ==> i < self.creators@.len() && self.creators@[i as int] == id
                && self.slot(id) == i,
            r is None <==> !self.creators@.contains(id),
    {
        let mut i: usize = 0;
        while i < self.creators.len()
            invariant
                self.wf(),
                i <= self.creators@.len(),
                forall|j: int| 0 <= j < i ==> self.creators@[j] != id,
            decreases self.creators@.len() - i,
        {
            if self.creators[i] == id {
                proof {
                    self.lemma_slot(i as int);
                }
                return Some(i);
            }
            i = i + 1;
        }
        None
    }
}

} // verus!
