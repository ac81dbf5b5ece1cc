use coffee_factory::amount::Amount;
use coffee_factory::error::FactoryError;
use coffee_factory::event::{FactoryEvent, Payout};
use coffee_factory::factory::CoffeeFactory;
use coffee_factory::fee::compute_fee;
use coffee_factory::identity::Identity;

fn owner() -> Identity {
    Identity { hi: 0, lo: 0x1 }
}

fn alice() -> Identity {
    Identity { hi: 0, lo: 0xA11CE }
}

fn bob() -> Identity {
    Identity { hi: 7, lo: 0xB0B }
}

fn supporter() -> Identity {
    Identity { hi: 0, lo: 0xBEEF }
}

fn amt(x: u64) -> Amount {
    Amount::from_u64(x)
}

fn max_amount() -> Amount {
    Amount::from_limbs(u64::MAX, u64::MAX, u64::MAX, u64::MAX)
}

fn factory_with_alice(bps: u64) -> CoffeeFactory {
    let mut f = CoffeeFactory::constructor(owner(), amt(bps));
    f.register_creator(alice(), "Alice".to_string(), "bio".to_string(), "av".to_string())
        .unwrap();
    f
}

#[test]
fn test_factory_system() {
    let mut factory = CoffeeFactory::constructor(owner(), Amount::from_u64(250));
    let creator_name = String::from("Alice Creator");
    let bio = String::from("Content creator and developer");
    let avatar = String::from("https://example.com/avatar.jpg");
    let result = factory.register_creator(owner(), creator_name, bio, avatar);
    assert!(result.is_ok());
    let profile = factory.get_creator_profile(owner());
    assert!(profile.is_active);
    assert_eq!(profile.name, "Alice Creator");
}

#[test]
fn constructor_sets_owner_recipient_and_rate() {
    let f = CoffeeFactory::constructor(owner(), amt(250));
    assert_eq!(f.get_fee_recipient(), owner());
    assert_eq!(f.get_platform_fee(), amt(250));
    assert_eq!(f.get_platform_fees_accrued(), Amount::zero());
    assert!(f.get_registered_creators().is_empty());
}

#[test]
fn constructor_keeps_rate_above_cap() {
    let f = CoffeeFactory::constructor(owner(), amt(800));
    assert_eq!(f.get_platform_fee(), amt(800));
}

#[test]
fn compute_fee_exact_values() {
    let s = compute_fee(amt(1000), amt(250)).unwrap();
    assert_eq!(s.fee, amt(25));
    assert_eq!(s.net, amt(975));
    let s = compute_fee(amt(999), amt(250)).unwrap();
    assert_eq!(s.fee, amt(24));
    assert_eq!(s.net, amt(975));
    let s = compute_fee(amt(1), amt(500)).unwrap();
    assert_eq!(s.fee, amt(0));
    assert_eq!(s.net, amt(1));
    let s = compute_fee(amt(77), amt(0)).unwrap();
    assert_eq!(s.fee, amt(0));
    assert_eq!(s.net, amt(77));
}

#[test]
fn compute_fee_parts_add_up() {
    for amount in [1u64, 7, 399, 10_001, 123_456_789] {
        for bps in [0u64, 1, 250, 499, 500] {
            let s = compute_fee(amt(amount), amt(bps)).unwrap();
            let (fee, _, _, _) = s.fee.limbs();
            let (net, _, _, _) = s.net.limbs();
            assert_eq!(fee + net, amount);
            assert_eq!(fee, amount * bps / 10000);
        }
    }
}

#[test]
fn compute_fee_overflow_rejected() {
    assert_eq!(compute_fee(max_amount(), amt(250)), Err(FactoryError::Overflow));
    assert_eq!(compute_fee(amt(100), amt(20000)), Err(FactoryError::Overflow));
    let big = Amount::from_limbs(0, 0, 0, 1);
    let s = compute_fee(big, amt(1)).unwrap();
    assert_eq!(s.fee.limbs(), (0x25460aa64c2f837b, 0x295e9e1b089a0275, 0x68db8bac710cb, 0));
}

#[test]
fn tip_splits_fee_and_net() {
    let mut f = factory_with_alice(250);
    let events = f.tip_creator(supporter(), alice(), amt(1000), "thanks".to_string()).unwrap();
    assert_eq!(f.get_platform_fees_accrued(), amt(25));
    assert_eq!(f.get_creator_balance(alice()), amt(975));
    let p = f.get_creator_profile(alice());
    assert_eq!(p.total_tips_received, amt(1000));
    assert_eq!(p.tip_count, amt(1));
    assert_eq!(events.len(), 2);
    match &events[0] {
        FactoryEvent::TipSent { supporter: s, creator, amount, message } => {
            assert_eq!(*s, supporter());
            assert_eq!(*creator, alice());
            assert_eq!(*amount, amt(1000));
            assert_eq!(message, "thanks");
        }
        _ => panic!("expected a tip event"),
    }
    match &events[1] {
        FactoryEvent::PlatformFeeAccrued { fee_amount, .. } => assert_eq!(*fee_amount, amt(25)),
        _ => panic!("expected a fee event"),
    }
}

#[test]
fn tips_accumulate() {
    let mut f = factory_with_alice(250);
    f.tip_creator(supporter(), alice(), amt(1000), String::new()).unwrap();
    f.tip_creator(bob(), alice(), amt(400), String::new()).unwrap();
    assert_eq!(f.get_creator_balance(alice()), amt(975 + 390));
    assert_eq!(f.get_platform_fees_accrued(), amt(35));
    let p = f.get_creator_profile(alice());
    assert_eq!(p.total_tips_received, amt(1400));
    assert_eq!(p.tip_count, amt(2));
}

#[test]
fn tip_zero_amount_rejected() {
    let mut f = factory_with_alice(250);
    let r = f.tip_creator(supporter(), alice(), amt(0), "x".to_string());
    assert_eq!(r.unwrap_err(), FactoryError::ZeroAmount);
    assert_eq!(f.get_creator_balance(alice()), amt(0));
    assert_eq!(f.get_platform_fees_accrued(), amt(0));
    assert_eq!(f.get_creator_profile(alice()).tip_count, amt(0));
}

#[test]
fn tip_unregistered_creator_rejected() {
    let mut f = factory_with_alice(250);
    let r = f.tip_creator(supporter(), bob(), amt(1000), String::new());
    assert_eq!(r.unwrap_err(), FactoryError::CreatorInactive);
    assert_eq!(f.get_creator_balance(bob()), amt(0));
    assert_eq!(f.get_platform_fees_accrued(), amt(0));
    assert!(!f.get_creator_profile(bob()).is_active);
}

#[test]
fn tip_overflow_rejected() {
    let mut f = factory_with_alice(0);
    f.tip_creator(supporter(), alice(), max_amount(), String::new()).unwrap();
    let r = f.tip_creator(supporter(), alice(), amt(1), String::new());
    assert_eq!(r.unwrap_err(), FactoryError::Overflow);
    assert_eq!(f.get_creator_balance(alice()), max_amount());
    assert_eq!(f.get_creator_profile(alice()).tip_count, amt(1));
    let mut g = factory_with_alice(250);
    let r = g.tip_creator(supporter(), alice(), max_amount(), String::new());
    assert_eq!(r.unwrap_err(), FactoryError::Overflow);
}

#[test]
fn withdraw_drains_balance_once() {
    let mut f = factory_with_alice(250);
    f.tip_creator(supporter(), alice(), amt(1000), String::new()).unwrap();
    let p = f.withdraw_my_tips(alice()).unwrap();
    assert_eq!(p, Payout { to: alice(), amount: amt(975) });
    assert_eq!(f.get_creator_balance(alice()), amt(0));
    assert_eq!(f.withdraw_my_tips(alice()), Err(FactoryError::NothingToWithdraw));
    assert_eq!(f.get_creator_profile(alice()).total_tips_received, amt(1000));
}

#[test]
fn withdraw_without_balance_rejected() {
    let mut f = factory_with_alice(250);
    assert_eq!(f.withdraw_my_tips(alice()), Err(FactoryError::NothingToWithdraw));
    assert_eq!(f.withdraw_my_tips(bob()), Err(FactoryError::NothingToWithdraw));
}

#[test]
fn withdrawn_event_records_no_fee() {
    let p = Payout { to: alice(), amount: amt(975) };
    match p.withdrawn_event() {
        FactoryEvent::TipsWithdrawn { creator, amount, platform_fee } => {
            assert_eq!(creator, alice());
            assert_eq!(amount, amt(975));
            assert_eq!(platform_fee, amt(0));
        }
        _ => panic!("expected a withdrawal event"),
    }
}

#[test]
fn set_fee_too_high_rejected() {
    let mut f = CoffeeFactory::constructor(owner(), amt(250));
    let r = f.set_platform_fee_basis_points(owner(), amt(501));
    assert_eq!(r.unwrap_err(), FactoryError::FeeTooHigh);
    assert_eq!(f.get_platform_fee(), amt(250));
    let r = f.set_platform_fee_basis_points(owner(), Amount::from_limbs(0, 0, 0, 1));
    assert_eq!(r.unwrap_err(), FactoryError::FeeTooHigh);
    assert_eq!(f.get_platform_fee(), amt(250));
}

#[test]
fn set_fee_at_cap_accepted() {
    let mut f = CoffeeFactory::constructor(owner(), amt(250));
    let events = f.set_platform_fee_basis_points(owner(), amt(500)).unwrap();
    assert_eq!(f.get_platform_fee(), amt(500));
    match &events[0] {
        FactoryEvent::PlatformFeeUpdated { old_fee_bps, new_fee_bps } => {
            assert_eq!(*old_fee_bps, amt(250));
            assert_eq!(*new_fee_bps, amt(500));
        }
        _ => panic!("expected a fee update event"),
    }
}

#[test]
fn non_owner_admin_calls_rejected() {
    let mut f = factory_with_alice(250);
    f.tip_creator(supporter(), alice(), amt(1000), String::new()).unwrap();
    assert_eq!(f.withdraw_platform_fees(alice()), Err(FactoryError::Unauthorized));
    assert_eq!(
        f.set_platform_fee_basis_points(alice(), amt(100)).unwrap_err(),
        FactoryError::Unauthorized
    );
    assert_eq!(f.set_fee_recipient(alice(), alice()).unwrap_err(), FactoryError::Unauthorized);
    assert_eq!(f.get_platform_fee(), amt(250));
    assert_eq!(f.get_fee_recipient(), owner());
    assert_eq!(f.get_platform_fees_accrued(), amt(25));
}

#[test]
fn platform_fees_paid_to_recipient() {
    let mut f = factory_with_alice(250);
    assert_eq!(f.withdraw_platform_fees(owner()), Ok(None));
    f.tip_creator(supporter(), alice(), amt(1000), String::new()).unwrap();
    let events = f.set_fee_recipient(owner(), bob()).unwrap();
    match &events[0] {
        FactoryEvent::FeeRecipientUpdated { old_recipient, new_recipient } => {
            assert_eq!(*old_recipient, owner());
            assert_eq!(*new_recipient, bob());
        }
        _ => panic!("expected a recipient update event"),
    }
    let p = f.withdraw_platform_fees(owner()).unwrap();
    assert_eq!(p, Some(Payout { to: bob(), amount: amt(25) }));
    assert_eq!(f.get_platform_fees_accrued(), amt(0));
    assert_eq!(f.withdraw_platform_fees(owner()), Ok(None));
    assert_eq!(f.get_creator_balance(alice()), amt(975));
}

#[test]
fn value_is_conserved_over_tips_and_withdrawals() {
    let mut f = factory_with_alice(250);
    f.register_creator(bob(), "Bob".to_string(), String::new(), String::new()).unwrap();
    let tips: [(Identity, u64); 4] = [(alice(), 1000), (bob(), 333), (alice(), 12_345), (bob(), 1)];
    let mut tipped = 0u64;
    let mut withdrawn = 0u64;
    for (i, (creator, value)) in tips.iter().enumerate() {
        f.tip_creator(supporter(), *creator, amt(*value), String::new()).unwrap();
        tipped += value;
        if i == 1 {
            withdrawn += f.withdraw_my_tips(alice()).unwrap().amount.limbs().0;
        }
        if i == 2 {
            withdrawn += f.withdraw_platform_fees(owner()).unwrap().unwrap().amount.limbs().0;
        }
        let held = f.get_total_creator_balances().unwrap().limbs().0;
        let fees = f.get_platform_fees_accrued().limbs().0;
        assert_eq!(held + fees + withdrawn, tipped);
    }
}

#[test]
fn total_creator_balances_overflow_is_none() {
    let mut f = factory_with_alice(0);
    f.register_creator(bob(), "Bob".to_string(), String::new(), String::new()).unwrap();
    f.tip_creator(supporter(), alice(), max_amount(), String::new()).unwrap();
    assert_eq!(f.get_total_creator_balances(), Some(max_amount()));
    f.tip_creator(supporter(), bob(), amt(1), String::new()).unwrap();
    assert_eq!(f.get_total_creator_balances(), None);
}

#[test]
fn reregistration_rejected() {
    let mut f = factory_with_alice(250);
    let r = f.register_creator(alice(), "Other".to_string(), "b".to_string(), "c".to_string());
    assert_eq!(r.unwrap_err(), FactoryError::AlreadyRegistered);
    assert_eq!(f.get_creator_profile(alice()).name, "Alice");
    assert_eq!(f.get_registered_creators(), vec![alice()]);
}

#[test]
fn registration_order_and_event() {
    let mut f = CoffeeFactory::constructor(owner(), amt(250));
    let events =
        f.register_creator(bob(), "Bob".to_string(), "b".to_string(), "c".to_string()).unwrap();
    match &events[0] {
        FactoryEvent::CreatorRegistered { creator, name } => {
            assert_eq!(*creator, bob());
            assert_eq!(name, "Bob");
        }
        _ => panic!("expected a registration event"),
    }
    f.register_creator(alice(), "A".to_string(), String::new(), String::new()).unwrap();
    assert_eq!(f.get_registered_creators(), vec![bob(), alice()]);
    let p = f.get_creator_profile(bob());
    assert_eq!(p.bio, "b");
    assert_eq!(p.avatar_url, "c");
    assert_eq!(p.tip_count, amt(0));
}

#[test]
fn unknown_profile_is_empty() {
    let f = factory_with_alice(250);
    let p = f.get_creator_profile(bob());
    assert!(!p.is_active);
    assert_eq!(p.name, "");
    assert_eq!(p.total_tips_received, amt(0));
}

#[test]
fn update_profile_replaces_text_only() {
    let mut f = factory_with_alice(250);
    f.tip_creator(supporter(), alice(), amt(1000), String::new()).unwrap();
    let events =
        f.update_profile(alice(), "Alicia".to_string(), "new".to_string(), "x".to_string()).unwrap();
    assert_eq!(events.len(), 1);
    let p = f.get_creator_profile(alice());
    assert_eq!(p.name, "Alicia");
    assert_eq!(p.bio, "new");
    assert_eq!(p.avatar_url, "x");
    assert_eq!(p.tip_count, amt(1));
    assert_eq!(f.get_creator_balance(alice()), amt(975));
}

#[test]
fn update_profile_unregistered_rejected() {
    let mut f = factory_with_alice(250);
    let r = f.update_profile(bob(), "B".to_string(), String::new(), String::new());
    assert_eq!(r.unwrap_err(), FactoryError::NotRegistered);
    assert!(!f.get_creator_profile(bob()).is_active);
}

#[test]
fn amount_limbs_round_trip() {
    let a = Amount::from_limbs(1, 2, 3, 4);
    assert_eq!(a.limbs(), (1, 2, 3, 4));
    assert_eq!(Amount::from_u64(9).limbs(), (9, 0, 0, 0));
}
