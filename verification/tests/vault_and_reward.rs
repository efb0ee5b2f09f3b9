use arcane_vote::arcane_reward_style::ArcaneReward;
use arcane_vote::arcane_vault::ArcaneVault;
use arcane_vote::decimal::Decimal;
use arcane_vote::error::ArcaneError;

#[test]
fn vault_add_opens_epochs_and_collects() {
    let mut v = ArcaneVault::instantiate();
    assert_eq!(v.add(Some(Decimal::from_units(3)), 5), Err(ArcaneError::UnknownEpoch));
    assert_eq!(v.add(None, 5), Ok(()));
    assert_eq!(v.add(Some(Decimal::from_units(3)), 5), Ok(()));
    assert_eq!(v.add(Some(Decimal::from_units(4)), 5), Ok(()));
    assert_eq!(v.balance(), Decimal::from_units(7));
    assert_eq!(v.take(5, Decimal::from_units(3)), Ok((Decimal::from_units(3), Decimal::from_units(7))));
    assert_eq!(v.balance(), Decimal::from_units(4));
}

#[test]
fn vault_take_refusals() {
    let mut v = ArcaneVault::instantiate();
    v.add(None, 5).unwrap();
    v.add(Some(Decimal::from_units(3)), 5).unwrap();
    assert_eq!(v.take(5, Decimal::from_units(4)), Err(ArcaneError::InsufficientBalance));
    assert_eq!(v.take(6, Decimal::from_units(1)), Err(ArcaneError::UnknownEpoch));
    assert_eq!(v.take(5, Decimal::from_attos(-1)), Err(ArcaneError::InvalidAmount));
    assert_eq!(v.balance(), Decimal::from_units(3));
}

#[test]
fn vault_add_none_resets_the_epoch_total() {
    let mut v = ArcaneVault::instantiate();
    v.add(None, 5).unwrap();
    v.add(Some(Decimal::from_units(3)), 5).unwrap();
    v.add(None, 5).unwrap();
    assert_eq!(v.take(5, Decimal::zero()), Ok((Decimal::zero(), Decimal::zero())));
    assert_eq!(v.balance(), Decimal::from_units(3));
}

#[test]
fn reward_is_a_tenth_while_the_vault_holds_more() {
    let mut r = ArcaneReward::instantiate(Decimal::from_units(100), Decimal::from_units(1));
    assert_eq!(r.calculate_reward(Decimal::from_units(50)), Ok(Some(Decimal::from_units(5))));
    assert_eq!(r.reward_vault(), Decimal::from_units(95));
    // a tenth of 950 is 95: the vault must hold more than that
    assert_eq!(r.calculate_reward(Decimal::from_units(950)), Ok(None));
    assert_eq!(r.reward_vault(), Decimal::from_units(95));
    assert_eq!(r.calculate_reward(Decimal::from_units(940)), Ok(Some(Decimal::from_units(94))));
    assert_eq!(r.reward_vault(), Decimal::from_units(1));
}

#[test]
fn negative_reward_is_refused() {
    let mut r = ArcaneReward::instantiate(Decimal::from_units(100), Decimal::from_units(1));
    assert_eq!(r.calculate_reward(Decimal::from_units(0)), Ok(Some(Decimal::zero())));
    assert_eq!(r.calculate_reward(Decimal::from_attos(-10_000_000_000_000_000_000)), Err(ArcaneError::InvalidAmount));
    assert_eq!(r.reward_vault(), Decimal::from_units(100));
}
