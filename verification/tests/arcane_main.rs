use arcane_vote::access::{AccessRule, Requirement};
use arcane_vote::arcane_main::arcane_main::{method_rule, ArcaneMain, MainMethod};
use arcane_vote::arcane_reward_style::calculate_reward_rule;
use arcane_vote::arcane_main::utils::Role;
use arcane_vote::arcane_vote_style::{instantiate_rule, method_rule as vote_rule, ArcaneVoteFactory, VoteFactoryMethod};
use arcane_vote::decimal::Decimal;
use arcane_vote::error::ArcaneError;

fn s(x: &str) -> String {
    x.to_string()
}

fn main_with_package() -> ArcaneMain {
    let mut m = ArcaneMain::instantiate(100, s("member_rs"));
    assert_eq!(m.package(s("a"), s("pkg")), Ok(()));
    m
}

#[test]
fn new_main_is_empty() {
    let m = ArcaneMain::instantiate(100, s("member_rs"));
    assert_eq!(m.component_id(), 0);
    assert_eq!(m.member_id(), 0);
    assert_eq!(m.genesis_epoch(), 100);
    assert_eq!(m.vault_amount(), Decimal::zero());
    assert_eq!(m.member_resource(), &s("member_rs"));
    assert!(!m.is_package(&s("pkg")));
    assert_eq!(m.reward_address(), None);
}

#[test]
fn a_quarter_is_one_epoch_in_this_deployment() {
    let m = ArcaneMain::instantiate(100, s("member_rs"));
    assert_eq!(m.get_epoch_of_quarter(1, 105), 106);
    assert_eq!(m.get_epoch_of_quarter(3, 105), 108);
}

#[test]
fn create_vote_checks_package_and_quarter() {
    let mut m = ArcaneMain::instantiate(100, s("member_rs"));
    let r = m.create_vote(&s("pkg"), s("#1#"), s("url"), 1, vec![s("for")], 105);
    assert_eq!(r.err(), Some(ArcaneError::InvalidPackage));
    let mut m = main_with_package();
    let r = m.create_vote(&s("pkg"), s("#1#"), s("url"), 0, vec![s("for")], 105);
    assert_eq!(r.err(), Some(ArcaneError::InvalidQuarter));
    let r = m.create_vote(&s("pkg"), s("#1#"), s("url"), 4, vec![s("for")], 105);
    assert_eq!(r.err(), Some(ArcaneError::InvalidQuarter));
    assert_eq!(m.component_id(), 0);
}

#[test]
fn create_vote_hands_out_ids_and_end_epochs() {
    let mut m = main_with_package();
    let ev = m.create_vote(&s("pkg"), s("#1#"), s("url"), 3, vec![s("for"), s("against")], 105).ok().unwrap();
    assert_eq!(ev.id, 1);
    assert_eq!(ev.start_epoch, 105);
    assert_eq!(ev.end_epoch, 108);
    assert_eq!(ev.voter, s("#1#"));
    assert_eq!(ev.url, s("url"));
    assert_eq!(ev.keys, vec![s("for"), s("against")]);
    assert_eq!(m.total_token_at(108), Some(Decimal::zero()));
    let ev2 = m.create_vote(&s("pkg"), s("#2#"), s("url2"), 1, vec![], 105).ok().unwrap();
    assert_eq!(ev2.id, 2);
    assert_eq!(ev2.end_epoch, 106);
    assert_eq!(m.component_id(), 2);
}

#[test]
fn vote_and_withdraw_move_tokens_through_the_vault() {
    let mut m = main_with_package();
    let ev = m.create_vote(&s("pkg"), s("#1#"), s("url"), 2, vec![s("for")], 105).ok().unwrap();
    m.record_vote_component(s("comp"));
    assert!(m.is_vote(&s("comp")));
    let v = m.vote(&s("comp"), s("#4#"), s("for"), Decimal::from_units(10), ev.end_epoch, 1).ok().unwrap();
    assert_eq!(v.component_id, 1);
    assert_eq!(v.address_id, s("#4#"));
    assert_eq!(v.key, s("for"));
    assert_eq!(v.amount, Decimal::from_units(10));
    assert_eq!(m.total_token_at(107), Some(Decimal::from_units(10)));
    assert_eq!(m.vault_amount(), Decimal::from_units(10));

    let r = m.withdraw(&s("comp"), s("#4#"), Decimal::from_units(10), 1);
    assert_eq!(r.err(), Some(ArcaneError::RewardAddressNotSet));
    m.set_reward_address(s("reward"));
    let r = m.withdraw(&s("comp"), s("#4#"), Decimal::from_units(11), 1);
    assert_eq!(r.err(), Some(ArcaneError::InsufficientBalance));
    let (w, reward) = m.withdraw(&s("comp"), s("#4#"), Decimal::from_units(10), 1).ok().unwrap();
    assert_eq!(w.component_id, 1);
    assert_eq!(w.address_id, s("#4#"));
    assert_eq!(reward, s("reward"));
    assert_eq!(m.vault_amount(), Decimal::zero());
}

#[test]
fn vote_refusals() {
    let mut m = main_with_package();
    m.create_vote(&s("pkg"), s("#1#"), s("url"), 2, vec![s("for")], 105).ok().unwrap();
    let r = m.vote(&s("comp"), s("#4#"), s("for"), Decimal::from_units(1), 107, 1);
    assert_eq!(r.err(), Some(ArcaneError::InvalidVoteAddress));
    m.record_vote_component(s("comp"));
    let r = m.vote(&s("comp"), s("#4#"), s("for"), Decimal::from_units(1), 200, 1);
    assert_eq!(r.err(), Some(ArcaneError::UnknownEpoch));
    let r = m.withdraw(&s("other"), s("#4#"), Decimal::from_units(1), 1);
    assert_eq!(r.err(), Some(ArcaneError::InvalidVoteAddress));
}

#[test]
fn sign_up_hands_out_member_numbers_once_per_account() {
    let mut m = main_with_package();
    let (nft, ev) = m.sign_up(s("account_1")).ok().unwrap();
    assert_eq!(nft.id, 1);
    assert_eq!(nft.owner, s("account_1"));
    assert_eq!(nft.role, Role::Member);
    assert_eq!(ev.id, 1);
    assert_eq!(ev.address, s("account_1"));
    assert_eq!(m.sign_up(s("account_1")).err(), Some(ArcaneError::AlreadyRegistered));
    let (nft2, _) = m.sign_up(s("account_2")).ok().unwrap();
    assert_eq!(nft2.id, 2);
    assert_eq!(m.member_id(), 2);
    assert!(m.is_member(&s("account_2")));
}

#[test]
fn change_role_parses_the_role() {
    let m = main_with_package();
    let (role, ev) = m.change_role(&s("member_rs"), s("#1#"), s("a")).ok().unwrap();
    assert_eq!(role, Role::Admin);
    assert_eq!(ev.address_id, s("#1#"));
    assert_eq!(ev.role, s("a"));
    let (role, _) = m.change_role(&s("member_rs"), s("#1#"), s("m")).ok().unwrap();
    assert_eq!(role, Role::Member);
    assert_eq!(m.change_role(&s("member_rs"), s("#1#"), s("x")).err(), Some(ArcaneError::InvalidRole));
    assert_eq!(m.change_role(&s("other_rs"), s("#1#"), s("a")).err(), Some(ArcaneError::NotArcaneBadge));
}

#[test]
fn package_adds_and_removes() {
    let mut m = main_with_package();
    assert!(m.is_package(&s("pkg")));
    assert_eq!(m.package(s("x"), s("pkg")), Err(ArcaneError::InvalidMethod));
    assert_eq!(m.package(s("r"), s("pkg")), Ok(()));
    assert!(!m.is_package(&s("pkg")));
    let r = m.create_vote(&s("pkg"), s("#1#"), s("url"), 1, vec![], 105);
    assert_eq!(r.err(), Some(ArcaneError::InvalidPackage));
}

#[test]
fn set_status_needs_a_known_vote_and_an_admin() {
    let mut m = main_with_package();
    assert_eq!(m.set_status(&s("comp"), Role::Admin), Err(ArcaneError::InvalidVoteAddress));
    m.record_vote_component(s("comp"));
    assert_eq!(m.set_status(&s("comp"), Role::Member), Err(ArcaneError::NotAdmin));
    assert_eq!(m.set_status(&s("comp"), Role::Admin), Ok(()));
}

#[test]
fn vote_round_trip_through_main_and_vote_component() {
    let mut m = main_with_package();
    m.set_reward_address(s("reward"));
    let ev = m.create_vote(&s("pkg"), s("#1#"), s("url"), 1, vec![s("for")], 105).ok().unwrap();
    let mut f = ArcaneVoteFactory::instantiate(ev.id, ev.url.clone(), ev.keys.clone(), ev.end_epoch);
    m.record_vote_component(s("comp"));
    f.status(true);
    let (end, id) = f.add_voter(s("#9#"), s("for"), Decimal::from_units(8), 105).unwrap();
    m.vote(&s("comp"), s("#9#"), s("for"), Decimal::from_units(8), end, id).ok().unwrap();
    assert_eq!(f.get_amount_of(s("#9#"), end), Err(ArcaneError::VoteNotEnded));
    let (_, amount, id2) = f.get_amount_of(s("#9#"), end + 1).unwrap();
    assert_eq!(amount, Decimal::from_units(8));
    assert_eq!(id2, 1);
    m.withdraw(&s("comp"), s("#9#"), amount, id2).ok().unwrap();
    assert_eq!(m.vault_amount(), Decimal::zero());
}

#[test]
fn main_and_vote_component_access_rules() {
    assert!(matches!(method_rule(MainMethod::Package, s("core")), AccessRule::Require(Requirement::Resource(x)) if x == "core"));
    assert!(matches!(method_rule(MainMethod::SetRewardAddress, s("core")), AccessRule::Require(Requirement::Resource(x)) if x == "core"));
    assert!(matches!(method_rule(MainMethod::Vote, s("core")), AccessRule::AllowAll));
    assert!(matches!(instantiate_rule(s("main")), AccessRule::Require(Requirement::GlobalCaller(x)) if x == "main"));
    assert!(matches!(vote_rule(VoteFactoryMethod::GetAmountOf, s("main")), AccessRule::Require(Requirement::GlobalCaller(x)) if x == "main"));
    assert!(matches!(calculate_reward_rule(s("main")), AccessRule::Require(Requirement::GlobalCaller(x)) if x == "main"));
}

#[test]
fn two_votes_ending_at_one_epoch_share_its_total() {
    let mut m = main_with_package();
    let ev = m.create_vote(&s("pkg"), s("#1#"), s("url"), 1, vec![s("for")], 105).ok().unwrap();
    m.record_vote_component(s("comp"));
    m.vote(&s("comp"), s("#9#"), s("for"), Decimal::from_units(8), ev.end_epoch, ev.id).ok().unwrap();
    let ev2 = m.create_vote(&s("pkg"), s("#1#"), s("url"), 1, vec![s("for")], 105).ok().unwrap();
    assert_eq!(ev2.end_epoch, ev.end_epoch);
    assert_eq!(m.total_token_at(ev.end_epoch), Some(Decimal::from_units(8)));
}
