use arcane_vote::access::{AccessRule, Requirement};
use arcane_vote::decimal::Decimal;
use arcane_vote::error::ArcaneError;
use arcane_vote::labyrinth::arcane_core_data::{ArcaneCoreData, CoreDataMethod};
use arcane_vote::labyrinth::arcane_main::ArcaneMain;
use arcane_vote::labyrinth::arcane_member_component::ArcaneMemberComponent;
use arcane_vote::labyrinth::arcane_reward_vault::ArcaneVault;
use arcane_vote::labyrinth::arcane_vote::ArcaneVoteFactory;
use arcane_vote::labyrinth::utils::get_core_address;

fn s(x: &str) -> String {
    x.to_string()
}

#[test]
fn core_data_starts_with_rate_1000() {
    let c = ArcaneCoreData::instantiate(s("vote_badge"));
    assert_eq!(c.reward_rate(), Decimal::from_units(1000));
    assert_eq!(c.tokens_at(5), None);
}

#[test]
fn core_data_tracks_votes_of_registered_members() {
    let mut c = ArcaneCoreData::instantiate(s("vote_badge"));
    assert_eq!(c.add_vote(92, s("{owner}"), s("vote_1")), Err(ArcaneError::UnregisteredUser));
    c.add_user(s("{owner}"));
    c.add_user(s("{voter}"));
    assert!(c.is_member(&s("{voter}")));
    assert_eq!(c.add_vote(92, s("{owner}"), s("vote_1")), Ok(()));
    assert_eq!(c.tokens_at(92), Some(Decimal::zero()));
    assert_eq!(c.vote_and_update_data(93, Decimal::from_units(2), s("vote_1"), s("{voter}")), Err(ArcaneError::UnknownEpoch));
    assert_eq!(
        c.vote_and_update_data(92, Decimal::from_units(2), s("vote_1"), s("{stranger}")),
        Err(ArcaneError::UnregisteredUser)
    );
    assert_eq!(c.tokens_at(92), Some(Decimal::zero()));
    assert_eq!(c.vote_and_update_data(92, Decimal::from_units(2), s("vote_1"), s("{voter}")), Ok(()));
    assert_eq!(c.vote_and_update_data(92, Decimal::from_units(3), s("vote_1"), s("{owner}")), Ok(()));
    assert_eq!(c.tokens_at(92), Some(Decimal::from_units(5)));
    c.set_reward_rate(Decimal::from_units(10));
    assert_eq!(
        c.withdraw_and_update_data(92, s("{voter}"), s("vote_1")),
        Ok((Decimal::from_units(5), Decimal::from_units(10)))
    );
}

#[test]
fn second_vote_ending_at_an_epoch_keeps_its_total() {
    let mut c = ArcaneCoreData::instantiate(s("vote_badge"));
    c.add_user(s("{owner}"));
    c.add_user(s("{voter}"));
    c.add_vote(92, s("{owner}"), s("vote_1")).unwrap();
    c.vote_and_update_data(92, Decimal::from_units(4), s("vote_1"), s("{voter}")).unwrap();
    assert_eq!(c.add_vote(92, s("{owner}"), s("vote_2")), Ok(()));
    assert_eq!(c.tokens_at(92), Some(Decimal::from_units(4)));
    let (total, _) = c.withdraw_and_update_data(92, s("{voter}"), s("vote_1")).unwrap();
    assert_eq!(total, Decimal::from_units(4));
}

#[test]
fn core_data_access_rules() {
    let c = ArcaneCoreData::instantiate(s("vote_badge"));
    assert!(matches!(c.method_rule(CoreDataMethod::VoteAndUpdateData, s("core")), AccessRule::Require(Requirement::Resource(x)) if x == "vote_badge"));
    assert!(matches!(c.method_rule(CoreDataMethod::WithdrawAndUpdateData, s("core")), AccessRule::Require(Requirement::Resource(x)) if x == "vote_badge"));
    assert!(matches!(c.method_rule(CoreDataMethod::AddVote, s("core")), AccessRule::Require(Requirement::Resource(x)) if x == "core"));
    assert!(matches!(c.method_rule(CoreDataMethod::AddUser, s("core")), AccessRule::Require(Requirement::Resource(x)) if x == "core"));
    assert!(matches!(c.method_rule(CoreDataMethod::SetRewardRate, s("core")), AccessRule::Require(Requirement::Resource(x)) if x == "core"));
}

#[test]
fn member_component_and_reward_vault_access_rules() {
    let m = ArcaneMemberComponent::instantiate(s("member"), s("main"));
    assert!(matches!(m.setter_rule(), AccessRule::Require(Requirement::GlobalCaller(x)) if x == "main"));
    assert!(matches!(m.owner_rule(), AccessRule::Require(Requirement::Resource(x)) if x == "member"));
    assert!(matches!(ArcaneMemberComponent::instantiate_rule(s("core")), AccessRule::Require(Requirement::Resource(x)) if x == "core"));
    let v = ArcaneVault::instantiate(s("core"), s("vote_badge"));
    assert!(matches!(v.take_reward_rule(), AccessRule::Require(Requirement::Resource(x)) if x == "vote_badge"));
    assert!(matches!(v.deposit_reward_rule(), AccessRule::AllowAll));
    let main = ArcaneMain::instantiate(1000, s("member"), s("component"), s("main"), s("data"), s("vault"));
    assert!(matches!(main.vote_role(), AccessRule::Require(Requirement::Resource(x)) if x == "component"));
}

#[test]
fn core_data_withdraw_refusals() {
    let mut c = ArcaneCoreData::instantiate(s("vote_badge"));
    c.add_user(s("{owner}"));
    c.add_vote(92, s("{owner}"), s("vote_1")).unwrap();
    assert_eq!(c.withdraw_and_update_data(184, s("{owner}"), s("vote_1")), Err(ArcaneError::UnknownEpoch));
    assert_eq!(c.withdraw_and_update_data(92, s("{nobody}"), s("vote_1")), Err(ArcaneError::UnregisteredUser));
    assert_eq!(c.withdraw_and_update_data(92, s("{owner}"), s("vote_1")), Err(ArcaneError::NoRecordedVote));
}

fn labyrinth_vote() -> ArcaneVoteFactory {
    ArcaneVoteFactory::instantiate(
        Some(s("https://arcanedev.site/pict.png")),
        s("full dezentralized the arcane labyrinth"),
        s("{owner}"),
        vec![s("abstain"), s("for"), s("against")],
        184,
        s("member_rs"),
        s("core_data"),
        s("reward_vault"),
        s("vote_1"),
    )
}

#[test]
fn labyrinth_vote_tallies_and_holds_tokens() {
    let mut f = labyrinth_vote();
    assert_eq!(f.end_at_epoch(), 184);
    assert_eq!(f.address(), &s("vote_1"));
    assert_eq!(f.vote(s("{a}"), s("for"), Decimal::from_units(4), 100), Ok(()));
    assert_eq!(f.vote(s("{b}"), s("for"), Decimal::from_units(6), 184), Ok(()));
    assert_eq!(f.key_tally(&s("for")), Some((2, Decimal::from_units(10))));
    assert_eq!(f.committed(), Decimal::from_units(10));
    assert_eq!(f.vote(s("{a}"), s("against"), Decimal::from_units(1), 100), Err(ArcaneError::AlreadyVoted));
    assert_eq!(f.vote(s("{c}"), s("maybe"), Decimal::from_units(1), 100), Err(ArcaneError::InvalidKey));
    assert_eq!(f.vote(s("{c}"), s("for"), Decimal::from_units(1), 185), Err(ArcaneError::VoteClosed));
    assert_eq!(f.committed(), Decimal::from_units(10));
}

#[test]
fn labyrinth_vote_withdraw() {
    let mut f = labyrinth_vote();
    f.vote(s("{a}"), s("for"), Decimal::from_units(4), 100).unwrap();
    assert_eq!(f.withdraw(s("{a}"), 183), Err(ArcaneError::VoteNotEnded));
    // at the end epoch itself the vote is still open, so nothing is withdrawn
    assert_eq!(f.withdraw(s("{a}"), 184), Err(ArcaneError::VoteNotEnded));
    assert_eq!(f.withdraw(s("{b}"), 185), Err(ArcaneError::NotVoted));
    assert_eq!(f.withdraw(s("{a}"), 185), Ok(Decimal::from_units(4)));
    assert_eq!(f.committed(), Decimal::zero());
    assert_eq!(f.withdraw(s("{a}"), 190), Err(ArcaneError::AlreadyWithdrawn));
}

#[test]
fn labyrinth_reward_formula() {
    // rate 1000 times a share of 4 out of 10
    let r = ArcaneVoteFactory::reward_for(Decimal::from_units(4), Decimal::from_units(10), Decimal::from_units(1000));
    assert_eq!(r, Ok(Decimal::from_units(400)));
    let r = ArcaneVoteFactory::reward_for(Decimal::from_units(1), Decimal::from_units(3), Decimal::from_units(3));
    assert_eq!(r, Ok(Decimal::from_attos(999_999_999_999_999_999)));
    let r = ArcaneVoteFactory::reward_for(Decimal::from_units(1), Decimal::zero(), Decimal::from_units(3));
    assert_eq!(r, Err(ArcaneError::Overflow));
}

#[test]
fn reward_vault_deposit_and_take() {
    let mut v = ArcaneVault::instantiate(s("core"), s("vote_badge"));
    assert_eq!(v.balance(), Decimal::zero());
    assert_eq!(v.deposit_reward(Decimal::from_units(50)), Ok(()));
    assert_eq!(v.take_reward(Decimal::from_units(51)), Err(ArcaneError::InsufficientBalance));
    assert_eq!(v.take_reward(Decimal::from_attos(-1)), Err(ArcaneError::InvalidAmount));
    assert_eq!(v.take_reward(Decimal::from_units(20)), Ok(Decimal::from_units(20)));
    assert_eq!(v.balance(), Decimal::from_units(30));
}

#[test]
fn reward_vault_take_after_deposit_restores_balance() {
    let mut v = ArcaneVault::instantiate(s("core"), s("vote_badge"));
    v.deposit_reward(Decimal::from_units(7)).unwrap();
    assert_eq!(v.deposit_reward(Decimal::from_units(3)), Ok(()));
    assert_eq!(v.take_reward(Decimal::from_units(3)), Ok(Decimal::from_units(3)));
    assert_eq!(v.balance(), Decimal::from_units(7));
    assert_eq!(v.take_reward(Decimal::from_units(8)), Err(ArcaneError::InsufficientBalance));
    assert_eq!(v.balance(), Decimal::from_units(7));
}

#[test]
fn member_component_moves_withdrawn_votes() {
    let mut m = ArcaneMemberComponent::instantiate(s("member"), s("main"));
    m.set_unwithdrawed_vote(s("vote_1"), s("for"));
    m.set_vote_owner(s("vote_2"));
    assert_eq!(m.set_withdrawed_vote(s("vote_1")), Ok(()));
    assert_eq!(m.set_withdrawed_vote(s("vote_1")), Err(ArcaneError::UnknownAddress));
    assert_eq!(m.set_withdrawed_vote(s("vote_3")), Err(ArcaneError::UnknownAddress));
}

#[test]
fn main_end_epoch_is_a_quarter_boundary() {
    let m = ArcaneMain::instantiate(1000, s("member"), s("component"), s("main"), s("data"), s("vault"));
    assert_eq!(m.genesis_epoch(), 1000);
    // 1000 + 92 * (0 + 1)
    assert_eq!(m.create_vote(1, 1010), Ok(1092));
    // 150 epochs in: one full quarter elapsed
    assert_eq!(m.create_vote(2, 1150), Ok(1000 + 92 * 3));
    assert_eq!(m.create_vote(3, 1000), Ok(1276));
    assert_eq!(m.create_vote(0, 1010), Err(ArcaneError::InvalidQuarter));
    assert_eq!(m.create_vote(4, 1010), Err(ArcaneError::InvalidQuarter));
}

#[test]
fn quarters_are_ninety_two_epochs_apart() {
    let m = ArcaneMain::instantiate(1000, s("member"), s("component"), s("main"), s("data"), s("vault"));
    // 1150 lies in the second quarter, which ends at 1184
    assert_eq!(m.get_epoch_of_quarter(1, 1150), 1184);
    assert_eq!(m.get_epoch_of_quarter(2, 1150), 1276);
    assert_eq!(m.get_epoch_of_quarter(3, 1150), 1368);
    // on a boundary the current quarter counts as begun
    assert_eq!(m.get_epoch_of_quarter(1, 1092), 1184);
}

#[test]
fn core_address_decodes_to_thirty_bytes() {
    let bytes = get_core_address().expect("the core badge address is a Stokenet resource address");
    assert_eq!(bytes.len(), 30);
}

#[test]
fn labyrinth_round_trip() {
    let mut core = ArcaneCoreData::instantiate(s("vote_badge"));
    core.add_user(s("{owner}"));
    core.add_user(s("{a}"));
    core.add_user(s("{b}"));
    let mut f = labyrinth_vote();
    core.add_vote(184, s("{owner}"), s("vote_1")).unwrap();
    let mut vault = ArcaneVault::instantiate(s("core"), s("vote_badge"));
    vault.deposit_reward(Decimal::from_units(5000)).unwrap();

    f.vote(s("{a}"), s("for"), Decimal::from_units(3), 100).unwrap();
    core.vote_and_update_data(184, Decimal::from_units(3), s("vote_1"), s("{a}")).unwrap();
    f.vote(s("{b}"), s("against"), Decimal::from_units(1), 120).unwrap();
    core.vote_and_update_data(184, Decimal::from_units(1), s("vote_1"), s("{b}")).unwrap();

    let back = f.withdraw(s("{a}"), 200).unwrap();
    assert_eq!(back, Decimal::from_units(3));
    let (total, rate) = core.withdraw_and_update_data(184, s("{a}"), s("vote_1")).unwrap();
    assert_eq!(total, Decimal::from_units(4));
    assert_eq!(rate, Decimal::from_units(1000));
    let reward = ArcaneVoteFactory::reward_for(back, total, rate).unwrap();
    assert_eq!(reward, Decimal::from_units(750));
    assert_eq!(vault.take_reward(reward), Ok(Decimal::from_units(750)));
    assert_eq!(vault.balance(), Decimal::from_units(4250));
    assert_eq!(f.committed(), Decimal::from_units(1));
}
