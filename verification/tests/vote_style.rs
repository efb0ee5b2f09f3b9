use arcane_vote::arcane_vote_style::ArcaneVoteFactory;
use arcane_vote::decimal::Decimal;
use arcane_vote::error::ArcaneError;

fn s(x: &str) -> String {
    x.to_string()
}

fn proposal() -> ArcaneVoteFactory {
    ArcaneVoteFactory::instantiate(7, s("full dezentralized"), vec![s("abstain"), s("for"), s("against")], 10)
}

#[test]
fn new_vote_is_inactive_with_empty_tallies() {
    let f = proposal();
    assert_eq!(f.id(), 7);
    assert_eq!(f.end(), 10);
    assert!(!f.is_active());
    let d = f.key_data(&s("for")).unwrap();
    assert_eq!(d.voters, 0);
    assert_eq!(d.amounts, Decimal::zero());
    assert!(f.key_data(&s("maybe")).is_none());
}

#[test]
fn inactive_vote_refuses_voters() {
    let mut f = proposal();
    assert_eq!(f.add_voter(s("#1#"), s("for"), Decimal::from_units(5), 3), Err(ArcaneError::VoteNotActivated));
}

#[test]
fn vote_is_tallied() {
    let mut f = proposal();
    assert_eq!(f.status(true), 7);
    assert_eq!(f.add_voter(s("#1#"), s("for"), Decimal::from_units(5), 3), Ok((10, 7)));
    assert_eq!(f.add_voter(s("#2#"), s("for"), Decimal::from_units(2), 10), Ok((10, 7)));
    assert_eq!(f.add_voter(s("#3#"), s("against"), Decimal::from_units(1), 4), Ok((10, 7)));
    let d = f.key_data(&s("for")).unwrap();
    assert_eq!(d.voters, 2);
    assert_eq!(d.amounts, Decimal::from_units(7));
    let a = f.key_data(&s("against")).unwrap();
    assert_eq!(a.voters, 1);
    assert_eq!(a.amounts, Decimal::from_units(1));
}

#[test]
fn double_vote_is_refused_and_changes_nothing() {
    let mut f = proposal();
    f.status(true);
    assert!(f.add_voter(s("#1#"), s("for"), Decimal::from_units(5), 3).is_ok());
    assert_eq!(f.add_voter(s("#1#"), s("against"), Decimal::from_units(9), 4), Err(ArcaneError::AlreadyVoted));
    assert_eq!(f.key_data(&s("against")).unwrap().voters, 0);
    assert_eq!(f.key_data(&s("for")).unwrap().amounts, Decimal::from_units(5));
}

#[test]
fn unknown_key_and_closed_vote_are_refused() {
    let mut f = proposal();
    f.status(true);
    assert_eq!(f.add_voter(s("#1#"), s("maybe"), Decimal::from_units(5), 3), Err(ArcaneError::InvalidKey));
    assert_eq!(f.add_voter(s("#1#"), s("for"), Decimal::from_units(5), 11), Err(ArcaneError::VoteClosed));
}

#[test]
fn withdraw_gives_back_what_was_committed_once() {
    let mut f = proposal();
    f.status(true);
    assert!(f.add_voter(s("#1#"), s("for"), Decimal::from_units(5), 3).is_ok());
    assert_eq!(f.get_amount_of(s("#1#"), 9), Err(ArcaneError::VoteNotEnded));
    // at the end epoch itself votes are still taken, so nothing is withdrawn
    assert_eq!(f.get_amount_of(s("#1#"), 10), Err(ArcaneError::VoteNotEnded));
    assert_eq!(f.get_amount_of(s("#2#"), 11), Err(ArcaneError::NotVoted));
    assert_eq!(f.get_amount_of(s("#1#"), 11), Ok((10, Decimal::from_units(5), 7)));
    assert_eq!(f.get_amount_of(s("#1#"), 12), Err(ArcaneError::AlreadyWithdrawn));
    // the tally keeps the withdrawn vote
    assert_eq!(f.key_data(&s("for")).unwrap().voters, 1);
}

#[test]
fn switching_off_stops_voting() {
    let mut f = proposal();
    f.status(true);
    assert_eq!(f.status(false), 7);
    assert_eq!(f.add_voter(s("#1#"), s("for"), Decimal::from_units(5), 3), Err(ArcaneError::VoteNotActivated));
}
