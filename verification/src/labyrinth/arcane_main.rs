use vstd::prelude::*;

use crate::access::{AccessRule, require_resource, requires_resource};
use crate::error::ArcaneError;

verus! {

/// The end epoch of a vote created at epoch `now` to last `quarter`
/// quarters: the end of the `quarter`-th quarter after the current one,
/// quarters being counted from the genesis epoch.
pub open spec fn end_of_quarter(genesis: u64, now: u64, quarter: int) -> int {
    92 * ((now - genesis) / 92 + quarter) + genesis
}

/// `create_vote`: the end epoch of a vote created at epoch `now` for
/// `quarter`, or why it is refused.
pub open spec fn create_vote_result(genesis: u64, now: u64, quarter: u64) -> Result<u64, ArcaneError> {
    if !(quarter > 0 && quarter < 4) {
        Err(ArcaneError::InvalidQuarter)
    } else {
        Ok(end_of_quarter(genesis, now, quarter as int) as u64)
    }
}

/// A vote ends on a quarter boundary, after the current epoch, within the
/// number of quarters asked for, and later than one quarter less would give;
/// one quarter more ends exactly one quarter (92 epochs) later.
pub proof fn lemma_end_of_quarter(genesis: u64, now: u64, quarter: int)
    requires
        genesis <= now,
        1 <= quarter,
    ensures
        (end_of_quarter(genesis, now, quarter) - genesis) % 92 == 0,
        now < end_of_quarter(genesis, now, quarter),
        end_of_quarter(genesis, now, quarter) <= now + 92 * quarter,
        now + 92 * (quarter - 1) < end_of_quarter(genesis, now, quarter),
        end_of_quarter(genesis, now, quarter + 1) == end_of_quarter(genesis, now, quarter) + 92,
{
    let d = now - genesis;
    vstd::arithmetic::div_mod::lemma_fundamental_div_mod(d, 92);
    vstd::arithmetic::div_mod::lemma_mod_multiples_basic(d / 92 + quarter, 92);
    assert(0 <= d % 92 < 92);
}

/// The main component of the Labyrinth: it knows the badge resources, the
/// core data and vault components, and the epoch it was created at.
pub struct ArcaneMain {
    arcane_badge_member_rs: String,
    arcane_badge_component_rs: String,
    main_component_address: String,
    arcane_data_component_address: String,
    genesis_epoch: u64,
    arcane_vault: String,
}

impl ArcaneMain {
    /// The epoch at which the component was created.
    pub closed spec fn genesis(&self) -> u64 {
        self.genesis_epoch
    }

    /// The resource of the member badges.
    pub closed spec fn member_rs(&self) -> String {
        self.arcane_badge_member_rs
    }

    /// The resource of the vote component badges.
    pub closed spec fn component_rs(&self) -> String {
        self.arcane_badge_component_rs
    }

    /// The core data component.
    pub closed spec fn data_address(&self) -> String {
        self.arcane_data_component_address
    }

    /// The reward vault component.
    pub closed spec fn vault_address(&self) -> String {
        self.arcane_vault
    }

    /// The component's own address.
    pub closed spec fn self_address(&self) -> String {
        self.main_component_address
    }

    /// A main component created at epoch `genesis_epoch`.
    pub fn instantiate(
        genesis_epoch: u64,
        arcane_badge_member_rs: String,
        arcane_badge_component_rs: String,
        main_component_address: String,
        arcane_data_component_address: String,
        arcane_vault: String,
    ) -> (m: Self)
        ensures
            m.genesis() == genesis_epoch,
            m.member_rs() == arcane_badge_member_rs,
            m.component_rs() == arcane_badge_component_rs,
            m.self_address() == main_component_address,
            m.data_address() == arcane_data_component_address,
            m.vault_address() == arcane_vault,
    {
        ArcaneMain {
            arcane_badge_member_rs,
            arcane_badge_component_rs,
            main_component_address,
            arcane_data_component_address,
            genesis_epoch,
            arcane_vault,
        }
    }

    /// The rule of the vote role that the core data and the reward vault set
    /// up with this component are given: a proof of its vote component badge.
    pub fn vote_role(&self) -> (r: AccessRule)
        ensures
            requires_resource(r, self.component_rs()),
    {
        require_resource(self.arcane_badge_component_rs.clone())
    }

    /// Who may create votes and sign up: everyone.
    pub fn method_rule(&self) -> (r: AccessRule)
        ensures
            r is AllowAll,
    {
        AccessRule::AllowAll
    }

    /// The epoch at which the component was created.
    pub fn genesis_epoch(&self) -> (r: u64)
        ensures
            r == self.genesis(),
    {
        self.genesis_epoch
    }

    /// The resource of the member badges.
    pub fn member_resource(&self) -> (r: &String)
        ensures
            *r == self.member_rs(),
    {
        &self.arcane_badge_member_rs
    }

    /// The resource of the vote component badges.
    pub fn component_badge_resource(&self) -> (r: &String)
        ensures
            *r == self.component_rs(),
    {
        &self.arcane_badge_component_rs
    }

    /// The core data component.
    pub fn data_component(&self) -> (r: &String)
        ensures
            *r == self.data_address(),
    {
        &self.arcane_data_component_address
    }

    /// The reward vault component.
    pub fn vault_component(&self) -> (r: &String)
        ensures
            *r == self.vault_address(),
    {
        &self.arcane_vault
    }

    /// The component's own address.
    pub fn address(&self) -> (r: &String)
        ensures
            *r == self.self_address(),
    {
        &self.main_component_address
    }

    /// The end epoch of the `quarter`-th quarter after the one that epoch
    /// `now` falls in, quarters of 92 epochs being counted from the genesis
    /// epoch.
    pub fn get_epoch_of_quarter(&self, quarter: u64, now: u64) -> (e: u64)
        requires
            self.genesis() <= now,
            1 <= quarter <= 3,
            now + 276 <= u64::MAX,
        ensures
            e == end_of_quarter(self.genesis(), now, quarter as int),
            (e - self.genesis()) % 92 == 0,
            now + 92 * (quarter - 1) < e <= now + 92 * quarter,
    {
        proof {
            lemma_end_of_quarter(self.genesis_epoch, now, quarter as int);
        }
        let last_quarter = (now - self.genesis_epoch) / 92u64;
        (92u64 * (last_quarter + quarter)) + self.genesis_epoch
    }

    /// The end epoch of a vote created at epoch `now` for `quarter` (1 to 3).
    pub fn create_vote(&self, quarter: u64, now: u64) -> (r: Result<u64, ArcaneError>)
        requires
            self.genesis() <= now,
            now + 276 <= u64::MAX,
        ensures
            r == create_vote_result(self.genesis(), now, quarter),
    {
        if !(quarter > 0 && quarter < 4) {
            return Err(ArcaneError::InvalidQuarter);
        }
        Ok(self.get_epoch_of_quarter(quarter, now))
    }
}

} // verus!
