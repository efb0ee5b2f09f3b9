use vstd::prelude::*;

use crate::decimal::{Decimal, in_i192};
use crate::access::{AccessRule, require_resource, requires_resource};
use crate::error::ArcaneError;

verus! {

/// The reward vault of the Labyrinth: the reward tokens it holds, the badge
/// resource that owns it, and the badge resource of the vote components that
/// may take rewards.
pub struct ArcaneVault {
    reward_vault: Decimal,
    core_badge: String,
    vote_badge_rs: String,
}

/// `deposit_reward`: the balance after `amount` attos are put into a vault
/// holding `balance`.
pub open spec fn deposit_reward_result(balance: int, amount: int) -> Result<int, ArcaneError> {
    if !in_i192(balance + amount) {
        Err(ArcaneError::Overflow)
    } else {
        Ok(balance + amount)
    }
}

/// `take_reward`: the balance after `amount` attos are taken from a vault
/// holding `balance`.
pub open spec fn take_reward_result(balance: int, amount: int) -> Result<int, ArcaneError> {
    if amount < 0 {
        Err(ArcaneError::InvalidAmount)
    } else if amount > balance {
        Err(ArcaneError::InsufficientBalance)
    } else {
        Ok(balance - amount)
    }
}

/// The vault gives out no more than it holds, and what is deposited can be
/// taken back: a well-formed vault never holds a negative amount, a take of
/// more than it holds is refused, and after a deposit of `amount` a take of
/// that amount succeeds and leaves the balance as it was before.
pub proof fn lemma_reward_vault_bounded(v: &ArcaneVault, amount: int)
    requires
        v.wf(),
    ensures
        0 <= v.balance_attos(),
        take_reward_result(v.balance_attos(), amount) matches Ok(b) ==> 0 <= b,
        amount > v.balance_attos() ==> take_reward_result(v.balance_attos(), amount) == Err::<
            int,
            ArcaneError,
        >(ArcaneError::InsufficientBalance),
        0 <= amount && deposit_reward_result(v.balance_attos(), amount) is Ok ==> take_reward_result(
            v.balance_attos() + amount,
            amount,
        ) == Ok::<int, ArcaneError>(v.balance_attos()),
{
}

impl ArcaneVault {
    /// The vault holds no negative amount.
    pub closed spec fn wf(&self) -> bool {
        0 <= self.reward_vault.attos()
    }

    /// What a well-formed vault holds.
    pub proof fn lemma_wf(&self)
        requires
            self.wf(),
        ensures
            0 <= self.balance_attos(),
    {
    }

    /// An empty reward vault owned by `core_badge`, whose rewards the holders
    /// of `vote_badge_rs` may take.
    pub fn instantiate(core_badge: String, vote_badge_rs: String) -> (v: Self)
        ensures
            v.wf(),
            v.balance_attos() == 0,
            v.core_badge() == core_badge,
            v.vote_badge() == vote_badge_rs,
    {
        ArcaneVault { reward_vault: Decimal::zero(), core_badge, vote_badge_rs }
    }

    /// The attos held.
    pub closed spec fn balance_attos(&self) -> int {
        self.reward_vault.attos()
    }

    /// The badge resource that owns the vault.
    pub closed spec fn core_badge(&self) -> String {
        self.core_badge
    }

    /// The badge resource of the vote components.
    pub closed spec fn vote_badge(&self) -> String {
        self.vote_badge_rs
    }

    /// Who may take rewards: the holders of the vote component badge.
    pub fn take_reward_rule(&self) -> (r: AccessRule)
        ensures
            requires_resource(r, self.vote_badge()),
    {
        require_resource(self.vote_badge_rs.clone())
    }

    /// Who may deposit rewards: everyone.
    pub fn deposit_reward_rule(&self) -> (r: AccessRule)
        ensures
            r is AllowAll,
    {
        AccessRule::AllowAll
    }

    /// The tokens held.
    pub fn balance(&self) -> (r: Decimal)
        ensures
            r.attos() == self.balance_attos(),
    {
        self.reward_vault
    }

    /// Puts `amount` reward tokens into the vault.
    pub fn deposit_reward(&mut self, amount: Decimal) -> (r: Result<(), ArcaneError>)
        requires
            old(self).wf(),
            0 <= amount.attos(),
        ensures
            final(self).wf(),
            match deposit_reward_result(old(self).balance_attos(), amount.attos()) {
                Ok(b) => r is Ok && final(self).balance_attos() == b,
                Err(e) => r == Err::<(), ArcaneError>(e) && final(self).balance_attos() == old(
                    self,
                ).balance_attos(),
            },
            final(self).core_badge() == old(self).core_badge(),
            final(self).vote_badge() == old(self).vote_badge(),
    {
        match self.reward_vault.checked_add(amount) {
            Some(b) => {
                self.reward_vault = b;
                Ok(())
            },
            None => Err(ArcaneError::Overflow),
        }
    }

    /// Takes `amount` reward tokens out of the vault and gives them back.
    pub fn take_reward(&mut self, amount: Decimal) -> (r: Result<Decimal, ArcaneError>)
        requires
            old(self).wf(),
        ensures
            final(self).wf(),
            match take_reward_result(old(self).balance_attos(), amount.attos()) {
                Ok(b) => r == Ok::<Decimal, ArcaneError>(amount) && final(self).balance_attos() == b,
                Err(e) => r == Err::<Decimal, ArcaneError>(e) && final(self).balance_attos() == old(
                    self,
                ).balance_attos(),
            },
            final(self).core_badge() == old(self).core_badge(),
            final(self).vote_badge() == old(self).vote_badge(),
    {
        if amount.lt(Decimal::zero()) {
            return Err(ArcaneError::InvalidAmount);
        }
        if amount.gt(self.reward_vault) {
            return Err(ArcaneError::InsufficientBalance);
        }
        match self.reward_vault.checked_sub(amount) {
            Some(b) => {
                self.reward_vault = b;
                Ok(amount)
            },
            None => Err(ArcaneError::Overflow),
        }
    }
}

} // verus!
