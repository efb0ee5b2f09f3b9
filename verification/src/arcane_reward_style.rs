use vstd::prelude::*;

use crate::decimal::{Decimal, i192_max, in_i192, in_i256, narrows_to_i192, mul_attos};
use crate::access::{AccessRule, require_caller, requires_caller};
use crate::error::ArcaneError;

verus! {

/// The attos in one tenth of a unit.
pub open spec fn one_tenth_attos() -> int {
    100_000_000_000_000_000
}

/// The state of a reward component.
pub struct RewardState {
    /// The attos of reward tokens held.
    pub reward_vault: int,
    /// The reward rate, in attos.
    pub reward_rate: int,
}

impl RewardState {
    /// `calculate_reward`: the reward for committing `amount` attos is a
    /// tenth of it, paid out only while the vault holds more than that.
    pub open spec fn calculate_reward(self, amount: int) -> Result<(RewardState, Option<int>), ArcaneError> {
        let reward = mul_attos(amount, one_tenth_attos());
        if !(in_i256(amount * one_tenth_attos()) && narrows_to_i192(reward)) {
            Err(ArcaneError::Overflow)
        } else if self.reward_vault > reward {
            if reward < 0 {
                Err(ArcaneError::InvalidAmount)
            } else {
                Ok((RewardState { reward_vault: self.reward_vault - reward, ..self }, Some(reward)))
            }
        } else {
            Ok((self, None))
        }
    }
}

/// A reward is paid only out of what the vault holds, and never empties it:
/// the vault keeps more than zero after a payment.
pub proof fn lemma_reward_bounded(s: RewardState, amount: int)
    ensures
        s.calculate_reward(amount) matches Ok((t, Some(r))) ==> 0 <= r && r < s.reward_vault && t.reward_vault
            == s.reward_vault - r && t.reward_vault > 0,
        s.calculate_reward(amount) matches Ok((t, None)) ==> t == s,
{
}

/// The reward is a tenth of the committed amount, whatever the reward rate:
/// a payment for a non-negative `amount` is exactly `amount / 10` attos
/// (rounded down) and comes out of the vault; two components that differ only
/// in their rate pay the same; and a vault that holds more than that tenth
/// always pays it.
pub proof fn lemma_reward_is_a_tenth(s: RewardState, amount: int, other_rate: int)
    requires
        0 <= amount <= i192_max(),
    ensures
        s.calculate_reward(amount) matches Ok((t, Some(r))) ==> r == amount / 10 && t.reward_vault
            == s.reward_vault - amount / 10,
        s.reward_vault > amount / 10 ==> (s.calculate_reward(amount) matches Ok((t, Some(r))) && r == amount / 10),
        s.reward_vault <= amount / 10 ==> s.calculate_reward(amount) == Ok::<(RewardState, Option<int>), ArcaneError>(
            (s, None),
        ),
        (RewardState { reward_rate: other_rate, ..s }).calculate_reward(amount) matches Ok((t2, p2)) ==> (s.calculate_reward(amount) matches Ok((t1, p1))
            && p1 == p2 && t1.reward_vault == t2.reward_vault),
{
    let x = amount * 100_000_000_000_000_000;
    assert(x == (amount / 10) * 1_000_000_000_000_000_000 + (amount % 10) * 100_000_000_000_000_000) by (nonlinear_arith)
        requires
            x == amount * 100_000_000_000_000_000,
            amount == 10 * (amount / 10) + amount % 10,
    ;
    assert(0 <= amount % 10 < 10);
    assert(0 <= (amount % 10) * 100_000_000_000_000_000 < 1_000_000_000_000_000_000) by (nonlinear_arith)
        requires
            0 <= amount % 10 < 10,
    ;
    vstd::arithmetic::div_mod::lemma_fundamental_div_mod_converse(
        x,
        1_000_000_000_000_000_000,
        amount / 10,
        (amount % 10) * 100_000_000_000_000_000,
    );
    assert(0 <= x) by (nonlinear_arith)
        requires
            x == amount * 100_000_000_000_000_000,
            0 <= amount,
    ;
    assert(mul_attos(amount, one_tenth_attos()) == amount / 10);
    assert(in_i256(x)) by (nonlinear_arith)
        requires
            x == amount * 100_000_000_000_000_000,
            0 <= amount <= i192_max(),
    ;
}

/// A component that pays a reward of a tenth of the tokens a voter committed.
pub struct ArcaneReward {
    reward_vault: Decimal,
    reward_rate: Decimal,
}

impl View for ArcaneReward {
    type V = RewardState;

    closed spec fn view(&self) -> RewardState {
        RewardState { reward_vault: self.reward_vault.attos(), reward_rate: self.reward_rate.attos() }
    }
}

impl ArcaneReward {
    /// A reward component holding `reward_bucket` tokens, with rate `reward_rate`.
    pub fn instantiate(reward_bucket: Decimal, reward_rate: Decimal) -> (r: Self)
        ensures
            r@.reward_vault == reward_bucket.attos(),
            r@.reward_rate == reward_rate.attos(),
    {
        ArcaneReward { reward_vault: reward_bucket, reward_rate }
    }

    /// The reward tokens held.
    pub fn reward_vault(&self) -> (r: Decimal)
        ensures
            r.attos() == self@.reward_vault,
    {
        self.reward_vault
    }

    /// The reward for `amount` committed tokens: a tenth of it, taken from
    /// the vault, or `None` when the vault holds no more than that. A refused
    /// request leaves the component as it was.
    pub fn calculate_reward(&mut self, amount: Decimal) -> (r: Result<Option<Decimal>, ArcaneError>)
        ensures
            match old(self)@.calculate_reward(amount.attos()) {
                Ok((s, reward)) => r matches Ok(out) && final(self)@ == s && (match reward {
                    Some(x) => out matches Some(d) && d.attos() == x,
                    None => out is None,
                }),
                Err(e) => r matches Err(e2) && e2 == e && final(self)@ == old(self)@,
            },
    {
        let reward = match amount.checked_mul(Decimal::one_tenth()) {
            Some(x) => x,
            None => {
                return Err(ArcaneError::Overflow);
            },
        };
        if self.reward_vault.gt(reward) {
            if reward.lt(Decimal::zero()) {
                return Err(ArcaneError::InvalidAmount);
            }
            let rest = match self.reward_vault.checked_sub(reward) {
                Some(x) => x,
                None => {
                    return Err(ArcaneError::Overflow);
                },
            };
            self.reward_vault = rest;
            return Ok(Some(reward));
        }
        Ok(None)
    }
}

/// Who may call `calculate_reward` of a reward component serving the main
/// component `main`: that main component alone.
pub fn calculate_reward_rule(main: String) -> (r: AccessRule)
    ensures
        requires_caller(r, main),
{
    require_caller(main)
}

} // verus!
