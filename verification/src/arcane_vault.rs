use vstd::prelude::*;

use crate::decimal::{Decimal, in_i192};
use crate::error::ArcaneError;
use crate::table::Table;

verus! {

/// The state of a token vault that keeps, for each epoch, the tokens
/// committed to the votes ending then.
pub struct VaultState {
    /// The attos held.
    pub balance: int,
    /// The attos committed for each epoch.
    pub totals: Map<u64, int>,
}

impl VaultState {
    /// `add`: with a bucket of `token` attos, adds them to the epoch's total
    /// and to the vault; without one, opens the epoch's total at zero.
    pub open spec fn add(self, token: Option<int>, epoch: u64) -> Result<VaultState, ArcaneError> {
        match token {
            Some(amount) => if !self.totals.contains_key(epoch) {
                Err(ArcaneError::UnknownEpoch)
            } else if !in_i192(self.totals[epoch] + amount) {
                Err(ArcaneError::Overflow)
            } else if !in_i192(self.balance + amount) {
                Err(ArcaneError::Overflow)
            } else {
                Ok(
                    VaultState {
                        balance: self.balance + amount,
                        totals: self.totals.insert(epoch, self.totals[epoch] + amount),
                    },
                )
            },
            None => Ok(VaultState { totals: self.totals.insert(epoch, 0), ..self }),
        }
    }

    /// `take`: takes `amount` attos out of the vault, and gives back the
    /// epoch's total.
    pub open spec fn take(self, epoch: u64, amount: int) -> Result<(VaultState, int), ArcaneError> {
        if amount < 0 {
            Err(ArcaneError::InvalidAmount)
        } else if amount > self.balance {
            Err(ArcaneError::InsufficientBalance)
        } else if !self.totals.contains_key(epoch) {
            Err(ArcaneError::UnknownEpoch)
        } else {
            Ok((VaultState { balance: self.balance - amount, ..self }, self.totals[epoch]))
        }
    }
}

/// What is added for an epoch can be taken back: after `add` puts `amount`
/// into the vault for `epoch`, `take` of that amount succeeds, leaves the
/// balance as it was before, and reports the epoch's total with the amount
/// in it.
pub proof fn lemma_take_after_add(s: VaultState, epoch: u64, amount: int)
    requires
        s.add(Some(amount), epoch) is Ok,
        0 <= amount,
        0 <= s.balance,
    ensures
        s.add(Some(amount), epoch)->Ok_0.take(epoch, amount) matches Ok((t, total)) && t.balance == s.balance
            && total == s.totals[epoch] + amount,
{
}

/// The vault never gives out more than it holds.
pub proof fn lemma_take_bounded(s: VaultState, epoch: u64, amount: int)
    requires
        0 <= s.balance,
    ensures
        s.take(epoch, amount) matches Ok((t, _)) ==> 0 <= t.balance && t.balance == s.balance - amount,
{
}

/// Adding a bucket adds exactly its amount to the epoch's total and to the
/// balance, leaving every other total as it was; adding no bucket opens the
/// epoch's total at zero, keeps every other total, and leaves the balance as
/// it was.
pub proof fn lemma_add_accumulates(s: VaultState, epoch: u64, amount: int)
    ensures
        s.add(Some(amount), epoch) matches Ok(t) ==> {
            &&& t.totals[epoch] == s.totals[epoch] + amount
            &&& t.balance == s.balance + amount
            &&& forall|e: u64| #[trigger] s.totals.contains_key(e) ==> t.totals.contains_key(e) && (e != epoch
                ==> t.totals[e] == s.totals[e])
        },
        s.add(None, epoch) matches Ok(t) ==> {
            &&& t.totals.contains_key(epoch) && t.totals[epoch] == 0 && t.balance == s.balance
            &&& forall|e: u64| #[trigger] s.totals.contains_key(e) && e != epoch ==> t.totals.contains_key(e)
                && t.totals[e] == s.totals[e]
        },
{
}

/// Taking tokens out never changes a committed total: a successful `take`
/// leaves every epoch's total as it was, reports the epoch's total as it
/// stands, and lowers only the balance, by the amount taken; so two takes
/// for one epoch report the same total.
pub proof fn lemma_take_keeps_totals(s: VaultState, epoch: u64, a: int, b: int)
    ensures
        s.take(epoch, a) matches Ok((t, total)) ==> t.totals == s.totals && total == s.totals[epoch] && t.balance
            == s.balance - a,
        s.take(epoch, a) matches Ok((t, total1)) ==> (t.take(epoch, b) matches Ok((_, total2)) ==> total2 == total1),
{
}

/// A vault of committed tokens with per-epoch totals.
pub struct ArcaneVault {
    arcane_vault: Decimal,
    total_commited_token_at: Table<u64, Decimal>,
}

impl View for ArcaneVault {
    type V = VaultState;

    closed spec fn view(&self) -> VaultState {
        VaultState {
            balance: self.arcane_vault.attos(),
            totals: self.total_commited_token_at@.map_values(|d: Decimal| d.attos()),
        }
    }
}

impl ArcaneVault {
    /// The vault is well formed.
    pub closed spec fn wf(&self) -> bool {
        self.total_commited_token_at.wf()
    }

    /// An empty vault with no epochs.
    pub fn instantiate() -> (v: Self)
        ensures
            v.wf(),
            v@.balance == 0,
            v@.totals == Map::<u64, int>::empty(),
    {
        let v = ArcaneVault { arcane_vault: Decimal::zero(), total_commited_token_at: Table::new() };
        proof {
            assert(v@.totals =~= Map::<u64, int>::empty());
        }
        v
    }

    /// The tokens held.
    pub fn balance(&self) -> (r: Decimal)
        ensures
            r.attos() == self@.balance,
    {
        self.arcane_vault
    }

    /// With a bucket of `token`, adds it to the total of `epoch` and puts it
    /// into the vault; without one, opens the total of `epoch` at zero. A
    /// refused request leaves the vault as it was.
    pub fn add(&mut self, token: Option<Decimal>, epoch: u64) -> (r: Result<(), ArcaneError>)
        requires
            old(self).wf(),
        ensures
            final(self).wf(),
            match old(self)@.add(
                match token {
                    Some(d) => Some(d.attos()),
                    None => None,
                },
                epoch,
            ) {
                Ok(s) => r is Ok && final(self)@ == s,
                Err(e) => r == Err::<(), ArcaneError>(e) && final(self)@ == old(self)@,
            },
    {
        let ghost old_state = self@;
        match token {
            Some(amount) => {
                let total = match self.total_commited_token_at.get(&epoch) {
                    Some(t) => *t,
                    None => {
                        return Err(ArcaneError::UnknownEpoch);
                    },
                };
                let new_total = match total.checked_add(amount) {
                    Some(t) => t,
                    None => {
                        return Err(ArcaneError::Overflow);
                    },
                };
                let new_balance = match self.arcane_vault.checked_add(amount) {
                    Some(b) => b,
                    None => {
                        return Err(ArcaneError::Overflow);
                    },
                };
                self.total_commited_token_at.insert(epoch, new_total);
                self.arcane_vault = new_balance;
                proof {
                    assert(self@.totals =~= old_state.add(Some(amount.attos()), epoch)->Ok_0.totals);
                }
                Ok(())
            },
            None => {
                self.total_commited_token_at.insert(epoch, Decimal::zero());
                proof {
                    assert(self@.totals =~= old_state.add(None, epoch)->Ok_0.totals);
                }
                Ok(())
            },
        }
    }

    /// Takes `amount` out of the vault, and gives back the amount taken and
    /// the total of `epoch`. A refused request leaves the vault as it was.
    pub fn take(&mut self, epoch: u64, amount: Decimal) -> (r: Result<(Decimal, Decimal), ArcaneError>)
        requires
            old(self).wf(),
        ensures
            final(self).wf(),
            match old(self)@.take(epoch, amount.attos()) {
                Ok((s, total)) => r matches Ok((taken, t)) && taken == amount && t.attos() == total
                    && final(self)@ == s,
                Err(e) => r matches Err(e2) && e2 == e && final(self)@ == old(self)@,
            },
    {
        if amount.lt(Decimal::zero()) {
            return Err(ArcaneError::InvalidAmount);
        }
        if amount.gt(self.arcane_vault) {
            return Err(ArcaneError::InsufficientBalance);
        }
        let total = match self.total_commited_token_at.get(&epoch) {
            Some(t) => *t,
            None => {
                return Err(ArcaneError::UnknownEpoch);
            },
        };
        let new_balance = match self.arcane_vault.checked_sub(amount) {
            Some(b) => b,
            None => {
                return Err(ArcaneError::Overflow);
            },
        };
        self.arcane_vault = new_balance;
        Ok((amount, total))
    }
}

} // verus!
