use vstd::prelude::*;

use crate::decimal::{Decimal, in_i192};
use crate::access::{AccessRule, require_resource, requires_resource};
use crate::error::ArcaneError;
use crate::table::Table;

verus! {

/// What the core data knows of one member: the votes it voted in, the votes
/// it created, and the votes it withdrew from. Each list exists from the
/// first time something is put into it.
pub struct MemberVotes {
    voted: Option<Table<String, ()>>,
    owned: Option<Table<String, ()>>,
    withdrawed: Option<Table<String, ()>>,
}

/// The mathematical content of a [`MemberVotes`].
pub struct MemberRecord {
    pub voted: Option<Set<Seq<char>>>,
    pub owned: Option<Set<Seq<char>>>,
    pub withdrawed: Option<Set<Seq<char>>>,
}

/// The set that a list of vote addresses holds.
pub open spec fn address_set(t: Option<Table<String, ()>>) -> Option<Set<Seq<char>>> {
    match t {
        Some(t) => Some(t@.dom()),
        None => None,
    }
}

/// The list `s` with `a` put into it, the list being created if need be.
pub open spec fn with_address(s: Option<Set<Seq<char>>>, a: Seq<char>) -> Option<Set<Seq<char>>> {
    match s {
        Some(s) => Some(s.insert(a)),
        None => Some(Set::empty().insert(a)),
    }
}

/// A list of addresses is well formed.
pub open spec fn address_list_wf(t: Option<Table<String, ()>>) -> bool {
    match t {
        Some(t) => t.wf(),
        None => true,
    }
}

impl View for MemberVotes {
    type V = MemberRecord;

    closed spec fn view(&self) -> MemberRecord {
        MemberRecord {
            voted: address_set(self.voted),
            owned: address_set(self.owned),
            withdrawed: address_set(self.withdrawed),
        }
    }
}

impl MemberVotes {
    /// The lists are well formed.
    pub closed spec fn wf(&self) -> bool {
        &&& address_list_wf(self.voted)
        &&& address_list_wf(self.owned)
        &&& address_list_wf(self.withdrawed)
    }
}

/// Puts `address` into the list `list`, creating the list if need be.
fn add_address(list: Option<Table<String, ()>>, address: String) -> (r: Table<String, ()>)
    requires
        address_list_wf(list),
    ensures
        r.wf(),
        Some(r@.dom()) == with_address(address_set(list), address@),
{
    let ghost old_set = address_set(list);
    let mut t = match list {
        Some(t) => t,
        None => Table::new(),
    };
    let ghost k = address@;
    let ghost before = t@.dom();
    assert(old_set is None ==> before =~= Set::<Seq<char>>::empty());
    t.insert(address, ());
    assert(t@.dom() =~= before.insert(k));
    t
}

/// The state of the core data component.
pub struct CoreDataState {
    /// The attos committed to the votes that end at each epoch.
    pub tokens_at: Map<u64, int>,
    /// The reward rate per quarter, in attos.
    pub reward_rate: int,
    /// The registered members.
    pub members: Map<Seq<char>, MemberRecord>,
}

impl CoreDataState {
    /// `vote_and_update_data`: `amount` attos committed by member `id` to the
    /// vote `component` that ends at `epoch`.
    pub open spec fn vote_and_update_data(self, epoch: u64, amount: int, component: Seq<char>, id: Seq<char>) -> Result<
        CoreDataState,
        ArcaneError,
    > {
        if !self.tokens_at.contains_key(epoch) {
            Err(ArcaneError::UnknownEpoch)
        } else if !in_i192(self.tokens_at[epoch] + amount) {
            Err(ArcaneError::Overflow)
        } else if !self.members.contains_key(id) {
            Err(ArcaneError::UnregisteredUser)
        } else {
            Ok(
                CoreDataState {
                    tokens_at: self.tokens_at.insert(epoch, self.tokens_at[epoch] + amount),
                    members: self.members.insert(
                        id,
                        MemberRecord { voted: with_address(self.members[id].voted, component), ..self.members[id] },
                    ),
                    ..self
                },
            )
        }
    }

    /// `add_user`: registers member `id` with no votes (forgetting what was
    /// known of it).
    pub open spec fn add_user(self, id: Seq<char>) -> CoreDataState {
        CoreDataState {
            members: self.members.insert(id, MemberRecord { voted: None, owned: None, withdrawed: None }),
            ..self
        }
    }

    /// `add_vote`: opens the total of `epoch` at zero unless a vote ending
    /// at that epoch already opened it (its total is kept), and records that
    /// member `owner` created the vote `component`.
    pub open spec fn add_vote(self, epoch: u64, owner: Seq<char>, component: Seq<char>) -> Result<
        CoreDataState,
        ArcaneError,
    > {
        if !self.members.contains_key(owner) {
            Err(ArcaneError::UnregisteredUser)
        } else {
            Ok(
                CoreDataState {
                    tokens_at: if self.tokens_at.contains_key(epoch) {
                        self.tokens_at
                    } else {
                        self.tokens_at.insert(epoch, 0)
                    },
                    members: self.members.insert(
                        owner,
                        MemberRecord { owned: with_address(self.members[owner].owned, component), ..self.members[owner] },
                    ),
                    ..self
                },
            )
        }
    }

    /// `withdraw_and_update_data`: member `id` withdraws from the vote
    /// `component` that ended at `epoch`; gives back the total committed at
    /// that epoch and the reward rate.
    pub open spec fn withdraw_and_update_data(self, epoch: u64, id: Seq<char>, component: Seq<char>) -> Result<
        (CoreDataState, (int, int)),
        ArcaneError,
    > {
        if !self.tokens_at.contains_key(epoch) {
            Err(ArcaneError::UnknownEpoch)
        } else if !self.members.contains_key(id) {
            Err(ArcaneError::UnregisteredUser)
        } else if self.members[id].voted is None {
            Err(ArcaneError::NoRecordedVote)
        } else {
            Ok(
                (
                    CoreDataState {
                        members: self.members.insert(
                            id,
                            MemberRecord {
                                voted: Some(self.members[id].voted->Some_0.remove(component)),
                                owned: self.members[id].owned,
                                withdrawed: with_address(self.members[id].withdrawed, component),
                            },
                        ),
                        ..self
                    },
                    (self.tokens_at[epoch], self.reward_rate),
                ),
            )
        }
    }
}

/// Adding a vote never changes a total already counted: every epoch's
/// total stays as it was, and the vote's end epoch has a total afterwards
/// (zero if no earlier vote ends then).
pub proof fn lemma_add_vote_keeps_totals(s: CoreDataState, epoch: u64, owner: Seq<char>, component: Seq<char>)
    ensures
        s.add_vote(epoch, owner, component) matches Ok(t) ==> {
            &&& forall|e: u64| #[trigger] s.tokens_at.contains_key(e) ==> t.tokens_at.contains_key(e)
                && t.tokens_at[e] == s.tokens_at[e]
            &&& t.tokens_at.contains_key(epoch)
            &&& !s.tokens_at.contains_key(epoch) ==> t.tokens_at[epoch] == 0
        },
{
}

/// The committed totals only grow: a vote of a non-negative amount adds
/// exactly that amount to its epoch's total, and no request takes anything
/// from any epoch's total or forgets one, so the total reported to a
/// withdrawing voter includes every amount committed to that epoch before.
pub proof fn lemma_totals_never_shrink(
    s: CoreDataState,
    epoch: u64,
    amount: int,
    component: Seq<char>,
    id: Seq<char>,
    rate: int,
)
    requires
        0 <= amount,
    ensures
        s.vote_and_update_data(epoch, amount, component, id) matches Ok(t) ==> {
            &&& t.tokens_at[epoch] == s.tokens_at[epoch] + amount
            &&& forall|e: u64| #[trigger] s.tokens_at.contains_key(e) ==> t.tokens_at.contains_key(e)
                && t.tokens_at[e] >= s.tokens_at[e]
        },
        s.add_vote(epoch, id, component) matches Ok(t) ==> forall|e: u64| #[trigger]
            s.tokens_at.contains_key(e) ==> t.tokens_at.contains_key(e) && t.tokens_at[e] == s.tokens_at[e],
        s.withdraw_and_update_data(epoch, id, component) matches Ok((t, _)) ==> t.tokens_at == s.tokens_at,
        s.add_user(id).tokens_at == s.tokens_at,
        (CoreDataState { reward_rate: rate, ..s }).tokens_at == s.tokens_at,
{
}

/// A member's withdrawal moves the vote from the votes it voted in to the
/// votes it withdrew from.
pub proof fn lemma_withdraw_moves_vote(s: CoreDataState, epoch: u64, id: Seq<char>, component: Seq<char>)
    requires
        s.withdraw_and_update_data(epoch, id, component) is Ok,
    ensures
        ({
            let t = s.withdraw_and_update_data(epoch, id, component)->Ok_0.0;
            &&& !t.members[id].voted->Some_0.contains(component)
            &&& t.members[id].withdrawed->Some_0.contains(component)
            &&& t.members[id].owned == s.members[id].owned
            &&& s.withdraw_and_update_data(epoch, id, component)->Ok_0.1 == (s.tokens_at[epoch], s.reward_rate)
            &&& t.tokens_at == s.tokens_at && t.reward_rate == s.reward_rate
            &&& forall|m: Seq<char>| #[trigger] s.members.contains_key(m) && m != id ==> t.members.contains_key(m)
                && t.members[m] == s.members[m]
        }),
{
}

/// Only registered members vote, create votes or withdraw; and a member
/// withdraws only after voting at least once.
pub proof fn lemma_registered_only(
    s: CoreDataState,
    epoch: u64,
    amount: int,
    component: Seq<char>,
    id: Seq<char>,
)
    requires
        !s.members.contains_key(id),
    ensures
        s.vote_and_update_data(epoch, amount, component, id) is Err,
        s.add_vote(epoch, id, component) is Err,
        s.withdraw_and_update_data(epoch, id, component) is Err,
        s.add_user(id).withdraw_and_update_data(epoch, id, component) is Err,
{
}

/// A vote is recorded in the voter's list: after `vote_and_update_data`
/// succeeds, the member's list of votes voted in exists, holds `component`
/// and every vote it held before; its other lists and every other member
/// stay as they were; and the epoch's total grows by the amount.
pub proof fn lemma_vote_is_recorded(s: CoreDataState, epoch: u64, amount: int, component: Seq<char>, id: Seq<char>)
    ensures
        s.vote_and_update_data(epoch, amount, component, id) matches Ok(t) ==> {
            &&& t.members.contains_key(id)
            &&& t.members[id].voted matches Some(v) && v.contains(component) && (s.members[id].voted matches Some(
                v0,
            ) ==> v0.subset_of(v))
            &&& t.members[id].owned == s.members[id].owned
            &&& t.members[id].withdrawed == s.members[id].withdrawed
            &&& forall|m: Seq<char>| #[trigger] s.members.contains_key(m) && m != id ==> t.members.contains_key(m)
                && t.members[m] == s.members[m]
            &&& t.tokens_at[epoch] == s.tokens_at[epoch] + amount
        },
{
}

/// A created vote is recorded as its creator's: after `add_vote` succeeds,
/// the owner's list of votes created exists, holds `component` and every
/// vote it held before, and its other lists and every other member stay as
/// they were.
pub proof fn lemma_add_vote_records_owner(s: CoreDataState, epoch: u64, owner: Seq<char>, component: Seq<char>)
    ensures
        s.add_vote(epoch, owner, component) matches Ok(t) ==> {
            &&& t.members.contains_key(owner)
            &&& t.members[owner].owned matches Some(o) && o.contains(component) && (s.members[owner].owned matches Some(
                o0,
            ) ==> o0.subset_of(o))
            &&& t.members[owner].voted == s.members[owner].voted
            &&& t.members[owner].withdrawed == s.members[owner].withdrawed
            &&& forall|m: Seq<char>| #[trigger] s.members.contains_key(m) && m != owner ==> t.members.contains_key(m)
                && t.members[m] == s.members[m]
        },
{
}

/// A vote, once recorded for a member, gives it a list of votes to withdraw from.
pub proof fn lemma_vote_then_withdraw(
    s: CoreDataState,
    epoch: u64,
    amount: int,
    component: Seq<char>,
    id: Seq<char>,
)
    requires
        s.vote_and_update_data(epoch, amount, component, id) is Ok,
    ensures
        s.vote_and_update_data(epoch, amount, component, id)->Ok_0.withdraw_and_update_data(epoch, id, component) matches Ok((_, (total, rate)))
            && total == s.tokens_at[epoch] + amount && rate == s.reward_rate,
{
}

/// The core data component: for each epoch the tokens committed to the votes
/// ending then, the reward rate, and what each member voted in, created and
/// withdrew from.
pub struct ArcaneCoreData {
    number_of_tokens_commited_at_epoch: Table<u64, Decimal>,
    reward_rates_perquarter: Decimal,
    member_data: Table<String, MemberVotes>,
    vote_badge_rs: String,
}

/// The methods of the core data component.
#[derive(Clone, Copy, PartialEq, Eq, Structural, Debug)]
pub enum CoreDataMethod {
    VoteAndUpdateData,
    WithdrawAndUpdateData,
    SetRewardRate,
    AddUser,
    AddVote,
}

impl View for ArcaneCoreData {
    type V = CoreDataState;

    closed spec fn view(&self) -> CoreDataState {
        CoreDataState {
            tokens_at: self.number_of_tokens_commited_at_epoch@.map_values(|d: Decimal| d.attos()),
            reward_rate: self.reward_rates_perquarter.attos(),
            members: self.member_data@.map_values(|m: MemberVotes| m@),
        }
    }
}

impl ArcaneCoreData {
    /// The component is well formed.
    pub closed spec fn wf(&self) -> bool {
        &&& self.number_of_tokens_commited_at_epoch.wf()
        &&& self.member_data.wf()
        &&& forall|k: Seq<char>| #[trigger] self.member_data@.contains_key(k) ==> self.member_data@[k].wf()
    }

    /// The badge resource of the vote components, which alone may record
    /// votes and withdrawals.
    pub closed spec fn vote_badge(&self) -> String {
        self.vote_badge_rs
    }

    /// Who may call `method` of this component, owned by `core_badge`: the
    /// holders of the vote component badge record votes and withdrawals; the
    /// holders of the owner badge change the reward rate and add members and
    /// votes.
    pub fn method_rule(&self, method: CoreDataMethod, core_badge: String) -> (r: AccessRule)
        ensures
            method == CoreDataMethod::VoteAndUpdateData || method == CoreDataMethod::WithdrawAndUpdateData
                ==> requires_resource(r, self.vote_badge()),
            !(method == CoreDataMethod::VoteAndUpdateData || method == CoreDataMethod::WithdrawAndUpdateData)
                ==> requires_resource(r, core_badge),
    {
        match method {
            CoreDataMethod::VoteAndUpdateData => require_resource(self.vote_badge_rs.clone()),
            CoreDataMethod::WithdrawAndUpdateData => require_resource(self.vote_badge_rs.clone()),
            _ => require_resource(core_badge),
        }
    }

    /// A core data component with no epochs, no members, and a reward rate
    /// of 1000 per quarter, whose votes and withdrawals are recorded by the
    /// holders of `vote_badge_rs`.
    pub fn instantiate(vote_badge_rs: String) -> (c: Self)
        ensures
            c.wf(),
            c.vote_badge() == vote_badge_rs,
            c@.tokens_at == Map::<u64, int>::empty(),
            c@.reward_rate == 1000 * 1_000_000_000_000_000_000int,
            c@.members == Map::<Seq<char>, MemberRecord>::empty(),
    {
        let c = ArcaneCoreData {
            number_of_tokens_commited_at_epoch: Table::new(),
            reward_rates_perquarter: Decimal::from_units(1000),
            member_data: Table::new(),
            vote_badge_rs,
        };
        proof {
            assert(c@.tokens_at =~= Map::<u64, int>::empty());
            assert(c@.members =~= Map::<Seq<char>, MemberRecord>::empty());
        }
        c
    }

    /// The reward rate per quarter.
    pub fn reward_rate(&self) -> (r: Decimal)
        ensures
            r.attos() == self@.reward_rate,
    {
        self.reward_rates_perquarter
    }

    /// The tokens committed to the votes that end at `epoch`.
    pub fn tokens_at(&self, epoch: u64) -> (r: Option<Decimal>)
        requires
            self.wf(),
        ensures
            r is Some <==> self@.tokens_at.contains_key(epoch),
            r matches Some(d) ==> d.attos() == self@.tokens_at[epoch],
    {
        match self.number_of_tokens_commited_at_epoch.get(&epoch) {
            Some(d) => Some(*d),
            None => None,
        }
    }

    /// Whether `id` is a registered member.
    pub fn is_member(&self, id: &String) -> (b: bool)
        requires
            self.wf(),
        ensures
            b == self@.members.contains_key(id@),
    {
        self.member_data.contains_key(id)
    }

    /// Records that member `id` committed `amount` to the vote `component`
    /// that ends at `epoch`. A refused request leaves the component as it was.
    pub fn vote_and_update_data(&mut self, epoch: u64, amount: Decimal, component: String, id: String) -> (r:
        Result<(), ArcaneError>)
        requires
            old(self).wf(),
        ensures
            final(self).wf(),
            final(self).vote_badge() == old(self).vote_badge(),
            match old(self)@.vote_and_update_data(epoch, amount.attos(), component@, id@) {
                Ok(s) => r is Ok && final(self)@ == s,
                Err(e) => r == Err::<(), ArcaneError>(e) && final(self)@ == old(self)@,
            },
    {
        let ghost old_state = self@;
        let total = match self.number_of_tokens_commited_at_epoch.get(&epoch) {
            Some(t) => *t,
            None => {
                return Err(ArcaneError::UnknownEpoch);
            },
        };
        let new_total = match total.checked_add(amount) {
            Some(t) => t,
            None => {
                return Err(ArcaneError::Overflow);
            },
        };
        if !self.member_data.contains_key(&id) {
            return Err(ArcaneError::UnregisteredUser);
        }
        let member = match self.member_data.remove(&id) {
            Some(m) => m,
            None => {
                return Err(ArcaneError::UnregisteredUser);
            },
        };
        let voted = add_address(member.voted, component);
        let updated = MemberVotes { voted: Some(voted), owned: member.owned, withdrawed: member.withdrawed };
        let ghost id_view = id@;
        self.member_data.insert(id, updated);
        self.number_of_tokens_commited_at_epoch.insert(epoch, new_total);
        proof {
            let expected = old_state.vote_and_update_data(epoch, amount.attos(), component@, id_view)->Ok_0;
            assert(self@.tokens_at =~= expected.tokens_at);
            assert(self@.members =~= expected.members);
        }
        Ok(())
    }

    /// Registers member `id`, with no votes.
    pub fn add_user(&mut self, id: String)
        requires
            old(self).wf(),
        ensures
            final(self).wf(),
            final(self).vote_badge() == old(self).vote_badge(),
            final(self)@ == old(self)@.add_user(id@),
    {
        let ghost old_state = self@;
        let ghost id_view = id@;
        let empty = MemberVotes { voted: None, owned: None, withdrawed: None };
        self.member_data.insert(id, empty);
        proof {
            assert(self@.members =~= old_state.add_user(id_view).members);
        }
    }

    /// Opens the total of `epoch` at zero, unless a vote ending at that
    /// epoch already opened it, and records that member `owner` created the
    /// vote `component`. A refused request leaves the component as it was.
    pub fn add_vote(&mut self, epoch: u64, owner: String, component: String) -> (r: Result<(), ArcaneError>)
        requires
            old(self).wf(),
        ensures
            final(self).wf(),
            final(self).vote_badge() == old(self).vote_badge(),
            match old(self)@.add_vote(epoch, owner@, component@) {
                Ok(s) => r is Ok && final(self)@ == s,
                Err(e) => r == Err::<(), ArcaneError>(e) && final(self)@ == old(self)@,
            },
            old(self)@.tokens_at.contains_key(epoch) ==> final(self)@.tokens_at == old(self)@.tokens_at,
            r is Ok ==> final(self)@.tokens_at.contains_key(epoch),
    {
        let ghost old_state = self@;
        if !self.member_data.contains_key(&owner) {
            return Err(ArcaneError::UnregisteredUser);
        }
        let member = match self.member_data.remove(&owner) {
            Some(m) => m,
            None => {
                return Err(ArcaneError::UnregisteredUser);
            },
        };
        let owned = add_address(member.owned, component);
        let updated = MemberVotes { voted: member.voted, owned: Some(owned), withdrawed: member.withdrawed };
        let ghost owner_view = owner@;
        self.member_data.insert(owner, updated);
        if !self.number_of_tokens_commited_at_epoch.contains_key(&epoch) {
            self.number_of_tokens_commited_at_epoch.insert(epoch, Decimal::zero());
        }
        proof {
            let expected = old_state.add_vote(epoch, owner_view, component@)->Ok_0;
            assert(self@.tokens_at =~= expected.tokens_at);
            assert(self@.members =~= expected.members);
        }
        Ok(())
    }

    /// Sets the reward rate per quarter.
    pub fn set_reward_rate(&mut self, new_reward_rate: Decimal)
        requires
            old(self).wf(),
        ensures
            final(self).wf(),
            final(self).vote_badge() == old(self).vote_badge(),
            final(self)@ == (CoreDataState { reward_rate: new_reward_rate.attos(), ..old(self)@ }),
    {
        self.reward_rates_perquarter = new_reward_rate;
    }

    /// Records that member `id` withdrew from the vote `component` that ended
    /// at `epoch`, and gives back the total committed at that epoch and the
    /// reward rate. A refused request leaves the component as it was.
    pub fn withdraw_and_update_data(&mut self, at_epoch: u64, id: String, component: String) -> (r: Result<
        (Decimal, Decimal),
        ArcaneError,
    >)
        requires
            old(self).wf(),
        ensures
            final(self).wf(),
            final(self).vote_badge() == old(self).vote_badge(),
            match old(self)@.withdraw_and_update_data(at_epoch, id@, component@) {
                Ok((s, (total, rate))) => r matches Ok((t, rt)) && t.attos() == total && rt.attos() == rate
                    && final(self)@ == s,
                Err(e) => r matches Err(e2) && e2 == e && final(self)@ == old(self)@,
            },
    {
        let ghost old_state = self@;
        let total = match self.number_of_tokens_commited_at_epoch.get(&at_epoch) {
            Some(t) => *t,
            None => {
                return Err(ArcaneError::UnknownEpoch);
            },
        };
        match self.member_data.get(&id) {
            Some(m) => {
                if m.voted.is_none() {
                    return Err(ArcaneError::NoRecordedVote);
                }
            },
            None => {
                return Err(ArcaneError::UnregisteredUser);
            },
        }
        let member = match self.member_data.remove(&id) {
            Some(m) => m,
            None => {
                return Err(ArcaneError::UnregisteredUser);
            },
        };
        let mut voted = match member.voted {
            Some(v) => v,
            None => {
                return Err(ArcaneError::NoRecordedVote);
            },
        };
        voted.remove(&component);
        let withdrawed = add_address(member.withdrawed, component);
        let updated = MemberVotes { voted: Some(voted), owned: member.owned, withdrawed: Some(withdrawed) };
        let ghost id_view = id@;
        self.member_data.insert(id, updated);
        proof {
            let expected = old_state.withdraw_and_update_data(at_epoch, id_view, component@)->Ok_0.0;
            assert(self@.members =~= expected.members);
            assert(self@.tokens_at =~= expected.tokens_at);
        }
        Ok((total, self.reward_rates_perquarter))
    }
}

} // verus!
