use vstd::prelude::*;

use super::utils::{ArcaneNFT, Role};
use crate::arcane_vote_style::VoteFactoryState;
use crate::decimal::{Decimal, in_i192};
use crate::access::{AccessRule, require_resource, requires_resource};
use crate::error::ArcaneError;
use crate::table::Table;

verus! {

/// The counters of the main component: the last vote id and the last
/// member number handed out.
pub struct ID {
    pub component_id: u64,
    pub member_id: u64,
}

/// The registries of the main component: the tokens committed to the votes
/// that end at each epoch, the packages votes may be created from, the vote
/// components, and the accounts that signed up.
pub struct State {
    pub total_token: Table<u64, Decimal>,
    pub package: Table<String, bool>,
    pub vote: Table<String, bool>,
    pub member: Table<String, bool>,
}

/// Emitted when a vote is created.
pub struct ArcaneCreateVoteEvent {
    pub id: u64,
    pub voter: String,
    pub url: String,
    pub keys: Vec<String>,
    pub start_epoch: u64,
    pub end_epoch: u64,
}

/// Emitted when a voter withdraws.
pub struct ArcaneWithdrawEvent {
    pub component_id: u64,
    pub address_id: String,
}

/// Emitted when a vote is switched on or off.
pub struct ArcaneSetProposalStatusEvent {
    pub component_id: u64,
    pub status: bool,
}

/// Emitted when an account signs up.
pub struct ArcaneRegisterEvent {
    pub id: u64,
    pub address: String,
}

/// Emitted when a badge's role changes.
pub struct ArcaneChangeRoleEvent {
    pub address_id: String,
    pub role: String,
}

/// Emitted when a vote is cast.
pub struct ArcaneVoteEvent {
    pub component_id: u64,
    pub address_id: String,
    pub key: String,
    pub amount: Decimal,
}

/// The end epoch of a vote created at epoch `now` for `quarter`, where a
/// quarter lasts one epoch from the genesis epoch on.
pub open spec fn epoch_of_quarter(genesis: u64, now: u64, quarter: int) -> int {
    1 * ((now - genesis) / 1 + quarter) + genesis
}

/// The state of the main component.
pub struct MainState {
    pub component_id: u64,
    pub member_id: u64,
    pub genesis_epoch: u64,
    /// The attos of committed tokens held.
    pub vault: int,
    pub member_resource: Seq<char>,
    /// The attos committed to the votes that end at each epoch.
    pub total_token: Map<u64, int>,
    pub packages: Map<Seq<char>, bool>,
    pub votes: Map<Seq<char>, bool>,
    pub members: Map<Seq<char>, bool>,
    pub reward_address: Option<Seq<char>>,
}

impl MainState {
    /// Every state of the main component has handed out exactly one member
    /// number per account signed up, and holds no negative amount of tokens.
    pub open spec fn inv(self) -> bool {
        &&& self.members.dom().finite()
        &&& self.members.dom().len() == self.member_id
        &&& 0 <= self.vault
    }

    /// `create_vote`: from `package`, for `quarter`, at epoch `now`; gives
    /// back the new vote's id and end epoch. The total of the end epoch opens
    /// at zero unless a vote ending then already opened it.
    pub open spec fn create_vote(self, package: Seq<char>, quarter: u8, now: u64) -> Result<
        (MainState, (u64, u64)),
        ArcaneError,
    > {
        if !self.packages.contains_key(package) {
            Err(ArcaneError::InvalidPackage)
        } else if !(0 < quarter && quarter < 4) {
            Err(ArcaneError::InvalidQuarter)
        } else if self.component_id == u64::MAX {
            Err(ArcaneError::Overflow)
        } else {
            let end = epoch_of_quarter(self.genesis_epoch, now, quarter as int) as u64;
            Ok(
                (
                    MainState {
                        component_id: (self.component_id + 1) as u64,
                        total_token: if self.total_token.contains_key(end) {
                            self.total_token
                        } else {
                            self.total_token.insert(end, 0)
                        },
                        ..self
                    },
                    ((self.component_id + 1) as u64, end),
                ),
            )
        }
    }

    /// Records that `component` is a vote component.
    pub open spec fn record_vote_component(self, component: Seq<char>) -> MainState {
        MainState { votes: self.votes.insert(component, true), ..self }
    }

    /// `vote`: `amount` attos committed through `component`, whose vote ends
    /// at `epoch`.
    pub open spec fn vote(self, component: Seq<char>, epoch: u64, amount: int) -> Result<MainState, ArcaneError> {
        if !self.votes.contains_key(component) {
            Err(ArcaneError::InvalidVoteAddress)
        } else if !self.total_token.contains_key(epoch) {
            Err(ArcaneError::UnknownEpoch)
        } else if !in_i192(self.total_token[epoch] + amount) {
            Err(ArcaneError::Overflow)
        } else if !in_i192(self.vault + amount) {
            Err(ArcaneError::Overflow)
        } else {
            Ok(
                MainState {
                    total_token: self.total_token.insert(epoch, self.total_token[epoch] + amount),
                    vault: self.vault + amount,
                    ..self
                },
            )
        }
    }

    /// `withdraw`: `amount` attos given back through `component`; also
    /// gives the reward component to ask for the reward.
    pub open spec fn withdraw(self, component: Seq<char>, amount: int) -> Result<
        (MainState, Seq<char>),
        ArcaneError,
    > {
        if !self.votes.contains_key(component) {
            Err(ArcaneError::InvalidVoteAddress)
        } else if self.reward_address is None {
            Err(ArcaneError::RewardAddressNotSet)
        } else if amount < 0 {
            Err(ArcaneError::InvalidAmount)
        } else if amount > self.vault {
            Err(ArcaneError::InsufficientBalance)
        } else {
            Ok((MainState { vault: self.vault - amount, ..self }, self.reward_address->Some_0))
        }
    }

    /// `sign_up`: registers `account` and gives back its member number.
    pub open spec fn sign_up(self, account: Seq<char>) -> Result<(MainState, u64), ArcaneError> {
        if self.members.contains_key(account) {
            Err(ArcaneError::AlreadyRegistered)
        } else if self.member_id == u64::MAX {
            Err(ArcaneError::Overflow)
        } else {
            Ok(
                (
                    MainState {
                        member_id: (self.member_id + 1) as u64,
                        members: self.members.insert(account, true),
                        ..self
                    },
                    (self.member_id + 1) as u64,
                ),
            )
        }
    }

    /// `change_role`: the role that `role` names for a badge of resource
    /// `badge_resource`.
    pub open spec fn change_role(self, badge_resource: Seq<char>, role: Seq<char>) -> Result<Role, ArcaneError> {
        if badge_resource != self.member_resource {
            Err(ArcaneError::NotArcaneBadge)
        } else if role == "a"@ {
            Ok(Role::Admin)
        } else if role == "m"@ {
            Ok(Role::Member)
        } else {
            Err(ArcaneError::InvalidRole)
        }
    }

    /// `package`: adds (`"a"`) or removes (`"r"`) `address` from the packages
    /// votes may be created from.
    pub open spec fn package(self, method: Seq<char>, address: Seq<char>) -> Result<MainState, ArcaneError> {
        if method == "a"@ {
            Ok(MainState { packages: self.packages.insert(address, true), ..self })
        } else if method == "r"@ {
            Ok(MainState { packages: self.packages.remove(address), ..self })
        } else {
            Err(ArcaneError::InvalidMethod)
        }
    }

    /// `set_status`: whether a badge with `role` may switch `component` on or off.
    pub open spec fn set_status(self, component: Seq<char>, role: Role) -> Result<(), ArcaneError> {
        if !self.votes.contains_key(component) {
            Err(ArcaneError::InvalidVoteAddress)
        } else if role != Role::Admin {
            Err(ArcaneError::NotAdmin)
        } else {
            Ok(())
        }
    }
}

/// An account signs up at most once.
pub proof fn lemma_sign_up_once(s: MainState, account: Seq<char>)
    requires
        s.sign_up(account) is Ok,
    ensures
        s.sign_up(account)->Ok_0.0.sign_up(account) == Err::<(MainState, u64), ArcaneError>(
            ArcaneError::AlreadyRegistered,
        ),
{
}

/// Signing up keeps the invariant: the member numbers handed out are as many
/// as the accounts signed up.
pub proof fn lemma_sign_up_keeps_inv(s: MainState, account: Seq<char>)
    requires
        s.inv(),
    ensures
        s.sign_up(account) matches Ok((t, _)) ==> t.inv(),
{
}

/// Member numbers are handed out in order: the number given to an account is
/// one more than the last one handed out, so no two accounts share one.
pub proof fn lemma_member_numbers_increase(s: MainState, a: Seq<char>, b: Seq<char>)
    requires
        s.sign_up(a) is Ok,
        s.sign_up(a)->Ok_0.0.sign_up(b) is Ok,
    ensures
        s.sign_up(a)->Ok_0.1 == s.member_id + 1,
        s.sign_up(a)->Ok_0.0.sign_up(b)->Ok_0.1 == s.sign_up(a)->Ok_0.1 + 1,
{
}

/// A vote is created only for a quarter from 1 to 3, and it ends that many
/// quarters after the current one.
pub proof fn lemma_create_vote_quarter(s: MainState, package: Seq<char>, quarter: u8, now: u64)
    requires
        s.genesis_epoch <= now,
        now + 3 <= u64::MAX,
    ensures
        !(1 <= quarter <= 3) ==> s.create_vote(package, quarter, now) is Err,
        s.create_vote(package, quarter, now) matches Ok((_, (id, end))) ==> 1 <= quarter <= 3 && end == now
            + quarter && id == s.component_id + 1,
{
}

/// Creating a vote and the other requests keep the invariant.
pub proof fn lemma_requests_keep_inv(
    s: MainState,
    package: Seq<char>,
    quarter: u8,
    now: u64,
    component: Seq<char>,
    epoch: u64,
    amount: int,
    method: Seq<char>,
)
    requires
        s.inv(),
        0 <= amount,
    ensures
        s.create_vote(package, quarter, now) matches Ok((t, _)) ==> t.inv(),
        s.record_vote_component(component).inv(),
        s.vote(component, epoch, amount) matches Ok(t) ==> t.inv(),
        s.withdraw(component, amount) matches Ok((t, _)) ==> t.inv(),
        s.package(method, package) matches Ok(t) ==> t.inv(),
{
}

/// A vote accumulates: it adds exactly the amount voted to the total of the
/// vote's end epoch and to the vault, leaves every other epoch's total as it
/// was, and two votes for one epoch add up. A vote through a known vote
/// component for an open epoch succeeds whenever the sums fit.
pub proof fn lemma_vote_accumulates(m: MainState, component: Seq<char>, epoch: u64, a: int, b: int)
    ensures
        m.vote(component, epoch, a) matches Ok(t) ==> {
            &&& t.total_token.dom() == m.total_token.dom()
            &&& t.total_token[epoch] == m.total_token[epoch] + a
            &&& t.vault == m.vault + a
            &&& forall|e: u64| #[trigger] m.total_token.contains_key(e) && e != epoch ==> t.total_token[e]
                == m.total_token[e]
        },
        m.vote(component, epoch, a) matches Ok(t1) ==> (t1.vote(component, epoch, b) matches Ok(t2) ==> t2.total_token[epoch]
            == m.total_token[epoch] + a + b && t2.vault == m.vault + a + b),
        m.votes.contains_key(component) && m.total_token.contains_key(epoch) && in_i192(m.total_token[epoch] + a)
            && in_i192(m.vault + a) ==> m.vote(component, epoch, a) is Ok,
{
    if m.vote(component, epoch, a) is Ok {
        let t = m.vote(component, epoch, a)->Ok_0;
        assert(t.total_token.dom() =~= m.total_token.dom());
    }
}

/// A withdrawal hands back exactly the amount asked for out of the vault,
/// leaves the epoch totals, votes, packages and members as they were, and
/// names the reward component that was set.
pub proof fn lemma_withdraw_pays_out(m: MainState, component: Seq<char>, amount: int)
    ensures
        m.withdraw(component, amount) matches Ok((t, reward)) ==> {
            &&& t.vault == m.vault - amount
            &&& 0 <= amount <= m.vault
            &&& t.total_token == m.total_token && t.votes == m.votes && t.packages == m.packages && t.members
                == m.members
            &&& m.reward_address == Some(reward)
        },
{
}

/// What was committed through a vote can be taken back in full: after
/// `vote` takes `amount`, `withdraw` of that amount through the same
/// component succeeds once a reward component is set, and leaves the vault
/// as it was before the vote.
pub proof fn lemma_withdraw_after_vote(s: MainState, component: Seq<char>, epoch: u64, amount: int)
    requires
        s.vote(component, epoch, amount) is Ok,
        s.inv(),
        s.reward_address is Some,
        0 <= amount,
    ensures
        s.vote(component, epoch, amount)->Ok_0.withdraw(component, amount) matches Ok((t, _)) && t.vault
            == s.vault,
{
}

/// Creating a vote never changes a total already counted: every epoch's
/// total stays as it was, and the new vote's end epoch has a total (zero if
/// no earlier vote ends then).
pub proof fn lemma_create_vote_keeps_totals(s: MainState, package: Seq<char>, quarter: u8, now: u64)
    ensures
        s.create_vote(package, quarter, now) matches Ok((t, (_, end))) ==> {
            &&& forall|e: u64| #[trigger] s.total_token.contains_key(e) ==> t.total_token.contains_key(e)
                && t.total_token[e] == s.total_token[e]
            &&& t.total_token.contains_key(end)
            &&& !s.total_token.contains_key(end) ==> t.total_token[end] == 0
        },
{
}

/// Votes are created only from accepted packages: after a package is
/// removed, no vote is created from it; after it is added, it is accepted.
pub proof fn lemma_package_gate(s: MainState, package: Seq<char>, quarter: u8, now: u64)
    ensures
        s.package("r"@, package) matches Ok(t) && t.create_vote(package, quarter, now) == Err::<
            (MainState, (u64, u64)),
            ArcaneError,
        >(ArcaneError::InvalidPackage),
        s.package("a"@, package) matches Ok(t) && t.create_vote(package, quarter, now) != Err::<
            (MainState, (u64, u64)),
            ArcaneError,
        >(ArcaneError::InvalidPackage),
{
    reveal_strlit("a");
    reveal_strlit("r");
    assert("r"@[0] != "a"@[0]);
    assert("r"@ != "a"@);
}

/// A vote's round trip through the main component and a vote component:
/// once the vote component has recorded `amount` for `voter` (giving back its
/// end epoch) and the main component has taken that amount for the epoch,
/// then after the end epoch the vote component gives back the same
/// amount, and the main component hands it back out of its vault, which is
/// left as it was before the vote.
pub proof fn lemma_vote_round_trip(
    m: MainState,
    f: VoteFactoryState,
    component: Seq<char>,
    voter: Seq<char>,
    key: Seq<char>,
    amount: int,
    now: u64,
    now2: u64,
)
    requires
        f.add_voter(voter, key, amount, now) is Ok,
        m.vote(component, f.add_voter(voter, key, amount, now)->Ok_0.1.0, amount) is Ok,
        m.inv(),
        m.reward_address is Some,
        0 <= amount,
        now2 > f.end,
    ensures
        ({
            let f2 = f.add_voter(voter, key, amount, now)->Ok_0.0;
            let m2 = m.vote(component, f.end, amount)->Ok_0;
            &&& f2.get_amount_of(voter, now2) matches Ok((_, (e, a, _))) && e == f.end && a == amount
            &&& m2.withdraw(component, amount) matches Ok((m3, _)) && m3.vault == m.vault
        }),
{
    crate::arcane_vote_style::lemma_withdraw_returns_committed(f, voter, key, amount, now, now2);
    lemma_withdraw_after_vote(m, component, f.end, amount);
}

/// The main component: it creates votes, takes the tokens committed to them,
/// gives them back, and issues member badges.
pub struct ArcaneMain {
    ids: ID,
    genesis_epoch: u64,
    arcane_vault: Decimal,
    member_resource_manager: String,
    state: State,
    reward_address: Option<String>,
}

impl View for ArcaneMain {
    type V = MainState;

    closed spec fn view(&self) -> MainState {
        MainState {
            component_id: self.ids.component_id,
            member_id: self.ids.member_id,
            genesis_epoch: self.genesis_epoch,
            vault: self.arcane_vault.attos(),
            member_resource: self.member_resource_manager@,
            total_token: self.state.total_token@.map_values(|d: Decimal| d.attos()),
            packages: self.state.package@,
            votes: self.state.vote@,
            members: self.state.member@,
            reward_address: match self.reward_address {
                Some(a) => Some(a@),
                None => None,
            },
        }
    }
}

/// Whether `s` is `lit`.
fn is_literal(s: &String, lit: &str) -> (b: bool)
    ensures
        b == (s@ == lit@),
{
    let l = lit.to_owned();
    *s == l
}

impl ArcaneMain {
    /// The component is well formed; its state keeps the invariant.
    pub closed spec fn wf(&self) -> bool {
        &&& self.state.total_token.wf()
        &&& self.state.package.wf()
        &&& self.state.vote.wf()
        &&& self.state.member.wf()
        &&& self@.inv()
    }

    /// A well-formed component's state keeps the invariant.
    pub proof fn lemma_wf(&self)
        requires
            self.wf(),
        ensures
            self@.inv(),
    {
    }

    /// A new main component, created at epoch `genesis_epoch`, whose member
    /// badges are of resource `member_resource`: no votes, no members, no
    /// packages, an empty vault and no reward component.
    pub fn instantiate(genesis_epoch: u64, member_resource: String) -> (m: Self)
        ensures
            m.wf(),
            m@.component_id == 0,
            m@.member_id == 0,
            m@.genesis_epoch == genesis_epoch,
            m@.vault == 0,
            m@.member_resource == member_resource@,
            m@.total_token == Map::<u64, int>::empty(),
            m@.packages == Map::<Seq<char>, bool>::empty(),
            m@.votes == Map::<Seq<char>, bool>::empty(),
            m@.members == Map::<Seq<char>, bool>::empty(),
            m@.reward_address is None,
    {
        let m = ArcaneMain {
            ids: ID { component_id: 0, member_id: 0 },
            genesis_epoch,
            arcane_vault: Decimal::zero(),
            member_resource_manager: member_resource,
            state: State {
                total_token: Table::new(),
                package: Table::new(),
                vote: Table::new(),
                member: Table::new(),
            },
            reward_address: None,
        };
        proof {
            assert(m@.total_token =~= Map::<u64, int>::empty());
            assert(m@.members.dom() =~= Set::<Seq<char>>::empty());
        }
        m
    }

    /// Whether `component` is a vote component of this main component.
    pub fn is_vote(&self, component: &String) -> (b: bool)
        requires
            self.wf(),
        ensures
            b == self@.votes.contains_key(component@),
    {
        self.state.vote.contains_key(component)
    }

    /// Whether `address` is a package votes may be created from.
    pub fn is_package(&self, address: &String) -> (b: bool)
        requires
            self.wf(),
        ensures
            b == self@.packages.contains_key(address@),
    {
        self.state.package.contains_key(address)
    }

    /// Whether `account` has signed up.
    pub fn is_member(&self, account: &String) -> (b: bool)
        requires
            self.wf(),
        ensures
            b == self@.members.contains_key(account@),
    {
        self.state.member.contains_key(account)
    }

    /// The tokens committed to the votes that end at `epoch`.
    pub fn total_token_at(&self, epoch: u64) -> (r: Option<Decimal>)
        requires
            self.wf(),
        ensures
            r is Some <==> self@.total_token.contains_key(epoch),
            r matches Some(d) ==> d.attos() == self@.total_token[epoch],
    {
        match self.state.total_token.get(&epoch) {
            Some(d) => Some(*d),
            None => None,
        }
    }

    /// The committed tokens held.
    pub fn vault_amount(&self) -> (r: Decimal)
        ensures
            r.attos() == self@.vault,
    {
        self.arcane_vault
    }

    /// The last vote id handed out.
    pub fn component_id(&self) -> (r: u64)
        ensures
            r == self@.component_id,
    {
        self.ids.component_id
    }

    /// The last member number handed out.
    pub fn member_id(&self) -> (r: u64)
        ensures
            r == self@.member_id,
    {
        self.ids.member_id
    }

    /// The epoch at which the component was created.
    pub fn genesis_epoch(&self) -> (r: u64)
        ensures
            r == self@.genesis_epoch,
    {
        self.genesis_epoch
    }

    /// The resource of the member badges.
    pub fn member_resource(&self) -> (r: &String)
        ensures
            r@ == self@.member_resource,
    {
        &self.member_resource_manager
    }

    /// The reward component, once it is set.
    pub fn reward_address(&self) -> (r: Option<&String>)
        ensures
            r is None <==> self@.reward_address is None,
            r matches Some(a) ==> self@.reward_address == Some(a@),
    {
        match &self.reward_address {
            Some(a) => Some(a),
            None => None,
        }
    }

    /// The end epoch of a vote created at epoch `now` for `quarter`: a
    /// quarter lasts one epoch here, so it is `quarter` epochs after `now`.
    pub fn get_epoch_of_quarter(&self, quarter: u8, now: u64) -> (e: u64)
        requires
            self@.genesis_epoch <= now,
            now + quarter <= u64::MAX,
        ensures
            e == epoch_of_quarter(self@.genesis_epoch, now, quarter as int),
            e == now + quarter,
    {
        let last_quarter = (now - self.genesis_epoch) / 1u64;
        (1u64 * (last_quarter + (quarter as u64))) + self.genesis_epoch
    }

    /// Creates a vote from `package` for `quarter` at epoch `now`, on behalf
    /// of the badge `voter`: hands out the next vote id, opens the tally of
    /// the end epoch at zero unless another vote ending then opened it, and
    /// gives back the event to emit, which carries
    /// the id, the description `metadata`, the options `keys` and the epochs.
    /// A refused request leaves the component as it was.
    pub fn create_vote(
        &mut self,
        package: &String,
        voter: String,
        metadata: String,
        quarter: u8,
        keys: Vec<String>,
        now: u64,
    ) -> (r: Result<ArcaneCreateVoteEvent, ArcaneError>)
        requires
            old(self).wf(),
            old(self)@.genesis_epoch <= now,
            now + 3 <= u64::MAX,
        ensures
            final(self).wf(),
            match old(self)@.create_vote(package@, quarter, now) {
                Ok((s, (id, end))) => r matches Ok(ev) && final(self)@ == s && ev.id == id && ev.end_epoch
                    == end && ev.start_epoch == now && ev.voter == voter && ev.url == metadata && ev.keys
                    == keys,
                Err(e) => r matches Err(e2) && e2 == e && final(self)@ == old(self)@,
            },
    {
        if !self.state.package.contains_key(package) {
            return Err(ArcaneError::InvalidPackage);
        }
        if !(quarter > 0 && quarter < 4) {
            return Err(ArcaneError::InvalidQuarter);
        }
        let epoch = self.get_epoch_of_quarter(quarter, now);
        if self.ids.component_id == u64::MAX {
            return Err(ArcaneError::Overflow);
        }
        let ghost old_state = self@;
        self.ids.component_id = self.ids.component_id + 1;
        if !self.state.total_token.contains_key(&epoch) {
            self.state.total_token.insert(epoch, Decimal::zero());
        }
        proof {
            assert(self@.total_token =~= old_state.create_vote(package@, quarter, now)->Ok_0.0.total_token);
        }
        Ok(
            ArcaneCreateVoteEvent {
                id: self.ids.component_id,
                voter,
                url: metadata,
                keys,
                start_epoch: now,
                end_epoch: epoch,
            },
        )
    }

    /// Records that `component`, created by `create_vote`, is a vote component.
    pub fn record_vote_component(&mut self, component: String)
        requires
            old(self).wf(),
        ensures
            final(self).wf(),
            final(self)@ == old(self)@.record_vote_component(component@),
    {
        self.state.vote.insert(component, true);
    }

    /// Takes `amount` committed by the badge `voter` for `key` through
    /// `component`, whose vote (number `component_id`) ends at `epoch`; gives
    /// back the event to emit. A refused request leaves the component as it was.
    pub fn vote(
        &mut self,
        component: &String,
        voter: String,
        key: String,
        amount: Decimal,
        epoch: u64,
        component_id: u64,
    ) -> (r: Result<ArcaneVoteEvent, ArcaneError>)
        requires
            old(self).wf(),
            0 <= amount.attos(),
        ensures
            final(self).wf(),
            match old(self)@.vote(component@, epoch, amount.attos()) {
                Ok(s) => r matches Ok(ev) && final(self)@ == s && ev.component_id == component_id
                    && ev.address_id == voter && ev.key == key && ev.amount == amount,
                Err(e) => r matches Err(e2) && e2 == e && final(self)@ == old(self)@,
            },
    {
        if !self.state.vote.contains_key(component) {
            return Err(ArcaneError::InvalidVoteAddress);
        }
        let total = match self.state.total_token.get(&epoch) {
            Some(t) => *t,
            None => {
                return Err(ArcaneError::UnknownEpoch);
            },
        };
        let new_total = match total.checked_add(amount) {
            Some(t) => t,
            None => {
                return Err(ArcaneError::Overflow);
            },
        };
        let new_vault = match self.arcane_vault.checked_add(amount) {
            Some(v) => v,
            None => {
                return Err(ArcaneError::Overflow);
            },
        };
        let ghost old_state = self@;
        self.state.total_token.insert(epoch, new_total);
        self.arcane_vault = new_vault;
        proof {
            assert(self@.total_token =~= old_state.vote(component@, epoch, amount.attos())->Ok_0.total_token);
        }
        Ok(ArcaneVoteEvent { component_id, address_id: voter, key, amount })
    }

    /// Gives back `amount` committed by the badge `voter` through `component`
    /// (vote number `component_id`): takes it from the vault, and gives back
    /// the event to emit and the reward component to ask for the reward. A
    /// refused request leaves the component as it was.
    pub fn withdraw(&mut self, component: &String, voter: String, amount: Decimal, component_id: u64) -> (r:
        Result<(ArcaneWithdrawEvent, String), ArcaneError>)
        requires
            old(self).wf(),
        ensures
            final(self).wf(),
            match old(self)@.withdraw(component@, amount.attos()) {
                Ok((s, reward)) => r matches Ok((ev, rw)) && final(self)@ == s && rw@ == reward
                    && ev.component_id == component_id && ev.address_id == voter,
                Err(e) => r matches Err(e2) && e2 == e && final(self)@ == old(self)@,
            },
    {
        if !self.state.vote.contains_key(component) {
            return Err(ArcaneError::InvalidVoteAddress);
        }
        let reward = match &self.reward_address {
            Some(a) => a.clone(),
            None => {
                return Err(ArcaneError::RewardAddressNotSet);
            },
        };
        if amount.lt(Decimal::zero()) {
            return Err(ArcaneError::InvalidAmount);
        }
        if amount.gt(self.arcane_vault) {
            return Err(ArcaneError::InsufficientBalance);
        }
        let new_vault = match self.arcane_vault.checked_sub(amount) {
            Some(v) => v,
            None => {
                return Err(ArcaneError::Overflow);
            },
        };
        self.arcane_vault = new_vault;
        Ok((ArcaneWithdrawEvent { component_id, address_id: voter }, reward))
    }

    /// Signs up `account`: hands out the next member number, and gives back
    /// the data of the badge to mint (that number, the account, the member
    /// role) and the event to emit. A refused request leaves the component as
    /// it was.
    pub fn sign_up(&mut self, account: String) -> (r: Result<(ArcaneNFT, ArcaneRegisterEvent), ArcaneError>)
        requires
            old(self).wf(),
        ensures
            final(self).wf(),
            match old(self)@.sign_up(account@) {
                Ok((s, id)) => r matches Ok((nft, ev)) && final(self)@ == s && nft.id == id && nft.owner
                    == account && nft.role == Role::Member && ev.id == id && ev.address == account,
                Err(e) => r matches Err(e2) && e2 == e && final(self)@ == old(self)@,
            },
    {
        if self.state.member.contains_key(&account) {
            return Err(ArcaneError::AlreadyRegistered);
        }
        if self.ids.member_id == u64::MAX {
            return Err(ArcaneError::Overflow);
        }
        proof {
            self.state.member.lemma_order();
        }
        self.ids.member_id = self.ids.member_id + 1;
        let owner = account.clone();
        let address = account.clone();
        self.state.member.insert(account, true);
        proof {
            self.state.member.lemma_order();
        }
        Ok(
            (
                ArcaneNFT { id: self.ids.member_id, owner, role: Role::Member },
                ArcaneRegisterEvent { id: self.ids.member_id, address },
            ),
        )
    }

    /// The role that `role` names (`"a"` admin, `"m"` member) for the badge
    /// `nft_id` of resource `badge_resource`, and the event to emit.
    pub fn change_role(&self, badge_resource: &String, nft_id: String, role: String) -> (r: Result<
        (Role, ArcaneChangeRoleEvent),
        ArcaneError,
    >)
        ensures
            match self@.change_role(badge_resource@, role@) {
                Ok(new_role) => r matches Ok((rl, ev)) && rl == new_role && ev.address_id == nft_id
                    && ev.role == role,
                Err(e) => r matches Err(e2) && e2 == e,
            },
    {
        if *badge_resource != self.member_resource_manager {
            return Err(ArcaneError::NotArcaneBadge);
        }
        let new_role = if is_literal(&role, "a") {
            Role::Admin
        } else if is_literal(&role, "m") {
            Role::Member
        } else {
            return Err(ArcaneError::InvalidRole);
        };
        Ok((new_role, ArcaneChangeRoleEvent { address_id: nft_id, role }))
    }

    /// Sets the reward component.
    pub fn set_reward_address(&mut self, address: String)
        requires
            old(self).wf(),
        ensures
            final(self).wf(),
            final(self)@ == (MainState { reward_address: Some(address@), ..old(self)@ }),
    {
        self.reward_address = Some(address);
    }

    /// Adds (`"a"`) or removes (`"r"`) `address` from the packages votes may
    /// be created from. A refused request leaves the component as it was.
    pub fn package(&mut self, method: String, address: String) -> (r: Result<(), ArcaneError>)
        requires
            old(self).wf(),
        ensures
            final(self).wf(),
            match old(self)@.package(method@, address@) {
                Ok(s) => r is Ok && final(self)@ == s,
                Err(e) => r == Err::<(), ArcaneError>(e) && final(self)@ == old(self)@,
            },
    {
        if is_literal(&method, "a") {
            self.state.package.insert(address, true);
            Ok(())
        } else if is_literal(&method, "r") {
            self.state.package.remove(&address);
            Ok(())
        } else {
            Err(ArcaneError::InvalidMethod)
        }
    }

    /// Whether a badge with `role` may switch the vote `component` on or off.
    pub fn set_status(&self, component: &String, role: Role) -> (r: Result<(), ArcaneError>)
        requires
            self.wf(),
        ensures
            r == self@.set_status(component@, role),
    {
        if !self.state.vote.contains_key(component) {
            return Err(ArcaneError::InvalidVoteAddress);
        }
        if role != Role::Admin {
            return Err(ArcaneError::NotAdmin);
        }
        Ok(())
    }
}

/// The methods of the main component.
#[derive(Clone, Copy, PartialEq, Eq, Structural, Debug)]
pub enum MainMethod {
    CreateVote,
    Vote,
    Withdraw,
    SignUp,
    ChangeRole,
    SetStatus,
    Package,
    SetRewardAddress,
}

/// Who may call `method` of the main component owned by `core_badge`:
/// changing the packages or the reward component takes a proof of that
/// badge; every other method is open to everyone.
pub fn method_rule(method: MainMethod, core_badge: String) -> (r: AccessRule)
    ensures
        method == MainMethod::Package || method == MainMethod::SetRewardAddress ==> requires_resource(
            r,
            core_badge,
        ),
        !(method == MainMethod::Package || method == MainMethod::SetRewardAddress) ==> r is AllowAll,
{
    match method {
        MainMethod::Package => require_resource(core_badge),
        MainMethod::SetRewardAddress => require_resource(core_badge),
        _ => AccessRule::AllowAll,
    }
}

} // verus!
