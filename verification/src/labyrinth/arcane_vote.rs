use vstd::prelude::*;

use crate::arcane_vote_style::{
    KeyTally,
    VoterRecord,
    count_votes,
    lemma_tally_frame,
    lemma_tally_same,
    sum_votes,
};
use crate::decimal::{Decimal, div_attos, in_i192, in_i256, narrows_to_i192, mul_attos, one_attos};
use crate::access::{AccessRule, require_resource, requires_resource};
use crate::error::ArcaneError;
use crate::labyrinth::arcane_core_data::{CoreDataState, lemma_vote_then_withdraw};
use crate::table::Table;

verus! {

/// The attos committed by the voters in `order` who have not withdrawn.
pub open spec fn open_sum(order: Seq<Seq<char>>, voters: Map<Seq<char>, VoterRecord>) -> int
    decreases order.len(),
{
    if order.len() == 0 {
        0
    } else {
        open_sum(order.drop_last(), voters) + if voters[order.last()].is_not_withdrawed {
            voters[order.last()].amount
        } else {
            0int
        }
    }
}

/// The state of a vote component of the Labyrinth.
pub struct VoteState {
    pub end: u64,
    /// The attos of committed tokens held.
    pub committed: int,
    pub keys: Map<Seq<char>, KeyTally>,
    pub voters: Map<Seq<char>, VoterRecord>,
    /// The voters in the order in which they voted.
    pub order: Seq<Seq<char>>,
}

impl VoteState {
    /// What every state of a vote component satisfies: each voter chose one
    /// of the options and committed a non-negative amount; each option's
    /// tally is the count and the sum of the votes for it; and the vault
    /// holds exactly what the voters who have not withdrawn committed.
    pub open spec fn inv(self) -> bool {
        &&& self.order.no_duplicates()
        &&& forall|v: Seq<char>| #[trigger] self.voters.contains_key(v) <==> self.order.contains(v)
        &&& forall|v: Seq<char>| #[trigger]
            self.voters.contains_key(v) ==> self.keys.contains_key(self.voters[v].key) && self.voters[v].amount
                >= 0
        &&& forall|k: Seq<char>| #[trigger]
            self.keys.contains_key(k) ==> self.keys[k].voters == count_votes(self.order, self.voters, k)
                && self.keys[k].amounts == sum_votes(self.order, self.voters, k)
        &&& self.committed == open_sum(self.order, self.voters)
    }

    /// `vote`: `voter` commits `amount` attos to `key` at epoch `now`.
    pub open spec fn vote(self, voter: Seq<char>, key: Seq<char>, amount: int, now: u64) -> Result<
        VoteState,
        ArcaneError,
    > {
        if now > self.end {
            Err(ArcaneError::VoteClosed)
        } else if self.voters.contains_key(voter) {
            Err(ArcaneError::AlreadyVoted)
        } else if !self.keys.contains_key(key) {
            Err(ArcaneError::InvalidKey)
        } else if self.keys[key].voters >= u128::MAX {
            Err(ArcaneError::Overflow)
        } else if !in_i192(self.keys[key].amounts + amount) {
            Err(ArcaneError::Overflow)
        } else if !in_i192(self.committed + amount) {
            Err(ArcaneError::Overflow)
        } else {
            Ok(
                VoteState {
                    committed: self.committed + amount,
                    keys: self.keys.insert(
                        key,
                        KeyTally { voters: self.keys[key].voters + 1, amounts: self.keys[key].amounts + amount },
                    ),
                    voters: self.voters.insert(voter, VoterRecord { key, amount, is_not_withdrawed: true }),
                    order: self.order.push(voter),
                    ..self
                },
            )
        }
    }

    /// `withdraw`: at epoch `now`, `voter` takes back what it committed.
    pub open spec fn withdraw(self, voter: Seq<char>, now: u64) -> Result<(VoteState, int), ArcaneError> {
        if now <= self.end {
            Err(ArcaneError::VoteNotEnded)
        } else if !self.voters.contains_key(voter) {
            Err(ArcaneError::NotVoted)
        } else if !self.voters[voter].is_not_withdrawed {
            Err(ArcaneError::AlreadyWithdrawn)
        } else if self.voters[voter].amount < 0 {
            Err(ArcaneError::InvalidAmount)
        } else if self.voters[voter].amount > self.committed {
            Err(ArcaneError::InsufficientBalance)
        } else {
            Ok(
                (
                    VoteState {
                        committed: self.committed - self.voters[voter].amount,
                        voters: self.voters.insert(
                            voter,
                            VoterRecord { is_not_withdrawed: false, ..self.voters[voter] },
                        ),
                        ..self
                    },
                    self.voters[voter].amount,
                ),
            )
        }
    }
}

/// The reward for having committed `amount` attos when `total` attos were
/// committed in all at that epoch, at `rate`: `rate * (amount / total)`.
pub open spec fn reward_of(amount: int, total: int, rate: int) -> Result<int, ArcaneError> {
    if !(total != 0 && in_i256(amount * one_attos()) && narrows_to_i192(div_attos(amount, total))) {
        Err(ArcaneError::Overflow)
    } else if !(in_i256(rate * div_attos(amount, total)) && narrows_to_i192(mul_attos(rate, div_attos(amount, total)))) {
        Err(ArcaneError::Overflow)
    } else {
        Ok(mul_attos(rate, div_attos(amount, total)))
    }
}

proof fn lemma_open_sum_frame(order: Seq<Seq<char>>, voters: Map<Seq<char>, VoterRecord>, v: Seq<char>, x: VoterRecord)
    requires
        !order.contains(v),
    ensures
        open_sum(order, voters.insert(v, x)) == open_sum(order, voters),
    decreases order.len(),
{
    if order.len() > 0 {
        let d = order.drop_last();
        assert(!d.contains(v)) by {
            if d.contains(v) {
                let i = choose|i: int| 0 <= i < d.len() && d[i] == v;
                assert(order[i] == v);
            }
        }
        assert(order[order.len() - 1] == order.last());
        lemma_open_sum_frame(d, voters, v, x);
    }
}

proof fn lemma_open_sum_close(order: Seq<Seq<char>>, voters: Map<Seq<char>, VoterRecord>, v: Seq<char>)
    requires
        order.no_duplicates(),
        order.contains(v),
        voters[v].is_not_withdrawed,
    ensures
        open_sum(order, voters.insert(v, VoterRecord { is_not_withdrawed: false, ..voters[v] })) == open_sum(
            order,
            voters,
        ) - voters[v].amount,
    decreases order.len(),
{
    let x = VoterRecord { is_not_withdrawed: false, ..voters[v] };
    let d = order.drop_last();
    assert(order[order.len() - 1] == order.last());
    if order.last() == v {
        assert(!d.contains(v)) by {
            if d.contains(v) {
                let i = choose|i: int| 0 <= i < d.len() && d[i] == v;
                assert(order[i] == v && i != order.len() - 1);
            }
        }
        lemma_open_sum_frame(d, voters, v, x);
    } else {
        let i = choose|i: int| 0 <= i < order.len() && order[i] == v;
        assert(i != order.len() - 1);
        assert(d[i] == v);
        assert(d.no_duplicates()) by {
            assert forall|a: int, b: int| 0 <= a < d.len() && 0 <= b < d.len() && a != b implies d[a] != d[b] by {
                assert(order[a] == d[a] && order[b] == d[b]);
            }
        }
        lemma_open_sum_close(d, voters, v);
    }
}

proof fn lemma_open_sum_bound(order: Seq<Seq<char>>, voters: Map<Seq<char>, VoterRecord>, v: Seq<char>)
    requires
        order.contains(v),
        voters[v].is_not_withdrawed,
        forall|i: int| 0 <= i < order.len() ==> #[trigger] voters[order[i]].amount >= 0,
    ensures
        0 <= voters[v].amount <= open_sum(order, voters),
    decreases order.len(),
{
    let d = order.drop_last();
    assert(order[order.len() - 1] == order.last());
    lemma_open_sum_nonneg(d, voters);
    if order.last() != v {
        let i = choose|i: int| 0 <= i < order.len() && order[i] == v;
        assert(d[i] == v);
        assert forall|j: int| 0 <= j < d.len() implies #[trigger] voters[d[j]].amount >= 0 by {
            assert(order[j] == d[j]);
        }
        lemma_open_sum_bound(d, voters, v);
    } else {
        assert(voters[order[order.len() - 1]].amount >= 0);
    }
}

proof fn lemma_open_sum_nonneg(order: Seq<Seq<char>>, voters: Map<Seq<char>, VoterRecord>)
    requires
        forall|i: int| 0 <= i < order.len() ==> #[trigger] voters[order[i]].amount >= 0,
    ensures
        0 <= open_sum(order, voters),
    decreases order.len(),
{
    if order.len() > 0 {
        let d = order.drop_last();
        assert forall|j: int| 0 <= j < d.len() implies #[trigger] voters[d[j]].amount >= 0 by {
            assert(order[j] == d[j]);
        }
        assert(voters[order[order.len() - 1]].amount >= 0);
        lemma_open_sum_nonneg(d, voters);
    }
}

/// Every vote keeps the invariant of the state.
pub proof fn lemma_vote_keeps_inv(s: VoteState, voter: Seq<char>, key: Seq<char>, amount: int, now: u64)
    requires
        s.inv(),
        0 <= amount,
    ensures
        s.vote(voter, key, amount, now) matches Ok(t) ==> t.inv(),
{
    if let Ok(t) = s.vote(voter, key, amount, now) {
        let x = VoterRecord { key, amount, is_not_withdrawed: true };
        assert(!s.order.contains(voter));
        assert(t.order.drop_last() =~= s.order);
        assert(t.order.last() == voter);
        assert(t.order.no_duplicates()) by {
            assert forall|i: int, j: int| 0 <= i < t.order.len() && 0 <= j < t.order.len() && i != j implies
                t.order[i] != t.order[j] by {
                if i == s.order.len() as int {
                    assert(s.order[j] == t.order[j]);
                } else if j == s.order.len() as int {
                    assert(s.order[i] == t.order[i]);
                } else {
                    assert(s.order[i] == t.order[i] && s.order[j] == t.order[j]);
                }
            }
        }
        assert forall|v: Seq<char>| #[trigger] t.voters.contains_key(v) <==> t.order.contains(v) by {
            if t.order.contains(v) && v != voter {
                let i = choose|i: int| 0 <= i < t.order.len() && t.order[i] == v;
                assert(s.order[i] == v);
            }
            if s.order.contains(v) {
                let i = choose|i: int| 0 <= i < s.order.len() && s.order[i] == v;
                assert(t.order[i] == v);
            }
            assert(t.order[s.order.len() as int] == voter);
        }
        assert forall|k: Seq<char>| #[trigger] t.keys.contains_key(k) implies t.keys[k].voters == count_votes(
            t.order,
            t.voters,
            k,
        ) && t.keys[k].amounts == sum_votes(t.order, t.voters, k) by {
            lemma_tally_frame(s.order, s.voters, voter, x, k);
        }
        lemma_open_sum_frame(s.order, s.voters, voter, x);
    }
}

/// Every withdrawal keeps the invariant of the state.
pub proof fn lemma_withdraw_keeps_inv(s: VoteState, voter: Seq<char>, now: u64)
    requires
        s.inv(),
    ensures
        s.withdraw(voter, now) matches Ok((t, _)) ==> t.inv(),
{
    if let Ok((t, _)) = s.withdraw(voter, now) {
        let x = VoterRecord { is_not_withdrawed: false, ..s.voters[voter] };
        assert forall|k: Seq<char>| #[trigger] t.keys.contains_key(k) implies t.keys[k].voters == count_votes(
            t.order,
            t.voters,
            k,
        ) && t.keys[k].amounts == sum_votes(t.order, t.voters, k) by {
            lemma_tally_same(s.order, s.voters, voter, x, k);
        }
        assert forall|v: Seq<char>| #[trigger] t.voters.contains_key(v) implies t.keys.contains_key(
            t.voters[v].key,
        ) && t.voters[v].amount >= 0 by {
            assert(s.voters.contains_key(v));
        }
        lemma_open_sum_close(s.order, s.voters, voter);
    }
}

/// The vault always holds what a voter is owed: under the invariant, a
/// voter who has not withdrawn can withdraw once the vote has ended, and
/// gets back exactly what it committed.
pub proof fn lemma_withdraw_solvent(s: VoteState, voter: Seq<char>, now: u64)
    requires
        s.inv(),
        s.voters.contains_key(voter),
        s.voters[voter].is_not_withdrawed,
        now > s.end,
    ensures
        s.withdraw(voter, now) matches Ok((t, amount)) && amount == s.voters[voter].amount && t.committed
            == s.committed - amount,
{
    assert forall|i: int| 0 <= i < s.order.len() implies #[trigger] s.voters[s.order[i]].amount >= 0 by {
        assert(s.order.contains(s.order[i]));
        assert(s.voters.contains_key(s.order[i]));
    }
    lemma_open_sum_bound(s.order, s.voters, voter);
}

/// A vote is counted as cast: after `vote` succeeds, the voter's record holds
/// the option and amount it gave, the option's tally has one more voter and
/// the amount more, the tokens held grow by the amount, and every other
/// option and voter stays as it was. A withdrawal gives back the amount
/// recorded for the voter, lowers the tokens held by it, and only closes the
/// voter's record.
pub proof fn lemma_votes_are_counted(s: VoteState, voter: Seq<char>, key: Seq<char>, amount: int, now: u64)
    ensures
        s.vote(voter, key, amount, now) matches Ok(t) ==> {
            &&& t.voters[voter] == (VoterRecord { key, amount, is_not_withdrawed: true })
            &&& t.keys[key].voters == s.keys[key].voters + 1
            &&& t.keys[key].amounts == s.keys[key].amounts + amount
            &&& t.committed == s.committed + amount
            &&& forall|k: Seq<char>| #[trigger] s.keys.contains_key(k) && k != key ==> t.keys.contains_key(k)
                && t.keys[k] == s.keys[k]
            &&& forall|v: Seq<char>| #[trigger] s.voters.contains_key(v) ==> t.voters.contains_key(v) && t.voters[v]
                == s.voters[v]
        },
        s.withdraw(voter, now) matches Ok((t, a)) ==> {
            &&& a == s.voters[voter].amount
            &&& t.committed == s.committed - a
            &&& t.voters[voter] == (VoterRecord { is_not_withdrawed: false, ..s.voters[voter] })
            &&& t.keys == s.keys
        },
{
}

/// A voter votes at most once and withdraws at most once, not before the
/// end epoch, and votes only until the end epoch.
pub proof fn lemma_vote_rules(s: VoteState, voter: Seq<char>, key: Seq<char>, amount: int, now: u64, now2: u64)
    ensures
        now > s.end ==> s.vote(voter, key, amount, now) is Err,
        now <= s.end ==> s.withdraw(voter, now) is Err,
        s.vote(voter, key, amount, now) is Ok ==> s.vote(voter, key, amount, now)->Ok_0.vote(
            voter,
            key,
            amount,
            now2,
        ) is Err,
        s.withdraw(voter, now) is Ok ==> s.withdraw(voter, now)->Ok_0.0.withdraw(voter, now2) is Err,
{
}

/// A voter's reward is a share of the rate: when what it committed is part
/// of the epoch's positive total and the rate is not negative, the reward
/// lies between zero and the rate.
pub proof fn lemma_reward_within_rate(amount: int, total: int, rate: int)
    requires
        0 <= amount <= total,
        0 < total,
        0 <= rate,
    ensures
        reward_of(amount, total, rate) matches Ok(r) ==> 0 <= r <= rate,
{
    let e = one_attos();
    let q = div_attos(amount, total);
    vstd::arithmetic::mul::lemma_mul_nonnegative(amount, e);
    vstd::arithmetic::mul::lemma_mul_inequality(amount, total, e);
    vstd::arithmetic::div_mod::lemma_div_is_ordered(amount * e, total * e, total);
    vstd::arithmetic::mul::lemma_mul_is_commutative(total, e);
    vstd::arithmetic::div_mod::lemma_div_by_multiple(e, total);
    vstd::arithmetic::div_mod::lemma_div_pos_is_pos(amount * e, total);
    assert(0 <= q <= e);
    vstd::arithmetic::mul::lemma_mul_nonnegative(rate, q);
    vstd::arithmetic::mul::lemma_mul_inequality(q, e, rate);
    vstd::arithmetic::mul::lemma_mul_is_commutative(q, rate);
    vstd::arithmetic::mul::lemma_mul_is_commutative(e, rate);
    vstd::arithmetic::div_mod::lemma_div_is_ordered(rate * q, rate * e, e);
    vstd::arithmetic::div_mod::lemma_div_by_multiple(rate, e);
    vstd::arithmetic::div_mod::lemma_div_pos_is_pos(rate * q, e);
}

/// A vote's round trip through a vote component and the core data: once the
/// vote component has taken `amount` from `voter` and the core data has
/// counted it for the end epoch, then after that epoch the vote
/// component gives the amount back, the core data reports a total that
/// includes it and its reward rate, and the reward computed from them lies
/// between zero and the rate.
pub proof fn lemma_vote_round_trip(
    f: VoteState,
    c: CoreDataState,
    component: Seq<char>,
    voter: Seq<char>,
    key: Seq<char>,
    amount: int,
    now: u64,
    now2: u64,
)
    requires
        f.inv(),
        0 < amount,
        f.vote(voter, key, amount, now) is Ok,
        c.vote_and_update_data(f.end, amount, component, voter) is Ok,
        0 <= c.tokens_at[f.end],
        0 <= c.reward_rate,
        now2 > f.end,
    ensures
        ({
            let f2 = f.vote(voter, key, amount, now)->Ok_0;
            let c2 = c.vote_and_update_data(f.end, amount, component, voter)->Ok_0;
            &&& f2.withdraw(voter, now2) matches Ok((_, a)) && a == amount
            &&& c2.withdraw_and_update_data(f.end, voter, component) matches Ok((_, (total, rate)))
                && amount <= total && rate == c.reward_rate && (reward_of(amount, total, rate) matches Ok(r)
                ==> 0 <= r <= rate)
        }),
{
    let f2 = f.vote(voter, key, amount, now)->Ok_0;
    lemma_vote_keeps_inv(f, voter, key, amount, now);
    lemma_withdraw_solvent(f2, voter, now2);
    lemma_vote_then_withdraw(c, f.end, amount, component, voter);
    lemma_reward_within_rate(amount, c.tokens_at[f.end] + amount, c.reward_rate);
}

/// A vote component of the Labyrinth: the options of one proposal, the votes
/// cast for them, the tokens committed, and the epoch at which voting ends.
pub struct ArcaneVoteFactory {
    self_address: String,
    commited_token: Decimal,
    end_at_epoch: u64,
    member_rs: String,
    owner: String,
    description: String,
    pict: Option<String>,
    arcane_data: String,
    arcane_vault: String,
    keys: Table<String, (u128, Decimal)>,
    voter: Table<String, (String, Decimal, bool)>,
}

/// The mathematical content of an option's record.
pub open spec fn tally_view(d: (u128, Decimal)) -> KeyTally {
    KeyTally { voters: d.0 as int, amounts: d.1.attos() }
}

/// The mathematical content of a voter's record.
pub open spec fn voter_view(d: (String, Decimal, bool)) -> VoterRecord {
    VoterRecord { key: d.0@, amount: d.1.attos(), is_not_withdrawed: d.2 }
}

impl View for ArcaneVoteFactory {
    type V = VoteState;

    closed spec fn view(&self) -> VoteState {
        VoteState {
            end: self.end_at_epoch,
            committed: self.commited_token.attos(),
            keys: self.keys@.map_values(|d: (u128, Decimal)| tally_view(d)),
            voters: self.voter@.map_values(|d: (String, Decimal, bool)| voter_view(d)),
            order: self.voter.order(),
        }
    }
}

impl ArcaneVoteFactory {
    /// The component is well formed; its state keeps the invariant.
    pub closed spec fn wf(&self) -> bool {
        &&& self.keys.wf()
        &&& self.voter.wf()
        &&& self@.inv()
    }

    /// A well-formed component's state keeps the invariant.
    pub proof fn lemma_wf(&self)
        requires
            self.wf(),
        ensures
            self@.inv(),
    {
    }

    /// Who may create a vote component: the holders of `creator_badge`; its
    /// `vote` and `withdraw` are then open to everyone.
    pub fn instantiate_rule(creator_badge: String) -> (r: AccessRule)
        ensures
            requires_resource(r, creator_badge),
    {
        require_resource(creator_badge)
    }

    /// A new vote component at `self_address`, owned by the badge `nft_id`,
    /// for the options `keys` (each with no votes yet), ending at epoch
    /// `end`; it knows the member resource and the core data and reward
    /// vault components.
    pub fn instantiate(
        pict: Option<String>,
        description: String,
        nft_id: String,
        keys: Vec<String>,
        end: u64,
        member_rs: String,
        arcane_data_component_address: String,
        arcane_vault: String,
        self_address: String,
    ) -> (f: Self)
        ensures
            f.wf(),
            f@.end == end,
            f@.committed == 0,
            f@.voters == Map::<Seq<char>, VoterRecord>::empty(),
            f@.order == Seq::<Seq<char>>::empty(),
            forall|k: Seq<char>| #[trigger]
                f@.keys.contains_key(k) <==> (exists|i: int| 0 <= i < keys@.len() && keys@[i]@ == k),
            forall|k: Seq<char>| #[trigger]
                f@.keys.contains_key(k) ==> f@.keys[k] == (KeyTally { voters: 0, amounts: 0 }),
            f.owner() == nft_id,
            f.member_rs() == member_rs,
            f.self_address() == self_address,
            f.arcane_data() == arcane_data_component_address,
            f.arcane_vault() == arcane_vault,
            f.description() == description,
            f.pict() == pict,
    {
        let mut table: Table<String, (u128, Decimal)> = Table::new();
        let mut i: usize = 0;
        while i < keys.len()
            invariant
                i <= keys@.len(),
                table.wf(),
                forall|k: Seq<char>| #[trigger]
                    table@.contains_key(k) <==> (exists|j: int| 0 <= j < i && keys@[j]@ == k),
                forall|k: Seq<char>| #[trigger]
                    table@.contains_key(k) ==> table@[k] == (0u128, Decimal { lo: 0, mid: 0, hi: 0 }),
            decreases keys@.len() - i,
        {
            let k = keys[i].clone();
            table.insert(k, (0u128, Decimal::zero()));
            proof {
                assert forall|k: Seq<char>| #[trigger]
                    table@.contains_key(k) <==> (exists|j: int| 0 <= j < i + 1 && keys@[j]@ == k) by {
                    if exists|j: int| 0 <= j < i + 1 && keys@[j]@ == k {
                        let j = choose|j: int| 0 <= j < i + 1 && keys@[j]@ == k;
                        if j < i {
                            assert(exists|j: int| 0 <= j < i && keys@[j]@ == k);
                        }
                    }
                }
            }
            i = i + 1;
        }
        let f = ArcaneVoteFactory {
            self_address,
            commited_token: Decimal::zero(),
            end_at_epoch: end,
            member_rs,
            owner: nft_id,
            description,
            pict,
            arcane_data: arcane_data_component_address,
            arcane_vault,
            keys: table,
            voter: Table::new(),
        };
        proof {
            f.voter.lemma_order();
            assert(f@.voters =~= Map::<Seq<char>, VoterRecord>::empty());
            assert forall|k: Seq<char>| #[trigger]
                f@.keys.contains_key(k) implies f@.keys[k].voters == count_votes(f@.order, f@.voters, k)
                && f@.keys[k].amounts == sum_votes(f@.order, f@.voters, k) by {
                assert(table@[k] == (0u128, Decimal { lo: 0, mid: 0, hi: 0 }));
            }
        }
        f
    }

    /// The badge that owns the component.
    pub closed spec fn owner(&self) -> String {
        self.owner
    }

    /// The resource of the member badges.
    pub closed spec fn member_rs(&self) -> String {
        self.member_rs
    }

    /// The component's own address.
    pub closed spec fn self_address(&self) -> String {
        self.self_address
    }

    /// The core data component.
    pub closed spec fn arcane_data(&self) -> String {
        self.arcane_data
    }

    /// The reward vault component.
    pub closed spec fn arcane_vault(&self) -> String {
        self.arcane_vault
    }

    /// The proposal's description.
    pub closed spec fn description(&self) -> String {
        self.description
    }

    /// The proposal's picture.
    pub closed spec fn pict(&self) -> Option<String> {
        self.pict
    }

    /// The epoch at which voting ends.
    pub fn end_at_epoch(&self) -> (r: u64)
        ensures
            r == self@.end,
    {
        self.end_at_epoch
    }

    /// The committed tokens held.
    pub fn committed(&self) -> (r: Decimal)
        ensures
            r.attos() == self@.committed,
    {
        self.commited_token
    }

    /// The resource of the member badges.
    pub fn member_resource(&self) -> (r: &String)
        ensures
            *r == self.member_rs(),
    {
        &self.member_rs
    }

    /// The component's own address.
    pub fn address(&self) -> (r: &String)
        ensures
            *r == self.self_address(),
    {
        &self.self_address
    }

    /// The core data component.
    pub fn data_component(&self) -> (r: &String)
        ensures
            *r == self.arcane_data(),
    {
        &self.arcane_data
    }

    /// The reward vault component.
    pub fn vault_component(&self) -> (r: &String)
        ensures
            *r == self.arcane_vault(),
    {
        &self.arcane_vault
    }

    /// The count and the committed tokens of the option `key`, if it is one.
    pub fn key_tally(&self, key: &String) -> (r: Option<(u128, Decimal)>)
        requires
            self.wf(),
        ensures
            r is Some <==> self@.keys.contains_key(key@),
            r matches Some(d) ==> tally_view(d) == self@.keys[key@],
    {
        match self.keys.get(key) {
            Some(d) => Some(*d),
            None => None,
        }
    }

    /// Records the vote of the badge `voter` for `key`, committing `amount`,
    /// at epoch `now`, and puts the tokens into the vault. A refused vote
    /// leaves the component as it was.
    pub fn vote(&mut self, voter: String, key: String, amount: Decimal, now: u64) -> (r: Result<(), ArcaneError>)
        requires
            old(self).wf(),
            0 <= amount.attos(),
        ensures
            final(self).wf(),
            match old(self)@.vote(voter@, key@, amount.attos(), now) {
                Ok(s) => r is Ok && final(self)@ == s,
                Err(e) => r == Err::<(), ArcaneError>(e) && final(self)@ == old(self)@,
            },
            final(self).owner() == old(self).owner(),
            final(self).self_address() == old(self).self_address(),
            final(self).member_rs() == old(self).member_rs(),
            final(self).arcane_data() == old(self).arcane_data(),
            final(self).arcane_vault() == old(self).arcane_vault(),
            final(self).description() == old(self).description(),
            final(self).pict() == old(self).pict(),
    {
        proof {
            lemma_vote_keeps_inv(self@, voter@, key@, amount.attos(), now);
            self.voter.lemma_order();
        }
        if now > self.end_at_epoch {
            return Err(ArcaneError::VoteClosed);
        }
        if self.voter.contains_key(&voter) {
            return Err(ArcaneError::AlreadyVoted);
        }
        let (count, total) = match self.keys.get(&key) {
            Some(d) => *d,
            None => {
                return Err(ArcaneError::InvalidKey);
            },
        };
        if count == u128::MAX {
            return Err(ArcaneError::Overflow);
        }
        let new_total = match total.checked_add(amount) {
            Some(t) => t,
            None => {
                return Err(ArcaneError::Overflow);
            },
        };
        let new_committed = match self.commited_token.checked_add(amount) {
            Some(c) => c,
            None => {
                return Err(ArcaneError::Overflow);
            },
        };
        let ghost old_state = self@;
        let record_key = key.clone();
        self.keys.insert(key, (count + 1, new_total));
        self.voter.insert(voter, (record_key, amount, true));
        self.commited_token = new_committed;
        proof {
            let expected = old_state.vote(voter@, key@, amount.attos(), now)->Ok_0;
            assert(self@.keys =~= expected.keys);
            assert(self@.voters =~= expected.voters);
        }
        Ok(())
    }

    /// At epoch `now`, marks the vote of the badge `voter` as withdrawn and
    /// takes what it committed out of the vault, giving it back. A refused
    /// request leaves the component as it was.
    pub fn withdraw(&mut self, voter: String, now: u64) -> (r: Result<Decimal, ArcaneError>)
        requires
            old(self).wf(),
        ensures
            final(self).wf(),
            match old(self)@.withdraw(voter@, now) {
                Ok((s, amount)) => r matches Ok(a) && a.attos() == amount && final(self)@ == s,
                Err(e) => r matches Err(e2) && e2 == e && final(self)@ == old(self)@,
            },
            final(self).owner() == old(self).owner(),
            final(self).self_address() == old(self).self_address(),
            final(self).member_rs() == old(self).member_rs(),
            final(self).arcane_data() == old(self).arcane_data(),
            final(self).arcane_vault() == old(self).arcane_vault(),
            final(self).description() == old(self).description(),
            final(self).pict() == old(self).pict(),
    {
        proof {
            lemma_withdraw_keeps_inv(self@, voter@, now);
        }
        if now <= self.end_at_epoch {
            return Err(ArcaneError::VoteNotEnded);
        }
        let (key, amount) = match self.voter.get(&voter) {
            Some(d) => {
                if !d.2 {
                    return Err(ArcaneError::AlreadyWithdrawn);
                }
                (d.0.clone(), d.1)
            },
            None => {
                return Err(ArcaneError::NotVoted);
            },
        };
        if amount.lt(Decimal::zero()) {
            return Err(ArcaneError::InvalidAmount);
        }
        if amount.gt(self.commited_token) {
            return Err(ArcaneError::InsufficientBalance);
        }
        let new_committed = match self.commited_token.checked_sub(amount) {
            Some(c) => c,
            None => {
                return Err(ArcaneError::Overflow);
            },
        };
        let ghost old_state = self@;
        let ghost old_order = self.voter.order();
        self.voter.insert(voter, (key, amount, false));
        self.commited_token = new_committed;
        proof {
            let expected = old_state.withdraw(voter@, now)->Ok_0.0;
            assert(self@.voters =~= expected.voters);
            assert(self.voter.order() == old_order);
        }
        Ok(amount)
    }

    /// The reward for having committed `amount` when `total` was committed in
    /// all at that epoch, at `reward_rate`: `reward_rate * (amount / total)`.
    pub fn reward_for(amount: Decimal, total: Decimal, reward_rate: Decimal) -> (r: Result<Decimal, ArcaneError>)
        ensures
            match reward_of(amount.attos(), total.attos(), reward_rate.attos()) {
                Ok(x) => r matches Ok(d) && d.attos() == x,
                Err(e) => r matches Err(e2) && e2 == e,
            },
    {
        let share = match amount.checked_div(total) {
            Some(s) => s,
            None => {
                return Err(ArcaneError::Overflow);
            },
        };
        match reward_rate.checked_mul(share) {
            Some(x) => Ok(x),
            None => Err(ArcaneError::Overflow),
        }
    }
}

} // verus!
