use vstd::prelude::*;

use crate::decimal::{Decimal, in_i192};
use crate::access::{AccessRule, require_caller, requires_caller};
use crate::error::ArcaneError;
use crate::table::Table;

verus! {

/// What a vote component records of one voter: the option chosen, the amount
/// committed, and whether it is still to be withdrawn.
pub struct VoterData {
    pub key: String,
    pub amount: Decimal,
    pub is_not_withdrawed: bool,
}

/// What a vote component records of one option: how many voted for it, and
/// how much they committed in all.
#[derive(Clone, Copy, PartialEq, Eq, Structural, Debug)]
pub struct KeyData {
    pub voters: u16,
    pub amounts: Decimal,
}

/// The mathematical content of a [`VoterData`].
pub struct VoterRecord {
    pub key: Seq<char>,
    pub amount: int,
    pub is_not_withdrawed: bool,
}

/// The mathematical content of a [`KeyData`].
pub struct KeyTally {
    pub voters: int,
    pub amounts: int,
}

impl View for VoterData {
    type V = VoterRecord;

    open spec fn view(&self) -> VoterRecord {
        VoterRecord { key: self.key@, amount: self.amount.attos(), is_not_withdrawed: self.is_not_withdrawed }
    }
}

impl View for KeyData {
    type V = KeyTally;

    open spec fn view(&self) -> KeyTally {
        KeyTally { voters: self.voters as int, amounts: self.amounts.attos() }
    }
}

/// How many of the voters in `order` chose `key`.
pub open spec fn count_votes(order: Seq<Seq<char>>, voters: Map<Seq<char>, VoterRecord>, key: Seq<char>) -> int
    decreases order.len(),
{
    if order.len() == 0 {
        0
    } else {
        count_votes(order.drop_last(), voters, key) + if voters[order.last()].key == key {
            1int
        } else {
            0int
        }
    }
}

/// The attos committed by the voters in `order` who chose `key`.
pub open spec fn sum_votes(order: Seq<Seq<char>>, voters: Map<Seq<char>, VoterRecord>, key: Seq<char>) -> int
    decreases order.len(),
{
    if order.len() == 0 {
        0
    } else {
        sum_votes(order.drop_last(), voters, key) + if voters[order.last()].key == key {
            voters[order.last()].amount
        } else {
            0int
        }
    }
}

/// The state of a vote component.
pub struct VoteFactoryState {
    pub id: u64,
    pub keys: Map<Seq<char>, KeyTally>,
    pub voters: Map<Seq<char>, VoterRecord>,
    /// The voters in the order in which they voted.
    pub order: Seq<Seq<char>>,
    pub metadata: Seq<char>,
    pub status: bool,
    pub end: u64,
}

impl VoteFactoryState {
    /// What every state of a vote component satisfies: each voter chose one of
    /// the options, and each option's tally is the count and the sum of the
    /// votes cast for it.
    pub open spec fn inv(self) -> bool {
        &&& self.order.no_duplicates()
        &&& forall|v: Seq<char>| #[trigger] self.voters.contains_key(v) <==> self.order.contains(v)
        &&& forall|v: Seq<char>| #[trigger]
            self.voters.contains_key(v) ==> self.keys.contains_key(self.voters[v].key)
        &&& forall|k: Seq<char>| #[trigger]
            self.keys.contains_key(k) ==> self.keys[k].voters == count_votes(self.order, self.voters, k)
                && self.keys[k].amounts == sum_votes(self.order, self.voters, k)
    }

    /// `add_voter`: records the vote of `voter` for `key` with `amount` attos
    /// at epoch `now`, giving back the end epoch and the component's id.
    pub open spec fn add_voter(self, voter: Seq<char>, key: Seq<char>, amount: int, now: u64) -> Result<
        (VoteFactoryState, (u64, u64)),
        ArcaneError,
    > {
        if !self.status {
            Err(ArcaneError::VoteNotActivated)
        } else if now > self.end {
            Err(ArcaneError::VoteClosed)
        } else if !self.keys.contains_key(key) {
            Err(ArcaneError::InvalidKey)
        } else if self.keys[key].voters >= u16::MAX {
            Err(ArcaneError::Overflow)
        } else if !in_i192(self.keys[key].amounts + amount) {
            Err(ArcaneError::Overflow)
        } else if self.voters.contains_key(voter) {
            Err(ArcaneError::AlreadyVoted)
        } else {
            Ok(
                (
                    VoteFactoryState {
                        keys: self.keys.insert(
                            key,
                            KeyTally {
                                voters: self.keys[key].voters + 1,
                                amounts: self.keys[key].amounts + amount,
                            },
                        ),
                        voters: self.voters.insert(
                            voter,
                            VoterRecord { key, amount, is_not_withdrawed: true },
                        ),
                        order: self.order.push(voter),
                        ..self
                    },
                    (self.end, self.id),
                ),
            )
        }
    }

    /// `get_amount_of`: at epoch `now`, marks the vote of `voter` as withdrawn
    /// and gives back the end epoch, the amount committed and the id.
    pub open spec fn get_amount_of(self, voter: Seq<char>, now: u64) -> Result<
        (VoteFactoryState, (u64, int, u64)),
        ArcaneError,
    > {
        if now <= self.end {
            Err(ArcaneError::VoteNotEnded)
        } else if !self.voters.contains_key(voter) {
            Err(ArcaneError::NotVoted)
        } else if !self.voters[voter].is_not_withdrawed {
            Err(ArcaneError::AlreadyWithdrawn)
        } else {
            Ok(
                (
                    VoteFactoryState {
                        voters: self.voters.insert(
                            voter,
                            VoterRecord { is_not_withdrawed: false, ..self.voters[voter] },
                        ),
                        ..self
                    },
                    (self.end, self.voters[voter].amount, self.id),
                ),
            )
        }
    }

    /// `status`: sets whether the vote is active.
    pub open spec fn set_status(self, status: bool) -> VoteFactoryState {
        VoteFactoryState { status, ..self }
    }
}

/// Tallies over voters that do not include `v` do not see a change of `v`.
pub proof fn lemma_tally_frame(
    order: Seq<Seq<char>>,
    voters: Map<Seq<char>, VoterRecord>,
    v: Seq<char>,
    x: VoterRecord,
    key: Seq<char>,
)
    requires
        !order.contains(v),
    ensures
        count_votes(order, voters.insert(v, x), key) == count_votes(order, voters, key),
        sum_votes(order, voters.insert(v, x), key) == sum_votes(order, voters, key),
    decreases order.len(),
{
    if order.len() > 0 {
        let d = order.drop_last();
        assert(!d.contains(v)) by {
            if d.contains(v) {
                let i = choose|i: int| 0 <= i < d.len() && d[i] == v;
                assert(order[i] == v);
            }
        }
        assert(order.last() != v) by {
            assert(order[order.len() - 1] == order.last());
        }
        lemma_tally_frame(d, voters, v, x, key);
    }
}

/// Changing a voter's record without changing its option or amount leaves
/// every tally as it was.
pub proof fn lemma_tally_same(
    order: Seq<Seq<char>>,
    voters: Map<Seq<char>, VoterRecord>,
    v: Seq<char>,
    x: VoterRecord,
    key: Seq<char>,
)
    requires
        voters.contains_key(v),
        x.key == voters[v].key,
        x.amount == voters[v].amount,
    ensures
        count_votes(order, voters.insert(v, x), key) == count_votes(order, voters, key),
        sum_votes(order, voters.insert(v, x), key) == sum_votes(order, voters, key),
    decreases order.len(),
{
    if order.len() > 0 {
        lemma_tally_same(order.drop_last(), voters, v, x, key);
    }
}

/// Every change that `add_voter` makes keeps the invariant of the state.
pub proof fn lemma_add_voter_keeps_inv(
    s: VoteFactoryState,
    voter: Seq<char>,
    key: Seq<char>,
    amount: int,
    now: u64,
)
    requires
        s.inv(),
    ensures
        s.add_voter(voter, key, amount, now) matches Ok((t, _)) ==> t.inv(),
{
    if let Ok((t, _)) = s.add_voter(voter, key, amount, now) {
        let x = VoterRecord { key, amount, is_not_withdrawed: true };
        assert(!s.order.contains(voter));
        assert(t.order.no_duplicates()) by {
            assert forall|i: int, j: int| 0 <= i < t.order.len() && 0 <= j < t.order.len() && i != j implies
                t.order[i] != t.order[j] by {
                if i == s.order.len() as int {
                    assert(s.order[j] == t.order[j]);
                } else if j == s.order.len() as int {
                    assert(s.order[i] == t.order[i]);
                } else {
                    assert(s.order[i] == t.order[i] && s.order[j] == t.order[j]);
                }
            }
        }
        assert forall|v: Seq<char>| #[trigger] t.voters.contains_key(v) <==> t.order.contains(v) by {
            if t.order.contains(v) && v != voter {
                let i = choose|i: int| 0 <= i < t.order.len() && t.order[i] == v;
                assert(s.order[i] == v);
            }
            if s.order.contains(v) {
                let i = choose|i: int| 0 <= i < s.order.len() && s.order[i] == v;
                assert(t.order[i] == v);
            }
            assert(t.order[s.order.len() as int] == voter);
        }
        assert forall|k: Seq<char>| #[trigger] t.keys.contains_key(k) implies t.keys[k].voters == count_votes(
            t.order,
            t.voters,
            k,
        ) && t.keys[k].amounts == sum_votes(t.order, t.voters, k) by {
            lemma_tally_frame(s.order, s.voters, voter, x, k);
            assert(t.order.drop_last() =~= s.order);
            assert(t.order.last() == voter);
        }
    }
}

/// Every change that `get_amount_of` makes keeps the invariant of the state.
pub proof fn lemma_get_amount_of_keeps_inv(s: VoteFactoryState, voter: Seq<char>, now: u64)
    requires
        s.inv(),
    ensures
        s.get_amount_of(voter, now) matches Ok((t, _)) ==> t.inv(),
{
    if let Ok((t, _)) = s.get_amount_of(voter, now) {
        let x = VoterRecord { is_not_withdrawed: false, ..s.voters[voter] };
        assert forall|k: Seq<char>| #[trigger] t.keys.contains_key(k) implies t.keys[k].voters == count_votes(
            t.order,
            t.voters,
            k,
        ) && t.keys[k].amounts == sum_votes(t.order, t.voters, k) by {
            lemma_tally_same(s.order, s.voters, voter, x, k);
        }
        assert forall|v: Seq<char>| #[trigger] t.voters.contains_key(v) implies t.keys.contains_key(
            t.voters[v].key,
        ) by {
            assert(s.voters.contains_key(v));
        }
    }
}

/// A vote is counted as cast: after `add_voter` succeeds, the voter's record
/// holds the option and the amount it gave and is open for withdrawal; the
/// option's tally has one more voter and the amount more; every other option
/// and voter stays as it was; and the result is the end epoch and the id.
/// Withdrawing gives back the amount recorded and only closes the record.
pub proof fn lemma_votes_are_counted(s: VoteFactoryState, voter: Seq<char>, key: Seq<char>, amount: int, now: u64)
    ensures
        s.add_voter(voter, key, amount, now) matches Ok((t, (e, i))) ==> {
            &&& t.voters[voter] == (VoterRecord { key, amount, is_not_withdrawed: true })
            &&& t.keys[key].voters == s.keys[key].voters + 1
            &&& t.keys[key].amounts == s.keys[key].amounts + amount
            &&& forall|k: Seq<char>| #[trigger] s.keys.contains_key(k) && k != key ==> t.keys.contains_key(k)
                && t.keys[k] == s.keys[k]
            &&& forall|v: Seq<char>| #[trigger] s.voters.contains_key(v) ==> t.voters.contains_key(v) && t.voters[v]
                == s.voters[v]
            &&& e == s.end && i == s.id
        },
        s.get_amount_of(voter, now) matches Ok((t, (e, a, i))) ==> {
            &&& a == s.voters[voter].amount
            &&& e == s.end && i == s.id
            &&& t.voters[voter] == (VoterRecord { is_not_withdrawed: false, ..s.voters[voter] })
            &&& t.keys == s.keys
        },
{
}

/// A voter votes at most once: once `add_voter` has recorded `voter`, every
/// later `add_voter` for the same voter is refused, whatever option, amount
/// or epoch it names.
pub proof fn lemma_vote_once(
    s: VoteFactoryState,
    voter: Seq<char>,
    key: Seq<char>,
    amount: int,
    now: u64,
    key2: Seq<char>,
    amount2: int,
    now2: u64,
)
    requires
        s.add_voter(voter, key, amount, now) is Ok,
    ensures
        s.add_voter(voter, key, amount, now)->Ok_0.0.add_voter(voter, key2, amount2, now2) is Err,
{
    let t = s.add_voter(voter, key, amount, now)->Ok_0.0;
    assert(t.voters.contains_key(voter));
}

/// No vote is taken after the end epoch.
pub proof fn lemma_no_vote_after_end(s: VoteFactoryState, voter: Seq<char>, key: Seq<char>, amount: int, now: u64)
    requires
        now > s.end,
    ensures
        s.add_voter(voter, key, amount, now) is Err,
{
}

/// Nothing is withdrawn before the end epoch.
pub proof fn lemma_no_withdraw_before_end(s: VoteFactoryState, voter: Seq<char>, now: u64)
    requires
        now <= s.end,
    ensures
        s.get_amount_of(voter, now) == Err::<(VoteFactoryState, (u64, int, u64)), ArcaneError>(
            ArcaneError::VoteNotEnded,
        ),
{
}

/// What a voter commits is what it withdraws: after `add_voter` records
/// `amount` for `voter`, `get_amount_of` after the end epoch succeeds
/// and gives back that amount, with the component's end epoch and id.
pub proof fn lemma_withdraw_returns_committed(
    s: VoteFactoryState,
    voter: Seq<char>,
    key: Seq<char>,
    amount: int,
    now: u64,
    now2: u64,
)
    requires
        s.add_voter(voter, key, amount, now) is Ok,
        now2 > s.end,
    ensures
        s.add_voter(voter, key, amount, now)->Ok_0.0.get_amount_of(voter, now2) matches Ok((_, (e, a, i)))
            && e == s.end && a == amount && i == s.id,
{
}

/// A voter withdraws at most once: after `get_amount_of` has succeeded for
/// `voter`, every later `get_amount_of` for it is refused.
pub proof fn lemma_withdraw_once(s: VoteFactoryState, voter: Seq<char>, now: u64, now2: u64)
    requires
        s.get_amount_of(voter, now) is Ok,
    ensures
        s.get_amount_of(voter, now)->Ok_0.0.get_amount_of(voter, now2) is Err,
{
}

/// A vote cannot be cancelled or changed: every operation keeps each
/// recorded voter, with the option it chose and the amount it committed.
pub proof fn lemma_votes_persist(
    s: VoteFactoryState,
    voter: Seq<char>,
    key: Seq<char>,
    amount: int,
    now: u64,
    status: bool,
    v: Seq<char>,
)
    requires
        s.voters.contains_key(v),
    ensures
        s.add_voter(voter, key, amount, now) matches Ok((t, _)) ==> t.voters.contains_key(v)
            && t.voters[v].key == s.voters[v].key && t.voters[v].amount == s.voters[v].amount,
        s.get_amount_of(voter, now) matches Ok((t, _)) ==> t.voters.contains_key(v)
            && t.voters[v].key == s.voters[v].key && t.voters[v].amount == s.voters[v].amount,
        s.set_status(status).voters == s.voters,
{
}

/// Setting the status keeps the invariant of the state.
pub proof fn lemma_set_status_keeps_inv(s: VoteFactoryState, status: bool)
    requires
        s.inv(),
    ensures
        s.set_status(status).inv(),
{
}

/// A vote component: the options of one proposal, the votes cast for them,
/// and the epoch at which voting ends.
pub struct ArcaneVoteFactory {
    id: u64,
    keys: Table<String, KeyData>,
    voter: Table<String, VoterData>,
    metadata: String,
    status: bool,
    end: u64,
}

impl View for ArcaneVoteFactory {
    type V = VoteFactoryState;

    closed spec fn view(&self) -> VoteFactoryState {
        VoteFactoryState {
            id: self.id,
            keys: self.keys@.map_values(|d: KeyData| d@),
            voters: self.voter@.map_values(|d: VoterData| d@),
            order: self.voter.order(),
            metadata: self.metadata@,
            status: self.status,
            end: self.end,
        }
    }
}

impl ArcaneVoteFactory {
    /// The component is well formed; its state keeps the invariant.
    pub closed spec fn wf(&self) -> bool {
        &&& self.keys.wf()
        &&& self.voter.wf()
        &&& self@.inv()
    }

    /// A well-formed component's state keeps the invariant.
    pub proof fn lemma_wf(&self)
        requires
            self.wf(),
        ensures
            self@.inv(),
    {
    }

    /// A new vote with id `id`, description `metadata`, one option per key
    /// (each with no votes yet), inactive, ending at epoch `end`.
    pub fn instantiate(id: u64, metadata: String, keys: Vec<String>, end: u64) -> (f: Self)
        ensures
            f.wf(),
            f@.id == id,
            f@.metadata == metadata@,
            f@.end == end,
            !f@.status,
            f@.voters == Map::<Seq<char>, VoterRecord>::empty(),
            f@.order == Seq::<Seq<char>>::empty(),
            forall|k: Seq<char>| #[trigger]
                f@.keys.contains_key(k) <==> (exists|i: int| 0 <= i < keys@.len() && keys@[i]@ == k),
            forall|k: Seq<char>| #[trigger]
                f@.keys.contains_key(k) ==> f@.keys[k] == (KeyTally { voters: 0, amounts: 0 }),
    {
        let mut table: Table<String, KeyData> = Table::new();
        let mut i: usize = 0;
        while i < keys.len()
            invariant
                i <= keys@.len(),
                table.wf(),
                forall|k: Seq<char>| #[trigger]
                    table@.contains_key(k) <==> (exists|j: int| 0 <= j < i && keys@[j]@ == k),
                forall|k: Seq<char>| #[trigger]
                    table@.contains_key(k) ==> table@[k] == (KeyData { voters: 0, amounts: Decimal { lo: 0, mid: 0, hi: 0 } }),
            decreases keys@.len() - i,
        {
            let k = keys[i].clone();
            table.insert(k, KeyData { voters: 0, amounts: Decimal::zero() });
            proof {
                assert forall|k: Seq<char>| #[trigger]
                    table@.contains_key(k) <==> exists|j: int| 0 <= j < i + 1 && keys@[j]@ == k by {
                    if exists|j: int| 0 <= j < i + 1 && keys@[j]@ == k {
                        let j = choose|j: int| 0 <= j < i + 1 && keys@[j]@ == k;
                        if j < i {
                            assert(exists|j: int| 0 <= j < i && keys@[j]@ == k);
                        }
                    }
                }
            }
            i = i + 1;
        }
        let f = ArcaneVoteFactory {
            id,
            keys: table,
            voter: Table::new(),
            metadata,
            status: false,
            end,
        };
        proof {
            f.voter.lemma_order();
            assert(f@.voters =~= Map::<Seq<char>, VoterRecord>::empty());
            assert forall|k: Seq<char>| #[trigger]
                f@.keys.contains_key(k) implies f@.keys[k].voters == count_votes(f@.order, f@.voters, k)
                && f@.keys[k].amounts == sum_votes(f@.order, f@.voters, k) by {
                assert(table@[k] == KeyData { voters: 0, amounts: Decimal { lo: 0, mid: 0, hi: 0 } });
            }
            assert(f@.order.no_duplicates());
        }
        f
    }

    /// The component's id.
    pub fn id(&self) -> (r: u64)
        ensures
            r == self@.id,
    {
        self.id
    }

    /// The epoch at which voting ends.
    pub fn end(&self) -> (r: u64)
        ensures
            r == self@.end,
    {
        self.end
    }

    /// Whether the vote is active.
    pub fn is_active(&self) -> (r: bool)
        ensures
            r == self@.status,
    {
        self.status
    }

    /// The tally of the option `key`, if it is an option.
    pub fn key_data(&self, key: &String) -> (r: Option<KeyData>)
        requires
            self.wf(),
        ensures
            r is Some <==> self@.keys.contains_key(key@),
            r matches Some(d) ==> d@ == self@.keys[key@],
    {
        match self.keys.get(key) {
            Some(d) => Some(*d),
            None => None,
        }
    }

    /// Records the vote of `voter` for `key`, committing `amount`, at epoch
    /// `now`; gives back the end epoch and the component's id. A refused vote
    /// leaves the component as it was.
    pub fn add_voter(&mut self, voter: String, key: String, amount: Decimal, now: u64) -> (r: Result<
        (u64, u64),
        ArcaneError,
    >)
        requires
            old(self).wf(),
        ensures
            final(self).wf(),
            match old(self)@.add_voter(voter@, key@, amount.attos(), now) {
                Ok((s, out)) => r == Ok::<(u64, u64), ArcaneError>(out) && final(self)@ == s,
                Err(e) => r == Err::<(u64, u64), ArcaneError>(e) && final(self)@ == old(self)@,
            },
    {
        proof {
            lemma_add_voter_keeps_inv(self@, voter@, key@, amount.attos(), now);
            self.voter.lemma_order();
        }
        if !self.status {
            return Err(ArcaneError::VoteNotActivated);
        }
        if now > self.end {
            return Err(ArcaneError::VoteClosed);
        }
        let kd: KeyData = match self.keys.get(&key) {
            Some(d) => *d,
            None => {
                return Err(ArcaneError::InvalidKey);
            },
        };
        if kd.voters == u16::MAX {
            return Err(ArcaneError::Overflow);
        }
        let amounts = match kd.amounts.checked_add(amount) {
            Some(a) => a,
            None => {
                return Err(ArcaneError::Overflow);
            },
        };
        if self.voter.contains_key(&voter) {
            return Err(ArcaneError::AlreadyVoted);
        }
        let ghost old_state = self@;
        let record_key = key.clone();
        self.keys.insert(key, KeyData { voters: kd.voters + 1, amounts });
        self.voter.insert(voter, VoterData { key: record_key, amount, is_not_withdrawed: true });
        proof {
            let expected = old_state.add_voter(voter@, key@, amount.attos(), now);
            assert(self@.keys =~= expected.unwrap().0.keys);
            assert(self@.voters =~= expected.unwrap().0.voters);
        }
        Ok((self.end, self.id))
    }

    /// At epoch `now`, marks the vote of `voter` as withdrawn and gives back
    /// the end epoch, the amount committed and the component's id. A refused
    /// request leaves the component as it was.
    pub fn get_amount_of(&mut self, voter: String, now: u64) -> (r: Result<(u64, Decimal, u64), ArcaneError>)
        requires
            old(self).wf(),
        ensures
            final(self).wf(),
            match old(self)@.get_amount_of(voter@, now) {
                Ok((s, (e, a, i))) => r matches Ok((e2, a2, i2)) && e2 == e && a2.attos() == a && i2 == i
                    && final(self)@ == s,
                Err(err) => r == Err::<(u64, Decimal, u64), ArcaneError>(err) && final(self)@ == old(self)@,
            },
    {
        proof {
            lemma_get_amount_of_keeps_inv(self@, voter@, now);
        }
        if now <= self.end {
            return Err(ArcaneError::VoteNotEnded);
        }
        let (key, amount) = match self.voter.get(&voter) {
            Some(d) => {
                if !d.is_not_withdrawed {
                    return Err(ArcaneError::AlreadyWithdrawn);
                }
                (d.key.clone(), d.amount)
            },
            None => {
                return Err(ArcaneError::NotVoted);
            },
        };
        let ghost old_state = self@;
        let ghost old_order = self.voter.order();
        self.voter.insert(voter, VoterData { key, amount, is_not_withdrawed: false });
        proof {
            let expected = old_state.get_amount_of(voter@, now);
            assert(self@.voters =~= expected.unwrap().0.voters);
            assert(self.voter.order() == old_order);
        }
        Ok((self.end, amount, self.id))
    }

    /// Sets whether the vote is active, and gives back the component's id.
    pub fn status(&mut self, status: bool) -> (r: u64)
        requires
            old(self).wf(),
        ensures
            final(self).wf(),
            final(self)@ == old(self)@.set_status(status),
            r == old(self)@.id,
    {
        let ghost old_state = self@;
        self.status = status;
        proof {
            assert(self@ == old_state.set_status(status));
            assert(self@.inv());
        }
        self.id
    }
}

/// The methods of a vote component.
#[derive(Clone, Copy, PartialEq, Eq, Structural, Debug)]
pub enum VoteFactoryMethod {
    AddVoter,
    GetAmountOf,
    Status,
}

/// Who may create a vote component: the main component `main` alone.
pub fn instantiate_rule(main: String) -> (r: AccessRule)
    ensures
        requires_caller(r, main),
{
    require_caller(main)
}

/// Who may call `method` of a vote component created by the main component
/// `main`: that main component alone, for every method.
pub fn method_rule(method: VoteFactoryMethod, main: String) -> (r: AccessRule)
    ensures
        requires_caller(r, main),
{
    match method {
        VoteFactoryMethod::AddVoter => require_caller(main),
        VoteFactoryMethod::GetAmountOf => require_caller(main),
        VoteFactoryMethod::Status => require_caller(main),
    }
}

} // verus!
