use vstd::prelude::*;

use crate::access::{AccessRule, require_caller, require_resource, requires_caller, requires_resource};
use crate::error::ArcaneError;
use crate::table::Table;

verus! {

/// The state of a member component: the votes (with the option chosen) not
/// yet withdrawn from, those withdrawn from, and the votes the member owns.
pub struct MemberComponentState {
    pub unwithdrawed: Map<Seq<char>, Seq<char>>,
    pub withdrawed: Map<Seq<char>, Seq<char>>,
    pub owned: Set<Seq<char>>,
}

impl MemberComponentState {
    /// `set_withdrawed_vote`: moves the vote `address` from the votes not
    /// yet withdrawn from to those withdrawn from.
    pub open spec fn set_withdrawed_vote(self, address: Seq<char>) -> Result<MemberComponentState, ArcaneError> {
        if !self.unwithdrawed.contains_key(address) {
            Err(ArcaneError::UnknownAddress)
        } else {
            Ok(
                MemberComponentState {
                    unwithdrawed: self.unwithdrawed.remove(address),
                    withdrawed: self.withdrawed.insert(address, self.unwithdrawed[address]),
                    ..self
                },
            )
        }
    }
}

/// A vote is withdrawn from at most once, and keeps the option recorded
/// for it.
pub proof fn lemma_withdraw_vote_once(s: MemberComponentState, address: Seq<char>)
    requires
        s.set_withdrawed_vote(address) is Ok,
    ensures
        s.set_withdrawed_vote(address)->Ok_0.set_withdrawed_vote(address) == Err::<
            MemberComponentState,
            ArcaneError,
        >(ArcaneError::UnknownAddress),
        s.set_withdrawed_vote(address)->Ok_0.withdrawed[address] == s.unwithdrawed[address],
{
}

/// A member's record of its votes.
pub struct ArcaneMemberComponent {
    unwithdrawed_vote: Table<String, String>,
    withdrawed_vote: Table<String, String>,
    vote_owner: Table<String, ()>,
    member_address: String,
    main_component_address: String,
}

impl View for ArcaneMemberComponent {
    type V = MemberComponentState;

    closed spec fn view(&self) -> MemberComponentState {
        MemberComponentState {
            unwithdrawed: self.unwithdrawed_vote@.map_values(|k: String| k@),
            withdrawed: self.withdrawed_vote@.map_values(|k: String| k@),
            owned: self.vote_owner@.dom(),
        }
    }
}

impl ArcaneMemberComponent {
    /// The component is well formed.
    pub closed spec fn wf(&self) -> bool {
        &&& self.unwithdrawed_vote.wf()
        &&& self.withdrawed_vote.wf()
        &&& self.vote_owner.wf()
    }

    /// The member badge resource that owns the component.
    pub closed spec fn member_address(&self) -> String {
        self.member_address
    }

    /// The main component that may update it.
    pub closed spec fn main_component_address(&self) -> String {
        self.main_component_address
    }

    /// Who may create a member component: the holders of `core_badge`.
    pub fn instantiate_rule(core_badge: String) -> (r: AccessRule)
        ensures
            requires_resource(r, core_badge),
    {
        require_resource(core_badge)
    }

    /// Who owns this component: the holders of its member badge.
    pub fn owner_rule(&self) -> (r: AccessRule)
        ensures
            requires_resource(r, self.member_address()),
    {
        require_resource(self.member_address.clone())
    }

    /// Who may call `set_unwithdrawed_vote`, `set_withdrawed_vote` and
    /// `set_vote_owner`: the main component that updates it, alone.
    pub fn setter_rule(&self) -> (r: AccessRule)
        ensures
            requires_caller(r, self.main_component_address()),
    {
        require_caller(self.main_component_address.clone())
    }

    /// An empty member component owned by `member_address`, updated by
    /// `main_component_address`.
    pub fn instantiate(member_address: String, main_component_address: String) -> (c: Self)
        ensures
            c.wf(),
            c@.unwithdrawed == Map::<Seq<char>, Seq<char>>::empty(),
            c@.withdrawed == Map::<Seq<char>, Seq<char>>::empty(),
            c@.owned == Set::<Seq<char>>::empty(),
            c.member_address() == member_address,
            c.main_component_address() == main_component_address,
    {
        let c = ArcaneMemberComponent {
            unwithdrawed_vote: Table::new(),
            withdrawed_vote: Table::new(),
            vote_owner: Table::new(),
            member_address,
            main_component_address,
        };
        proof {
            assert(c@.unwithdrawed =~= Map::<Seq<char>, Seq<char>>::empty());
            assert(c@.withdrawed =~= Map::<Seq<char>, Seq<char>>::empty());
            assert(c@.owned =~= Set::<Seq<char>>::empty());
        }
        c
    }

    /// Records that the member voted for `key` in the vote `address`.
    pub fn set_unwithdrawed_vote(&mut self, address: String, key: String)
        requires
            old(self).wf(),
        ensures
            final(self).wf(),
            final(self)@ == (MemberComponentState {
                unwithdrawed: old(self)@.unwithdrawed.insert(address@, key@),
                ..old(self)@
            }),
            final(self).member_address() == old(self).member_address(),
            final(self).main_component_address() == old(self).main_component_address(),
    {
        let ghost old_state = self@;
        let ghost a = address@;
        let ghost k = key@;
        self.unwithdrawed_vote.insert(address, key);
        proof {
            assert(self@.unwithdrawed =~= old_state.unwithdrawed.insert(a, k));
        }
    }

    /// Records that the member withdrew from the vote `address`. A refused
    /// request leaves the component as it was.
    pub fn set_withdrawed_vote(&mut self, address: String) -> (r: Result<(), ArcaneError>)
        requires
            old(self).wf(),
        ensures
            final(self).wf(),
            match old(self)@.set_withdrawed_vote(address@) {
                Ok(s) => r is Ok && final(self)@ == s,
                Err(e) => r == Err::<(), ArcaneError>(e) && final(self)@ == old(self)@,
            },
            final(self).member_address() == old(self).member_address(),
            final(self).main_component_address() == old(self).main_component_address(),
    {
        let ghost old_state = self@;
        let ghost a = address@;
        let key = match self.unwithdrawed_vote.remove(&address) {
            Some(k) => k,
            None => {
                proof {
                    assert(self@.unwithdrawed =~= old_state.unwithdrawed);
                }
                return Err(ArcaneError::UnknownAddress);
            },
        };
        self.withdrawed_vote.insert(address, key);
        proof {
            let expected = old_state.set_withdrawed_vote(a)->Ok_0;
            assert(self@.unwithdrawed =~= expected.unwithdrawed);
            assert(self@.withdrawed =~= expected.withdrawed);
        }
        Ok(())
    }

    /// Records that the member owns the vote `address`.
    pub fn set_vote_owner(&mut self, address: String)
        requires
            old(self).wf(),
        ensures
            final(self).wf(),
            final(self)@ == (MemberComponentState { owned: old(self)@.owned.insert(address@), ..old(self)@ }),
            final(self).member_address() == old(self).member_address(),
            final(self).main_component_address() == old(self).main_component_address(),
    {
        let ghost old_state = self@;
        let ghost a = address@;
        self.vote_owner.insert(address, ());
        proof {
            assert(self@.owned =~= old_state.owned.insert(a));
        }
    }
}

} // verus!
