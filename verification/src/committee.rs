//! The committee registry: every committee that was ever set, by its id.

use crate::error::MostError;
use crate::hashing::AccountId;
use crate::table::Key;
use vstd::prelude::*;

verus! {

/// What a committee is: its members and the number of votes that make a quorum.
pub struct CommitteeState {
    pub members: Seq<AccountId>,
    pub threshold: u128,
}

impl CommitteeState {
    /// Whether the members are pairwise distinct and the threshold lies
    /// between one and their number.
    pub open spec fn valid(self) -> bool {
        &&& self.members.no_duplicates()
        &&& 1 <= self.threshold <= self.members.len()
        &&& self.members.len() <= usize::MAX
    }
}

/// The verdict on a proposed committee: the threshold must be at least one
/// and at most the number of members, and no member may occur twice.
pub open spec fn committee_verdict(members: Seq<AccountId>, threshold: u128) -> Result<
    (),
    MostError,
> {
    if threshold == 0 || members.len() < threshold {
        Err(MostError::InvalidThreshold)
    } else if !members.no_duplicates() {
        Err(MostError::DuplicateCommitteeMember)
    } else {
        Ok(())
    }
}

/// Checks a proposed committee.
#[verifier::loop_isolation(false)]
pub fn check_committee(committee: &[AccountId], threshold: u128) -> (r: Result<(), MostError>)
    ensures
        r == committee_verdict(committee@, threshold),
{
    if threshold == 0 || (committee.len() as u128) < threshold {
        return Err(MostError::InvalidThreshold);
    }
    let n = committee.len();
    let mut i: usize = 0;
    while i < n
        invariant
            n == committee@.len(),
            i <= n,
            forall|a: int, b: int| 0 <= a < i && a < b < n ==> committee@[a] != committee@[b],
        decreases n - i,
    {
        let mut j: usize = i + 1;
        while j < n
            invariant
                n == committee@.len(),
                i < j <= n,
                forall|b: int| i < b < j ==> committee@[i as int] != committee@[b],
            decreases n - j,
        {
            if committee[i].same(&committee[j]) {
                assert(committee@[i as int] == committee@[j as int]);
                return Err(MostError::DuplicateCommitteeMember);
            }
            j = j + 1;
        }
        i = i + 1;
    }
    assert(committee@.no_duplicates()) by {
        assert forall|a: int, b: int|
            0 <= a < committee@.len() && 0 <= b < committee@.len() && a != b implies committee@[a]
            != committee@[b] by {
            if a < b {
            } else {
                assert(committee@[b] != committee@[a]);
            }
        }
    }
    Ok(())
}

/// One committee of the registry.
#[derive(Debug, Clone)]
pub struct Committee {
    members: Vec<AccountId>,
    threshold: u128,
}

impl View for Committee {
    type V = CommitteeState;

    closed spec fn view(&self) -> CommitteeState {
        CommitteeState { members: self.members@, threshold: self.threshold }
    }
}

/// All committees in the order in which they were set. A committee's id is
/// its place in that order, and the last one is the active committee.
#[derive(Debug, Clone)]
pub struct CommitteeRegistry {
    committees: Vec<Committee>,
}

/// The views of a sequence of committees.
pub open spec fn committee_views(committees: Seq<Committee>) -> Seq<CommitteeState> {
    Seq::new(committees.len(), |i: int| committees[i]@)
}

/// Whether `account` belongs to the committee with this id.
pub open spec fn is_member(committees: Seq<CommitteeState>, id: u128, account: AccountId) -> bool {
    id < committees.len() && committees[id as int].members.contains(account)
}

/// Whether the registry holds a committee and each of them is valid.
pub open spec fn registry_valid(committees: Seq<CommitteeState>) -> bool {
    &&& 1 <= committees.len() <= usize::MAX
    &&& forall|id: int| 0 <= id < committees.len() ==> (#[trigger] committees[id]).valid()
}

impl View for CommitteeRegistry {
    type V = Seq<CommitteeState>;

    closed spec fn view(&self) -> Seq<CommitteeState> {
        committee_views(self.committees@)
    }
}

impl CommitteeRegistry {
    /// Whether the registry holds a committee and each of them is valid.
    pub open spec fn wf(&self) -> bool {
        registry_valid(self@)
    }

    /// A registry whose first committee, with id 0, is the given one.
    pub fn new(committee: Vec<AccountId>, threshold: u128) -> (r: Result<Self, MostError>)
        ensures
            (match committee_verdict(committee@, threshold) {
                Ok(()) => r is Ok && r->Ok_0.wf() && r->Ok_0@ == seq![
                    CommitteeState { members: committee@, threshold },
                ],
                Err(e) => r == Err::<Self, MostError>(e),
            }),
    {
        assert(committee@.len() == committee.len());
        match check_committee(committee.as_slice(), threshold) {
            Ok(()) => {
                let mut committees: Vec<Committee> = Vec::new();
                committees.push(Committee { members: committee, threshold });
                let registry = CommitteeRegistry { committees };
                assert(registry@ =~= seq![CommitteeState { members: committee@, threshold }]);
                assert(registry@[0].valid());
                Ok(registry)
            },
            Err(e) => Err(e),
        }
    }

    /// The id of the active committee.
    pub fn current_id(&self) -> (id: u128)
        requires
            self.wf(),
        ensures
            id == self@.len() - 1,
    {
        (self.committees.len() - 1) as u128
    }

    /// Whether `account` belongs to the committee with this id.
    #[verifier::loop_isolation(false)]
    pub fn is_member(&self, id: u128, account: &AccountId) -> (r: bool)
        ensures
            r == is_member(self@, id, *account),
    {
        if id >= self.committees.len() as u128 {
            return false;
        }
        let members = &self.committees[id as usize].members;
        let mut i: usize = 0;
        while i < members.len()
            invariant
                i <= members@.len(),
                forall|j: int| 0 <= j < i ==> members@[j] != *account,
            decreases members@.len() - i,
        {
            if members[i].same(account) {
                assert(self@[id as int].members[i as int] == *account);
                return true;
            }
            i = i + 1;
        }
        false
    }

    /// The quorum of the committee with this id, if there is such a committee.
    pub fn threshold(&self, id: u128) -> (r: Option<u128>)
        ensures
            r == (if id < self@.len() {
                Some(self@[id as int].threshold)
            } else {
                None
            }),
    {
        if id < self.committees.len() as u128 {
            Some(self.committees[id as usize].threshold)
        } else {
            None
        }
    }

    /// The number of members of the committee with this id, if there is such a committee.
    pub fn size(&self, id: u128) -> (r: Option<u128>)
        ensures
            r == (if id < self@.len() {
                Some(self@[id as int].members.len() as u128)
            } else {
                None
            }),
    {
        if id < self.committees.len() as u128 {
            Some(self.committees[id as usize].members.len() as u128)
        } else {
            None
        }
    }

    /// Registers a new committee and makes it the active one. Its id is one
    /// more than that of the committee that was active before; the earlier
    /// committees stay as they are. A committee that does not pass the check
    /// is refused, and so is one more committee than the registry can count.
    pub fn rotate(&mut self, committee: Vec<AccountId>, threshold: u128) -> (r: Result<
        u128,
        MostError,
    >)
        requires
            old(self).wf(),
        ensures
            final(self).wf(),
            (match committee_verdict(committee@, threshold) {
                Ok(()) => if old(self)@.len() >= usize::MAX {
                    r == Err::<u128, MostError>(MostError::Arithmetic) && final(self)@ == old(
                        self,
                    )@
                } else {
                    r == Ok::<u128, MostError>(old(self)@.len() as u128) && final(self)@ == old(
                        self,
                    )@.push(CommitteeState { members: committee@, threshold })
                },
                Err(e) => r == Err::<u128, MostError>(e) && final(self)@ == old(self)@,
            }),
    {
        assert(committee@.len() == committee.len());
        match check_committee(committee.as_slice(), threshold) {
            Ok(()) => {
                if self.committees.len() >= usize::MAX {
                    return Err(MostError::Arithmetic);
                }
                let new_id = self.committees.len() as u128;
                self.committees.push(Committee { members: committee, threshold });
                assert(self@ =~= old(self)@.push(
                    CommitteeState { members: committee@, threshold },
                ));
                assert forall|id: int| 0 <= id < self@.len() implies (
                #[trigger] self@[id]).valid() by {
                    if id < old(self)@.len() {
                        assert(self@[id] == old(self)@[id]);
                    }
                }
                Ok(new_id)
            },
            Err(e) => Err(e),
        }
    }
}

} // verus!
