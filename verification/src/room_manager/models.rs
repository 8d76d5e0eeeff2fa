//! Records of the first room manager and its static SFU inventory.

use vstd::prelude::*;
use std::collections::VecDeque;
use crate::text::{str_eq, strings_view};

pub use crate::services::room_manager::storage::WaitingRequestRecord;

verus! {

/// An SFU of the static inventory.
#[derive(Debug, Clone, PartialEq, Eq)]
pub struct SfuCandidate {
    pub instance_id: String,
    pub grpc_addr: String,
    pub max_clients: u32,
}

/// An SFU as the first room manager records it.
#[derive(Debug, Clone, PartialEq, Eq)]
pub struct SfuInstanceRecord {
    pub instance_id: String,
    pub grpc_addr: String,
    pub max_clients: u32,
    pub alive: bool,
    pub provisioned: bool,
    pub state: String,
    pub last_ping_unix: i64,
    pub idle_since_unix: i64,
}

/// Where a room lives: its owning signaling node and its SFU.
pub type RoomAssignment = crate::control_store::models::RoomBinding;

impl SfuCandidate {
    /// A copy of the candidate.
    pub fn clone_candidate(&self) -> (r: SfuCandidate)
        ensures
            r == *self,
    {
        SfuCandidate { instance_id: self.instance_id.clone(), grpc_addr: self.grpc_addr.clone(), max_clients: self.max_clients }
    }
}

/// The static SFU inventory: the candidates still available, in order, and the ids of
/// those handed out.
pub struct StaticInventoryProvider {
    available: VecDeque<SfuCandidate>,
    provisioned: Vec<String>,
}

impl StaticInventoryProvider {
    /// The candidates still available, first to be handed out first.
    pub closed spec fn queue(&self) -> Seq<SfuCandidate> {
        self.available@
    }

    /// The ids of the candidates handed out and not released.
    pub closed spec fn provisioned_ids(&self) -> Set<Seq<char>> {
        strings_view(self.provisioned@).to_set()
    }

    /// No id is recorded twice as handed out.
    pub closed spec fn wf(&self) -> bool {
        strings_view(self.provisioned@).no_duplicates()
    }

    /// An inventory offering `candidates` in order, none handed out.
    pub fn new(candidates: Vec<SfuCandidate>) -> (r: Self)
        ensures
            r.wf(),
            r.queue() == candidates@,
            r.provisioned_ids() == Set::<Seq<char>>::empty(),
    {
        let mut available: VecDeque<SfuCandidate> = VecDeque::new();
        let mut candidates = candidates;
        let ghost all = candidates@;
        let mut taken: Vec<SfuCandidate> = Vec::new();
        let mut i: usize = 0;
        while i < candidates.len()
            invariant
                candidates@ == all,
                i <= all.len(),
                available@ == all.take(i as int),
            decreases all.len() - i,
        {
            let c = candidates[i].clone_candidate();
            available.push_back(c);
            assert(available@ =~= all.take(i + 1));
            i = i + 1;
        }
        assert(all.take(all.len() as int) =~= all);
        let r = StaticInventoryProvider { available, provisioned: Vec::new() };
        assert(strings_view(r.provisioned@) =~= Seq::<Seq<char>>::empty());
        assert(r.provisioned_ids() =~= Set::<Seq<char>>::empty());
        r
    }

    /// Hands out the first available candidate and records its id as handed out; none
    /// when the inventory is exhausted, which changes nothing.
    pub fn provision_next(&mut self) -> (r: Option<SfuCandidate>)
        requires
            old(self).wf(),
        ensures
            final(self).wf(),
            match r {
                Some(c) => {
                    &&& old(self).queue().len() > 0
                    &&& c == old(self).queue()[0]
                    &&& final(self).queue() == old(self).queue().drop_first()
                    &&& final(self).provisioned_ids() == old(self).provisioned_ids().insert(c.instance_id@)
                },
                None => {
                    &&& old(self).queue().len() == 0
                    &&& final(self).queue() == old(self).queue()
                    &&& final(self).provisioned_ids() == old(self).provisioned_ids()
                },
            },
    {
        match self.available.pop_front() {
            Some(candidate) => {
                let ghost before = strings_view(self.provisioned@);
                if !self.contains_id(candidate.instance_id.as_str()) {
                    self.provisioned.push(candidate.instance_id.clone());
                    proof {
                        let after = strings_view(self.provisioned@);
                        assert(after =~= before.push(candidate.instance_id@));
                        assert(after.to_set() =~= before.to_set().insert(candidate.instance_id@)) by {
                            assert forall|x: Seq<char>| after.to_set().contains(x) <==> before.to_set().insert(candidate.instance_id@).contains(x) by {
                                if after.contains(x) && x != candidate.instance_id@ {
                                    let k = choose|k: int| 0 <= k < after.len() && after[k] == x;
                                    assert(before[k] == x);
                                }
                                if before.contains(x) {
                                    let k = choose|k: int| 0 <= k < before.len() && before[k] == x;
                                    assert(after[k] == x);
                                }
                                assert(after[before.len() as int] == candidate.instance_id@);
                            }
                        }
                        assert forall|a: int, b: int| 0 <= a < b < after.len() implies after[a] != after[b] by {
                            if b == before.len() {
                                assert(!before.contains(candidate.instance_id@));
                                assert(before[a] == after[a]);
                            }
                        }
                    }
                } else {
                    proof {
                        assert(before.to_set().insert(candidate.instance_id@) =~= before.to_set());
                    }
                }
                Some(candidate)
            },
            None => None,
        }
    }

    /// Whether `instance_id` is recorded as handed out.
    fn contains_id(&self, instance_id: &str) -> (r: bool)
        ensures
            r == strings_view(self.provisioned@).contains(instance_id@),
    {
        let ghost v = strings_view(self.provisioned@);
        let mut i: usize = 0;
        while i < self.provisioned.len()
            invariant
                v == strings_view(self.provisioned@),
                i <= self.provisioned@.len(),
                forall|k: int| 0 <= k < i ==> v[k] != instance_id@,
            decreases self.provisioned.len() - i,
        {
            if str_eq(self.provisioned[i].as_str(), instance_id) {
                assert(v[i as int] == instance_id@);
                return true;
            }
            i = i + 1;
        }
        false
    }

    /// Returns `candidate` to the back of the inventory if `instance_id` was handed out
    /// (and forgets that it was); otherwise nothing changes.
    pub fn release(&mut self, instance_id: &str, candidate: SfuCandidate)
        requires
            old(self).wf(),
        ensures
            final(self).wf(),
            old(self).provisioned_ids().contains(instance_id@) ==> {
                &&& final(self).queue() == old(self).queue().push(candidate)
                &&& final(self).provisioned_ids() == old(self).provisioned_ids().remove(instance_id@)
            },
            !old(self).provisioned_ids().contains(instance_id@) ==> {
                &&& final(self).queue() == old(self).queue()
                &&& final(self).provisioned_ids() == old(self).provisioned_ids()
            },
    {
        let ghost before = strings_view(self.provisioned@);
        let mut i: usize = 0;
        while i < self.provisioned.len()
            invariant
                before == strings_view(self.provisioned@),
                before.no_duplicates(),
                self.provisioned@ == old(self).provisioned@,
                self.available@ == old(self).available@,
                i <= self.provisioned@.len(),
                forall|k: int| 0 <= k < i ==> before[k] != instance_id@,
            decreases self.provisioned.len() - i,
        {
            if str_eq(self.provisioned[i].as_str(), instance_id) {
                let ghost at = i as int;
                self.provisioned.remove(i);
                proof {
                    let after = strings_view(self.provisioned@);
                    assert(after =~= before.remove(at));
                    assert(before[at] == instance_id@);
                    assert forall|x: Seq<char>| after.to_set().contains(x) <==> before.to_set().remove(instance_id@).contains(x) by {
                        if after.contains(x) {
                            let k = choose|k: int| 0 <= k < after.len() && after[k] == x;
                            if k < at {
                                assert(before[k] == x);
                                assert(before[k] != before[at]);
                            } else {
                                assert(before[k + 1] == x);
                                assert(before[k + 1] != before[at]);
                            }
                        }
                        if before.contains(x) && x != instance_id@ {
                            let k = choose|k: int| 0 <= k < before.len() && before[k] == x;
                            if k < at {
                                assert(after[k] == x);
                            } else {
                                assert(k != at);
                                assert(after[k - 1] == x);
                            }
                        }
                    }
                    assert(after.to_set() =~= before.to_set().remove(instance_id@));
                    assert forall|a: int, b: int| 0 <= a < b < after.len() implies after[a] != after[b] by {
                        let a2 = if a < at { a } else { a + 1 };
                        let b2 = if b < at { b } else { b + 1 };
                        assert(after[a] == before[a2]);
                        assert(after[b] == before[b2]);
                    }
                }
                self.available.push_back(candidate);
                return;
            }
            i = i + 1;
        }
        proof {
            assert(!before.contains(instance_id@)) by {
                if before.contains(instance_id@) {
                    let k = choose|k: int| 0 <= k < before.len() && before[k] == instance_id@;
                }
            }
        }
    }
}

/// Handing out a candidate and then releasing it puts it at the back of the inventory
/// and leaves the handed-out ids as they were, when its id was not handed out before.
pub proof fn law_release_undoes_provision(
    queue: Seq<SfuCandidate>,
    provisioned: Set<Seq<char>>,
)
    requires
        queue.len() > 0,
        !provisioned.contains(queue[0].instance_id@),
    ensures
        provisioned.insert(queue[0].instance_id@).contains(queue[0].instance_id@),
        provisioned.insert(queue[0].instance_id@).remove(queue[0].instance_id@) == provisioned,
        queue.drop_first().push(queue[0]).len() == queue.len(),
        queue.drop_first().push(queue[0]).to_multiset() == queue.to_multiset(),
{
    assert(provisioned.insert(queue[0].instance_id@).remove(queue[0].instance_id@) =~= provisioned);
    let rotated = queue.drop_first().push(queue[0]);
    vstd::seq_lib::lemma_multiset_commutative(queue.drop_first(), seq![queue[0]]);
    vstd::seq_lib::lemma_multiset_commutative(seq![queue[0]], queue.drop_first());
    assert(queue.drop_first() + seq![queue[0]] =~= rotated);
    assert(seq![queue[0]] + queue.drop_first() =~= queue);
}

} // verus!
