//! A fixed list of queue definitions, as a configuration file gives it.

use vstd::prelude::*;

use crate::config::queue::config::{all_valid, lookup, QueueConfig, QueueConfigView};
use crate::config::queue::model::QueueModel;

verus! {

/// Whether every definition of the list is valid.
pub fn queues_valid(queues: &Vec<QueueConfig>) -> (valid: bool)
    ensures
        valid == all_valid(queues.deep_view()),
{
    let mut i: usize = 0;
    while i < queues.len()
        invariant
            i <= queues.len(),
            forall|j: int| 0 <= j < i ==> (#[trigger] queues.deep_view()[j]).valid(),
        decreases queues.len() - i,
    {
        if !queues[i].is_valid() {
            assert(!queues.deep_view()[i as int].valid());
            return false;
        }
        i = i + 1;
    }
    true
}

/// A copy of the list, definition by definition.
pub fn copy_queues(queues: &Vec<QueueConfig>) -> (copy: Vec<QueueConfig>)
    ensures
        copy@ == queues@,
        copy.deep_view() == queues.deep_view(),
{
    let mut copy: Vec<QueueConfig> = Vec::new();
    let mut i: usize = 0;
    while i < queues.len()
        invariant
            i <= queues.len(),
            copy@ == queues@.take(i as int),
        decreases queues.len() - i,
    {
        copy.push(queues[i].clone());
        assert(copy@ =~= queues@.take(i + 1));
        i = i + 1;
    }
    assert(queues@.take(queues.len() as int) =~= queues@);
    assert(copy.deep_view() =~= queues.deep_view());
    copy
}

/// Where the first `i` definitions carry other ids, the search may start at
/// position `i`.
pub proof fn lookup_skips(queues: Seq<QueueConfigView>, id: i32, i: int)
    requires
        0 <= i <= queues.len(),
        forall|j: int| 0 <= j < i ==> (#[trigger] queues[j]).id != id,
    ensures
        lookup(queues, id) == lookup(queues.skip(i), id),
    decreases i,
{
    if i == 0 {
        assert(queues.skip(0) =~= queues);
    } else {
        assert(queues[0].id != id);
        let rest = queues.drop_first();
        assert forall|j: int| 0 <= j < i - 1 implies (#[trigger] rest[j]).id != id by {
            assert(rest[j] == queues[j + 1]);
        }
        lookup_skips(rest, id, i - 1);
        assert(rest.skip(i - 1) =~= queues.skip(i));
    }
}

/// Queue definitions read once and kept in memory.
pub struct File {
    queues: Vec<QueueConfig>,
}

impl File {
    #[verifier::type_invariant]
    spec fn only_valid(self) -> bool {
        all_valid(self.queues.deep_view())
    }

    pub fn new(queues: Vec<QueueConfig>) -> (file: File)
        requires
            all_valid(queues.deep_view()),
        ensures
            file.listed() == queues.deep_view(),
    {
        File { queues }
    }
}

impl QueueModel for File {
    closed spec fn listed(&self) -> Seq<QueueConfigView> {
        self.queues.deep_view()
    }

    fn get_queues(&mut self) -> (queues: Vec<QueueConfig>)
        ensures
            final(self).listed() == old(self).listed(),
    {
        proof {
            use_type_invariant(&*self);
        }
        copy_queues(&self.queues)
    }

    fn get_queue(&mut self, id: i32) -> (queue: Option<QueueConfig>)
        ensures
            final(self).listed() == old(self).listed(),
    {
        proof {
            use_type_invariant(&*self);
        }
        let mut i: usize = 0;
        while i < self.queues.len()
            invariant
                i <= self.queues.len(),
                all_valid(self.queues.deep_view()),
                forall|j: int| 0 <= j < i ==> (#[trigger] self.queues.deep_view()[j]).id != id,
            decreases self.queues.len() - i,
        {
            if self.queues[i].id == id {
                proof {
                    lookup_skips(self.queues.deep_view(), id, i as int);
                    assert(self.queues.deep_view().skip(i as int)[0] == self.queues[i as int]@);
                }
                return Some(self.queues[i].clone());
            }
            i = i + 1;
        }
        proof {
            lookup_skips(self.queues.deep_view(), id, i as int);
            assert(self.queues.deep_view().skip(i as int).len() == 0);
        }
        None
    }
}

} // verus!
