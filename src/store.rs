//! The ordered job store: jobs in insertion order, found and removed by id,
//! the first match winning.
use std::collections::VecDeque;
use vstd::prelude::*;

use crate::job::{Job, JobView};

verus! {

/// Why a queue operation did not succeed.
#[derive(PartialEq, Eq, Structural, Clone, Copy, Debug)]
pub enum QueueError {
    /// No stored job has this id.
    NotFound(u32),
    /// The store's lock could not be taken.
    Unavailable,
}

/// Some stored job has id `id`.
pub open spec fn has_id(s: Seq<JobView>, id: u32) -> bool {
    exists|i: int| 0 <= i < s.len() && s[i].id == id
}

/// `i` is the position of the earliest job with id `id`.
pub open spec fn is_first_match(s: Seq<JobView>, id: u32, i: int) -> bool {
    &&& 0 <= i < s.len()
    &&& s[i].id == id
    &&& forall|k: int| 0 <= k < i ==> s[k].id != id
}

/// No two stored jobs share an id.
pub open spec fn ids_unique(s: Seq<JobView>) -> bool {
    forall|a: int, b: int| 0 <= a < s.len() && 0 <= b < s.len() && a != b ==> s[a].id != s[b].id
}

/// How many stored jobs have id `id`.
pub open spec fn count_id(s: Seq<JobView>, id: u32) -> nat
    decreases s.len(),
{
    if s.len() == 0 {
        0
    } else {
        count_id(s.drop_last(), id) + if s.last().id == id { 1nat } else { 0nat }
    }
}

/// The store after `js` are enqueued, one after another, onto `s`.
pub open spec fn enqueue_all(s: Seq<JobView>, js: Seq<JobView>) -> Seq<JobView>
    decreases js.len(),
{
    if js.len() == 0 {
        s
    } else {
        enqueue_all(s.push(js[0]), js.drop_first())
    }
}

/// An insertion-ordered sequence of jobs.
#[derive(Debug)]
pub struct JobStore {
    jobs: VecDeque<Job>,
}

impl View for JobStore {
    type V = Seq<JobView>;

    closed spec fn view(&self) -> Seq<JobView> {
        self.jobs@.map_values(|j: Job| j@)
    }
}

impl JobStore {
    /// Every stored job is well formed.
    pub open spec fn wf(&self) -> bool {
        forall|i: int| 0 <= i < self@.len() ==> (#[trigger] self@[i]).wf()
    }

    pub fn new() -> (r: JobStore)
        ensures
            r@ == Seq::<JobView>::empty(),
            r.wf(),
    {
        let r = JobStore { jobs: VecDeque::new() };
        assert(r@ =~= Seq::<JobView>::empty());
        r
    }

    /// Appends `j` at the tail.
    pub fn enqueue(&mut self, j: Job)
        ensures
            final(self)@ == old(self)@.push(j@),
            old(self).wf() ==> final(self).wf(),
    {
        proof {
            use_type_invariant(&j);
        }
        self.jobs.push_back(j);
        assert(self@ =~= old(self)@.push(j@));
    }

    /// A copy of the earliest job with id `id`, or `None` where no job has it.
    pub fn get(&self, id: u32) -> (r: Option<Job>)
        ensures
            match r {
                Some(j) => exists|i: int| is_first_match(self@, id, i) && j@ == self@[i],
                None => !has_id(self@, id),
            },
    {
        match self.position(id) {
            Some(i) => Some(self.jobs[i].clone()),
            None => None,
        }
    }

    /// Removes the earliest job with id `id`, keeping the order of the rest;
    /// where no job has it, fails with `NotFound(id)` and changes nothing.
    pub fn dequeue(&mut self, id: u32) -> (r: Result<(), QueueError>)
        ensures
            match r {
                Ok(()) => exists|i: int|
                    is_first_match(old(self)@, id, i) && final(self)@ == old(self)@.remove(i),
                Err(e) => e == QueueError::NotFound(id) && !has_id(old(self)@, id)
                    && final(self)@ == old(self)@,
            },
            old(self).wf() ==> final(self).wf(),
    {
        match self.position(id) {
            Some(i) => {
                let _ = self.jobs.remove(i);
                assert(self@ =~= old(self)@.remove(i as int));
                Ok(())
            },
            None => Err(QueueError::NotFound(id)),
        }
    }

    /// The number of stored jobs.
    pub fn len(&self) -> (r: usize)
        ensures
            r == self@.len(),
    {
        self.jobs.len()
    }

    /// The position of the earliest job with id `id`.
    fn position(&self, id: u32) -> (r: Option<usize>)
        ensures
            match r {
                Some(i) => is_first_match(self@, id, i as int),
                None => !has_id(self@, id),
            },
    {
        let n = self.jobs.len();
        let mut i: usize = 0;
        while i < n
            invariant
                n == self@.len(),
                i <= n,
                forall|k: int| 0 <= k < i ==> self@[k].id != id,
            decreases n - i,
        {
            if self.jobs[i].get_id() == id {
                return Some(i);
            }
            i = i + 1;
        }
        None
    }
}

/// At most one position is the earliest match of an id, so `get` and
/// `dequeue` pick a single job.
pub proof fn lemma_first_match_unique(s: Seq<JobView>, id: u32, i: int, k: int)
    requires
        is_first_match(s, id, i),
        is_first_match(s, id, k),
    ensures
        i == k,
{
}

/// Enqueueing a sequence of jobs appends them, in order, at the tail.
pub proof fn lemma_enqueue_all_appends(s: Seq<JobView>, js: Seq<JobView>)
    ensures
        enqueue_all(s, js) == s + js,
    decreases js.len(),
{
    if js.len() == 0 {
        assert(s + js =~= s);
    } else {
        lemma_enqueue_all_appends(s.push(js[0]), js.drop_first());
        assert(s.push(js[0]) + js.drop_first() =~= s + js);
    }
}

/// Enqueueing jobs with distinct ids onto an empty store leaves exactly as
/// many jobs as were enqueued, and each id is then found at its own job.
pub proof fn lemma_enqueue_distinct(js: Seq<JobView>)
    requires
        ids_unique(js),
    ensures
        enqueue_all(Seq::empty(), js).len() == js.len(),
        forall|k: int|
            0 <= k < js.len() ==> is_first_match(enqueue_all(Seq::empty(), js), #[trigger] js[k].id, k),
{
    lemma_enqueue_all_appends(Seq::empty(), js);
    assert(Seq::<JobView>::empty() + js =~= js);
}

/// After `j` is enqueued its id is stored, so `get(j.id)` finds a job with
/// that id; where no earlier job has the id, the job found is `j` itself.
pub proof fn lemma_get_after_enqueue(s: Seq<JobView>, j: JobView)
    ensures
        has_id(s.push(j), j.id),
        forall|i: int| #[trigger] is_first_match(s.push(j), j.id, i) ==> s.push(j)[i].id == j.id,
        !has_id(s, j.id) ==> is_first_match(s.push(j), j.id, s.len() as int) && s.push(j)[s.len() as int] == j,
{
    assert(s.push(j)[s.len() as int] == j);
    if !has_id(s, j.id) {
        assert forall|k: int| 0 <= k < s.len() implies s.push(j)[k].id != j.id by {
            assert(s.push(j)[k] == s[k]);
        }
    }
}

/// Counting jobs by id adds up over concatenation.
pub proof fn lemma_count_id_concat(a: Seq<JobView>, b: Seq<JobView>, id: u32)
    ensures
        count_id(a + b, id) == count_id(a, id) + count_id(b, id),
    decreases b.len(),
{
    if b.len() == 0 {
        assert(a + b =~= a);
    } else {
        lemma_count_id_concat(a, b.drop_last(), id);
        assert((a + b).drop_last() =~= a + b.drop_last());
    }
}

/// Removing the earliest match of a stored id shortens the store by one and
/// takes away exactly one job with that id; where ids are distinct, the id is
/// then no longer stored.
pub proof fn lemma_dequeue_present(s: Seq<JobView>, id: u32, i: int)
    requires
        is_first_match(s, id, i),
    ensures
        s.remove(i).len() == s.len() - 1,
        count_id(s.remove(i), id) == count_id(s, id) - 1,
        ids_unique(s) ==> !has_id(s.remove(i), id),
{
    let front = s.subrange(0, i);
    let back = s.subrange(i + 1, s.len() as int);
    let mid = seq![s[i]];
    assert(s.remove(i) =~= front + back);
    assert(s =~= (front + mid) + back);
    lemma_count_id_concat(front, back, id);
    lemma_count_id_concat(front + mid, back, id);
    lemma_count_id_concat(front, mid, id);
    assert(mid.drop_last() =~= Seq::<JobView>::empty());
    assert(mid.last() == s[i]);
    assert(count_id(Seq::<JobView>::empty(), id) == 0);
    assert(count_id(mid, id) == 1);
    if ids_unique(s) && has_id(s.remove(i), id) {
        let w = choose|w: int| 0 <= w < s.remove(i).len() && s.remove(i)[w].id == id;
        if w < i {
            assert(s.remove(i)[w] == s[w]);
        } else {
            assert(s.remove(i)[w] == s[w + 1]);
        }
    }
}

} // verus!
