use vstd::prelude::*;

use crate::task::{Task, TaskView};

verus! {

/// The record stored under `id`, if any.
pub open spec fn stored(m: Map<Seq<char>, TaskView>, id: Seq<char>) -> Option<TaskView> {
    if m.contains_key(id) {
        Some(m[id])
    } else {
        None
    }
}

/// Every record is stored under its own `global_id`.
pub open spec fn keyed_by_id(m: Map<Seq<char>, TaskView>) -> bool {
    forall|k: Seq<char>| #[trigger] m.contains_key(k) ==> m[k].global_id == k
}

/// The view of an optional task.
pub open spec fn opt_task_view(o: Option<Task>) -> Option<TaskView> {
    match o {
        Some(t) => Some(t@),
        None => None,
    }
}

/// A write refused because the store holds as many records as it may.
#[derive(Clone, Copy, Debug, PartialEq, Eq, Structural)]
pub struct StoreFull;

/// A bounded in-memory key-value store of task records, keyed by `global_id`.
pub struct TaskRepository {
    tasks: Vec<Task>,
    capacity: usize,
    contents: Ghost<Map<Seq<char>, TaskView>>,
}

impl View for TaskRepository {
    type V = Map<Seq<char>, TaskView>;

    closed spec fn view(&self) -> Map<Seq<char>, TaskView> {
        self.contents@
    }
}

impl TaskRepository {
    /// The records agree with the key-value mapping, one record per key.
    pub closed spec fn wf(&self) -> bool {
        &&& self.tasks.len() <= self.capacity
        &&& forall|i: int| 0 <= i < self.tasks.len() ==>
            #[trigger] self.contents@.contains_key(self.tasks[i]@.global_id)
                && self.contents@[self.tasks[i]@.global_id] == self.tasks[i]@
        &&& forall|k: Seq<char>| #[trigger] self.contents@.contains_key(k) ==>
            exists|i: int| 0 <= i < self.tasks.len() && #[trigger] self.tasks[i]@.global_id == k
        &&& forall|i: int, j: int| 0 <= i < self.tasks.len() && 0 <= j < self.tasks.len() && i != j
            ==> #[trigger] self.tasks[i]@.global_id != #[trigger] self.tasks[j]@.global_id
    }

    /// How many records are stored.
    pub closed spec fn stored_count(&self) -> nat {
        self.tasks.len() as nat
    }

    /// How many records the store may hold.
    pub closed spec fn max_records(&self) -> nat {
        self.capacity as nat
    }

    /// Whether a write of a record under `id` is accepted.
    pub open spec fn accepts(&self, id: Seq<char>) -> bool {
        self@.contains_key(id) || self.stored_count() < self.max_records()
    }

    /// A well-formed store keeps each record under its own `global_id`.
    pub proof fn lemma_keyed_by_id(&self)
        requires
            self.wf(),
        ensures
            keyed_by_id(self@),
    {
        assert forall|k: Seq<char>| #[trigger] self@.contains_key(k) implies self@[k].global_id == k by {
            let i = choose|i: int| 0 <= i < self.tasks.len() && #[trigger] self.tasks[i]@.global_id == k;
        }
    }

    /// An empty store that holds at most `capacity` records.
    pub fn new(capacity: usize) -> (r: TaskRepository)
        ensures
            r.wf(),
            keyed_by_id(r@),
            r@ == Map::<Seq<char>, TaskView>::empty(),
            r.stored_count() == 0,
            r.max_records() == capacity,
    {
        TaskRepository { tasks: Vec::new(), capacity, contents: Ghost(Map::empty()) }
    }

    fn position(&self, id: &String) -> (r: Option<usize>)
        requires
            self.wf(),
        ensures
            match r {
                Some(i) => i < self.tasks.len() && self.tasks[i as int]@.global_id == id@,
                None => !self@.contains_key(id@),
            },
    {
        let mut i: usize = 0;
        while i < self.tasks.len()
            invariant
                self.wf(),
                i <= self.tasks.len(),
                forall|j: int| 0 <= j < i ==> #[trigger] self.tasks[j]@.global_id != id@,
            decreases self.tasks.len() - i,
        {
            if self.tasks[i].global_id == *id {
                return Some(i);
            }
            i = i + 1;
        }
        None
    }

    /// The record stored under `global_id`, or `None` where there is none.
    pub fn get_task(&self, global_id: &String) -> (r: Option<Task>)
        requires
            self.wf(),
        ensures
            opt_task_view(r) == stored(self@, global_id@),
            r is Some ==> r->Some_0.global_id@ == global_id@,
            keyed_by_id(self@),
    {
        proof {
            self.lemma_keyed_by_id();
        }
        match self.position(global_id) {
            Some(i) => Some(self.tasks[i].duplicate()),
            None => None,
        }
    }

    /// Writes the whole record under its `global_id`, replacing any earlier one.
    /// A new key is refused once the store is full.
    pub fn put_task(&mut self, task: Task) -> (r: Result<(), StoreFull>)
        requires
            old(self).wf(),
        ensures
            final(self).wf(),
            keyed_by_id(final(self)@),
            final(self).max_records() == old(self).max_records(),
            r is Ok <==> old(self).accepts(task@.global_id),
            r is Ok ==> final(self)@ == old(self)@.insert(task@.global_id, task@),
            r is Ok && !old(self)@.contains_key(task@.global_id) ==> final(self).stored_count()
                == old(self).stored_count() + 1,
            r is Ok && old(self)@.contains_key(task@.global_id) ==> final(self).stored_count()
                == old(self).stored_count(),
            r is Err ==> final(self)@ == old(self)@ && final(self).stored_count()
                == old(self).stored_count(),
    {
        let r = self.put_record(task);
        proof {
            self.lemma_keyed_by_id();
        }
        r
    }

    fn put_record(&mut self, task: Task) -> (r: Result<(), StoreFull>)
        requires
            old(self).wf(),
        ensures
            final(self).wf(),
            final(self).max_records() == old(self).max_records(),
            r is Ok <==> old(self).accepts(task@.global_id),
            r is Ok ==> final(self)@ == old(self)@.insert(task@.global_id, task@),
            r is Ok && !old(self)@.contains_key(task@.global_id) ==> final(self).stored_count()
                == old(self).stored_count() + 1,
            r is Ok && old(self)@.contains_key(task@.global_id) ==> final(self).stored_count()
                == old(self).stored_count(),
            r is Err ==> final(self)@ == old(self)@ && final(self).stored_count()
                == old(self).stored_count(),
    {
        let ghost key = task@.global_id;
        let ghost tv = task@;
        match self.position(&task.global_id) {
            Some(i) => {
                self.tasks.set(i, task);
                self.contents = Ghost(self.contents@.insert(key, tv));
                proof {
                    assert forall|k: Seq<char>| #[trigger] self.contents@.contains_key(k) implies
                        exists|j: int| 0 <= j < self.tasks.len() && #[trigger] self.tasks[j]@.global_id == k by {
                        if k == key {
                            assert(self.tasks[i as int]@.global_id == k);
                        } else {
                            assert(old(self).contents@.contains_key(k));
                            let j = choose|j: int| 0 <= j < old(self).tasks.len() && #[trigger] old(self).tasks[j]@.global_id == k;
                            assert(self.tasks[j]@.global_id == k);
                        }
                    }
                    assert forall|j: int| 0 <= j < self.tasks.len() implies
                        #[trigger] self.contents@.contains_key(self.tasks[j]@.global_id)
                            && self.contents@[self.tasks[j]@.global_id] == self.tasks[j]@ by {
                        if j != i {
                            assert(old(self).tasks[j]@.global_id != old(self).tasks[i as int]@.global_id);
                        }
                    }
                }
                Ok(())
            },
            None => {
                if self.tasks.len() < self.capacity {
                    self.tasks.push(task);
                    self.contents = Ghost(self.contents@.insert(key, tv));
                    proof {
                        let n = self.tasks.len() - 1;
                        assert forall|k: Seq<char>| #[trigger] self.contents@.contains_key(k) implies
                            exists|j: int| 0 <= j < self.tasks.len() && #[trigger] self.tasks[j]@.global_id == k by {
                            if k == key {
                                assert(self.tasks[n]@.global_id == k);
                            } else {
                                assert(old(self).contents@.contains_key(k));
                                let j = choose|j: int| 0 <= j < old(self).tasks.len() && #[trigger] old(self).tasks[j]@.global_id == k;
                                assert(self.tasks[j]@.global_id == k);
                            }
                        }
                        assert forall|j: int| 0 <= j < self.tasks.len() implies
                            #[trigger] self.contents@.contains_key(self.tasks[j]@.global_id)
                                && self.contents@[self.tasks[j]@.global_id] == self.tasks[j]@ by {
                            if j != n {
                                assert(old(self).contents@.contains_key(old(self).tasks[j]@.global_id));
                            }
                        }
                        assert forall|a: int, b: int| 0 <= a < self.tasks.len() && 0 <= b < self.tasks.len() && a != b
                            implies #[trigger] self.tasks[a]@.global_id != #[trigger] self.tasks[b]@.global_id by {
                            if a == n {
                                assert(old(self).contents@.contains_key(old(self).tasks[b]@.global_id));
                            } else if b == n {
                                assert(old(self).contents@.contains_key(old(self).tasks[a]@.global_id));
                            }
                        }
                    }
                    Ok(())
                } else {
                    Err(StoreFull)
                }
            },
        }
    }
}

} // verus!
