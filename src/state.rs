//! The task store: tasks keyed by id in a `dashmap::DashMap`.
use vstd::prelude::*;

use crate::models::Task;
use dashmap::DashMap;

verus! {

#[verifier::external_type_specification]
#[verifier::external_body]
#[verifier::reject_recursive_types(K)]
#[verifier::reject_recursive_types(V)]
#[verifier::reject_recursive_types(S)]
pub struct ExDashMap<K, V, S>(DashMap<K, V, S>);

/// What a task map holds, key by key.
pub uninterp spec fn task_map(m: DashMap<u128, Task>) -> Map<u128, Task>;

/// Relies on DashMap::new: a map that holds nothing.
#[verifier::external_body]
fn map_new() -> (r: DashMap<u128, Task>)
    ensures
        task_map(r).dom() == Set::<u128>::empty(),
{
    DashMap::new()
}

/// Relies on DashMap::insert: the key now maps to the value, whatever it
/// mapped to before; other keys keep theirs.
#[verifier::external_body]
fn map_insert(m: &mut DashMap<u128, Task>, k: u128, v: Task)
    ensures
        task_map(*final(m)) == task_map(*old(m)).insert(k, v),
{
    m.insert(k, v);
}

/// Relies on DashMap::get: the value under the key, if any, copied out.
#[verifier::external_body]
fn map_get(m: &DashMap<u128, Task>, k: u128) -> (r: Option<Task>)
    ensures
        r == task_map(*m).get(k),
{
    m.get(&k).map(|e| e.value().clone())
}

/// Relies on DashMap::remove: the key's entry leaves the map and its value
/// is handed back, if there was one.
#[verifier::external_body]
fn map_remove(m: &mut DashMap<u128, Task>, k: u128) -> (r: Option<Task>)
    ensures
        task_map(*final(m)) == task_map(*old(m)).remove(k),
        r == task_map(*old(m)).get(k),
{
    m.remove(&k).map(|(_, v)| v)
}

/// Relies on DashMap::iter: each entry once, in no particular order.
#[verifier::external_body]
fn map_entries(m: &DashMap<u128, Task>) -> (r: Vec<(u128, Task)>)
    ensures
        forall|i: int|
            0 <= i < r@.len() ==> task_map(*m).contains_key(#[trigger] r@[i].0) && task_map(
                *m,
            )[r@[i].0] == r@[i].1,
        forall|k: u128| #[trigger]
            task_map(*m).contains_key(k) ==> exists|i: int| 0 <= i < r@.len() && r@[i].0 == k,
        forall|i: int, j: int| 0 <= i < j < r@.len() ==> r@[i].0 != r@[j].0,
{
    m.iter().map(|e| (*e.key(), e.value().clone())).collect()
}

/// The state shared by all requests: the store of tasks.
pub struct AppState {
    tasks: DashMap<u128, Task>,
}

impl View for AppState {
    type V = Map<u128, Task>;

    closed spec fn view(&self) -> Map<u128, Task> {
        task_map(self.tasks)
    }
}

/// Each task is stored under its own id and has a title that is not blank.
pub open spec fn store_wf(m: Map<u128, Task>) -> bool {
    forall|k: u128| #[trigger] m.contains_key(k) ==> m[k].id == k && m[k].wf()
}

/// `r` lists the tasks of `m`: each once, as stored, in any order.
pub open spec fn lists_exactly(r: Seq<Task>, m: Map<u128, Task>) -> bool {
    &&& forall|i: int| 0 <= i < r.len() ==> m.contains_key(#[trigger] r[i].id) && m[r[i].id] == r[i]
    &&& forall|id: u128| #[trigger] m.contains_key(id) ==> exists|i: int| 0 <= i < r.len() && r[i].id == id
    &&& forall|i: int, j: int| 0 <= i < j < r.len() ==> r[i].id != r[j].id
}

impl AppState {
    pub open spec fn wf(&self) -> bool {
        store_wf(self@)
    }

    /// An empty store.
    pub fn new() -> (r: AppState)
        ensures
            r.wf(),
            r@.dom() == Set::<u128>::empty(),
    {
        AppState { tasks: map_new() }
    }

    /// Adds the task under its id, replacing any task stored there.
    pub fn insert(&mut self, task: Task)
        requires
            old(self).wf(),
            task.wf(),
        ensures
            final(self).wf(),
            final(self)@ == old(self)@.insert(task.id, task),
    {
        let id = task.id;
        map_insert(&mut self.tasks, id, task);
    }

    /// A copy of the task stored under `id`, if any.
    pub fn get(&self, id: u128) -> (r: Option<Task>)
        ensures
            r == self@.get(id),
    {
        map_get(&self.tasks, id)
    }

    /// Removes the task stored under `id`; tells whether there was one.
    pub fn remove(&mut self, id: u128) -> (r: bool)
        requires
            old(self).wf(),
        ensures
            final(self).wf(),
            final(self)@ == old(self)@.remove(id),
            r == old(self)@.contains_key(id),
    {
        map_remove(&mut self.tasks, id).is_some()
    }

    /// All stored tasks, each once, in no particular order.
    pub fn list(&self) -> (r: Vec<Task>)
        requires
            self.wf(),
        ensures
            lists_exactly(r@, self@),
    {
        let entries = map_entries(&self.tasks);
        assert forall|j: int| 0 <= j < entries@.len() implies #[trigger] entries@[j].1.id
            == entries@[j].0 by {
            assert(self@.contains_key(entries@[j].0));
        }
        let mut r: Vec<Task> = Vec::new();
        let mut i: usize = 0;
        while i < entries.len()
            invariant
                i <= entries@.len(),
                r@.len() == i,
                forall|j: int| 0 <= j < entries@.len() ==> #[trigger] entries@[j].1.id
                    == entries@[j].0,
                forall|j: int| 0 <= j < i ==> #[trigger] r@[j] == entries@[j].1,
                forall|j: int| 0 <= j < i ==> r@[j].id == entries@[j].0,
            decreases entries@.len() - i,
        {
            let t = entries[i].1.clone();
            r.push(t);
            i = i + 1;
        }
        r
    }
}

impl Default for AppState {
    /// An empty store.
    fn default() -> (r: AppState)
        ensures
            r.wf(),
            r@.dom() == Set::<u128>::empty(),
    {
        AppState::new()
    }
}

/// Storing a task and then reading its id gives back the very task stored.
pub proof fn get_after_insert(before: AppState, after: AppState, task: Task)
    requires
        after@ == before@.insert(task.id, task),
    ensures
        after@.get(task.id) == Some(task),
{
}

/// After a task is removed, reading its id finds nothing, and removing it
/// again reports that nothing was there and changes nothing.
pub proof fn remove_then_absent(first: AppState, second: AppState, third: AppState, id: u128)
    requires
        second@ == first@.remove(id),
        third@ == second@.remove(id),
    ensures
        second@.get(id) is None,
        !second@.contains_key(id),
        third@ == second@,
{
    assert(third@ =~= second@);
}

} // verus!
