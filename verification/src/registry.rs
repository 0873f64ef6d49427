//! The job registry: which render jobs are alive, and how far each has come.
//!
//! The entries are kept in a [`DashMap`]. Every operation that changes the
//! registry takes it by `&mut`, so that what a read returned stays true until
//! the holder of the registry changes it.

use crate::job::{BackgroundTask, JobId};
use dashmap::DashMap;
use std::collections::hash_map::RandomState;
use vstd::prelude::*;

verus! {

#[verifier::external_type_specification]
#[verifier::external_body]
#[verifier::reject_recursive_types(K)]
#[verifier::reject_recursive_types(V)]
#[verifier::reject_recursive_types(S)]
pub struct ExDashMap<K, V, S>(DashMap<K, V, S>);

/// The entries that a task map holds, by the number of the job.
pub uninterp spec fn task_entries(map: DashMap<u64, BackgroundTask, RandomState>) -> Map<
    u64,
    BackgroundTask,
>;

/// Trusted: `DashMap::new` makes a map without entries.
#[verifier::external_body]
fn task_map_new() -> (fresh: DashMap<u64, BackgroundTask, RandomState>)
    ensures
        task_entries(fresh).dom() == Set::<u64>::empty(),
{
    DashMap::new()
}

/// Trusted: `DashMap::insert` stores the value under the key, replacing what
/// was there, and hands back the value that was replaced, if there was one.
/// No other entry changes.
#[verifier::external_body]
fn task_map_insert(
    map: &mut DashMap<u64, BackgroundTask, RandomState>,
    key: u64,
    task: BackgroundTask,
) -> (previous: Option<BackgroundTask>)
    ensures
        task_entries(*final(map)) == task_entries(*old(map)).insert(key, task),
        previous == entry_at(task_entries(*old(map)), key),
{
    map.insert(key, task)
}

/// Trusted: `DashMap::remove` takes the entry of the key out of the map and
/// hands back its value; without such an entry the map stays as it is and
/// nothing is handed back. No other entry changes.
#[verifier::external_body]
fn task_map_remove(map: &mut DashMap<u64, BackgroundTask, RandomState>, key: u64) -> (removed:
    Option<BackgroundTask>)
    ensures
        task_entries(*final(map)) == task_entries(*old(map)).remove(key),
        removed == entry_at(task_entries(*old(map)), key),
{
    map.remove(&key).map(|entry| entry.1)
}

/// Trusted: `DashMap::get` finds the entry of the key, if the map has one;
/// the value is copied out of the reference it returns.
#[verifier::external_body]
fn task_map_get(map: &DashMap<u64, BackgroundTask, RandomState>, key: u64) -> (found: Option<
    BackgroundTask,
>)
    ensures
        found == entry_at(task_entries(*map), key),
{
    map.get(&key).map(|entry| *entry.value())
}

/// Trusted: `DashMap::contains_key` says whether the map has an entry for the key.
#[verifier::external_body]
fn task_map_contains_key(map: &DashMap<u64, BackgroundTask, RandomState>, key: u64) -> (found: bool)
    ensures
        found == task_entries(*map).contains_key(key),
{
    map.contains_key(&key)
}

/// Trusted: `DashMap::iter` visits every entry of the map once. The keys are
/// collected in the order of the visit, which is not specified.
#[verifier::external_body]
fn task_map_keys(map: &DashMap<u64, BackgroundTask, RandomState>) -> (keys: Vec<u64>)
    ensures
        keys@.no_duplicates(),
        keys@.to_set() == task_entries(*map).dom(),
{
    map.iter().map(|entry| *entry.key()).collect()
}

/// The value that a map holds for a key, if it holds one.
pub open spec fn entry_at<K, V>(entries: Map<K, V>, key: K) -> Option<V> {
    if entries.contains_key(key) {
        Some(entries[key])
    } else {
        None
    }
}

/// The live render jobs, by identity.
pub struct JobRegistry {
    tasks: DashMap<u64, BackgroundTask, RandomState>,
}

impl View for JobRegistry {
    type V = Map<JobId, BackgroundTask>;

    closed spec fn view(&self) -> Map<JobId, BackgroundTask> {
        Map::new(
            |id: JobId| task_entries(self.tasks).contains_key(id.raw),
            |id: JobId| task_entries(self.tasks)[id.raw],
        )
    }
}

impl JobRegistry {
    /// A registry without jobs.
    pub fn new() -> (registry: JobRegistry)
        ensures
            registry@ == Map::<JobId, BackgroundTask>::empty(),
    {
        let registry = JobRegistry { tasks: task_map_new() };
        registry
    }

    /// Registers `task` under `id`, in place of any task that was there, and
    /// returns the task that was replaced.
    pub fn insert(&mut self, id: JobId, task: BackgroundTask) -> (previous: Option<BackgroundTask>)
        ensures
            final(self)@ == old(self)@.insert(id, task),
            previous == entry_at(old(self)@, id),
    {
        let previous = task_map_insert(&mut self.tasks, id.raw, task);
        previous
    }

    /// Takes the task of `id` out of the registry and returns it. Removing a
    /// job that is not registered changes nothing and returns `None`.
    pub fn remove(&mut self, id: JobId) -> (removed: Option<BackgroundTask>)
        ensures
            final(self)@ == old(self)@.remove(id),
            removed == entry_at(old(self)@, id),
    {
        let removed = task_map_remove(&mut self.tasks, id.raw);
        removed
    }

    /// A copy of the task of `id`, if it is registered.
    pub fn get(&self, id: JobId) -> (found: Option<BackgroundTask>)
        ensures
            found == entry_at(self@, id),
    {
        task_map_get(&self.tasks, id.raw)
    }

    /// Whether a task is registered under `id`.
    pub fn contains(&self, id: JobId) -> (found: bool)
        ensures
            found == self@.contains_key(id),
    {
        task_map_contains_key(&self.tasks, id.raw)
    }

    /// The identities of all registered jobs, each once, in no particular order.
    pub fn ids(&self) -> (ids: Vec<JobId>)
        ensures
            ids@.no_duplicates(),
            forall|id: JobId| ids@.contains(id) <==> self@.contains_key(id),
    {
        let keys = task_map_keys(&self.tasks);
        let mut ids: Vec<JobId> = Vec::new();
        let mut i: usize = 0;
        while i < keys.len()
            invariant
                i <= keys.len(),
                ids.len() == i,
                forall|j: int| 0 <= j < i ==> (#[trigger] ids@[j]).raw == keys@[j],
            decreases keys.len() - i,
        {
            ids.push(JobId { raw: keys[i] });
            i += 1;
        }
        proof {
            assert forall|id: JobId| self@.contains_key(id) implies ids@.contains(id) by {
                let j = choose|j: int| 0 <= j < keys@.len() && keys@[j] == id.raw;
                assert(ids@[j] == id);
            }
        }
        ids
    }
}

} // verus!
