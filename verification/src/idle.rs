//! The idle bridge: the periodic step, on the host's main thread, that copies
//! the progress of every live job into a cache for the user interface.
//!
//! The cache belongs to a [`MainThreadContext`], which is made once during
//! global setup and handed along the main thread's dispatch path only.
//! Queries for progress read the cache and never the registry, so what they
//! return is as of the last tick that ran.

use crate::job::{BackgroundTask, JobId, TaskCreationCtx};
use crate::registry::JobRegistry;
use std::collections::HashMap;
use std::marker::PhantomData;
use std::rc::Rc;
use vstd::prelude::*;
use vstd::std_specs::iter::IteratorSpec;

verus! {

broadcast use vstd::std_specs::hash::group_hash_axioms;

/// The cached snapshot of one job's progress.
#[derive(Clone, Copy, Debug, PartialEq, Eq, Structural)]
pub struct IdleTaskBundle {
    pub task_creation_ctx: TaskCreationCtx,
}

/// The snapshot that a tick takes of a set of tasks: the progress of each.
pub open spec fn snapshot_of(tasks: Map<JobId, BackgroundTask>) -> Map<JobId, IdleTaskBundle> {
    Map::new(
        |id: JobId| tasks.contains_key(id),
        |id: JobId| IdleTaskBundle { task_creation_ctx: tasks[id].task_creation_ctx },
    )
}

/// The state that only the host's main thread touches. A context cannot be
/// sent to another thread, nor shared with one: the compiler refuses it.
pub struct MainThreadContext {
    idle_data: HashMap<u64, IdleTaskBundle>,
    /// Keeps the context from being `Send` or `Sync`.
    main_thread_only: PhantomData<Rc<()>>,
}

impl View for MainThreadContext {
    type V = Map<JobId, IdleTaskBundle>;

    closed spec fn view(&self) -> Map<JobId, IdleTaskBundle> {
        Map::new(
            |id: JobId| self.idle_data@.contains_key(id.raw),
            |id: JobId| self.idle_data@[id.raw],
        )
    }
}

impl MainThreadContext {
    /// A context that has seen no tick yet: its cache is empty.
    pub fn new() -> (context: MainThreadContext)
        ensures
            context@ == Map::<JobId, IdleTaskBundle>::empty(),
    {
        let context = MainThreadContext { idle_data: HashMap::new(), main_thread_only: PhantomData };
        context
    }

    /// The cached snapshot of `id`, if a tick has seen the job alive and no
    /// later tick has seen it gone.
    pub fn bundle(&self, id: JobId) -> (found: Option<IdleTaskBundle>)
        ensures
            found == crate::registry::entry_at(self@, id),
    {
        match self.idle_data.get(&id.raw) {
            Some(bundle) => Some(*bundle),
            None => None,
        }
    }

    /// One tick of the idle bridge.
    ///
    /// Afterwards the cache holds exactly the jobs that the registry holds,
    /// each with its current progress. The jobs that were cached and have
    /// left the registry are returned, each once, so that whatever shows them
    /// can be redrawn. With no job cached or registered, nothing changes.
    pub fn tick(&mut self, registry: &JobRegistry) -> (finished: Vec<JobId>)
        ensures
            final(self)@ == snapshot_of(registry@),
            finished@.no_duplicates(),
            forall|id: JobId|
                finished@.contains(id) <==> old(self)@.contains_key(id) && !registry@.contains_key(
                    id,
                ),
    {
        let finished = self.finished_jobs(registry);
        self.idle_data = take_snapshot(registry);
        finished
    }

    /// The cached jobs that the registry no longer holds, each once.
    fn finished_jobs(&self, registry: &JobRegistry) -> (finished: Vec<JobId>)
        ensures
            finished@.no_duplicates(),
            forall|id: JobId|
                finished@.contains(id) <==> self@.contains_key(id) && !registry@.contains_key(id),
    {
        let mut finished: Vec<JobId> = Vec::new();
        let ghost cached = self.idle_data.keys().remaining();
        for key in iter: self.idle_data.keys()
            invariant
                iter.seq() == cached,
                cached.no_duplicates(),
                finished@.no_duplicates(),
                forall|id: JobId|
                    finished@.contains(id) <==> !registry@.contains_key(id) && seen(
                        cached,
                        iter.index(),
                        id.raw,
                    ),
        {
            let id = JobId { raw: *key };
            let ghost before = finished@;
            let ghost at = iter.index();
            if !registry.contains(id) {
                assert(!before.contains(id)) by {
                    // the keys are distinct, so this one was not seen before
                    assert(!seen(cached, at, id.raw));
                }
                finished.push(id);
            }
            proof {
                assert forall|other: JobId|
                    finished@.contains(other) <==> !registry@.contains_key(other) && seen(
                        cached,
                        at + 1,
                        other.raw,
                    ) by {
                    lemma_push_contains(before, id, other);
                    lemma_seen_next(cached, at, other.raw);
                }
            }
        }
        proof {
            assert forall|id: JobId|
                self@.contains_key(id) <==> seen(cached, cached.len() as int, id.raw) by {
                lemma_seen_all(cached, id.raw);
            }
        }
        finished
    }
}

/// The number `raw` is among the first `count` of `keys`.
spec fn seen(keys: Seq<&u64>, count: int, raw: u64) -> bool {
    exists|j: int| 0 <= j < count && *(#[trigger] keys[j]) == raw
}

proof fn lemma_seen_next(keys: Seq<&u64>, count: int, raw: u64)
    requires
        0 <= count < keys.len(),
    ensures
        seen(keys, count + 1, raw) <==> seen(keys, count, raw) || *keys[count] == raw,
{
}

proof fn lemma_seen_all(keys: Seq<&u64>, raw: u64)
    ensures
        seen(keys, keys.len() as int, raw) <==> keys.unref().to_set().contains(raw),
{
    let plain = keys.unref();
    if seen(keys, keys.len() as int, raw) {
        let j = choose|j: int| 0 <= j < keys.len() && *(#[trigger] keys[j]) == raw;
        assert(plain[j] == raw);
    }
    if plain.to_set().contains(raw) {
        let j = choose|j: int| 0 <= j < plain.len() && plain[j] == raw;
        assert(*keys[j] == raw);
    }
}

proof fn lemma_push_contains<T>(items: Seq<T>, item: T, other: T)
    ensures
        items.push(item).contains(other) <==> other == item || items.contains(other),
{
    let pushed = items.push(item);
    if items.contains(other) {
        let i = choose|i: int| 0 <= i < items.len() && items[i] == other;
        assert(pushed[i] == other);
    }
    if other == item {
        assert(pushed[items.len() as int] == other);
    }
}

/// The progress of every registered job, by the number of the job.
fn take_snapshot(registry: &JobRegistry) -> (fresh: HashMap<u64, IdleTaskBundle>)
    ensures
        forall|id: JobId| #[trigger] fresh@.contains_key(id.raw) <==> registry@.contains_key(id),
        forall|id: JobId| #[trigger]
            registry@.contains_key(id) ==> fresh@[id.raw].task_creation_ctx
                == registry@[id].task_creation_ctx,
{
    let live = registry.ids();
    let mut fresh: HashMap<u64, IdleTaskBundle> = HashMap::new();
    let mut i: usize = 0;
    while i < live.len()
        invariant
            i <= live.len(),
            forall|id: JobId| live@.contains(id) <==> registry@.contains_key(id),
            forall|key: u64|
                fresh@.contains_key(key) <==> exists|j: int|
                    0 <= j < i && (#[trigger] live@[j]).raw == key,
            forall|j: int|
                0 <= j < i ==> registry@.contains_key(live@[j]) && fresh@[(
                #[trigger] live@[j]).raw].task_creation_ctx == registry@[live@[j]].task_creation_ctx,
        decreases live.len() - i,
    {
        let id = live[i];
        assert(live@.contains(id));
        match registry.get(id) {
            Some(task) => {
                fresh.insert(id.raw, IdleTaskBundle { task_creation_ctx: task.task_creation_ctx });
            },
            None => {},
        }
        i += 1;
    }
    proof {
        assert forall|id: JobId| registry@.contains_key(id) implies fresh@.contains_key(id.raw)
            && fresh@[id.raw].task_creation_ctx == registry@[id].task_creation_ctx by {
            assert(live@.contains(id));
        }
    }
    fresh
}

} // verus!
