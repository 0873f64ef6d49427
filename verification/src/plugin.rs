//! The plugin as a whole: the job registry, the debug and error store, and
//! the counter that job identities come from.
//!
//! The plugin is a plain value, changed through `&mut`. An application that
//! runs workers on threads of their own gives them access as it sees fit;
//! what is proved here holds of every order in which the calls arrive.
//!
//! Every plugin that these functions build is well formed in the sense of
//! [`PluginView::wf`]: [`GlobalPlugin::new`] makes it so, and every function
//! that changes the plugin keeps it so.

use crate::command::{global_plan, plan_global, Command, GlobalAction};
use crate::debug_store::{message_texts, ErrorStore};
use crate::idle::{snapshot_of, IdleTaskBundle, MainThreadContext};
use crate::job::{BackgroundTask, JobId, TaskCreationCtx, TaskState, WorkerAction, WorkerEvent};
use crate::registry::{entry_at, JobRegistry};
use std::collections::HashMap;
use vstd::prelude::*;

verus! {

/// The plugin as a mathematical value.
pub struct PluginView {
    /// The live jobs.
    pub tasks: Map<JobId, BackgroundTask>,
    /// What is recorded, by instance and parameter index.
    pub errors: Map<usize, Map<i32, Seq<char>>>,
    /// The number of the next job. Every smaller number has been given out.
    pub next_id: u64,
    /// The identifier that the host gave at registration.
    pub plugin_id: Option<i32>,
}

impl PluginView {
    /// Every registered job got its identity from the counter, is well
    /// formed, and has not ended: a job that ends leaves the registry in the
    /// same step.
    pub open spec fn wf(self) -> bool {
        forall|id: JobId| #[trigger]
            self.tasks.contains_key(id) ==> id.raw < self.next_id && self.tasks[id].wf()
                && self.tasks[id].state.spec_is_live()
    }

    /// The plugin before anything happened.
    pub open spec fn initial() -> PluginView {
        PluginView { tasks: Map::empty(), errors: Map::empty(), next_id: 0, plugin_id: None }
    }

    /// The identity was given to a job at some time.
    pub open spec fn minted(self, id: JobId) -> bool {
        id.raw < self.next_id
    }

    /// A task for the identity occupies the registry.
    pub open spec fn is_active(self, id: JobId) -> bool {
        self.tasks.contains_key(id)
    }

    /// What is recorded for one instance: empty if nothing was.
    pub open spec fn errors_of(self, instance_id: usize) -> Map<i32, Seq<char>> {
        if self.errors.contains_key(instance_id) {
            self.errors[instance_id]
        } else {
            Map::empty()
        }
    }

    /// The identity that the next job gets.
    pub open spec fn next_job(self) -> JobId {
        JobId { raw: self.next_id }
    }

    /// The plugin after a job with `total_frames` frames was started for
    /// `owner`, while the counter lasts.
    pub open spec fn started(self, owner: usize, total_frames: u32) -> PluginView
        recommends
            self.next_id < u64::MAX,
    {
        PluginView {
            tasks: self.tasks.insert(self.next_job(), BackgroundTask::spec_new(owner, total_frames)),
            next_id: (self.next_id + 1) as u64,
            ..self
        }
    }

    /// The plugin after the cancellation of `id` was requested: the flag of
    /// its task is set. Nothing changes if the job is not registered.
    pub open spec fn cancelled(self, id: JobId) -> PluginView {
        if self.tasks.contains_key(id) {
            PluginView {
                tasks: self.tasks.insert(
                    id,
                    BackgroundTask { cancel_requested: true, ..self.tasks[id] },
                ),
                ..self
            }
        } else {
            self
        }
    }

    /// The plugin after the entry of `id` was removed.
    pub open spec fn removed(self, id: JobId) -> PluginView {
        PluginView { tasks: self.tasks.remove(id), ..self }
    }

    /// The plugin after `contents` was recorded for `(instance_id, param_index)`.
    pub open spec fn recorded(self, instance_id: usize, param_index: i32, contents: Seq<char>) -> PluginView {
        PluginView {
            errors: self.errors.insert(
                instance_id,
                self.errors_of(instance_id).insert(param_index, contents),
            ),
            ..self
        }
    }

    /// The plugin after the worker of `id` reported `event`.
    ///
    /// For a job that is not registered nothing changes. Otherwise the task
    /// takes one step; it stays registered if it is still live and leaves the
    /// registry if it has ended. A reported failure is recorded for the
    /// instance that owns the job.
    pub open spec fn stepped(self, id: JobId, event: WorkerEvent) -> PluginView {
        if !self.tasks.contains_key(id) {
            self
        } else {
            let task = self.tasks[id];
            let next = task.spec_step(event.spec_signal());
            let kept = PluginView {
                tasks: if next.state.spec_is_live() {
                    self.tasks.insert(id, next)
                } else {
                    self.tasks.remove(id)
                },
                ..self
            };
            match event {
                WorkerEvent::FrameFailed { param_index, contents } => kept.recorded(
                    task.owner,
                    param_index,
                    contents@,
                ),
                _ => kept,
            }
        }
    }

    /// What the worker of `id` is told after it reported `event`: to stop
    /// with `Reaped` if the job is not registered, and else what follows from
    /// the step that its task took.
    pub open spec fn directive(self, id: JobId, event: WorkerEvent) -> WorkerAction {
        if !self.tasks.contains_key(id) {
            WorkerAction::Stop(TaskState::Reaped)
        } else {
            self.tasks[id].spec_step(event.spec_signal()).spec_directive()
        }
    }

    /// What a query for the progress of `id` returns when the cache is `cache`.
    pub open spec fn progress_in(cache: Map<JobId, IdleTaskBundle>, id: JobId) -> Option<TaskCreationCtx> {
        if cache.contains_key(id) {
            Some(cache[id].task_creation_ctx)
        } else {
            None
        }
    }

    /// `later` can follow `self`: the counter has not gone back, and every
    /// job of `later` that `self` had given out was registered in `self`
    /// too, for the same owner and with the same number of frames, and has
    /// not lost a finished frame since.
    pub open spec fn advances_to(self, later: PluginView) -> bool {
        &&& self.next_id <= later.next_id
        &&& forall|id: JobId| #[trigger]
            later.tasks.contains_key(id) && id.raw < self.next_id ==> {
                &&& self.tasks.contains_key(id)
                &&& self.tasks[id].owner == later.tasks[id].owner
                &&& self.tasks[id].task_creation_ctx.total_frames
                    == later.tasks[id].task_creation_ctx.total_frames
                &&& self.tasks[id].task_creation_ctx.current_frame
                    <= later.tasks[id].task_creation_ctx.current_frame
            }
    }
}

/// The state that the plugin keeps for all its instances.
pub struct GlobalPlugin {
    task_map: JobRegistry,
    errors: ErrorStore,
    current_id: u64,
    plugin_id: Option<i32>,
}

impl View for GlobalPlugin {
    type V = PluginView;

    closed spec fn view(&self) -> PluginView {
        PluginView {
            tasks: self.task_map@,
            errors: self.errors@,
            next_id: self.current_id,
            plugin_id: self.plugin_id,
        }
    }
}

impl Default for GlobalPlugin {
    fn default() -> (plugin: GlobalPlugin)
        ensures
            plugin@ == PluginView::initial(),
            plugin@.wf(),
    {
        GlobalPlugin::new()
    }
}

impl GlobalPlugin {
    /// A plugin without jobs, records or registration.
    pub fn new() -> (plugin: GlobalPlugin)
        ensures
            plugin@ == PluginView::initial(),
            plugin@.wf(),
    {
        GlobalPlugin {
            task_map: JobRegistry::new(),
            errors: ErrorStore::new(),
            current_id: 0,
            plugin_id: None,
        }
    }

    /// Starts a job with `total_frames` frames for the instance `owner`: a
    /// new identity is taken from the counter and a pending task registered
    /// under it. The identity was never given out before.
    ///
    /// Returns `None`, and changes nothing, only when the counter is exhausted.
    pub fn start_job(&mut self, owner: usize, total_frames: u32) -> (started: Option<JobId>)
        ensures
            started is Some <==> old(self)@.next_id < u64::MAX,
            started matches Some(id) ==> id == old(self)@.next_job() && !old(self)@.minted(id)
                && final(self)@ == old(self)@.started(owner, total_frames),
            old(self)@.wf() ==> !old(self)@.is_active(old(self)@.next_job()),
            started is None ==> final(self)@ == old(self)@,
            old(self)@.wf() ==> final(self)@.wf(),
    {
        if self.current_id == u64::MAX {
            return None;
        }
        let id = JobId { raw: self.current_id };
        let task = BackgroundTask::new(owner, total_frames);
        self.task_map.insert(id, task);
        self.current_id = self.current_id + 1;
        Some(id)
    }

    /// Requests the cancellation of `id`: the flag of its task is set, for
    /// its worker to see at the next frame boundary. No other job changes.
    /// Returns whether the job was registered.
    pub fn cancel_job(&mut self, id: JobId) -> (found: bool)
        ensures
            found == old(self)@.is_active(id),
            final(self)@ == old(self)@.cancelled(id),
            old(self)@.wf() ==> final(self)@.wf(),
    {
        match self.task_map.get(id) {
            Some(task) => {
                let mut flagged = task;
                flagged.cancel_requested = true;
                self.task_map.insert(id, flagged);
                true
            },
            None => false,
        }
    }

    /// Takes the report of the worker of `id` and tells it what to do next.
    /// See [`PluginView::stepped`] and [`PluginView::directive`].
    pub fn worker_step(&mut self, id: JobId, event: WorkerEvent) -> (action: WorkerAction)
        ensures
            final(self)@ == old(self)@.stepped(id, event),
            action == old(self)@.directive(id, event),
            old(self)@.wf() ==> final(self)@.wf(),
    {
        let task = match self.task_map.get(id) {
            Some(task) => task,
            None => {
                return WorkerAction::Stop(TaskState::Reaped);
            },
        };
        let next = task.step(event.signal());
        proof {
            if old(self)@.wf() {
                task.lemma_step_is_sound(event.spec_signal());
            }
        }
        if next.state.is_live() {
            self.task_map.insert(id, next);
        } else {
            self.task_map.remove(id);
        }
        match event {
            WorkerEvent::FrameFailed { param_index, contents } => {
                self.errors.record(task.owner, param_index, contents);
            },
            _ => {},
        }
        next.directive()
    }

    /// Removes the entry of `id` and returns its task. Removing a job that
    /// is not registered changes nothing.
    pub fn remove_job(&mut self, id: JobId) -> (removed: Option<BackgroundTask>)
        ensures
            removed == entry_at(old(self)@.tasks, id),
            final(self)@ == old(self)@.removed(id),
            old(self)@.wf() ==> final(self)@.wf(),
    {
        self.task_map.remove(id)
    }

    /// Whether a task for `id` occupies the registry at this moment.
    pub fn bg_render_is_active(&self, id: JobId) -> (active: bool)
        ensures
            active == self@.is_active(id),
    {
        self.task_map.contains(id)
    }

    /// The progress of `id` as of the last tick of the idle bridge: `None`
    /// if that tick did not find the job registered, or if no tick has run.
    /// Only the cache is read, never the registry.
    pub fn render_progress(&self, context: &MainThreadContext, id: JobId) -> (progress: Option<
        TaskCreationCtx,
    >)
        ensures
            progress == PluginView::progress_in(context@, id),
    {
        match context.bundle(id) {
            Some(bundle) => Some(bundle.task_creation_ctx),
            None => None,
        }
    }

    /// One tick of the idle bridge. See [`MainThreadContext::tick`].
    pub fn idle_tick(&self, context: &mut MainThreadContext) -> (finished: Vec<JobId>)
        ensures
            final(context)@ == snapshot_of(self@.tasks),
            finished@.no_duplicates(),
            forall|id: JobId|
                finished@.contains(id) <==> old(context)@.contains_key(id) && !self@.is_active(id),
    {
        context.tick(&self.task_map)
    }

    /// Records `contents` for `(instance_id, param_index)`, in place of what
    /// was recorded for that key.
    pub fn record_error(&mut self, instance_id: usize, param_index: i32, contents: String)
        ensures
            final(self)@ == old(self)@.recorded(instance_id, param_index, contents@),
            old(self)@.wf() ==> final(self)@.wf(),
    {
        self.errors.record(instance_id, param_index, contents);
    }

    /// What is recorded for `instance_id`, by parameter index.
    pub fn query_errors(&self, instance_id: usize) -> (messages: HashMap<i32, String>)
        ensures
            message_texts(messages) == self@.errors_of(instance_id),
    {
        self.errors.query(instance_id)
    }

    /// Forgets what is recorded for `instance_id`, as when the instance is
    /// torn down.
    pub fn clear_errors(&mut self, instance_id: usize)
        ensures
            final(self)@ == (PluginView {
                errors: old(self)@.errors.remove(instance_id),
                ..old(self)@
            }),
            old(self)@.wf() ==> final(self)@.wf(),
    {
        self.errors.clear_instance(instance_id);
    }

    /// Stores the identifier that the host gave at registration. It is set
    /// once: a second call changes nothing and returns `false`.
    pub fn set_plugin_id(&mut self, plugin_id: i32) -> (stored: bool)
        ensures
            stored == old(self)@.plugin_id is None,
            final(self)@ == (PluginView {
                plugin_id: if stored {
                    Some(plugin_id)
                } else {
                    old(self)@.plugin_id
                },
                ..old(self)@
            }),
            old(self)@.wf() ==> final(self)@.wf(),
    {
        match self.plugin_id {
            Some(_) => false,
            None => {
                self.plugin_id = Some(plugin_id);
                true
            },
        }
    }

    /// The identifier that the host gave at registration, once it is stored.
    pub fn plugin_id(&self) -> (plugin_id: Option<i32>)
        ensures
            plugin_id == self@.plugin_id,
    {
        self.plugin_id
    }

    /// Answers a command of the host with the actions to perform, in order.
    /// See [`global_plan`]: global setup is answered until the identifier of
    /// the registration is stored. The plugin itself does not change.
    pub fn handle_command(&mut self, command: Command) -> (plan: Vec<GlobalAction>)
        ensures
            plan@ == global_plan(command, old(self)@.plugin_id is Some),
            final(self)@ == old(self)@,
    {
        plan_global(command, self.plugin_id.is_some())
    }
}

} // verus!
