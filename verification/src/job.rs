//! Job identity and the life cycle of one background render task.
//!
//! A task is a plain value. The worker that executes frames lives outside this
//! crate; it reports what happened as a [`WorkerSignal`] and is told what to do
//! next as a [`WorkerAction`]. Every decision in between is made by
//! [`BackgroundTask::step`].

use crate::error::Error;
use vstd::prelude::*;

verus! {

/// Names one render attempt. Identities are handed out by the plugin from a
/// counter that only grows, so a value is never given to two jobs. An
/// identity is compared and stored, and means nothing else.
#[derive(Clone, Copy, Debug, PartialEq, Eq, Hash, Structural)]
pub struct JobId {
    pub raw: u64,
}

/// Progress of one job: how many frames are finished, out of how many.
#[derive(Clone, Copy, Debug, PartialEq, Eq, Structural)]
pub struct TaskCreationCtx {
    pub current_frame: u32,
    pub total_frames: u32,
}

impl TaskCreationCtx {
    /// No more frames are finished than there are.
    pub open spec fn wf(self) -> bool {
        self.current_frame <= self.total_frames
    }

    /// The percentage `100 * current_frame / total_frames` lies in `[0, 100]`.
    /// It is undefined for a job without frames.
    pub open spec fn has_percentage(self) -> bool {
        0 < self.total_frames && self.current_frame <= self.total_frames
    }

    /// The percentage, rounded down to a whole number.
    pub open spec fn spec_percent_floor(self) -> int
        recommends
            self.has_percentage(),
    {
        (100 * self.current_frame as int) / (self.total_frames as int)
    }

    /// `self` is no further than `later`: the fraction
    /// `current_frame / total_frames` of `self` is at most that of `later`,
    /// compared without dividing.
    pub open spec fn no_further_than(self, later: TaskCreationCtx) -> bool {
        self.current_frame as int * later.total_frames as int <= later.current_frame as int
            * self.total_frames as int
    }

    /// The percentage rounded down, or `None` for a job without frames or
    /// with more finished frames than it has.
    pub fn percent_floor(&self) -> (percent: Option<u32>)
        ensures
            percent is Some <==> self.has_percentage(),
            percent matches Some(p) ==> p == self.spec_percent_floor() && p <= 100,
    {
        if self.total_frames == 0 || self.current_frame > self.total_frames {
            return None;
        }
        let scaled: u64 = 100u64 * (self.current_frame as u64);
        let total: u64 = self.total_frames as u64;
        let quotient: u64 = scaled / total;
        proof {
            let c: int = self.current_frame as int;
            let t: int = self.total_frames as int;
            assert((100 * c) / t <= 100) by (nonlinear_arith)
                requires
                    0 <= c <= t,
                    0 < t,
            ;
            assert(0 <= (100 * c) / t) by (nonlinear_arith)
                requires
                    0 <= c,
                    0 < t,
            ;
        }
        Some(quotient as u32)
    }
}

/// Where a task stands. A task is `Pending` from registration until its
/// worker announces itself, `Running` while frames are executed, and then
/// ends as `Completed`, `Cancelled` or `Failed`. `Reaped` is the state of a
/// job whose entry has left the registry.
#[derive(Clone, Copy, Debug, PartialEq, Eq, Structural)]
pub enum TaskState {
    Pending,
    Running,
    Completed,
    Cancelled,
    Failed,
    Reaped,
}

impl TaskState {
    /// The task still has work ahead of it.
    pub open spec fn spec_is_live(self) -> bool {
        self == TaskState::Pending || self == TaskState::Running
    }

    /// The error that a job ended with: a failed job ended with a
    /// `ScriptExecutionError`, and no other state is an error.
    pub open spec fn spec_failure(self) -> Option<Error> {
        if self == TaskState::Failed {
            Some(Error::ScriptExecutionError)
        } else {
            None
        }
    }

    /// See [`TaskState::spec_is_live`].
    #[verifier::when_used_as_spec(spec_is_live)]
    pub fn is_live(self) -> (live: bool)
        ensures
            live == self.spec_is_live(),
    {
        match self {
            TaskState::Pending | TaskState::Running => true,
            _ => false,
        }
    }

    /// See [`TaskState::spec_failure`].
    #[verifier::when_used_as_spec(spec_failure)]
    pub fn failure(self) -> (error: Option<Error>)
        ensures
            error == self.spec_failure(),
    {
        match self {
            TaskState::Failed => Some(Error::ScriptExecutionError),
            _ => None,
        }
    }
}

/// What a worker reports at a frame boundary.
#[derive(Clone, Copy, Debug, PartialEq, Eq, Structural)]
pub enum WorkerSignal {
    /// The worker has begun to execute.
    Started,
    /// The frame it was told to run is finished.
    FrameDone,
    /// The script engine failed on the frame it was told to run.
    FrameFailed,
}

/// What a worker reports, with what it has to say about a failure.
#[derive(Debug, PartialEq, Eq)]
pub enum WorkerEvent {
    /// The worker has begun to execute.
    Started,
    /// The frame it was told to run is finished.
    FrameDone,
    /// The script engine failed on the frame it was told to run. `contents`
    /// is what to show for the parameter with index `param_index`.
    FrameFailed { param_index: i32, contents: String },
}

impl WorkerEvent {
    /// The signal that the event carries.
    pub open spec fn spec_signal(&self) -> WorkerSignal {
        match self {
            WorkerEvent::Started => WorkerSignal::Started,
            WorkerEvent::FrameDone => WorkerSignal::FrameDone,
            WorkerEvent::FrameFailed { .. } => WorkerSignal::FrameFailed,
        }
    }

    /// See [`WorkerEvent::spec_signal`].
    #[verifier::when_used_as_spec(spec_signal)]
    pub fn signal(&self) -> (signal: WorkerSignal)
        ensures
            signal == self.spec_signal(),
    {
        match self {
            WorkerEvent::Started => WorkerSignal::Started,
            WorkerEvent::FrameDone => WorkerSignal::FrameDone,
            WorkerEvent::FrameFailed { .. } => WorkerSignal::FrameFailed,
        }
    }
}

/// What a worker is told to do next.
#[derive(Clone, Copy, Debug, PartialEq, Eq, Structural)]
pub enum WorkerAction {
    /// The task is registered, and its worker has not announced itself yet.
    AwaitStart,
    /// Execute the frame with this index, then report back.
    RunFrame(u32),
    /// Stop: the job has ended in this state.
    Stop(TaskState),
}

/// One render job as the registry holds it.
#[derive(Clone, Copy, Debug, PartialEq, Eq, Structural)]
pub struct BackgroundTask {
    pub state: TaskState,
    pub task_creation_ctx: TaskCreationCtx,
    /// Set by a cancellation request, read by the worker at each frame boundary.
    pub cancel_requested: bool,
    /// The plugin instance that started the job.
    pub owner: usize,
}

impl BackgroundTask {
    /// The counters fit the state: a pending task has finished nothing, a
    /// running one has frames left, a completed one has none left.
    pub open spec fn wf(self) -> bool {
        &&& self.task_creation_ctx.wf()
        &&& self.state != TaskState::Reaped
        &&& self.state == TaskState::Pending ==> self.task_creation_ctx.current_frame == 0
        &&& self.state == TaskState::Running ==> self.task_creation_ctx.current_frame
            < self.task_creation_ctx.total_frames
        &&& self.state == TaskState::Completed ==> self.task_creation_ctx.current_frame
            == self.task_creation_ctx.total_frames
    }

    /// The task as it is when a job starts.
    pub open spec fn spec_new(owner: usize, total_frames: u32) -> BackgroundTask {
        BackgroundTask {
            state: TaskState::Pending,
            task_creation_ctx: TaskCreationCtx { current_frame: 0, total_frames },
            cancel_requested: false,
            owner,
        }
    }

    /// The same task in another state.
    pub open spec fn in_state(self, state: TaskState) -> BackgroundTask {
        BackgroundTask { state, ..self }
    }

    /// The same task with one more frame finished.
    pub open spec fn frame_counted(self) -> BackgroundTask {
        let done = (self.task_creation_ctx.current_frame + 1) as u32;
        BackgroundTask {
            state: if done == self.task_creation_ctx.total_frames {
                TaskState::Completed
            } else {
                TaskState::Running
            },
            task_creation_ctx: TaskCreationCtx {
                current_frame: done,
                total_frames: self.task_creation_ctx.total_frames,
            },
            ..self
        }
    }

    /// The transition function of the life cycle.
    ///
    /// A task that has ended stays as it is. A live task whose cancellation
    /// was requested becomes `Cancelled` whatever the worker reports. Otherwise
    /// a failure ends it as `Failed`; the worker's start makes a pending task
    /// `Running`, or `Completed` if it has no frames; a finished frame is
    /// counted on a running task, which completes with its last frame. A
    /// signal that does not fit the state changes nothing.
    pub open spec fn spec_step(self, signal: WorkerSignal) -> BackgroundTask {
        if !self.state.spec_is_live() {
            self
        } else if self.cancel_requested {
            self.in_state(TaskState::Cancelled)
        } else {
            match signal {
                WorkerSignal::FrameFailed => self.in_state(TaskState::Failed),
                WorkerSignal::Started => if self.state == TaskState::Pending {
                    if self.task_creation_ctx.current_frame < self.task_creation_ctx.total_frames {
                        self.in_state(TaskState::Running)
                    } else {
                        self.in_state(TaskState::Completed)
                    }
                } else {
                    self
                },
                WorkerSignal::FrameDone => if self.state == TaskState::Running
                    && self.task_creation_ctx.current_frame < self.task_creation_ctx.total_frames {
                    self.frame_counted()
                } else {
                    self
                },
            }
        }
    }

    /// What the worker of a task in this condition does next.
    pub open spec fn spec_directive(self) -> WorkerAction {
        match self.state {
            TaskState::Pending => WorkerAction::AwaitStart,
            TaskState::Running => WorkerAction::RunFrame(self.task_creation_ctx.current_frame),
            ended => WorkerAction::Stop(ended),
        }
    }

    pub fn new(owner: usize, total_frames: u32) -> (task: BackgroundTask)
        ensures
            task == Self::spec_new(owner, total_frames),
            task.wf(),
            task.state.spec_is_live(),
    {
        BackgroundTask {
            state: TaskState::Pending,
            task_creation_ctx: TaskCreationCtx { current_frame: 0, total_frames },
            cancel_requested: false,
            owner,
        }
    }

    /// Applies one signal of the worker. See [`BackgroundTask::spec_step`].
    pub fn step(self, signal: WorkerSignal) -> (next: BackgroundTask)
        ensures
            next == self.spec_step(signal),
    {
        if !self.state.is_live() {
            return self;
        }
        let mut next = self;
        if self.cancel_requested {
            next.state = TaskState::Cancelled;
            return next;
        }
        let ctx = self.task_creation_ctx;
        match signal {
            WorkerSignal::FrameFailed => {
                next.state = TaskState::Failed;
            },
            WorkerSignal::Started => {
                if self.state == TaskState::Pending {
                    if ctx.current_frame < ctx.total_frames {
                        next.state = TaskState::Running;
                    } else {
                        next.state = TaskState::Completed;
                    }
                }
            },
            WorkerSignal::FrameDone => {
                if self.state == TaskState::Running && ctx.current_frame < ctx.total_frames {
                    let done: u32 = ctx.current_frame + 1;
                    next.task_creation_ctx.current_frame = done;
                    if done == ctx.total_frames {
                        next.state = TaskState::Completed;
                    }
                }
            },
        }
        next
    }

    /// See [`BackgroundTask::spec_directive`].
    pub fn directive(&self) -> (action: WorkerAction)
        ensures
            action == self.spec_directive(),
    {
        match self.state {
            TaskState::Pending => WorkerAction::AwaitStart,
            TaskState::Running => WorkerAction::RunFrame(self.task_creation_ctx.current_frame),
            ended => WorkerAction::Stop(ended),
        }
    }

    /// A step keeps a well-formed task well formed, never changes the number
    /// of frames or the owner, never takes back a finished frame, and never
    /// revives a task that has ended.
    pub proof fn lemma_step_is_sound(self, signal: WorkerSignal)
        requires
            self.wf(),
        ensures
            self.spec_step(signal).wf(),
            self.spec_step(signal).owner == self.owner,
            self.spec_step(signal).cancel_requested == self.cancel_requested,
            self.spec_step(signal).task_creation_ctx.total_frames
                == self.task_creation_ctx.total_frames,
            self.task_creation_ctx.current_frame <= self.spec_step(
                signal,
            ).task_creation_ctx.current_frame,
            !self.state.spec_is_live() ==> self.spec_step(signal) == self,
    {
    }

    /// Once cancellation is requested, the next step of a live task ends it
    /// as `Cancelled` with its counters untouched, and the worker is told to stop.
    pub proof fn lemma_cancel_takes_one_step(self, signal: WorkerSignal)
        requires
            self.state.spec_is_live(),
            self.cancel_requested,
        ensures
            self.spec_step(signal).state == TaskState::Cancelled,
            self.spec_step(signal).task_creation_ctx == self.task_creation_ctx,
            self.spec_step(signal).spec_directive() == WorkerAction::Stop(TaskState::Cancelled),
    {
    }

    /// The task after its worker has reported `frames` finished frames.
    pub open spec fn after_frames(self, frames: nat) -> BackgroundTask
        decreases frames,
    {
        if frames == 0 {
            self
        } else {
            self.spec_step(WorkerSignal::FrameDone).after_frames((frames - 1) as nat)
        }
    }
}

} // verus!
