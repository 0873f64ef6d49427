//! What holds of the plugin whatever the order of the calls.
//!
//! Each law is stated over [`PluginView`], the value that the contracts of
//! [`crate::plugin::GlobalPlugin`] speak of, and proved from the definitions.

use crate::idle::snapshot_of;
use crate::job::{BackgroundTask, JobId, TaskState, WorkerAction, WorkerEvent, WorkerSignal};
use crate::plugin::PluginView;
use crate::registry::entry_at;
use vstd::prelude::*;

verus! {

/// A running task that nobody cancels completes with the last of the frames
/// it has left, and not before.
pub proof fn law_a_running_task_completes(task: BackgroundTask)
    requires
        task.wf(),
        task.state == TaskState::Running,
        !task.cancel_requested,
    ensures
        task.after_frames(
            (task.task_creation_ctx.total_frames - task.task_creation_ctx.current_frame) as nat,
        ).state == TaskState::Completed,
        forall|frames: nat|
            frames < task.task_creation_ctx.total_frames - task.task_creation_ctx.current_frame
                ==> (#[trigger] task.after_frames(frames)).state == TaskState::Running,
    decreases task.task_creation_ctx.total_frames - task.task_creation_ctx.current_frame,
{
    let left = (task.task_creation_ctx.total_frames - task.task_creation_ctx.current_frame) as nat;
    let next = task.spec_step(WorkerSignal::FrameDone);
    if next.state == TaskState::Running {
        law_a_running_task_completes(next);
        assert forall|frames: nat| frames < left implies (#[trigger] task.after_frames(
            frames,
        )).state == TaskState::Running by {
            if frames > 0 {
                assert(task.after_frames(frames) == next.after_frames((frames - 1) as nat));
            }
        }
    } else {
        assert(task.after_frames(1) == next.after_frames(0));
    }
}

/// A job is active from its start to its removal: the identity that a start
/// returns was not active before, is active right after, and is not active
/// once its entry is removed. The plugin stays well formed.
pub proof fn law_active_from_start_to_removal(plugin: PluginView, owner: usize, total_frames: u32)
    requires
        plugin.wf(),
        plugin.next_id < u64::MAX,
    ensures
        !plugin.is_active(plugin.next_job()),
        plugin.started(owner, total_frames).is_active(plugin.next_job()),
        !plugin.started(owner, total_frames).removed(plugin.next_job()).is_active(
            plugin.next_job(),
        ),
        plugin.started(owner, total_frames).wf(),
        plugin.started(owner, total_frames).removed(plugin.next_job()).wf(),
{
}

/// An identity that was never given out is not active.
pub proof fn law_inactive_unless_minted(plugin: PluginView, id: JobId)
    requires
        plugin.wf(),
        !plugin.minted(id),
    ensures
        !plugin.is_active(id),
{
}

/// Removal is idempotent: removing an entry twice is removing it once, and
/// removing an entry that is not there changes nothing.
pub proof fn law_removal_is_idempotent(plugin: PluginView, id: JobId)
    ensures
        plugin.removed(id).removed(id) == plugin.removed(id),
        !plugin.is_active(id) ==> plugin.removed(id) == plugin,
{
    assert(plugin.tasks.remove(id).remove(id) =~= plugin.tasks.remove(id));
    if !plugin.is_active(id) {
        assert(plugin.tasks.remove(id) =~= plugin.tasks);
    }
}

/// Every operation keeps the plugin well formed.
pub proof fn law_operations_keep_well_formed(
    plugin: PluginView,
    id: JobId,
    event: WorkerEvent,
    owner: usize,
    total_frames: u32,
)
    requires
        plugin.wf(),
    ensures
        PluginView::initial().wf(),
        plugin.next_id < u64::MAX ==> plugin.started(owner, total_frames).wf(),
        plugin.cancelled(id).wf(),
        plugin.stepped(id, event).wf(),
        plugin.removed(id).wf(),
{
    if plugin.tasks.contains_key(id) {
        plugin.tasks[id].lemma_step_is_sound(event.spec_signal());
    }
}

/// No progress is known of a job before a tick of the idle bridge has found
/// it registered: a query on an empty cache, and a query after a tick that
/// ran while the job was not registered, return `None`.
pub proof fn law_no_progress_before_first_tick(plugin: PluginView, id: JobId)
    requires
        !plugin.is_active(id),
    ensures
        PluginView::progress_in(Map::empty(), id) is None,
        PluginView::progress_in(snapshot_of(plugin.tasks), id) is None,
{
}

/// After a tick, the progress of an active job with at least one frame is a
/// fraction between 0 and 1: its percentage lies in `[0, 100]`.
pub proof fn law_progress_is_a_percentage(plugin: PluginView, id: JobId)
    requires
        plugin.wf(),
        plugin.is_active(id),
        plugin.tasks[id].task_creation_ctx.total_frames > 0,
    ensures
        PluginView::progress_in(snapshot_of(plugin.tasks), id) == Some(
            plugin.tasks[id].task_creation_ctx,
        ),
        plugin.tasks[id].task_creation_ctx.has_percentage(),
        0 <= plugin.tasks[id].task_creation_ctx.spec_percent_floor() <= 100,
{
    let c: int = plugin.tasks[id].task_creation_ctx.current_frame as int;
    let t: int = plugin.tasks[id].task_creation_ctx.total_frames as int;
    assert(0 <= (100 * c) / t <= 100) by (nonlinear_arith)
        requires
            0 <= c <= t,
            0 < t,
    ;
}

/// Every operation lets the plugin advance: no identity comes back, no job
/// changes its owner or its number of frames, and no finished frame is lost.
pub proof fn law_operations_advance(
    plugin: PluginView,
    id: JobId,
    event: WorkerEvent,
    owner: usize,
    total_frames: u32,
    instance_id: usize,
    param_index: i32,
    contents: Seq<char>,
)
    requires
        plugin.wf(),
    ensures
        plugin.advances_to(plugin),
        plugin.next_id < u64::MAX ==> plugin.advances_to(plugin.started(owner, total_frames)),
        plugin.advances_to(plugin.cancelled(id)),
        plugin.advances_to(plugin.stepped(id, event)),
        plugin.advances_to(plugin.removed(id)),
        plugin.advances_to(plugin.recorded(instance_id, param_index, contents)),
{
    if plugin.tasks.contains_key(id) {
        plugin.tasks[id].lemma_step_is_sound(event.spec_signal());
    }
}

/// Advancing is transitive: what holds between neighbours holds over any
/// number of operations.
pub proof fn law_advancing_is_transitive(first: PluginView, second: PluginView, third: PluginView)
    requires
        first.advances_to(second),
        second.advances_to(third),
    ensures
        first.advances_to(third),
{
    assert forall|id: JobId| #[trigger]
        third.tasks.contains_key(id) && id.raw < first.next_id implies first.tasks.contains_key(id) by {
        assert(second.tasks.contains_key(id));
    }
}

/// The progress of a job never decreases from one tick to a later one: if
/// the job is active at both, the fraction of finished frames seen by the
/// earlier tick is at most the one seen by the later tick.
pub proof fn law_progress_never_decreases(earlier: PluginView, later: PluginView, id: JobId)
    requires
        earlier.wf(),
        earlier.advances_to(later),
        earlier.is_active(id),
        later.is_active(id),
    ensures
        PluginView::progress_in(snapshot_of(earlier.tasks), id) is Some,
        PluginView::progress_in(snapshot_of(later.tasks), id) is Some,
        PluginView::progress_in(snapshot_of(earlier.tasks), id).unwrap().no_further_than(
            PluginView::progress_in(snapshot_of(later.tasks), id).unwrap(),
        ),
        PluginView::progress_in(snapshot_of(earlier.tasks), id).unwrap().current_frame
            <= PluginView::progress_in(snapshot_of(later.tasks), id).unwrap().current_frame,
        PluginView::progress_in(snapshot_of(earlier.tasks), id).unwrap().total_frames
            == PluginView::progress_in(snapshot_of(later.tasks), id).unwrap().total_frames,
{
    let before = earlier.tasks[id].task_creation_ctx;
    let after = later.tasks[id].task_creation_ctx;
    let a: int = before.current_frame as int;
    let b: int = after.current_frame as int;
    let t: int = before.total_frames as int;
    assert(a * t <= b * t) by (nonlinear_arith)
        requires
            a <= b,
            0 <= t,
    ;
}

/// A cancelled job ends at the next report of its worker, that is after at
/// most the one frame that was being executed: the worker is told to stop
/// with `Cancelled`, the entry leaves the registry, and the job is not
/// active. From then on no report for the job changes anything, and a tick
/// finds no progress for it.
pub proof fn law_cancel_ends_the_job_at_the_next_report(
    plugin: PluginView,
    id: JobId,
    event: WorkerEvent,
    late: WorkerEvent,
)
    requires
        plugin.wf(),
        plugin.is_active(id),
    ensures
        plugin.cancelled(id).is_active(id),
        plugin.cancelled(id).directive(id, event) == WorkerAction::Stop(TaskState::Cancelled),
        !plugin.cancelled(id).stepped(id, event).is_active(id),
        plugin.cancelled(id).stepped(id, event).tasks == plugin.tasks.remove(id),
        plugin.cancelled(id).stepped(id, event).stepped(id, late) == plugin.cancelled(id).stepped(
            id,
            event,
        ),
        plugin.cancelled(id).stepped(id, event).directive(id, late) == WorkerAction::Stop(
            TaskState::Reaped,
        ),
        PluginView::progress_in(snapshot_of(plugin.cancelled(id).stepped(id, event).tasks), id)
            is None,
{
    let flagged = plugin.cancelled(id);
    flagged.tasks[id].lemma_cancel_takes_one_step(event.spec_signal());
}

/// Jobs do not interfere: whatever happens to one job, its cancellation, a
/// report of its worker or its removal, the entry of every other job and
/// the progress that a tick finds for it stay as they were.
pub proof fn law_jobs_do_not_interfere(plugin: PluginView, id: JobId, other: JobId, event: WorkerEvent)
    requires
        id != other,
    ensures
        entry_at(plugin.cancelled(id).tasks, other) == entry_at(plugin.tasks, other),
        entry_at(plugin.stepped(id, event).tasks, other) == entry_at(plugin.tasks, other),
        entry_at(plugin.removed(id).tasks, other) == entry_at(plugin.tasks, other),
        PluginView::progress_in(snapshot_of(plugin.cancelled(id).tasks), other)
            == PluginView::progress_in(snapshot_of(plugin.tasks), other),
        PluginView::progress_in(snapshot_of(plugin.stepped(id, event).tasks), other)
            == PluginView::progress_in(snapshot_of(plugin.tasks), other),
        PluginView::progress_in(snapshot_of(plugin.removed(id).tasks), other)
            == PluginView::progress_in(snapshot_of(plugin.tasks), other),
{
}

/// Starting a job leaves every job that is registered as it is.
pub proof fn law_start_leaves_others(plugin: PluginView, other: JobId, owner: usize, total_frames: u32)
    requires
        plugin.wf(),
        plugin.next_id < u64::MAX,
        plugin.is_active(other),
    ensures
        entry_at(plugin.started(owner, total_frames).tasks, other) == entry_at(plugin.tasks, other),
{
}

/// A later record for a key replaces the earlier one, and a record leaves
/// every other key as it is.
pub proof fn law_last_record_wins(
    plugin: PluginView,
    instance_id: usize,
    param_index: i32,
    first: Seq<char>,
    second: Seq<char>,
    other_instance: usize,
    other_index: i32,
)
    ensures
        plugin.recorded(instance_id, param_index, first).errors_of(instance_id)[param_index]
            == first,
        plugin.recorded(instance_id, param_index, first).recorded(
            instance_id,
            param_index,
            second,
        ) == plugin.recorded(instance_id, param_index, second),
        other_instance != instance_id ==> plugin.recorded(
            instance_id,
            param_index,
            first,
        ).errors_of(other_instance) == plugin.errors_of(other_instance),
        other_index != param_index ==> entry_at(
            plugin.recorded(instance_id, param_index, first).errors_of(instance_id),
            other_index,
        ) == entry_at(plugin.errors_of(instance_id), other_index),
{
    let once = plugin.recorded(instance_id, param_index, first);
    let twice = once.recorded(instance_id, param_index, second);
    let direct = plugin.recorded(instance_id, param_index, second);
    assert(once.errors_of(instance_id).insert(param_index, second) =~= plugin.errors_of(
        instance_id,
    ).insert(param_index, second));
    assert(twice.errors =~= direct.errors);
}

} // verus!
