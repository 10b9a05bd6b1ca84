//! Where a task goes that has become ready to run.
use crate::channel;
use crate::event_thread::{EventThread, UNCLAIMED};
use async_task::{Runnable, Task};
use crossbeam_channel::{Receiver, Sender};
use vstd::prelude::*;

verus! {

/// What is known of the way in which a task became ready.
#[derive(Clone, Copy, Debug, PartialEq, Eq, Structural)]
pub struct ScheduleInfo {
    /// The task was woken while it was running: it has yielded to the scheduler.
    pub woken_while_running: bool,
}

/// What the caller of [`Scheduler::schedule`] has to do next.
pub enum ScheduleAction {
    /// Run the task on this thread.
    Run(Runnable),
    /// The task is in the queue: notify the event loop.
    Notify,
}

/// The queue of tasks that wait for the event loop thread.
pub struct Scheduler {
    rx: Receiver<Runnable>,
    tx: Sender<Runnable>,
}

/// Whether a ready task is run at once. That is safe on the event loop thread only. A task that
/// was woken while running takes the way through the queue, which limits reentrancy.
pub open spec fn runs_at_once(main_tid: i64, tid: i64, info: ScheduleInfo) -> bool {
    main_tid == tid && !info.woken_while_running
}

/// What the caller is told to do with a ready task.
pub open spec fn schedule_action(
    main_tid: i64,
    tid: i64,
    info: ScheduleInfo,
    runnable: Runnable,
) -> ScheduleAction {
    if runs_at_once(main_tid, tid, info) {
        ScheduleAction::Run(runnable)
    } else {
        ScheduleAction::Notify
    }
}

/// The queue after a task has been scheduled.
pub open spec fn schedule_queue(
    main_tid: i64,
    tid: i64,
    info: ScheduleInfo,
    runnable: Runnable,
    queue: Seq<Runnable>,
) -> Seq<Runnable> {
    if runs_at_once(main_tid, tid, info) {
        queue
    } else {
        queue.push(runnable)
    }
}

impl View for Scheduler {
    type V = Seq<Runnable>;

    /// The tasks that wait, the oldest first.
    closed spec fn view(&self) -> Seq<Runnable> {
        channel::queued(self.rx)
    }
}

impl Scheduler {
    /// The scheduler holds both ends of one channel.
    pub closed spec fn wf(&self) -> bool {
        channel::linked(self.tx, self.rx)
    }

    /// A scheduler with an empty queue.
    pub fn new() -> (scheduler: Self)
        ensures
            scheduler.wf(),
            scheduler@ == Seq::<Runnable>::empty(),
    {
        let (tx, rx) = channel::unbounded();
        Scheduler { rx, tx }
    }

    /// Decides where a ready task goes, as seen from the thread `tid`.
    ///
    /// On the event loop thread it is safe to simply run the task. Otherwise the task joins the
    /// queue and the event loop has to be notified; its handler then runs the task.
    pub fn schedule(
        &mut self,
        runnable: Runnable,
        info: ScheduleInfo,
        thread: &EventThread,
        tid: i64,
    ) -> (action: ScheduleAction)
        requires
            old(self).wf(),
        ensures
            final(self).wf(),
            final(self)@ == schedule_queue(thread@, tid, info, runnable, old(self)@),
            action == schedule_action(thread@, tid, info, runnable),
            thread@ == tid && !info.woken_while_running ==> action == ScheduleAction::Run(runnable)
                && final(self)@ == old(self)@,
            thread@ != tid || info.woken_while_running ==> action == ScheduleAction::Notify
                && final(self)@ == old(self)@.push(runnable),
    {
        let oet = thread.on_event_thread(tid);
        if oet && !info.woken_while_running {
            ScheduleAction::Run(runnable)
        } else {
            channel::send(&self.tx, &mut self.rx, runnable).expect("send");
            ScheduleAction::Notify
        }
    }

    /// Whether no task waits.
    pub(crate) fn is_empty(&self) -> (empty: bool)
        requires
            self.wf(),
        ensures
            empty == (self@.len() == 0),
    {
        channel::is_empty(&self.rx)
    }

    /// Takes the task that has waited the longest.
    pub(crate) fn take(&mut self) -> (taken: Option<Runnable>)
        requires
            old(self).wf(),
        ensures
            final(self).wf(),
            old(self)@.len() > 0 ==> taken == Some(old(self)@[0]) && final(self)@ == old(
                self,
            )@.drop_first(),
            old(self)@.len() == 0 ==> taken is None && final(self)@ == old(self)@,
    {
        match channel::try_recv(&mut self.rx) {
            Ok(runnable) => Some(runnable),
            Err(_) => None,
        }
    }
}

/// Schedules a task for the first time, as seen from the thread `tid`.
///
/// `runnable` and `task` are the two handles of a task that has just been created. The first one
/// is scheduled, as one that nothing has woken; the second one is for the caller to await.
pub fn spawn<T>(
    scheduler: &mut Scheduler,
    thread: &EventThread,
    tid: i64,
    runnable: Runnable,
    task: Task<T>,
) -> (spawned: (Task<T>, ScheduleAction))
    requires
        old(scheduler).wf(),
    ensures
        final(scheduler).wf(),
        spawned.0 == task,
        ({
            let info = ScheduleInfo { woken_while_running: false };
            &&& spawned.1 == schedule_action(thread@, tid, info, runnable)
            &&& final(scheduler)@ == schedule_queue(thread@, tid, info, runnable, old(scheduler)@)
        }),
        thread@ == tid ==> spawned.1 == ScheduleAction::Run(runnable) && final(scheduler)@ == old(
            scheduler,
        )@,
        thread@ != tid ==> spawned.1 == ScheduleAction::Notify && final(scheduler)@ == old(
            scheduler,
        )@.push(runnable),
{
    let info = ScheduleInfo { woken_while_running: false };
    let action = scheduler.schedule(runnable, info, thread, tid);
    (task, action)
}

/// A task that was not woken while running, and that becomes ready on the recorded event loop
/// thread, is handed back to be run and does not enter the queue, whatever the id of that thread.
pub proof fn law_ready_on_event_thread_runs_at_once(
    main_tid: i64,
    tid: i64,
    info: ScheduleInfo,
    runnable: Runnable,
    queue: Seq<Runnable>,
)
    requires
        main_tid == tid,
        !info.woken_while_running,
    ensures
        schedule_action(main_tid, tid, info, runnable) == ScheduleAction::Run(runnable),
        schedule_queue(main_tid, tid, info, runnable, queue) == queue,
{
}

/// A task that becomes ready on any other thread goes to the end of the queue, behind everything
/// that waits already, and the event loop is to be notified.
pub proof fn law_ready_elsewhere_is_queued(
    main_tid: i64,
    tid: i64,
    info: ScheduleInfo,
    runnable: Runnable,
    queue: Seq<Runnable>,
)
    requires
        main_tid != tid,
    ensures
        schedule_action(main_tid, tid, info, runnable) == ScheduleAction::Notify,
        ({
            let after = schedule_queue(main_tid, tid, info, runnable, queue);
            &&& after.len() == queue.len() + 1
            &&& after.last() == runnable
            &&& after.drop_last() == queue
        }),
{
    assert(schedule_queue(main_tid, tid, info, runnable, queue).drop_last() =~= queue);
}

/// Which thread is meant by an id does not matter: only whether the task becomes ready on the
/// recorded thread decides where it goes.
pub proof fn law_only_sameness_of_threads_decides(
    main_tid: i64,
    tid: i64,
    other_main_tid: i64,
    other_tid: i64,
    info: ScheduleInfo,
    runnable: Runnable,
    queue: Seq<Runnable>,
)
    requires
        (main_tid == tid) == (other_main_tid == other_tid),
    ensures
        schedule_action(main_tid, tid, info, runnable) == schedule_action(
            other_main_tid,
            other_tid,
            info,
            runnable,
        ),
        schedule_queue(main_tid, tid, info, runnable, queue) == schedule_queue(
            other_main_tid,
            other_tid,
            info,
            runnable,
            queue,
        ),
{
}

/// A task is run at once by the recorded event loop thread and by no other, as long as real
/// thread ids differ from the one that stands for "not known yet".
pub proof fn law_runs_only_on_event_thread(main_tid: i64, tid: i64, info: ScheduleInfo)
    requires
        tid != UNCLAIMED,
        runs_at_once(main_tid, tid, info),
    ensures
        main_tid != UNCLAIMED,
        main_tid == tid,
        forall|other: i64| other != tid ==> !runs_at_once(main_tid, other, info),
{
}

/// A caller is told to run a task only on the recorded event loop thread, only the task that it
/// came with, and never one that was woken while running. Real thread ids differ from -1.
pub proof fn law_told_to_run_only_on_event_thread(
    main_tid: i64,
    tid: i64,
    info: ScheduleInfo,
    runnable: Runnable,
)
    requires
        tid != -1,
        schedule_action(main_tid, tid, info, runnable) is Run,
    ensures
        main_tid != -1,
        main_tid == tid,
        !info.woken_while_running,
        schedule_action(main_tid, tid, info, runnable) == ScheduleAction::Run(runnable),
        forall|other: i64|
            other != tid ==> (#[trigger] schedule_action(main_tid, other, info, runnable)) is Notify,
{
}

/// A task that was woken while running always goes through the queue, on whatever thread.
pub proof fn law_yielded_task_is_queued(
    main_tid: i64,
    tid: i64,
    info: ScheduleInfo,
    runnable: Runnable,
    queue: Seq<Runnable>,
)
    requires
        info.woken_while_running,
    ensures
        schedule_action(main_tid, tid, info, runnable) is Notify,
        schedule_queue(main_tid, tid, info, runnable, queue) == queue.push(runnable),
{
}

/// A scheduled task is either handed back to be run or added to the queue, never both and never
/// neither, and the event loop is notified exactly where the queue has grown.
pub proof fn law_run_or_queued(
    main_tid: i64,
    tid: i64,
    info: ScheduleInfo,
    runnable: Runnable,
    queue: Seq<Runnable>,
)
    ensures
        ({
            let action = schedule_action(main_tid, tid, info, runnable);
            let after = schedule_queue(main_tid, tid, info, runnable, queue);
            &&& action matches ScheduleAction::Run(r) ==> r == runnable && after == queue
            &&& action is Notify ==> after == queue.push(runnable)
            &&& action is Notify <==> after.len() == queue.len() + 1
        }),
{
}

} // verus!
