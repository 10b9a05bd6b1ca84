//! What holds of the scheduler and the event handler together.
//!
//! A run is a sequence of steps that any threads may take in any order. Each step changes the
//! system by what [`Scheduler::schedule`](crate::scheduler::Scheduler::schedule) or
//! [`async_handler`](crate::handler::async_handler) does to the queue, to the recorded thread and
//! to the handler.
use crate::event_thread::UNCLAIMED;
use crate::handler::{
    handler_action, handler_next, handler_queue, handler_thread, Handler, HandlerAction,
    HandlerEvent,
};
use crate::scheduler::{schedule_action, schedule_queue, ScheduleAction, ScheduleInfo};
use async_task::Runnable;
use vstd::prelude::*;

verus! {

/// The state that all threads share, and what has happened so far.
pub struct System {
    /// The recorded event loop thread.
    pub main_tid: i64,
    /// The tasks that wait.
    pub queue: Seq<Runnable>,
    /// The event handler.
    pub handler: Handler,
    /// The thread that the latest activation of the handler runs on.
    pub handler_tid: i64,
    /// How many threads have been told to notify the event loop and have not done it yet.
    pub owed: nat,
    /// The event loop has been notified and has not acknowledged it.
    pub signalled: bool,
    /// The tasks that were scheduled.
    pub scheduled: Seq<Runnable>,
    /// The tasks that were run at once.
    pub at_once: Seq<Runnable>,
    /// The tasks that were put into the queue.
    pub sent: Seq<Runnable>,
    /// The tasks that the handler has run.
    pub handled: Seq<Runnable>,
    /// The thread of each run of a task, whether at once or by the handler.
    pub ran_on: Seq<i64>,
}

/// Something that a thread does.
pub enum Step {
    /// The thread `tid` schedules a task.
    Schedule { runnable: Runnable, info: ScheduleInfo, tid: i64 },
    /// A thread that was told to notify the event loop does it.
    Notify,
    /// Something happens to the event handler.
    Handle { event: HandlerEvent },
}

/// The system before anything has happened.
pub open spec fn initial() -> System {
    System {
        main_tid: UNCLAIMED,
        queue: Seq::empty(),
        handler: Handler::Idle,
        handler_tid: UNCLAIMED,
        owed: 0,
        signalled: false,
        scheduled: Seq::empty(),
        at_once: Seq::empty(),
        sent: Seq::empty(),
        handled: Seq::empty(),
        ran_on: Seq::empty(),
    }
}

/// Whether a step can be taken.
pub open spec fn enabled(s: System, step: Step) -> bool {
    match step {
        Step::Schedule { .. } => true,
        Step::Notify => s.owed > 0,
        Step::Handle { event } => s.handler.awaits(event),
    }
}

/// The system after a thread has scheduled a task and has run it, where it was told so.
pub open spec fn schedule(s: System, runnable: Runnable, info: ScheduleInfo, tid: i64) -> System {
    let queue = schedule_queue(s.main_tid, tid, info, runnable, s.queue);
    let scheduled = s.scheduled.push(runnable);
    match schedule_action(s.main_tid, tid, info, runnable) {
        ScheduleAction::Run(r) => System {
            queue,
            scheduled,
            at_once: s.at_once.push(r),
            ran_on: s.ran_on.push(tid),
            ..s
        },
        ScheduleAction::Notify => System {
            queue,
            scheduled,
            owed: s.owed + 1,
            sent: s.sent.push(runnable),
            ..s
        },
    }
}

/// The system after an event of the handler. A notification that comes in before the handler
/// looks at the queue may be taken for the one that is being acknowledged.
pub open spec fn handle(s: System, event: HandlerEvent) -> System {
    System {
        main_tid: handler_thread(s.main_tid, event),
        queue: handler_queue(event, s.queue),
        handler: handler_next(s.handler, event, s.queue),
        signalled: s.signalled && event is Ran,
        handled: match handler_action(s.handler, event, s.queue) {
            HandlerAction::Run(runnable) => s.handled.push(runnable),
            _ => s.handled,
        },
        handler_tid: match event {
            HandlerEvent::Fired { tid } => tid,
            _ => s.handler_tid,
        },
        ran_on: match handler_action(s.handler, event, s.queue) {
            HandlerAction::Run(_) => s.ran_on.push(s.handler_tid),
            _ => s.ran_on,
        },
        ..s
    }
}

/// The system after a step.
pub open spec fn after_step(s: System, step: Step) -> System {
    match step {
        Step::Schedule { runnable, info, tid } => schedule(s, runnable, info, tid),
        Step::Notify => System { owed: (s.owed - 1) as nat, signalled: true, ..s },
        Step::Handle { event } => handle(s, event),
    }
}

/// The system after a sequence of steps.
pub open spec fn after(s: System, steps: Seq<Step>) -> System
    decreases steps.len(),
{
    if steps.len() == 0 {
        s
    } else {
        after_step(after(s, steps.drop_last()), steps.last())
    }
}

/// Whether each step of a sequence can be taken.
pub open spec fn possible(s: System, steps: Seq<Step>) -> bool
    decreases steps.len(),
{
    steps.len() > 0 ==> {
        &&& possible(s, steps.drop_last())
        &&& enabled(after(s, steps.drop_last()), steps.last())
    }
}

/// First in, first out, and nothing is lost or run twice: the tasks that the handler has run,
/// followed by those that wait, are the tasks that were put into the queue, in that order.
pub proof fn law_fifo(steps: Seq<Step>)
    requires
        possible(initial(), steps),
    ensures
        after(initial(), steps).handled + after(initial(), steps).queue == after(
            initial(),
            steps,
        ).sent,
    decreases steps.len(),
{
    let end = after(initial(), steps);
    if steps.len() > 0 {
        law_fifo(steps.drop_last());
        assert(end.handled + end.queue =~= end.sent);
    }
}

/// Every scheduled task is accounted for exactly once: it was run at once, it was run by the
/// handler, or it waits.
pub proof fn law_each_task_once(steps: Seq<Step>)
    requires
        possible(initial(), steps),
    ensures
        ({
            let end = after(initial(), steps);
            end.scheduled.to_multiset() == end.at_once.to_multiset().add(
                end.handled.to_multiset(),
            ).add(end.queue.to_multiset())
        }),
    decreases steps.len(),
{
    broadcast use vstd::seq_lib::group_to_multiset_ensures;

    let end = after(initial(), steps);
    if steps.len() > 0 {
        let before = after(initial(), steps.drop_last());
        law_each_task_once(steps.drop_last());
        if before.queue.len() > 0 {
            assert(before.queue =~= seq![before.queue[0]] + before.queue.drop_first());
            vstd::seq_lib::lemma_multiset_commutative(
                seq![before.queue[0]],
                before.queue.drop_first(),
            );
            assert(seq![before.queue[0]] =~= Seq::<Runnable>::empty().push(before.queue[0]));
        }
    }
    assert(end.scheduled.to_multiset() =~= end.at_once.to_multiset().add(
        end.handled.to_multiset(),
    ).add(end.queue.to_multiset()));
}

/// No task is stranded: as long as one waits, the event loop has been notified, or is about to
/// be, or its handler is active.
pub proof fn law_no_task_is_stranded(steps: Seq<Step>)
    requires
        possible(initial(), steps),
    ensures
        ({
            let end = after(initial(), steps);
            end.queue.len() > 0 ==> end.owed > 0 || end.signalled || !(end.handler is Idle)
        }),
    decreases steps.len(),
{
    if steps.len() > 0 {
        law_no_task_is_stranded(steps.drop_last());
    }
}

/// When the handler returns, no task waits.
pub proof fn law_handler_drains(s: System, event: HandlerEvent)
    requires
        enabled(s, Step::Handle { event }),
        handle(s, event).handler is Idle,
    ensures
        handle(s, event).queue.len() == 0,
{
}

/// The event loop thread never changes once it is known, in whatever way a run goes on.
pub proof fn law_event_thread_is_fixed(s: System, steps: Seq<Step>)
    requires
        possible(s, steps),
        s.main_tid != UNCLAIMED,
    ensures
        after(s, steps).main_tid == s.main_tid,
    decreases steps.len(),
{
    if steps.len() > 0 {
        law_event_thread_is_fixed(s, steps.drop_last());
    }
}

/// Every task runs on the event loop thread: as long as the handler is only ever called there,
/// every run of a task happens there, whichever threads the tasks are scheduled from. Real thread
/// ids differ from the one that stands for "not known yet".
pub proof fn law_tasks_run_on_the_event_thread(loop_tid: i64, steps: Seq<Step>)
    requires
        possible(initial(), steps),
        loop_tid != UNCLAIMED,
        forall|i: int|
            0 <= i < steps.len() ==> match #[trigger] steps[i] {
                Step::Schedule { tid, .. } => tid != UNCLAIMED,
                Step::Handle { event: HandlerEvent::Fired { tid } } => tid == loop_tid,
                _ => true,
            },
    ensures
        ({
            let end = after(initial(), steps);
            &&& forall|i: int| 0 <= i < end.ran_on.len() ==> #[trigger] end.ran_on[i] == loop_tid
            &&& end.ran_on.len() == end.at_once.len() + end.handled.len()
            &&& end.main_tid == UNCLAIMED || end.main_tid == loop_tid
            &&& end.handler is Idle || end.handler_tid == loop_tid
        }),
    decreases steps.len(),
{
    if steps.len() > 0 {
        let prefix = steps.drop_last();
        assert forall|i: int| 0 <= i < prefix.len() implies match #[trigger] prefix[i] {
            Step::Schedule { tid, .. } => tid != UNCLAIMED,
            Step::Handle { event: HandlerEvent::Fired { tid } } => tid == loop_tid,
            _ => true,
        } by {
            assert(prefix[i] == steps[i]);
        }
        law_tasks_run_on_the_event_thread(loop_tid, prefix);
        assert(steps.last() == steps[steps.len() - 1]);
    }
}

/// As long as the event handler has never been called, no task is run: each one waits in the
/// queue. Real thread ids differ from the one that stands for "not known yet".
pub proof fn law_nothing_runs_before_the_handler(steps: Seq<Step>)
    requires
        possible(initial(), steps),
        forall|i: int| 0 <= i < steps.len() ==> !(#[trigger] steps[i] is Handle),
        forall|i: int|
            0 <= i < steps.len() ==> (#[trigger] steps[i] matches Step::Schedule { tid, .. } ==> tid
                != UNCLAIMED),
    ensures
        ({
            let end = after(initial(), steps);
            &&& end.main_tid == UNCLAIMED
            &&& end.at_once.len() == 0
            &&& end.handled.len() == 0
            &&& end.queue == end.scheduled
        }),
    decreases steps.len(),
{
    if steps.len() > 0 {
        let prefix = steps.drop_last();
        assert forall|i: int| 0 <= i < prefix.len() implies !(#[trigger] prefix[i] is Handle) by {
            assert(prefix[i] == steps[i]);
        }
        assert forall|i: int| 0 <= i < prefix.len() implies (
        #[trigger] prefix[i] matches Step::Schedule { tid, .. } ==> tid != UNCLAIMED) by {
            assert(prefix[i] == steps[i]);
        }
        law_nothing_runs_before_the_handler(prefix);
        assert(steps.last() == steps[steps.len() - 1]);
    }
}

/// Whether a step is a call of the event handler.
pub open spec fn is_call(step: Step) -> bool {
    step matches Step::Handle { event } && event is Fired
}

proof fn lemma_no_call_no_thread(steps: Seq<Step>)
    requires
        possible(initial(), steps),
        forall|j: int| 0 <= j < steps.len() ==> !is_call(#[trigger] steps[j]),
    ensures
        after(initial(), steps).main_tid == -1,
    decreases steps.len(),
{
    if steps.len() > 0 {
        let prefix = steps.drop_last();
        assert forall|j: int| 0 <= j < prefix.len() implies !is_call(#[trigger] prefix[j]) by {
            assert(prefix[j] == steps[j]);
        }
        lemma_no_call_no_thread(prefix);
        assert(steps.last() == steps[steps.len() - 1]);
    }
}

/// The thread on which the handler is called for the first time is the recorded event loop thread
/// from then on, whatever its id and however the run goes on. Real thread ids differ from -1.
pub proof fn law_first_call_is_recorded(steps: Seq<Step>, first: int, tid: i64)
    requires
        possible(initial(), steps),
        0 <= first < steps.len(),
        steps[first] == (Step::Handle { event: HandlerEvent::Fired { tid } }),
        forall|j: int| 0 <= j < first ==> !is_call(#[trigger] steps[j]),
        tid != -1,
    ensures
        after(initial(), steps).main_tid == tid,
    decreases steps.len(),
{
    let prefix = steps.drop_last();
    assert forall|j: int| 0 <= j < prefix.len() && j < first implies !is_call(
        #[trigger] prefix[j],
    ) by {
        assert(prefix[j] == steps[j]);
    }
    if first == steps.len() - 1 {
        lemma_no_call_no_thread(prefix);
    } else {
        assert(prefix[first] == steps[first]);
        law_first_call_is_recorded(prefix, first, tid);
    }
}

/// Once the handler has been called on a thread, for the first time and at any point of a run, a
/// task that becomes ready on that thread is run there at once, unless it was woken while running:
/// neither the queue nor the notifications are touched.
pub proof fn law_ready_on_the_event_thread_runs_at_once(
    steps: Seq<Step>,
    first: int,
    tid: i64,
    runnable: Runnable,
    info: ScheduleInfo,
)
    requires
        possible(initial(), steps),
        0 <= first < steps.len(),
        steps[first] == (Step::Handle { event: HandlerEvent::Fired { tid } }),
        forall|j: int| 0 <= j < first ==> !is_call(#[trigger] steps[j]),
        tid != -1,
        !info.woken_while_running,
    ensures
        ({
            let before = after(initial(), steps);
            let end = after_step(before, Step::Schedule { runnable, info, tid });
            &&& end.at_once == before.at_once.push(runnable)
            &&& end.ran_on == before.ran_on.push(tid)
            &&& end.queue == before.queue
            &&& end.owed == before.owed
        }),
{
    law_first_call_is_recorded(steps, first, tid);
}

/// What one activation of the handler does from `event` on, where the caller reports what it was
/// told to report and nothing is scheduled meanwhile.
pub open spec fn activation(
    handler: Handler,
    event: HandlerEvent,
    queue: Seq<Runnable>,
) -> Seq<HandlerAction>
    decreases
            queue.len(),
            if event is Fired {
                1nat
            } else {
                0nat
            },
{
    let action = handler_action(handler, event, queue);
    let next = handler_next(handler, event, queue);
    let rest = handler_queue(event, queue);
    if action is Confirm && event is Fired && rest.len() <= queue.len() && next.awaits(
        HandlerEvent::Confirmed,
    ) {
        seq![action] + activation(next, HandlerEvent::Confirmed, rest)
    } else if action is Run && rest.len() < queue.len() && next.awaits(HandlerEvent::Ran) {
        seq![action] + activation(next, HandlerEvent::Ran, rest)
    } else {
        seq![action]
    }
}

/// Running each task of a queue in order.
pub open spec fn run_all(queue: Seq<Runnable>) -> Seq<HandlerAction> {
    Seq::new(queue.len(), |i: int| HandlerAction::Run(queue[i]))
}

proof fn lemma_drain(cnt: u64, queue: Seq<Runnable>)
    requires
        cnt + queue.len() < u64::MAX,
    ensures
        activation(Handler::Draining { cnt }, HandlerEvent::Ran, queue) == run_all(queue).push(
            HandlerAction::Processed { cnt: (cnt + queue.len() + 1) as u64 },
        ),
    decreases queue.len(),
{
    if queue.len() > 0 {
        lemma_drain((cnt + 1) as u64, queue.drop_first());
    }
    assert(activation(Handler::Draining { cnt }, HandlerEvent::Ran, queue) =~= run_all(queue).push(
        HandlerAction::Processed { cnt: (cnt + queue.len() + 1) as u64 },
    ));
}

/// One activation runs every waiting task, in order, and reports how many there were; where none
/// waits it returns at once.
pub proof fn law_activation(queue: Seq<Runnable>)
    requires
        queue.len() < u64::MAX,
    ensures
        queue.len() == 0 ==> activation(Handler::Confirming, HandlerEvent::Confirmed, queue)
            == seq![HandlerAction::Return],
        queue.len() > 0 ==> activation(Handler::Confirming, HandlerEvent::Confirmed, queue)
            == run_all(queue).push(HandlerAction::Processed { cnt: queue.len() as u64 }),
{
    if queue.len() > 0 {
        lemma_drain(0, queue.drop_first());
        assert(activation(Handler::Confirming, HandlerEvent::Confirmed, queue) =~= run_all(
            queue,
        ).push(HandlerAction::Processed { cnt: queue.len() as u64 }));
    }
}

/// A whole activation, from the call on whatever thread: the notification is acknowledged, every
/// waiting task is run, in order, and their number is reported; where none waits, the handler
/// returns after the acknowledgement.
pub proof fn law_whole_activation(tid: i64, queue: Seq<Runnable>)
    requires
        queue.len() < u64::MAX,
    ensures
        ({
            let actions = activation(Handler::Idle, HandlerEvent::Fired { tid }, queue);
            &&& queue.len() == 0 ==> actions == seq![HandlerAction::Confirm, HandlerAction::Return]
            &&& queue.len() > 0 ==> {
                &&& actions.len() == queue.len() + 2
                &&& actions[0] == HandlerAction::Confirm
                &&& forall|i: int|
                    0 <= i < queue.len() ==> #[trigger] actions[i + 1] == HandlerAction::Run(
                        queue[i],
                    )
                &&& actions.last() == (HandlerAction::Processed { cnt: queue.len() as u64 })
            }
        }),
{
    law_activation(queue);
    let fired = HandlerEvent::Fired { tid };
    let rest = activation(Handler::Confirming, HandlerEvent::Confirmed, queue);
    let actions = activation(Handler::Idle, fired, queue);
    assert(actions =~= seq![HandlerAction::Confirm] + rest);
    if queue.len() == 0 {
        assert(actions =~= seq![HandlerAction::Confirm, HandlerAction::Return]);
    } else {
        assert forall|i: int| 0 <= i < queue.len() implies #[trigger] actions[i + 1]
            == HandlerAction::Run(queue[i]) by {
            assert(rest[i] == run_all(queue)[i]);
        }
    }
}

} // verus!
