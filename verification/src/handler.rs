//! The event handler, which runs the tasks that wait in the queue.
use crate::event_thread::{claimed, EventThread};
use crate::scheduler::Scheduler;
use async_task::Runnable;
use vstd::prelude::*;

verus! {

/// How far one activation of the event handler has come.
#[derive(Clone, Copy, Debug, PartialEq, Eq, Structural)]
pub enum Handler {
    /// Not active.
    Idle,
    /// The notification is being acknowledged.
    Confirming,
    /// A task out of the queue is running; `cnt` tasks have run before it.
    Draining { cnt: u64 },
}

/// What has happened to the event handler.
#[derive(Clone, Copy, Debug, PartialEq, Eq, Structural)]
pub enum HandlerEvent {
    /// The event loop has called the handler on the thread `tid`.
    Fired { tid: i64 },
    /// The notification has been acknowledged.
    Confirmed,
    /// The task that was handed out has been run.
    Ran,
}

/// What the caller of [`async_handler`] has to do next.
pub enum HandlerAction {
    /// Acknowledge the notification, and report [`HandlerEvent::Confirmed`].
    Confirm,
    /// Run the task, and report [`HandlerEvent::Ran`].
    Run(Runnable),
    /// Return from the handler: no task was waiting.
    Return,
    /// Return from the handler: `cnt` tasks have been run and none waits.
    Processed { cnt: u64 },
}

impl Handler {
    /// Whether `event` can be the next one. The count of tasks has to stay below its limit.
    pub open spec fn awaits(self, event: HandlerEvent) -> bool {
        match event {
            HandlerEvent::Fired { .. } => self is Idle,
            HandlerEvent::Confirmed => self is Confirming,
            HandlerEvent::Ran => self matches Handler::Draining { cnt } && cnt < u64::MAX,
        }
    }

    /// Tells whether `event` can be the next one.
    pub fn accepts(&self, event: &HandlerEvent) -> (accepted: bool)
        ensures
            accepted == self.awaits(*event),
            *self is Idle ==> accepted == (*event is Fired),
            *self is Confirming ==> accepted == (*event is Confirmed),
            *self matches Handler::Draining { cnt } ==> accepted == (*event is Ran && cnt
                < u64::MAX),
    {
        match (self, event) {
            (Handler::Idle, HandlerEvent::Fired { .. }) => true,
            (Handler::Confirming, HandlerEvent::Confirmed) => true,
            (Handler::Draining { cnt }, HandlerEvent::Ran) => *cnt < u64::MAX,
            _ => false,
        }
    }
}

/// The thread that is recorded after `event`.
pub open spec fn handler_thread(main_tid: i64, event: HandlerEvent) -> i64 {
    match event {
        HandlerEvent::Fired { tid } => claimed(main_tid, tid),
        _ => main_tid,
    }
}

/// The number of tasks that this activation has run once `event` has happened.
pub open spec fn handler_count(handler: Handler, event: HandlerEvent) -> u64 {
    match (handler, event) {
        (Handler::Draining { cnt }, HandlerEvent::Ran) => (cnt + 1) as u64,
        _ => 0,
    }
}

/// The state of the handler after `event`: it stays active until it finds the queue empty.
pub open spec fn handler_next(
    handler: Handler,
    event: HandlerEvent,
    queue: Seq<Runnable>,
) -> Handler {
    if event is Fired {
        Handler::Confirming
    } else if queue.len() > 0 {
        Handler::Draining { cnt: handler_count(handler, event) }
    } else {
        Handler::Idle
    }
}

/// What the caller is told to do after `event`: the oldest task is run, if there is one.
pub open spec fn handler_action(
    handler: Handler,
    event: HandlerEvent,
    queue: Seq<Runnable>,
) -> HandlerAction {
    if event is Fired {
        HandlerAction::Confirm
    } else if queue.len() > 0 {
        HandlerAction::Run(queue[0])
    } else if event is Confirmed {
        HandlerAction::Return
    } else {
        HandlerAction::Processed { cnt: handler_count(handler, event) }
    }
}

/// The queue after `event`: the task that is run has left it.
pub open spec fn handler_queue(event: HandlerEvent, queue: Seq<Runnable>) -> Seq<Runnable> {
    if event is Fired || queue.len() == 0 {
        queue
    } else {
        queue.drop_first()
    }
}

/// Advances the event handler by one event.
///
/// The first activation records the thread it runs on as the event loop thread. Each one
/// acknowledges the notification and, where tasks wait, runs them one by one until none is left.
pub fn async_handler(
    handler: &mut Handler,
    thread: &mut EventThread,
    scheduler: &mut Scheduler,
    event: HandlerEvent,
) -> (action: HandlerAction)
    requires
        old(handler).awaits(event),
        old(scheduler).wf(),
    ensures
        final(scheduler).wf(),
        final(thread)@ == handler_thread(old(thread)@, event),
        *final(handler) == handler_next(*old(handler), event, old(scheduler)@),
        final(scheduler)@ == handler_queue(event, old(scheduler)@),
        action == handler_action(*old(handler), event, old(scheduler)@),
        event matches HandlerEvent::Fired { tid } ==> {
            &&& action == HandlerAction::Confirm
            &&& *final(handler) == Handler::Confirming
            &&& final(scheduler)@ == old(scheduler)@
            &&& old(thread)@ == -1 ==> final(thread)@ == tid
            &&& old(thread)@ != -1 ==> final(thread)@ == old(thread)@
        },
        !(event is Fired) ==> final(thread)@ == old(thread)@,
        !(event is Fired) && old(scheduler)@.len() > 0 ==> {
            &&& action == HandlerAction::Run(old(scheduler)@[0])
            &&& final(scheduler)@ == old(scheduler)@.drop_first()
            &&& *final(handler) is Draining
        },
        !(event is Fired) && old(scheduler)@.len() == 0 ==> {
            &&& *final(handler) == Handler::Idle
            &&& final(scheduler)@ == old(scheduler)@
            &&& event is Confirmed ==> action == HandlerAction::Return
            &&& event is Ran ==> action is Processed
        },
        event is Confirmed && *final(handler) is Draining ==> *final(handler) == (
        Handler::Draining { cnt: 0 }),
        event is Ran && *final(handler) is Draining ==> final(handler)->cnt == old(handler)->cnt
            + 1,
        event is Ran && action is Processed ==> action->cnt == old(handler)->cnt + 1,
{
    let cnt: u64 = match event {
        HandlerEvent::Fired { tid } => {
            thread.claim(tid);
            *handler = Handler::Confirming;
            return HandlerAction::Confirm;
        },
        HandlerEvent::Confirmed => {
            if scheduler.is_empty() {
                *handler = Handler::Idle;
                return HandlerAction::Return;
            }
            0
        },
        HandlerEvent::Ran => match *handler {
            Handler::Draining { cnt } => cnt + 1,
            _ => 0,
        },
    };
    match scheduler.take() {
        Some(runnable) => {
            *handler = Handler::Draining { cnt };
            HandlerAction::Run(runnable)
        },
        None => {
            *handler = Handler::Idle;
            HandlerAction::Processed { cnt }
        },
    }
}

/// Every activation begins in the same way: on whatever thread the handler is called and whatever
/// waits, the notification is acknowledged first, and nothing leaves the queue before that.
pub proof fn law_activation_begins_with_confirm(tid: i64, queue: Seq<Runnable>)
    ensures
        ({
            let fired = HandlerEvent::Fired { tid };
            &&& Handler::Idle.awaits(fired)
            &&& handler_action(Handler::Idle, fired, queue) == HandlerAction::Confirm
            &&& handler_next(Handler::Idle, fired, queue) == Handler::Confirming
            &&& handler_queue(fired, queue) == queue
        }),
{
}

/// A call of the handler on the thread `tid` records that thread, whatever its id, where none was
/// recorded, and leaves the record alone otherwise. Nothing else that happens to the handler
/// touches the record.
pub proof fn law_first_call_records_the_thread(main_tid: i64, event: HandlerEvent)
    ensures
        event matches HandlerEvent::Fired { tid } ==> {
            &&& main_tid == -1 ==> handler_thread(main_tid, event) == tid
            &&& main_tid != -1 ==> handler_thread(main_tid, event) == main_tid
        },
        !(event is Fired) ==> handler_thread(main_tid, event) == main_tid,
{
}

/// The handler returns exactly where it has acknowledged the notification and finds the queue
/// empty. That is also exactly when it becomes inactive.
pub proof fn law_returns_only_on_an_empty_queue(
    handler: Handler,
    event: HandlerEvent,
    queue: Seq<Runnable>,
)
    requires
        handler.awaits(event),
    ensures
        ({
            let action = handler_action(handler, event, queue);
            let ends = action is Return || action is Processed;
            &&& ends <==> !(handler is Idle) && queue.len() == 0
            &&& ends <==> handler_next(handler, event, queue) is Idle
            &&& ends ==> handler_queue(event, queue).len() == 0
            &&& action is Return ==> handler is Confirming
            &&& action is Processed ==> handler is Draining
        }),
{
}

/// After the acknowledgement, and after each run, the task that has waited the longest is run, if
/// any waits; it leaves the queue and the others keep their order. No other task is ever run.
pub proof fn law_runs_the_oldest(handler: Handler, event: HandlerEvent, queue: Seq<Runnable>)
    requires
        handler.awaits(event),
    ensures
        ({
            let action = handler_action(handler, event, queue);
            let after = handler_queue(event, queue);
            &&& action is Run <==> !(handler is Idle) && queue.len() > 0
            &&& action matches HandlerAction::Run(runnable) ==> seq![runnable] + after == queue
            &&& !(action is Run) ==> after == queue
        }),
{
    if !(handler is Idle) && queue.len() > 0 {
        assert(seq![queue[0]] + queue.drop_first() =~= queue);
    }
}

/// The count starts at nought when the first task of an activation is run and grows by one with
/// each run that has ended; the number that is reported includes the last run.
pub proof fn law_counts_each_run(handler: Handler, event: HandlerEvent, queue: Seq<Runnable>)
    requires
        handler.awaits(event),
    ensures
        ({
            let action = handler_action(handler, event, queue);
            let next = handler_next(handler, event, queue);
            &&& handler is Confirming && queue.len() > 0 ==> next == (Handler::Draining { cnt: 0 })
            &&& handler matches Handler::Draining { cnt } ==> {
                &&& queue.len() > 0 ==> next is Draining && next->cnt == cnt + 1
                &&& queue.len() == 0 ==> action is Processed && action->cnt == cnt + 1
            }
        }),
{
}

/// In each state the handler takes exactly what the caller was told to report: a call while it is
/// inactive, on any thread; the acknowledgement; the end of a run, as long as it can be counted.
pub proof fn law_takes_what_it_asked_for(handler: Handler, event: HandlerEvent)
    ensures
        handler is Idle ==> (handler.awaits(event) <==> event is Fired),
        handler is Confirming ==> (handler.awaits(event) <==> event is Confirmed),
        handler matches Handler::Draining { cnt } ==> (handler.awaits(event) <==> event is Ran
            && cnt < u64::MAX),
{
}

} // verus!
