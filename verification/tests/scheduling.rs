use async_task::{Runnable, Task, WithInfo};
use ngx_async::event_thread::{EventThread, UNCLAIMED};
use ngx_async::handler::{async_handler, Handler, HandlerAction, HandlerEvent};
use ngx_async::scheduler::{spawn, ScheduleAction, ScheduleInfo, Scheduler};
use std::future::{poll_fn, Future};
use std::sync::{Arc, Mutex};
use std::task::Poll;

const LOOP: i64 = 100;
const OTHER: i64 = 200;

const WOKEN: ScheduleInfo = ScheduleInfo { woken_while_running: false };
const YIELDED: ScheduleInfo = ScheduleInfo { woken_while_running: true };

type Log = Arc<Mutex<Vec<u32>>>;

/// A task that notes `id` when it runs.
fn noting(log: &Log, id: u32) -> Runnable {
    let log = log.clone();
    let (runnable, task) = async_task::spawn(
        async move {
            log.lock().unwrap().push(id);
        },
        |_: Runnable| {},
    );
    task.detach();
    runnable
}

fn noted(log: &Log) -> Vec<u32> {
    log.lock().unwrap().clone()
}

fn on_loop() -> EventThread {
    let mut thread = EventThread::new();
    thread.claim(LOOP);
    thread
}

/// Takes the handler through one activation, and gives back what it reports at the end.
fn activate(thread: &mut EventThread, scheduler: &mut Scheduler) -> Option<u64> {
    let mut handler = Handler::Idle;
    let mut event = HandlerEvent::Fired { tid: LOOP };
    loop {
        assert!(handler.accepts(&event));
        match async_handler(&mut handler, thread, scheduler, event) {
            HandlerAction::Confirm => event = HandlerEvent::Confirmed,
            HandlerAction::Run(runnable) => {
                runnable.run();
                event = HandlerEvent::Ran;
            }
            HandlerAction::Return => return None,
            HandlerAction::Processed { cnt } => return Some(cnt),
        }
    }
}

#[test]
fn the_first_claim_stays() {
    let mut thread = EventThread::new();
    assert!(!thread.on_event_thread(LOOP));
    assert!(thread.on_event_thread(UNCLAIMED));
    thread.claim(LOOP);
    thread.claim(OTHER);
    assert!(thread.on_event_thread(LOOP));
    assert!(!thread.on_event_thread(OTHER));
    assert!(!thread.on_event_thread(UNCLAIMED));
}

#[test]
fn runs_at_once_on_the_event_thread() {
    let log = Log::default();
    let mut scheduler = Scheduler::new();
    let mut thread = on_loop();
    match scheduler.schedule(noting(&log, 1), WOKEN, &thread, LOOP) {
        ScheduleAction::Run(runnable) => {
            runnable.run();
        }
        ScheduleAction::Notify => panic!("queued"),
    }
    assert_eq!(noted(&log), vec![1]);
    assert_eq!(activate(&mut thread, &mut scheduler), None);
}

#[test]
fn queued_off_the_event_thread() {
    let log = Log::default();
    let mut scheduler = Scheduler::new();
    let mut thread = on_loop();
    let action = scheduler.schedule(noting(&log, 1), WOKEN, &thread, OTHER);
    assert!(matches!(action, ScheduleAction::Notify));
    assert_eq!(noted(&log), Vec::<u32>::new());
    assert_eq!(activate(&mut thread, &mut scheduler), Some(1));
    assert_eq!(noted(&log), vec![1]);
}

#[test]
fn yielded_task_is_queued_on_the_event_thread() {
    let log = Log::default();
    let mut scheduler = Scheduler::new();
    let thread = on_loop();
    let action = scheduler.schedule(noting(&log, 1), YIELDED, &thread, LOOP);
    assert!(matches!(action, ScheduleAction::Notify));
    assert_eq!(noted(&log), Vec::<u32>::new());
}

#[test]
fn nothing_runs_before_the_handler() {
    let log = Log::default();
    let mut scheduler = Scheduler::new();
    let mut thread = EventThread::new();
    let action = scheduler.schedule(noting(&log, 1), WOKEN, &thread, LOOP);
    assert!(matches!(action, ScheduleAction::Notify));
    assert_eq!(activate(&mut thread, &mut scheduler), Some(1));
    assert!(thread.on_event_thread(LOOP));
    let action = scheduler.schedule(noting(&log, 2), WOKEN, &thread, LOOP);
    assert!(matches!(action, ScheduleAction::Run(_)));
}

#[test]
fn spawned_task_is_scheduled_and_handed_back() {
    let mut scheduler = Scheduler::new();
    let mut thread = on_loop();

    let (runnable, task) = async_task::spawn(async { 5 }, |_: Runnable| {});
    let (task, action): (Task<i32>, ScheduleAction) =
        spawn(&mut scheduler, &thread, LOOP, runnable, task);
    assert!(!task.is_finished());
    match action {
        ScheduleAction::Run(runnable) => {
            runnable.run();
        }
        ScheduleAction::Notify => panic!("queued"),
    }
    assert!(task.is_finished());

    let (runnable, task) = async_task::spawn(async { 6 }, |_: Runnable| {});
    let (task, action): (Task<i32>, ScheduleAction) =
        spawn(&mut scheduler, &thread, OTHER, runnable, task);
    assert!(matches!(action, ScheduleAction::Notify));
    assert!(!task.is_finished());
    assert_eq!(activate(&mut thread, &mut scheduler), Some(1));
    assert!(task.is_finished());
}

#[test]
fn queue_is_first_in_first_out() {
    let log = Log::default();
    let mut scheduler = Scheduler::new();
    let mut thread = on_loop();
    let ids: Vec<u32> = (0..100).collect();
    for id in &ids {
        scheduler.schedule(noting(&log, *id), WOKEN, &thread, OTHER);
    }
    assert_eq!(activate(&mut thread, &mut scheduler), Some(100));
    assert_eq!(noted(&log), ids);
    assert_eq!(activate(&mut thread, &mut scheduler), None);
}

#[test]
fn handler_steps_one_by_one() {
    let log = Log::default();
    let mut scheduler = Scheduler::new();
    let mut thread = EventThread::new();
    let mut handler = Handler::Idle;
    scheduler.schedule(noting(&log, 1), WOKEN, &thread, OTHER);

    let fired = HandlerEvent::Fired { tid: LOOP };
    let action = async_handler(&mut handler, &mut thread, &mut scheduler, fired);
    assert!(matches!(action, HandlerAction::Confirm));
    assert_eq!(handler, Handler::Confirming);
    assert!(thread.on_event_thread(LOOP));

    let action = async_handler(&mut handler, &mut thread, &mut scheduler, HandlerEvent::Confirmed);
    assert!(matches!(action, HandlerAction::Run(_)));
    assert_eq!(handler, Handler::Draining { cnt: 0 });

    // A task that is queued meanwhile is run in the same activation.
    scheduler.schedule(noting(&log, 2), WOKEN, &thread, OTHER);
    let action = async_handler(&mut handler, &mut thread, &mut scheduler, HandlerEvent::Ran);
    assert!(matches!(action, HandlerAction::Run(_)));
    assert_eq!(handler, Handler::Draining { cnt: 1 });

    let action = async_handler(&mut handler, &mut thread, &mut scheduler, HandlerEvent::Ran);
    assert!(matches!(action, HandlerAction::Processed { cnt: 2 }));
    assert_eq!(handler, Handler::Idle);
}

#[test]
fn handler_returns_on_an_empty_queue() {
    let mut thread = EventThread::new();
    assert_eq!(activate(&mut thread, &mut Scheduler::new()), None);
    assert!(thread.on_event_thread(LOOP));
}

#[test]
fn each_task_runs_exactly_once() {
    let log = Log::default();
    let mut scheduler = Scheduler::new();
    let mut thread = on_loop();
    for id in 0..12 {
        let info = if id % 3 == 0 { YIELDED } else { WOKEN };
        let tid = if id % 2 == 0 { LOOP } else { OTHER };
        if let ScheduleAction::Run(runnable) =
            scheduler.schedule(noting(&log, id), info, &thread, tid)
        {
            runnable.run();
        }
    }
    // Run at once: on the event loop thread, and not woken while running.
    assert_eq!(noted(&log), vec![2, 4, 8, 10]);
    assert_eq!(activate(&mut thread, &mut scheduler), Some(8));
    assert_eq!(noted(&log), vec![2, 4, 8, 10, 0, 1, 3, 5, 6, 7, 9, 11]);
}

#[test]
fn a_task_after_the_handler_has_returned_is_notified_again() {
    let log = Log::default();
    let mut scheduler = Scheduler::new();
    let mut thread = EventThread::new();
    for id in 1..4 {
        let action = scheduler.schedule(noting(&log, id), WOKEN, &thread, OTHER);
        assert!(matches!(action, ScheduleAction::Notify));
        assert_eq!(activate(&mut thread, &mut scheduler), Some(1));
    }
    assert_eq!(noted(&log), vec![1, 2, 3]);
}

#[test]
fn a_later_activation_does_not_change_the_thread() {
    let mut scheduler = Scheduler::new();
    let mut thread = EventThread::new();
    activate(&mut thread, &mut scheduler);
    let mut handler = Handler::Idle;
    let fired = HandlerEvent::Fired { tid: OTHER };
    async_handler(&mut handler, &mut thread, &mut scheduler, fired);
    assert!(thread.on_event_thread(LOOP));
    assert!(!thread.on_event_thread(OTHER));
}

#[test]
fn handler_accepts_only_the_awaited_event() {
    assert!(!Handler::Idle.accepts(&HandlerEvent::Confirmed));
    assert!(!Handler::Idle.accepts(&HandlerEvent::Ran));
    assert!(!Handler::Confirming.accepts(&HandlerEvent::Fired { tid: LOOP }));
    assert!(!Handler::Draining { cnt: 0 }.accepts(&HandlerEvent::Confirmed));
    assert!(Handler::Draining { cnt: 0 }.accepts(&HandlerEvent::Ran));
    assert!(!Handler::Draining { cnt: u64::MAX }.accepts(&HandlerEvent::Ran));
}

/// Everything that the threads share.
struct Shared {
    scheduler: Scheduler,
    thread: EventThread,
    notifications: u32,
}

/// What a task's waker calls, on the event loop thread.
fn wake(shared: &Arc<Mutex<Shared>>, runnable: Runnable, info: ScheduleInfo) {
    let action = {
        let mut guard = shared.lock().unwrap();
        let shared = &mut *guard;
        let action = shared.scheduler.schedule(runnable, info, &shared.thread, LOOP);
        if let ScheduleAction::Notify = action {
            shared.notifications += 1;
        }
        action
    };
    if let ScheduleAction::Run(runnable) = action {
        runnable.run();
    }
}

fn start<F: Future<Output = ()> + Send + 'static>(shared: &Arc<Mutex<Shared>>, future: F) {
    let handle = shared.clone();
    let (runnable, task) = async_task::spawn(
        future,
        WithInfo(move |runnable: Runnable, info: async_task::ScheduleInfo| {
            let info = ScheduleInfo { woken_while_running: info.woken_while_running };
            wake(&handle, runnable, info);
        }),
    );
    task.detach();
    runnable.schedule();
}

/// A future that yields once.
async fn yield_now() {
    let mut yielded = false;
    poll_fn(move |cx| {
        if std::mem::replace(&mut yielded, true) {
            Poll::Ready(())
        } else {
            cx.waker().wake_by_ref();
            Poll::Pending
        }
    })
    .await
}

#[test]
fn yielding_tasks_take_turns() {
    let log = Log::default();
    let shared = Arc::new(Mutex::new(Shared {
        scheduler: Scheduler::new(),
        thread: on_loop(),
        notifications: 0,
    }));
    for id in [1, 2] {
        let log = log.clone();
        start(&shared, async move {
            for round in 0..3 {
                log.lock().unwrap().push(10 * id + round);
                yield_now().await;
            }
        });
    }
    // Each task was run at once up to its first yield.
    assert_eq!(noted(&log), vec![10, 20]);

    let mut handler = Handler::Idle;
    let mut event = HandlerEvent::Fired { tid: LOOP };
    let cnt = loop {
        let action = {
            let mut guard = shared.lock().unwrap();
            let shared = &mut *guard;
            assert!(handler.accepts(&event));
            async_handler(&mut handler, &mut shared.thread, &mut shared.scheduler, event)
        };
        match action {
            HandlerAction::Confirm => event = HandlerEvent::Confirmed,
            HandlerAction::Run(runnable) => {
                runnable.run();
                event = HandlerEvent::Ran;
            }
            HandlerAction::Return => break 0,
            HandlerAction::Processed { cnt } => break cnt,
        }
    };
    assert_eq!(noted(&log), vec![10, 20, 11, 21, 12, 22]);
    assert_eq!(cnt, 6);
    assert_eq!(shared.lock().unwrap().notifications, 6);
}
