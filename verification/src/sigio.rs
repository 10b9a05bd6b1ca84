//! Notifying the event loop by a posted event and the signal `SIGIO`.
//!
//! The event is prepared by the first notification. Every notification then posts it and
//! interrupts the event loop's wait with the signal.
use crate::notification::Confirmation;
use vstd::prelude::*;

verus! {

/// How far the notification has come.
#[derive(Clone, Copy, Debug, PartialEq, Eq, Structural)]
pub enum State {
    /// The event is not prepared.
    Uninit,
    /// The event is being prepared.
    Preparing,
    /// The event is prepared, and no notification is under way.
    Ready,
    /// The event is being posted.
    Posting,
    /// The signal is being sent.
    Signalling,
}

/// What has happened.
#[derive(Clone, Copy, Debug, PartialEq, Eq, Structural)]
pub enum Event {
    /// The event loop is to be notified.
    Notify,
    /// The event has its log and its handler.
    Prepared,
    /// The event has been posted; `pid` is the id of this process.
    Posted { pid: u32 },
    /// `kill` has returned `rc`.
    Killed { rc: i32 },
}

/// Why the event loop could not be notified.
#[derive(Clone, Copy, Debug, PartialEq, Eq, Structural)]
pub enum NotifyError {
    /// The process id does not fit into the argument of `kill`.
    Pid { pid: u32 },
    /// The signal does not fit into the argument of `kill`.
    Signal { signal: u32 },
    /// `kill` has failed.
    Kill { rc: i32 },
}

/// What the caller of [`notify`] has to do next.
#[derive(Clone, Copy, Debug, PartialEq, Eq, Structural)]
pub enum Action {
    /// Give the event its log and its handler, and report [`Event::Prepared`].
    Prepare,
    /// Post the event for the next round of the event loop, and report [`Event::Posted`].
    Post,
    /// Call `kill`, and report [`Event::Killed`].
    Kill { pid: i32, signal: i32 },
    /// The event loop has been notified.
    Notified,
    /// Give up.
    Fail(NotifyError),
}

/// The event and the notification that is under way.
pub struct NotifyContext {
    signal: u32,
    state: State,
}

impl State {
    /// Whether `event` can be the next one.
    pub open spec fn awaits(self, event: Event) -> bool {
        match event {
            Event::Notify => self is Uninit || self is Ready,
            Event::Prepared => self is Preparing,
            Event::Posted { .. } => self is Posting,
            Event::Killed { .. } => self is Signalling,
        }
    }

    /// Whether the event has its log and its handler.
    pub open spec fn prepared(self) -> bool {
        self is Ready || self is Posting || self is Signalling
    }
}

/// Whether both arguments of `kill` are in range.
pub open spec fn kill_in_range(signal: u32, pid: u32) -> bool {
    pid <= i32::MAX && signal <= i32::MAX
}

/// The state after `event`.
pub open spec fn notify_next(signal: u32, state: State, event: Event) -> State {
    match event {
        Event::Notify => if state is Ready {
            State::Posting
        } else {
            State::Preparing
        },
        Event::Prepared => State::Posting,
        Event::Posted { pid } => if kill_in_range(signal, pid) {
            State::Signalling
        } else {
            State::Ready
        },
        Event::Killed { .. } => State::Ready,
    }
}

/// What the caller is told to do after `event`.
pub open spec fn notify_action(signal: u32, state: State, event: Event) -> Action {
    match event {
        Event::Notify => if state is Ready {
            Action::Post
        } else {
            Action::Prepare
        },
        Event::Prepared => Action::Post,
        Event::Posted { pid } => if kill_in_range(signal, pid) {
            Action::Kill { pid: pid as i32, signal: signal as i32 }
        } else if pid > i32::MAX {
            Action::Fail(NotifyError::Pid { pid })
        } else {
            Action::Fail(NotifyError::Signal { signal })
        },
        Event::Killed { rc } => if rc == 0 {
            Action::Notified
        } else {
            Action::Fail(NotifyError::Kill { rc })
        },
    }
}

impl NotifyContext {
    /// The number of the signal.
    pub closed spec fn signal(&self) -> u32 {
        self.signal
    }

    /// How far the notification has come.
    pub closed spec fn state(&self) -> State {
        self.state
    }

    /// A context whose event is not prepared, with the platform's number of the signal.
    pub fn new(signal: u32) -> (ctx: Self)
        ensures
            ctx.signal() == signal,
            ctx.state() == State::Uninit,
    {
        NotifyContext { signal, state: State::Uninit }
    }

    /// Tells whether `event` can be the next one.
    pub fn accepts(&self, event: &Event) -> (accepted: bool)
        ensures
            accepted == self.state().awaits(*event),
            *event is Notify ==> accepted == (self.state() is Uninit || self.state() is Ready),
            *event is Prepared ==> accepted == self.state() is Preparing,
            *event is Posted ==> accepted == self.state() is Posting,
            *event is Killed ==> accepted == self.state() is Signalling,
    {
        match (self.state, event) {
            (State::Uninit, Event::Notify) => true,
            (State::Ready, Event::Notify) => true,
            (State::Preparing, Event::Prepared) => true,
            (State::Posting, Event::Posted { .. }) => true,
            (State::Signalling, Event::Killed { .. }) => true,
            _ => false,
        }
    }
}

/// Prepares the event, where that has not been done: `None` means that it is prepared.
pub fn ensure_init(ctx: &mut NotifyContext, event: Event) -> (action: Option<Action>)
    requires
        old(ctx).state().awaits(event),
        event is Notify || event is Prepared,
    ensures
        final(ctx).signal() == old(ctx).signal(),
        match action {
            Some(action) => {
                &&& old(ctx).state() is Uninit
                &&& action == Action::Prepare
                &&& final(ctx).state() == State::Preparing
            },
            None => {
                &&& !(old(ctx).state() is Uninit)
                &&& final(ctx).state() == State::Ready
            },
        },
{
    match (ctx.state, event) {
        (State::Uninit, Event::Notify) => {
            ctx.state = State::Preparing;
            Some(Action::Prepare)
        },
        _ => {
            ctx.state = State::Ready;
            None
        },
    }
}

/// Advances the notification by one event.
pub fn notify(ctx: &mut NotifyContext, event: Event) -> (action: Action)
    requires
        old(ctx).state().awaits(event),
    ensures
        final(ctx).signal() == old(ctx).signal(),
        final(ctx).state() == notify_next(old(ctx).signal(), old(ctx).state(), event),
        action == notify_action(old(ctx).signal(), old(ctx).state(), event),
        event is Notify && old(ctx).state() is Uninit ==> action == Action::Prepare && final(ctx).state() == State::Preparing,
        event is Notify && old(ctx).state() is Ready ==> action == Action::Post && final(ctx).state() == State::Posting,
        event is Prepared ==> action == Action::Post && final(ctx).state() == State::Posting,
        event matches Event::Posted { pid } ==> {
            &&& pid <= i32::MAX && old(ctx).signal() <= i32::MAX ==> action == (Action::Kill {
                pid: pid as i32,
                signal: old(ctx).signal() as i32,
            }) && final(ctx).state() == State::Signalling
            &&& pid > i32::MAX ==> action == Action::Fail(NotifyError::Pid { pid }) && final(ctx).state() == State::Ready
            &&& pid <= i32::MAX && old(ctx).signal() > i32::MAX ==> action == Action::Fail(
                NotifyError::Signal { signal: old(ctx).signal() },
            ) && final(ctx).state() == State::Ready
        },
        event matches Event::Killed { rc } ==> {
            &&& final(ctx).state() == State::Ready
            &&& rc == 0 ==> action == Action::Notified
            &&& rc != 0 ==> action == Action::Fail(NotifyError::Kill { rc })
        },
{
    match event {
        Event::Notify | Event::Prepared => {
            if let Some(action) = ensure_init(ctx, event) {
                return action;
            }
            ctx.state = State::Posting;
            Action::Post
        },
        Event::Posted { pid } => {
            ctx.state = State::Ready;
            if pid > i32::MAX as u32 {
                return Action::Fail(NotifyError::Pid { pid });
            }
            if ctx.signal > i32::MAX as u32 {
                return Action::Fail(NotifyError::Signal { signal: ctx.signal });
            }
            ctx.state = State::Signalling;
            Action::Kill { pid: pid as i32, signal: ctx.signal as i32 }
        },
        Event::Killed { rc } => {
            ctx.state = State::Ready;
            if rc != 0 {
                return Action::Fail(NotifyError::Kill { rc });
            }
            Action::Notified
        },
    }
}

/// Acknowledges a notification: the event loop has taken the posted event by itself, so nothing
/// is left to do.
pub fn confirm_notification(ctx: &NotifyContext) -> (confirmation: Confirmation)
    ensures
        confirmation == Confirmation::Nothing,
{
    Confirmation::Nothing
}

/// The state after a sequence of events.
pub open spec fn state_after(signal: u32, state: State, events: Seq<Event>) -> State
    decreases events.len(),
{
    if events.len() == 0 {
        state
    } else {
        notify_next(signal, state_after(signal, state, events.drop_last()), events.last())
    }
}

/// Whether each event of a sequence is one that can happen there.
pub open spec fn possible(signal: u32, state: State, events: Seq<Event>) -> bool
    decreases events.len(),
{
    events.len() > 0 ==> {
        &&& possible(signal, state, events.drop_last())
        &&& state_after(signal, state, events.drop_last()).awaits(events.last())
    }
}

/// Once the event is prepared it is never prepared again: every later notification posts it,
/// whatever earlier signals have returned.
pub proof fn law_prepared_once(signal: u32, state: State, events: Seq<Event>, event: Event)
    requires
        state.prepared(),
        possible(signal, state, events),
        state_after(signal, state, events).awaits(event),
    ensures
        state_after(signal, state, events).prepared(),
        !(notify_action(signal, state_after(signal, state, events), event) is Prepare),
        event is Notify ==> notify_action(signal, state_after(signal, state, events), event)
            == Action::Post,
    decreases events.len(),
{
    if events.len() > 0 {
        law_prepared_once(signal, state, events.drop_last(), events.last());
    }
}

/// The event is posted before the signal is sent, and it is prepared before it is posted.
pub proof fn law_order(signal: u32, state: State, event: Event)
    requires
        state.awaits(event),
    ensures
        notify_action(signal, state, event) is Kill ==> event is Posted,
        notify_action(signal, state, event) is Post ==> state is Ready || event is Prepared,
        notify_action(signal, state, event) is Notified ==> event == (Event::Killed { rc: 0 }),
{
}

/// A notification in which `kill` succeeds, with the event prepared or not.
pub proof fn law_notification(signal: u32, state: State, pid: u32)
    requires
        state.awaits(Event::Notify),
        pid <= i32::MAX,
        signal <= i32::MAX,
    ensures
        ({
            let start = notify_next(signal, state, Event::Notify);
            let posting = if state is Uninit {
                notify_next(signal, start, Event::Prepared)
            } else {
                start
            };
            let posted = Event::Posted { pid };
            let killing = notify_next(signal, posting, posted);
            &&& state is Uninit ==> notify_action(signal, state, Event::Notify) is Prepare
                && notify_action(signal, start, Event::Prepared) is Post
            &&& state is Ready ==> notify_action(signal, state, Event::Notify) is Post
            &&& notify_action(signal, posting, posted) == (Action::Kill {
                pid: pid as i32,
                signal: signal as i32,
            })
            &&& notify_action(signal, killing, Event::Killed { rc: 0 }) is Notified
            &&& notify_next(signal, killing, Event::Killed { rc: 0 }) is Ready
        }),
{
}

/// Once the event is posted, the signal is sent to this very process wherever both numbers fit
/// into the arguments of `kill`; the notification fails exactly where one of them does not.
pub proof fn law_every_pid_in_range_is_signalled(signal: u32, pid: u32)
    ensures
        ({
            let posted = Event::Posted { pid };
            let action = notify_action(signal, State::Posting, posted);
            let next = notify_next(signal, State::Posting, posted);
            &&& State::Posting.awaits(posted)
            &&& pid <= i32::MAX && signal <= i32::MAX ==> {
                &&& action is Kill
                &&& action->pid == pid
                &&& action->signal == signal
                &&& next == State::Signalling
            }
            &&& action is Fail <==> pid > i32::MAX || signal > i32::MAX
            &&& action is Fail ==> next == State::Ready
            &&& pid > i32::MAX ==> action == Action::Fail(NotifyError::Pid { pid })
            &&& pid <= i32::MAX && signal > i32::MAX ==> action == Action::Fail(
                NotifyError::Signal { signal },
            )
        }),
{
}

/// A notification has succeeded exactly where `kill` has returned nought, and the event stays
/// prepared either way.
pub proof fn law_success_is_a_sent_signal(signal: u32, rc: i32)
    ensures
        ({
            let killed = Event::Killed { rc };
            let action = notify_action(signal, State::Signalling, killed);
            &&& State::Signalling.awaits(killed)
            &&& rc == 0 ==> action == Action::Notified
            &&& rc != 0 ==> action == Action::Fail(NotifyError::Kill { rc })
            &&& notify_next(signal, State::Signalling, killed) == State::Ready
        }),
{
}

/// Every notification posts the event; the first one prepares it before.
pub proof fn law_every_notification_posts(signal: u32)
    ensures
        State::Uninit.awaits(Event::Notify),
        notify_action(signal, State::Uninit, Event::Notify) == Action::Prepare,
        notify_next(signal, State::Uninit, Event::Notify) == State::Preparing,
        State::Preparing.awaits(Event::Prepared),
        notify_action(signal, State::Preparing, Event::Prepared) == Action::Post,
        notify_next(signal, State::Preparing, Event::Prepared) == State::Posting,
        State::Ready.awaits(Event::Notify),
        notify_action(signal, State::Ready, Event::Notify) == Action::Post,
        notify_next(signal, State::Ready, Event::Notify) == State::Posting,
{
}

/// A notification can begin exactly where none is under way, and each reply is taken exactly
/// where its call was asked for, whatever the reply is.
pub proof fn law_takes_what_it_asked_for(state: State, event: Event)
    ensures
        state is Uninit || state is Ready ==> (state.awaits(event) <==> event is Notify),
        state is Preparing ==> (state.awaits(event) <==> event is Prepared),
        state is Posting ==> (state.awaits(event) <==> event is Posted),
        state is Signalling ==> (state.awaits(event) <==> event is Killed),
{
}

/// How many times a sequence of events has posted the event.
pub open spec fn posts(signal: u32, state: State, events: Seq<Event>) -> nat
    decreases events.len(),
{
    if events.len() == 0 {
        0
    } else {
        posts(signal, state, events.drop_last()) + if notify_action(
            signal,
            state_after(signal, state, events.drop_last()),
            events.last(),
        ) is Post {
            1nat
        } else {
            0nat
        }
    }
}

/// How many notifications a sequence of events has begun.
pub open spec fn begun(events: Seq<Event>) -> nat
    decreases events.len(),
{
    if events.len() == 0 {
        0
    } else {
        begun(events.drop_last()) + if events.last() is Notify {
            1nat
        } else {
            0nat
        }
    }
}

/// Each notification posts the event exactly once: as many are posted as were begun, but for one
/// that is still preparing the event.
pub proof fn law_one_post_per_notification(signal: u32, state: State, events: Seq<Event>)
    requires
        state is Uninit || state is Ready,
        possible(signal, state, events),
    ensures
        begun(events) == posts(signal, state, events) + if state_after(
            signal,
            state,
            events,
        ) is Preparing {
            1nat
        } else {
            0nat
        },
    decreases events.len(),
{
    if events.len() > 0 {
        law_one_post_per_notification(signal, state, events.drop_last());
    }
}

} // verus!
