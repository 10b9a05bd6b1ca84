//! Notifying the event loop through an `eventfd` descriptor.
//!
//! The first notification creates the descriptor and registers it with the event loop. Every
//! notification then writes to it, which makes the event loop call the handler, and the handler
//! reads from it.
use crate::notification::Confirmation;
use vstd::prelude::*;

verus! {

/// The length of the counter that is written to and read from the descriptor: that of a `u64`.
pub const COUNTER_LEN: usize = 8;

/// What `eventfd` returns where it fails, and what stands for a descriptor that is not there.
pub const NO_FD: i32 = -1;

/// Numbers that the platform defines.
#[derive(Clone, Copy, Debug, PartialEq, Eq, Structural)]
pub struct Constants {
    pub efd_nonblock: u32,
    pub efd_cloexec: u32,
    pub epollin: u32,
    pub epollrdhup: u32,
    pub epollet: u32,
    pub ngx_ok: u32,
}

/// How far the notification has come.
#[derive(Clone, Copy, Debug, PartialEq, Eq, Structural)]
pub enum State {
    /// There is no descriptor.
    Uninit,
    /// The descriptor is being created.
    Creating,
    /// The descriptor is being registered with the event loop.
    Adding { fd: i32 },
    /// The descriptor is registered, and no notification is under way.
    Ready { fd: i32 },
    /// The descriptor is being written to.
    Writing { fd: i32 },
}

/// What has happened.
#[derive(Clone, Copy, Debug, PartialEq, Eq, Structural)]
pub enum Event {
    /// The event loop is to be notified.
    Notify,
    /// `eventfd` has returned `fd`.
    Created { fd: i32 },
    /// Registering the descriptor has returned `rc`.
    Added { rc: isize },
    /// `write` has returned `res`.
    Written { res: isize },
}

/// Why the event loop could not be notified.
#[derive(Clone, Copy, Debug, PartialEq, Eq, Structural)]
pub enum NotifyError {
    /// The flags for `eventfd` do not fit into its argument.
    Flags { flags: u32 },
    /// `eventfd` has returned -1.
    EventFd,
    /// Registering the descriptor has failed.
    AddEvent { rc: isize },
    /// `write` has not written the whole counter.
    Write { res: isize },
}

/// What the caller of [`notify`] has to do next.
#[derive(Clone, Copy, Debug, PartialEq, Eq, Structural)]
pub enum Action {
    /// Call `eventfd`, and report [`Event::Created`].
    Create { initval: u32, efd_flags: i32 },
    /// Register `fd` with the event loop, and report [`Event::Added`].
    Add { fd: i32, events: isize, flags: usize },
    /// Write `len` bytes of `value` to `fd`, and report [`Event::Written`].
    Write { fd: i32, value: u64, len: usize },
    /// The event loop has been notified.
    Notified,
    /// Give up.
    Fail(NotifyError),
}

/// The descriptor and the notification that is under way.
pub struct NotifyContext {
    constants: Constants,
    state: State,
}

impl State {
    /// Whether `event` can be the next one.
    pub open spec fn awaits(self, event: Event) -> bool {
        match event {
            Event::Notify => self is Uninit || self is Ready,
            Event::Created { .. } => self is Creating,
            Event::Added { .. } => self is Adding,
            Event::Written { .. } => self is Writing,
        }
    }

    /// The descriptor that notifications go through, or -1 as long as it is not registered.
    pub open spec fn fd(self) -> i32 {
        match self {
            State::Ready { fd } => fd,
            State::Writing { fd } => fd,
            _ => NO_FD,
        }
    }

    /// -1 is never taken for a descriptor.
    pub open spec fn wf(self) -> bool {
        match self {
            State::Adding { fd } => fd != NO_FD,
            State::Ready { fd } => fd != NO_FD,
            State::Writing { fd } => fd != NO_FD,
            _ => true,
        }
    }
}

/// Adding one to the counter of `fd`.
pub open spec fn write_action(fd: i32) -> Action {
    Action::Write { fd, value: 1, len: COUNTER_LEN }
}

/// The flags that the descriptor is created with.
pub open spec fn create_flags(constants: Constants) -> u32 {
    constants.efd_nonblock | constants.efd_cloexec
}

/// Registering `fd` for edge-triggered reading.
pub open spec fn add_action(constants: Constants, fd: i32) -> Action {
    Action::Add {
        fd,
        events: (constants.epollin | constants.epollrdhup) as isize,
        flags: constants.epollet as usize,
    }
}

/// The state after `event`. Where setting up the descriptor fails, there is none afterwards; a
/// failed write leaves it as it is.
pub open spec fn notify_next(constants: Constants, state: State, event: Event) -> State {
    match event {
        Event::Notify => match state {
            State::Ready { fd } => State::Writing { fd },
            _ => if create_flags(constants) <= i32::MAX {
                State::Creating
            } else {
                State::Uninit
            },
        },
        Event::Created { fd } => if fd == NO_FD {
            State::Uninit
        } else {
            State::Adding { fd }
        },
        Event::Added { rc } => if rc == constants.ngx_ok as isize {
            State::Writing { fd: state->Adding_fd }
        } else {
            State::Uninit
        },
        Event::Written { res } => State::Ready { fd: state->Writing_fd },
    }
}

/// What the caller is told to do after `event`.
pub open spec fn notify_action(constants: Constants, state: State, event: Event) -> Action {
    match event {
        Event::Notify => match state {
            State::Ready { fd } => write_action(fd),
            _ => if create_flags(constants) <= i32::MAX {
                Action::Create { initval: 0, efd_flags: create_flags(constants) as i32 }
            } else {
                Action::Fail(NotifyError::Flags { flags: create_flags(constants) })
            },
        },
        Event::Created { fd } => if fd == NO_FD {
            Action::Fail(NotifyError::EventFd)
        } else {
            add_action(constants, fd)
        },
        Event::Added { rc } => if rc == constants.ngx_ok as isize {
            write_action(state->Adding_fd)
        } else {
            Action::Fail(NotifyError::AddEvent { rc })
        },
        Event::Written { res } => if res == COUNTER_LEN {
            Action::Notified
        } else {
            Action::Fail(NotifyError::Write { res })
        },
    }
}

impl NotifyContext {
    /// The platform's numbers.
    pub closed spec fn constants(&self) -> Constants {
        self.constants
    }

    /// How far the notification has come.
    pub closed spec fn state(&self) -> State {
        self.state
    }

    /// A context without a descriptor.
    pub fn new(constants: Constants) -> (ctx: Self)
        ensures
            ctx.constants() == constants,
            ctx.state() == State::Uninit,
    {
        NotifyContext { constants, state: State::Uninit }
    }

    /// Tells whether `event` can be the next one.
    pub fn accepts(&self, event: &Event) -> (accepted: bool)
        ensures
            accepted == self.state().awaits(*event),
            *event is Notify ==> accepted == (self.state() is Uninit || self.state() is Ready),
            *event is Created ==> accepted == self.state() is Creating,
            *event is Added ==> accepted == self.state() is Adding,
            *event is Written ==> accepted == self.state() is Writing,
    {
        match (self.state, event) {
            (State::Uninit, Event::Notify) => true,
            (State::Ready { .. }, Event::Notify) => true,
            (State::Creating, Event::Created { .. }) => true,
            (State::Adding { .. }, Event::Added { .. }) => true,
            (State::Writing { .. }, Event::Written { .. }) => true,
            _ => false,
        }
    }
}

/// Sets up the descriptor, where that has not been done: `None` means that it is registered.
pub fn ensure_init(ctx: &mut NotifyContext, event: Event) -> (action: Option<Action>)
    requires
        old(ctx).state().awaits(event),
        !(event is Written),
    ensures
        final(ctx).constants() == old(ctx).constants(),
        match action {
            Some(action) => {
                &&& final(ctx).state() == notify_next(
                    old(ctx).constants(),
                    old(ctx).state(),
                    event,
                )
                &&& action == notify_action(old(ctx).constants(), old(ctx).state(), event)
                &&& !(action is Write)
                &&& !(old(ctx).state() is Ready)
                &&& event matches Event::Added { rc } ==> rc != old(ctx).constants().ngx_ok as isize
            },
            None => {
                &&& event is Notify || event is Added
                &&& final(ctx).state() is Ready
                &&& notify_next(old(ctx).constants(), old(ctx).state(), event) == (State::Writing {
                    fd: final(ctx).state().fd(),
                })
                &&& notify_action(old(ctx).constants(), old(ctx).state(), event) == write_action(
                    final(ctx).state().fd(),
                )
                &&& old(ctx).state() matches State::Ready { fd } ==> final(ctx).state() == (
                State::Ready { fd })
                &&& old(ctx).state() matches State::Adding { fd } ==> final(ctx).state() == (
                State::Ready { fd })
                &&& event matches Event::Added { rc } ==> rc == old(ctx).constants().ngx_ok as isize
            },
        },
{
    let constants = ctx.constants;
    match (ctx.state, event) {
        (State::Uninit, Event::Notify) => {
            let flags: u32 = constants.efd_nonblock | constants.efd_cloexec;
            if flags > i32::MAX as u32 {
                return Some(Action::Fail(NotifyError::Flags { flags }));
            }
            ctx.state = State::Creating;
            Some(Action::Create { initval: 0, efd_flags: flags as i32 })
        },
        (State::Creating, Event::Created { fd }) => {
            if fd == NO_FD {
                ctx.state = State::Uninit;
                return Some(Action::Fail(NotifyError::EventFd));
            }
            ctx.state = State::Adding { fd };
            Some(
                Action::Add {
                    fd,
                    events: (constants.epollin | constants.epollrdhup) as isize,
                    flags: constants.epollet as usize,
                },
            )
        },
        (State::Adding { fd }, Event::Added { rc }) => {
            if rc != constants.ngx_ok as isize {
                ctx.state = State::Uninit;
                return Some(Action::Fail(NotifyError::AddEvent { rc }));
            }
            ctx.state = State::Ready { fd };
            None
        },
        _ => None,
    }
}

/// Advances the notification by one event.
pub fn notify(ctx: &mut NotifyContext, event: Event) -> (action: Action)
    requires
        old(ctx).state().awaits(event),
    ensures
        final(ctx).constants() == old(ctx).constants(),
        final(ctx).state() == notify_next(old(ctx).constants(), old(ctx).state(), event),
        action == notify_action(old(ctx).constants(), old(ctx).state(), event),
        event is Notify ==> match old(ctx).state() {
            State::Ready { fd } => {
                &&& action == (Action::Write { fd, value: 1, len: 8 })
                &&& final(ctx).state() == (State::Writing { fd })
            },
            _ => {
                let flags = old(ctx).constants().efd_nonblock | old(ctx).constants().efd_cloexec;
                &&& flags <= i32::MAX ==> action == (Action::Create {
                    initval: 0,
                    efd_flags: flags as i32,
                }) && final(ctx).state() == State::Creating
                &&& flags > i32::MAX ==> action == Action::Fail(NotifyError::Flags { flags })
                    && final(ctx).state() == State::Uninit
            },
        },
        event matches Event::Created { fd } ==> {
            let c = old(ctx).constants();
            &&& fd != -1 ==> action == (Action::Add {
                fd,
                events: (c.epollin | c.epollrdhup) as isize,
                flags: c.epollet as usize,
            }) && final(ctx).state() == (State::Adding { fd })
            &&& fd == -1 ==> action == Action::Fail(NotifyError::EventFd) && final(ctx).state()
                == State::Uninit
        },
        event matches Event::Added { rc } ==> (old(ctx).state() matches State::Adding { fd } ==> {
            &&& rc == old(ctx).constants().ngx_ok as isize ==> action == (Action::Write {
                fd,
                value: 1,
                len: 8,
            }) && final(ctx).state() == (State::Writing { fd })
            &&& rc != old(ctx).constants().ngx_ok as isize ==> action == Action::Fail(
                NotifyError::AddEvent { rc },
            ) && final(ctx).state() == State::Uninit
        }),
        event matches Event::Written { res } ==> (old(ctx).state() matches State::Writing { fd }
            ==> {
            &&& final(ctx).state() == (State::Ready { fd })
            &&& res == 8 ==> action == Action::Notified
            &&& res != 8 ==> action == Action::Fail(NotifyError::Write { res })
        }),
{
    if let (State::Writing { fd }, Event::Written { res }) = (ctx.state, event) {
        ctx.state = State::Ready { fd };
        return if res != COUNTER_LEN as isize {
            Action::Fail(NotifyError::Write { res })
        } else {
            Action::Notified
        };
    }
    if let Some(action) = ensure_init(ctx, event) {
        return action;
    }
    let fd: i32 = match ctx.state {
        State::Ready { fd } => fd,
        _ => NO_FD,
    };
    ctx.state = State::Writing { fd };
    Action::Write { fd, value: 1, len: COUNTER_LEN }
}

/// What the handler does to acknowledge a notification.
pub open spec fn confirm_action(state: State) -> Confirmation {
    Confirmation::Read { fd: state.fd(), len: COUNTER_LEN }
}

/// Acknowledges a notification: the handler reads the counter, which resets it.
pub fn confirm_notification(ctx: &NotifyContext) -> (confirmation: Confirmation)
    ensures
        confirmation == (Confirmation::Read { fd: ctx.state().fd(), len: COUNTER_LEN }),
        confirmation == confirm_action(ctx.state()),
        confirmation is Read,
        confirmation->len == 8,
        match ctx.state() {
            State::Ready { fd } => confirmation->fd == fd,
            State::Writing { fd } => confirmation->fd == fd,
            _ => confirmation->fd == -1,
        },
{
    let fd: i32 = match ctx.state {
        State::Ready { fd } => fd,
        State::Writing { fd } => fd,
        _ => NO_FD,
    };
    Confirmation::Read { fd, len: COUNTER_LEN }
}

/// The state after a sequence of events.
pub open spec fn state_after(constants: Constants, state: State, events: Seq<Event>) -> State
    decreases events.len(),
{
    if events.len() == 0 {
        state
    } else {
        notify_next(constants, state_after(constants, state, events.drop_last()), events.last())
    }
}

/// Whether each event of a sequence is one that can happen there.
pub open spec fn possible(constants: Constants, state: State, events: Seq<Event>) -> bool
    decreases events.len(),
{
    events.len() > 0 ==> {
        &&& possible(constants, state, events.drop_last())
        &&& state_after(constants, state, events.drop_last()).awaits(events.last())
    }
}

/// Starting without a descriptor, -1 is never registered, written to or kept as one.
pub proof fn law_descriptor_is_valid(constants: Constants, events: Seq<Event>, event: Event)
    requires
        possible(constants, State::Uninit, events),
        state_after(constants, State::Uninit, events).awaits(event),
    ensures
        state_after(constants, State::Uninit, events).wf(),
        ({
            let state = state_after(constants, State::Uninit, events);
            match notify_action(constants, state, event) {
                Action::Add { fd, .. } => fd != NO_FD,
                Action::Write { fd, .. } => fd != NO_FD && notify_next(
                    constants,
                    state,
                    event,
                ).fd() == fd,
                _ => true,
            }
        }),
    decreases events.len(),
{
    if events.len() > 0 {
        law_descriptor_is_valid(constants, events.drop_last(), events.last());
    }
}

/// Once the descriptor is registered it is never set up again: every later notification writes
/// to the same descriptor, whatever earlier writes have returned.
pub proof fn law_set_up_once(constants: Constants, state: State, events: Seq<Event>, event: Event)
    requires
        state is Ready || state is Writing,
        possible(constants, state, events),
        state_after(constants, state, events).awaits(event),
    ensures
        state_after(constants, state, events).fd() == state.fd(),
        ({
            let action = notify_action(constants, state_after(constants, state, events), event);
            &&& !(action is Create) && !(action is Add)
            &&& event is Notify ==> action == write_action(state.fd())
            &&& event is Notify ==> action == (Action::Write { fd: state.fd(), value: 1, len: 8 })
        }),
        state_after(constants, state, events) is Ready || state_after(
            constants,
            state,
            events,
        ) is Writing,
    decreases events.len(),
{
    if events.len() > 0 {
        law_set_up_once(constants, state, events.drop_last(), events.last());
    }
}

proof fn lemma_flags_fit(constants: Constants, events: Seq<Event>)
    requires
        possible(constants, State::Uninit, events),
    ensures
        !(state_after(constants, State::Uninit, events) is Uninit) ==> create_flags(constants)
            <= i32::MAX,
    decreases events.len(),
{
    if events.len() > 0 {
        lemma_flags_fit(constants, events.drop_last());
    }
}

/// Where creating or registering the descriptor fails, the context is without one again, and the
/// next notification creates one.
pub proof fn law_failed_set_up_is_retried(constants: Constants, events: Seq<Event>, event: Event)
    requires
        possible(constants, State::Uninit, events),
        state_after(constants, State::Uninit, events).awaits(event),
        event is Created || event is Added,
        notify_action(constants, state_after(constants, State::Uninit, events), event) is Fail,
    ensures
        ({
            let failed = notify_next(
                constants,
                state_after(constants, State::Uninit, events),
                event,
            );
            &&& failed == State::Uninit
            &&& notify_action(constants, failed, Event::Notify) == (Action::Create {
                initval: 0,
                efd_flags: create_flags(constants) as i32,
            })
        }),
{
    lemma_flags_fit(constants, events);
}

/// The first notification, where every call succeeds: create, register, write, done.
pub proof fn law_first_notification(constants: Constants, fd: i32)
    requires
        constants.efd_nonblock | constants.efd_cloexec <= i32::MAX,
        fd != -1,
    ensures
        ({
            let added = Event::Added { rc: constants.ngx_ok as isize };
            let written = Event::Written { res: COUNTER_LEN as isize };
            let s1 = notify_next(constants, State::Uninit, Event::Notify);
            let s2 = notify_next(constants, s1, Event::Created { fd });
            let s3 = notify_next(constants, s2, added);
            &&& notify_action(constants, State::Uninit, Event::Notify) is Create
            &&& notify_action(constants, s1, Event::Created { fd }) == add_action(constants, fd)
            &&& notify_action(constants, s2, added) == (Action::Write { fd, value: 1, len: 8 })
            &&& notify_action(constants, s3, written) is Notified
            &&& notify_next(constants, s3, written) == State::Ready { fd }
        }),
{
}

/// Every write that a notification asks for adds one to the counter of the registered descriptor,
/// whichever number that has: the value is 1 and the length that of a `u64`, 8 bytes.
pub proof fn law_each_write_adds_one(constants: Constants, state: State, event: Event)
    requires
        state.awaits(event),
    ensures
        notify_action(constants, state, event) matches Action::Write { fd, value, len } ==> {
            &&& value == 1
            &&& len == 8
            &&& notify_next(constants, state, event) == (State::Writing { fd })
            &&& state == (State::Ready { fd }) || state == (State::Adding { fd })
        },
{
}

/// Where a descriptor is registered, a notification writes to it, whichever number it has.
pub proof fn law_registered_descriptor_is_written(constants: Constants, fd: i32)
    ensures
        ({
            let ready = State::Ready { fd };
            &&& ready.awaits(Event::Notify)
            &&& notify_action(constants, ready, Event::Notify) == (Action::Write {
                fd,
                value: 1,
                len: 8,
            })
            &&& notify_next(constants, ready, Event::Notify) == (State::Writing { fd })
        }),
{
}

/// A notification has succeeded exactly where the whole counter was written. The descriptor stays
/// registered either way.
pub proof fn law_whole_counter_is_written(constants: Constants, fd: i32, res: isize)
    ensures
        ({
            let writing = State::Writing { fd };
            let written = Event::Written { res };
            let action = notify_action(constants, writing, written);
            &&& writing.awaits(written)
            &&& res == 8 ==> action == Action::Notified
            &&& res != 8 ==> action == Action::Fail(NotifyError::Write { res })
            &&& notify_next(constants, writing, written) == (State::Ready { fd })
        }),
{
}

/// Without a descriptor, a notification creates one whose counter is nought, with both flags set
/// and no others, unless the flags do not fit into the argument.
pub proof fn law_creates_with_both_flags(constants: Constants)
    ensures
        ({
            let flags = constants.efd_nonblock | constants.efd_cloexec;
            let action = notify_action(constants, State::Uninit, Event::Notify);
            let next = notify_next(constants, State::Uninit, Event::Notify);
            &&& State::Uninit.awaits(Event::Notify)
            &&& flags <= i32::MAX ==> action == (Action::Create {
                initval: 0,
                efd_flags: flags as i32,
            }) && next == State::Creating
            &&& flags > i32::MAX ==> action == Action::Fail(NotifyError::Flags { flags }) && next
                == State::Uninit
        }),
{
}

/// Every descriptor but -1 is registered, for edge-triggered reading and for the other side
/// hanging up; -1 is a failure.
pub proof fn law_registers_what_was_created(constants: Constants, fd: i32)
    ensures
        ({
            let created = Event::Created { fd };
            let action = notify_action(constants, State::Creating, created);
            let next = notify_next(constants, State::Creating, created);
            &&& State::Creating.awaits(created)
            &&& fd != -1 ==> action == (Action::Add {
                fd,
                events: (constants.epollin | constants.epollrdhup) as isize,
                flags: constants.epollet as usize,
            }) && next == (State::Adding { fd })
            &&& fd == -1 ==> action == Action::Fail(NotifyError::EventFd) && next == State::Uninit
        }),
{
}

/// A descriptor that was registered is written to, in the same notification; any other outcome
/// than the platform's "ok" is a failure.
pub proof fn law_writes_what_was_registered(constants: Constants, fd: i32, rc: isize)
    ensures
        ({
            let adding = State::Adding { fd };
            let added = Event::Added { rc };
            let action = notify_action(constants, adding, added);
            let next = notify_next(constants, adding, added);
            &&& adding.awaits(added)
            &&& rc == constants.ngx_ok as isize ==> action == (Action::Write {
                fd,
                value: 1,
                len: 8,
            }) && next == (State::Writing { fd })
            &&& rc != constants.ngx_ok as isize ==> action == Action::Fail(
                NotifyError::AddEvent { rc },
            ) && next == State::Uninit
        }),
{
}

/// A notification can begin exactly where none is under way, and each reply is taken exactly
/// where its call was asked for, whatever the reply is.
pub proof fn law_takes_what_it_asked_for(state: State, event: Event)
    ensures
        state is Uninit || state is Ready ==> (state.awaits(event) <==> event is Notify),
        state is Creating ==> (state.awaits(event) <==> event is Created),
        state is Adding ==> (state.awaits(event) <==> event is Added),
        state is Writing ==> (state.awaits(event) <==> event is Written),
{
}

/// The handler reads the registered descriptor, whichever number it has, and -1 without one.
pub proof fn law_descriptor_of_state(state: State)
    ensures
        match state {
            State::Ready { fd } => state.fd() == fd,
            State::Writing { fd } => state.fd() == fd,
            _ => state.fd() == -1,
        },
{
}

/// The handler reads back what a notification has written: from the same descriptor, and all of
/// it, both while the notification is under way and after it has ended in whatever way.
pub proof fn law_reads_what_was_written(
    constants: Constants,
    state: State,
    event: Event,
    res: isize,
)
    requires
        state.awaits(event),
    ensures
        notify_action(constants, state, event) matches Action::Write { fd, len, .. } ==> {
            let writing = notify_next(constants, state, event);
            let ended = notify_next(constants, writing, Event::Written { res });
            &&& confirm_action(writing) == (Confirmation::Read { fd, len })
            &&& confirm_action(ended) == (Confirmation::Read { fd, len })
        },
{
}

/// What the caller was told after the last of a sequence of events.
pub open spec fn last_action(constants: Constants, state: State, events: Seq<Event>) -> Action
    recommends
        events.len() > 0,
{
    notify_action(constants, state_after(constants, state, events.drop_last()), events.last())
}

/// How many notifications of a sequence of events have succeeded.
pub open spec fn successes(constants: Constants, state: State, events: Seq<Event>) -> nat
    decreases events.len(),
{
    if events.len() == 0 {
        0
    } else {
        successes(constants, state, events.drop_last()) + if last_action(
            constants,
            state,
            events,
        ) is Notified {
            1nat
        } else {
            0nat
        }
    }
}

/// By how much the counter has grown: the sum of the values of the writes that went through.
pub open spec fn counted(constants: Constants, state: State, events: Seq<Event>) -> nat
    decreases events.len(),
{
    if events.len() == 0 {
        0
    } else {
        let before = events.drop_last();
        counted(constants, state, before) + match (
            last_action(constants, state, before),
            events.last(),
        ) {
            (Action::Write { value, .. }, Event::Written { res: 8 }) => value as nat,
            _ => 0nat,
        }
    }
}

/// The counter grows by exactly one with each notification that succeeds. So it is positive, and
/// the descriptor readable, from the first one on until the handler reads it.
pub proof fn law_counter_is_number_of_notifications(
    constants: Constants,
    state: State,
    events: Seq<Event>,
)
    requires
        state is Uninit || state is Ready,
        possible(constants, state, events),
    ensures
        counted(constants, state, events) == successes(constants, state, events),
        state_after(constants, state, events) is Writing ==> events.len() > 0 && (last_action(
            constants,
            state,
            events,
        ) matches Action::Write { value, .. } && value == 1),
    decreases events.len(),
{
    if events.len() > 0 {
        law_counter_is_number_of_notifications(constants, state, events.drop_last());
    }
}

} // verus!
