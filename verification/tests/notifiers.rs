use ngx_async::eventfd;
use ngx_async::notification::Confirmation;
use ngx_async::sigio;

const LINUX: eventfd::Constants = eventfd::Constants {
    efd_nonblock: 0o4000,
    efd_cloexec: 0o2000000,
    epollin: 1,
    epollrdhup: 0x2000,
    epollet: 1 << 31,
    ngx_ok: 0,
};

/// Hands `event` to the notifier, after the test that its contract asks for.
fn eventfd_step(ctx: &mut eventfd::NotifyContext, event: eventfd::Event) -> eventfd::Action {
    assert!(ctx.accepts(&event));
    eventfd::notify(ctx, event)
}

fn sigio_step(ctx: &mut sigio::NotifyContext, event: sigio::Event) -> sigio::Action {
    assert!(ctx.accepts(&event));
    sigio::notify(ctx, event)
}

/// A context whose descriptor 7 is registered.
fn ready() -> eventfd::NotifyContext {
    let mut ctx = eventfd::NotifyContext::new(LINUX);
    eventfd_step(&mut ctx, eventfd::Event::Notify);
    eventfd_step(&mut ctx, eventfd::Event::Created { fd: 7 });
    eventfd_step(&mut ctx, eventfd::Event::Added { rc: 0 });
    eventfd_step(&mut ctx, eventfd::Event::Written { res: 8 });
    ctx
}

#[test]
fn eventfd_first_notification() {
    let mut ctx = eventfd::NotifyContext::new(LINUX);
    assert_eq!(
        eventfd_step(&mut ctx, eventfd::Event::Notify),
        eventfd::Action::Create { initval: 0, efd_flags: 0o2004000 }
    );
    assert_eq!(
        eventfd_step(&mut ctx, eventfd::Event::Created { fd: 7 }),
        eventfd::Action::Add { fd: 7, events: 0x2001, flags: 0x8000_0000 }
    );
    assert_eq!(
        eventfd_step(&mut ctx, eventfd::Event::Added { rc: 0 }),
        eventfd::Action::Write { fd: 7, value: 1, len: 8 }
    );
    assert_eq!(
        eventfd_step(&mut ctx, eventfd::Event::Written { res: 8 }),
        eventfd::Action::Notified
    );
}

#[test]
fn eventfd_is_set_up_once() {
    let mut ctx = ready();
    for res in [8, -1, 8] {
        assert_eq!(
            eventfd_step(&mut ctx, eventfd::Event::Notify),
            eventfd::Action::Write { fd: 7, value: 1, len: 8 }
        );
        eventfd_step(&mut ctx, eventfd::Event::Written { res });
    }
}

#[test]
fn eventfd_create_fails_and_is_retried() {
    let mut ctx = eventfd::NotifyContext::new(LINUX);
    eventfd_step(&mut ctx, eventfd::Event::Notify);
    assert_eq!(
        eventfd_step(&mut ctx, eventfd::Event::Created { fd: -1 }),
        eventfd::Action::Fail(eventfd::NotifyError::EventFd)
    );
    assert_eq!(
        eventfd_step(&mut ctx, eventfd::Event::Notify),
        eventfd::Action::Create { initval: 0, efd_flags: 0o2004000 }
    );
}

#[test]
fn eventfd_add_fails_and_is_retried() {
    let mut ctx = eventfd::NotifyContext::new(LINUX);
    eventfd_step(&mut ctx, eventfd::Event::Notify);
    eventfd_step(&mut ctx, eventfd::Event::Created { fd: 0 });
    assert_eq!(
        eventfd_step(&mut ctx, eventfd::Event::Added { rc: -1 }),
        eventfd::Action::Fail(eventfd::NotifyError::AddEvent { rc: -1 })
    );
    assert_eq!(
        eventfd::confirm_notification(&ctx),
        Confirmation::Read { fd: -1, len: 8 }
    );
    assert_eq!(
        eventfd_step(&mut ctx, eventfd::Event::Notify),
        eventfd::Action::Create { initval: 0, efd_flags: 0o2004000 }
    );
}

#[test]
fn eventfd_short_write_fails() {
    let mut ctx = ready();
    for res in [-1, 0, 7] {
        eventfd_step(&mut ctx, eventfd::Event::Notify);
        assert_eq!(
            eventfd_step(&mut ctx, eventfd::Event::Written { res }),
            eventfd::Action::Fail(eventfd::NotifyError::Write { res })
        );
    }
}

#[test]
fn eventfd_flags_out_of_range() {
    let mut ctx = eventfd::NotifyContext::new(eventfd::Constants {
        efd_nonblock: 1 << 31,
        ..LINUX
    });
    for _ in 0..2 {
        assert_eq!(
            eventfd_step(&mut ctx, eventfd::Event::Notify),
            eventfd::Action::Fail(eventfd::NotifyError::Flags { flags: 0x8008_0000 })
        );
    }
}

#[test]
fn eventfd_ensure_init_is_done_when_ready() {
    let mut ctx = ready();
    assert_eq!(eventfd::ensure_init(&mut ctx, eventfd::Event::Notify), None);
}

#[test]
fn eventfd_confirmation_reads_the_counter() {
    assert_eq!(
        eventfd::confirm_notification(&eventfd::NotifyContext::new(LINUX)),
        Confirmation::Read { fd: -1, len: 8 }
    );
    let mut ctx = ready();
    assert_eq!(
        eventfd::confirm_notification(&ctx),
        Confirmation::Read { fd: 7, len: 8 }
    );
    eventfd_step(&mut ctx, eventfd::Event::Notify);
    assert_eq!(
        eventfd::confirm_notification(&ctx),
        Confirmation::Read { fd: 7, len: 8 }
    );
}

#[test]
fn eventfd_accepts_only_the_awaited_event() {
    let mut ctx = eventfd::NotifyContext::new(LINUX);
    assert!(!ctx.accepts(&eventfd::Event::Created { fd: 7 }));
    assert!(!ctx.accepts(&eventfd::Event::Written { res: 8 }));
    eventfd_step(&mut ctx, eventfd::Event::Notify);
    assert!(!ctx.accepts(&eventfd::Event::Notify));
    assert!(!ctx.accepts(&eventfd::Event::Added { rc: 0 }));
}

#[test]
fn sigio_first_and_second_notification() {
    let mut ctx = sigio::NotifyContext::new(29);
    assert_eq!(sigio_step(&mut ctx, sigio::Event::Notify), sigio::Action::Prepare);
    assert_eq!(sigio_step(&mut ctx, sigio::Event::Prepared), sigio::Action::Post);
    assert_eq!(
        sigio_step(&mut ctx, sigio::Event::Posted { pid: 4242 }),
        sigio::Action::Kill { pid: 4242, signal: 29 }
    );
    assert_eq!(sigio_step(&mut ctx, sigio::Event::Killed { rc: 0 }), sigio::Action::Notified);
    assert_eq!(sigio_step(&mut ctx, sigio::Event::Notify), sigio::Action::Post);
}

#[test]
fn sigio_failed_kill_keeps_the_event_prepared() {
    let mut ctx = sigio::NotifyContext::new(29);
    sigio_step(&mut ctx, sigio::Event::Notify);
    sigio_step(&mut ctx, sigio::Event::Prepared);
    sigio_step(&mut ctx, sigio::Event::Posted { pid: 1 });
    assert_eq!(
        sigio_step(&mut ctx, sigio::Event::Killed { rc: -1 }),
        sigio::Action::Fail(sigio::NotifyError::Kill { rc: -1 })
    );
    assert_eq!(sigio_step(&mut ctx, sigio::Event::Notify), sigio::Action::Post);
}

#[test]
fn sigio_arguments_out_of_range() {
    let pid: u32 = 1 << 31;
    let mut ctx = sigio::NotifyContext::new(u32::MAX);
    sigio_step(&mut ctx, sigio::Event::Notify);
    sigio_step(&mut ctx, sigio::Event::Prepared);
    assert_eq!(
        sigio_step(&mut ctx, sigio::Event::Posted { pid }),
        sigio::Action::Fail(sigio::NotifyError::Pid { pid })
    );
    sigio_step(&mut ctx, sigio::Event::Notify);
    assert_eq!(
        sigio_step(&mut ctx, sigio::Event::Posted { pid: 1 }),
        sigio::Action::Fail(sigio::NotifyError::Signal { signal: u32::MAX })
    );
    assert!(!ctx.accepts(&sigio::Event::Killed { rc: 0 }));
}

#[test]
fn sigio_ensure_init_prepares_once() {
    let mut ctx = sigio::NotifyContext::new(29);
    assert_eq!(
        sigio::ensure_init(&mut ctx, sigio::Event::Notify),
        Some(sigio::Action::Prepare)
    );
    assert_eq!(sigio::ensure_init(&mut ctx, sigio::Event::Prepared), None);
    assert_eq!(sigio::ensure_init(&mut ctx, sigio::Event::Notify), None);
}

#[test]
fn sigio_confirmation_does_nothing() {
    let ctx = sigio::NotifyContext::new(29);
    assert_eq!(sigio::confirm_notification(&ctx), Confirmation::Nothing);
}
