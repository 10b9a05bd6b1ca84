//! Which thread the event loop runs on.
use vstd::prelude::*;

verus! {

/// The thread id that stands for "not known yet".
pub const UNCLAIMED: i64 = -1;

/// The id of the event loop thread, once its handler has run for the first time.
pub struct EventThread {
    main_tid: i64,
}

/// The recorded id after the thread `tid` has run the event handler: the first one stays.
pub open spec fn claimed(main_tid: i64, tid: i64) -> i64 {
    if main_tid == UNCLAIMED {
        tid
    } else {
        main_tid
    }
}

impl View for EventThread {
    type V = i64;

    closed spec fn view(&self) -> i64 {
        self.main_tid
    }
}

impl EventThread {
    /// No thread is known yet.
    pub fn new() -> (thread: Self)
        ensures
            thread@ == UNCLAIMED,
            thread@ == -1,
    {
        EventThread { main_tid: UNCLAIMED }
    }

    /// Whether `tid` is the recorded thread.
    pub fn on_event_thread(&self, tid: i64) -> (same: bool)
        ensures
            same == (self@ == tid),
    {
        self.main_tid == tid
    }

    /// Records `tid` where no thread is known yet.
    pub fn claim(&mut self, tid: i64)
        ensures
            final(self)@ == claimed(old(self)@, tid),
            old(self)@ == -1 ==> final(self)@ == tid,
            old(self)@ != -1 ==> final(self)@ == old(self)@,
    {
        if self.main_tid == UNCLAIMED {
            self.main_tid = tid;
        }
    }
}

/// Where no thread is known, the one that claims is recorded, whatever its id; where one is
/// known, nothing changes. "Not known" is the id -1.
pub proof fn law_claim(main_tid: i64, tid: i64)
    ensures
        main_tid == -1 ==> claimed(main_tid, tid) == tid,
        main_tid != -1 ==> claimed(main_tid, tid) == main_tid,
{
}

/// Once a thread is recorded, no later claim replaces it.
pub proof fn law_first_claim_stays(main_tid: i64, first: i64, second: i64)
    requires
        first != -1,
    ensures
        claimed(claimed(main_tid, first), second) == claimed(main_tid, first),
{
}

} // verus!
