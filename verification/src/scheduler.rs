//! The notification loop: when the periodic bulletin is due.
//!
//! The loop is kept as a value. Its owner reads a monotonic clock, in whole
//! seconds, and asks [`NotificationLoop::poll`] whether a bulletin is to be
//! emitted now; sleeping between two polls is the owner's business.

use crate::advisory::{LogRecord, Severity};
use crate::bulletin::{bulletin_text, notification_message};
use vstd::prelude::*;

verus! {

/// Seconds between two bulletins.
pub const NOTIFICATION_INTERVAL_SECS: u64 = 180;

/// State of one notification loop.
#[derive(Clone, Copy, Debug)]
pub struct NotificationLoop {
    next_due: u64,
    cancelled: bool,
}

/// What a notification loop is: the second at which its next bulletin falls
/// due, and whether it has been cancelled.
pub ghost struct LoopModel {
    pub next_due: int,
    pub cancelled: bool,
}

/// The clock stops at the largest second it can show.
pub open spec fn clamp_second(t: int) -> int {
    if t > u64::MAX {
        u64::MAX as int
    } else {
        t
    }
}

/// A loop started at second `now`: the first bulletin is one interval away.
pub open spec fn started_at(now: int) -> LoopModel {
    LoopModel { next_due: clamp_second(now + NOTIFICATION_INTERVAL_SECS), cancelled: false }
}

/// Whether a poll at second `now` emits a bulletin.
pub open spec fn fires(m: LoopModel, now: int) -> bool {
    !m.cancelled && now >= m.next_due
}

/// The first second after `now` that lies a whole number of intervals after
/// `due` (for `now >= due`).
pub open spec fn next_boundary(due: int, now: int) -> int {
    due + ((now - due) / (NOTIFICATION_INTERVAL_SECS as int) + 1) * NOTIFICATION_INTERVAL_SECS
}

/// The loop after a poll at second `now`. A poll that fires moves the due
/// second past `now` in one step, however many intervals have gone by.
pub open spec fn after_poll(m: LoopModel, now: int) -> LoopModel {
    if fires(m, now) {
        LoopModel { next_due: clamp_second(next_boundary(m.next_due, now)), cancelled: false }
    } else {
        m
    }
}

/// The loop after cancellation.
pub open spec fn after_cancel(m: LoopModel) -> LoopModel {
    LoopModel { next_due: m.next_due, cancelled: true }
}

/// Number of bulletins that the polls at the seconds `times`, made in that
/// order, emit.
pub open spec fn bulletins(m: LoopModel, times: Seq<int>) -> nat
    decreases times.len(),
{
    if times.len() == 0 {
        0
    } else {
        let rest = bulletins(after_poll(m, times[0]), times.drop_first());
        if fires(m, times[0]) {
            1 + rest
        } else {
            rest
        }
    }
}

impl View for NotificationLoop {
    type V = LoopModel;

    closed spec fn view(&self) -> LoopModel {
        LoopModel { next_due: self.next_due as int, cancelled: self.cancelled }
    }
}

/// Starts the notification message loop at second `now` of the owner's clock.
pub fn start_notification_message_loop(now: u64) -> (task: NotificationLoop)
    ensures
        task@ == started_at(now as int),
{
    let next_due: u64 = if now > u64::MAX - NOTIFICATION_INTERVAL_SECS {
        u64::MAX
    } else {
        now + NOTIFICATION_INTERVAL_SECS
    };
    NotificationLoop { next_due, cancelled: false }
}

impl NotificationLoop {
    /// The second at which the next bulletin falls due.
    pub fn next_due(&self) -> (due: u64)
        ensures
            due == self@.next_due,
    {
        self.next_due
    }

    /// Whether the loop has been cancelled; a cancelled loop is finished.
    pub fn is_cancelled(&self) -> (cancelled: bool)
        ensures
            cancelled == self@.cancelled,
    {
        self.cancelled
    }

    /// Cancels the loop: no poll emits a bulletin afterwards.
    pub fn cancel(&mut self)
        ensures
            final(self)@ == after_cancel(old(self)@),
    {
        self.cancelled = true;
    }

    /// Asks at second `now` whether a bulletin is to be emitted. The answer
    /// is the record to emit, at informational severity, or `None` where the
    /// loop is cancelled or nothing is due yet.
    pub fn poll(&mut self, now: u64) -> (record: Option<LogRecord>)
        ensures
            final(self)@ == after_poll(old(self)@, now as int),
            record is Some <==> fires(old(self)@, now as int),
            record matches Some(r) ==> r.severity == Severity::Info && r.text@ == bulletin_text(),
    {
        if self.cancelled || now < self.next_due {
            return None;
        }
        let missed: u64 = (now - self.next_due) / NOTIFICATION_INTERVAL_SECS;
        let latest: u64 = self.next_due + missed * NOTIFICATION_INTERVAL_SECS;
        self.next_due = if latest > u64::MAX - NOTIFICATION_INTERVAL_SECS {
            u64::MAX
        } else {
            latest + NOTIFICATION_INTERVAL_SECS
        };
        Some(LogRecord { severity: Severity::Info, text: notification_message() })
    }
}

/// Polls made before the first bulletin is due, or after cancellation, emit
/// nothing, however many they are.
pub proof fn lemma_silent_until_due(m: LoopModel, times: Seq<int>)
    requires
        m.cancelled || forall|i: int| 0 <= i < times.len() ==> times[i] < m.next_due,
    ensures
        bulletins(m, times) == 0,
    decreases times.len(),
{
    if times.len() > 0 {
        let rest = times.drop_first();
        assert(forall|i: int| 0 <= i < rest.len() ==> rest[i] == times[i + 1]);
        lemma_silent_until_due(after_poll(m, times[0]), rest);
    }
}

/// A loop whose polls all come less than one interval after its due second,
/// one of them at least not before it, emits exactly one bulletin.
pub proof fn lemma_one_bulletin_per_interval(m: LoopModel, times: Seq<int>)
    requires
        !m.cancelled,
        m.next_due + NOTIFICATION_INTERVAL_SECS <= u64::MAX,
        forall|i: int| 0 <= i < times.len() ==> times[i] < m.next_due + NOTIFICATION_INTERVAL_SECS,
        exists|i: int| 0 <= i < times.len() && times[i] >= m.next_due,
    ensures
        bulletins(m, times) == 1,
    decreases times.len(),
{
    let k = choose|i: int| 0 <= i < times.len() && times[i] >= m.next_due;
    let rest = times.drop_first();
    assert(forall|i: int| 0 <= i < rest.len() ==> rest[i] == times[i + 1]);
    if fires(m, times[0]) {
        lemma_silent_until_due(after_poll(m, times[0]), rest);
    } else {
        assert(rest[k - 1] == times[k]);
        lemma_one_bulletin_per_interval(m, rest);
    }
}

/// A loop started at second `start` and polled at any seconds before two
/// intervals have gone by, at least once after the first, emits exactly one
/// bulletin: not zero and not two.
pub proof fn lemma_one_bulletin_after_one_interval(start: int, times: Seq<int>)
    requires
        0 <= start,
        start + 2 * NOTIFICATION_INTERVAL_SECS <= u64::MAX,
        forall|i: int| 0 <= i < times.len() ==> times[i] < start + 2 * NOTIFICATION_INTERVAL_SECS,
        exists|i: int| 0 <= i < times.len() && times[i] >= start + NOTIFICATION_INTERVAL_SECS,
    ensures
        bulletins(started_at(start), times) == 1,
{
    lemma_one_bulletin_per_interval(started_at(start), times);
}

/// A loop started at second `start` and cancelled at once emits nothing, and
/// neither does one that is only polled before its first interval is over.
pub proof fn lemma_no_bulletin_before_first_tick(start: int, times: Seq<int>)
    requires
        0 <= start <= u64::MAX,
    ensures
        bulletins(after_cancel(started_at(start)), times) == 0,
        (forall|i: int| 0 <= i < times.len() ==> times[i] < start + NOTIFICATION_INTERVAL_SECS
            && times[i] < u64::MAX) ==> bulletins(started_at(start), times) == 0,
{
    lemma_silent_until_due(after_cancel(started_at(start)), times);
    if forall|i: int| 0 <= i < times.len() ==> times[i] < start + NOTIFICATION_INTERVAL_SECS
        && times[i] < u64::MAX {
        lemma_silent_until_due(started_at(start), times);
    }
}

/// A poll that fires leaves nothing behind: unless the clock is at its end,
/// a second poll at the same second emits nothing, so delayed ticks never
/// come out as a burst.
pub proof fn lemma_poll_leaves_no_backlog(m: LoopModel, now: int)
    requires
        fires(m, now),
        now < u64::MAX,
    ensures
        after_poll(m, now).next_due > now,
        !fires(after_poll(m, now), now),
{
}

/// The due second does not drift: a poll that fires, however late, moves it
/// by a whole number of intervals, to the first such second after the poll.
pub proof fn lemma_due_second_stays_on_the_grid(m: LoopModel, now: int)
    requires
        fires(m, now),
        next_boundary(m.next_due, now) <= u64::MAX,
    ensures
        (after_poll(m, now).next_due - m.next_due) % (NOTIFICATION_INTERVAL_SECS as int) == 0,
        now < after_poll(m, now).next_due <= now + NOTIFICATION_INTERVAL_SECS,
{
}

} // verus!
