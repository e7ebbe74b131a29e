//! Watching the account directory: when its files change, the accounts are
//! reloaded once the changes have settled.

use crate::client::SekaiClient;
use vstd::prelude::*;

verus! {

/// The time between two looks at the account directory, in nanoseconds.
pub const POLL_INTERVAL: u128 = 5_000_000_000;

/// How long the account directory has to be quiet before the accounts are
/// reloaded, in nanoseconds. It is longer than the time between two looks, so
/// that a file is not read while it is being written.
pub const SETTLE_DURATION: u128 = 6_000_000_000;

/// What the watcher of the account directory reports.
#[derive(Debug, Clone, Copy, PartialEq, Eq, Structural)]
pub enum WatchEvent {
    Created,
    Modified,
    Removed,
    Accessed,
    /// Something else, or something that is not known.
    Other,
    /// The watcher failed.
    Failed,
}

/// The files changed.
pub open spec fn is_change(event: WatchEvent) -> bool {
    event is Created || event is Modified || event is Removed
}

/// Whether the files changed.
pub fn is_account_change_event(event: WatchEvent) -> (r: bool)
    ensures
        r == is_change(event),
{
    match event {
        WatchEvent::Created => true,
        WatchEvent::Modified => true,
        WatchEvent::Removed => true,
        _ => false,
    }
}

/// What came while the account directory was watched.
#[derive(Debug, Clone, Copy, PartialEq, Eq, Structural)]
pub enum SettleEvent {
    /// The watcher reported something.
    Watched(WatchEvent),
    /// Nothing came for as long as was waited.
    TimedOut,
    /// The watcher is gone.
    Disconnected,
}

/// Changes that have not settled yet.
#[derive(Debug, Clone, Copy, PartialEq, Eq, Structural)]
pub struct SettleWindow {
    /// When they will have settled, unless more come; in nanoseconds on a clock
    /// that never goes back.
    pub quiet_deadline: u128,
}

impl SettleWindow {
    /// What a change leads to that comes at this time.
    pub open spec fn opened(now: int) -> SettleWindow {
        SettleWindow { quiet_deadline: (now + SETTLE_DURATION) as u128 }
    }

    /// The time until the changes will have settled.
    pub open spec fn left(self, now: int) -> int {
        if self.quiet_deadline > now {
            self.quiet_deadline - now
        } else {
            0
        }
    }

    /// What follows on an event at this time: more changes begin the time anew,
    /// other reports do not count, and without the watcher, or when the time is
    /// up, the changes have settled.
    pub open spec fn after(self, event: SettleEvent, now: int) -> Option<SettleWindow> {
        match event {
            SettleEvent::Watched(event) => Some(
                if is_change(event) {
                    SettleWindow::opened(now)
                } else {
                    self
                },
            ),
            SettleEvent::TimedOut => None,
            SettleEvent::Disconnected => None,
        }
    }

    /// A change has come at this time.
    pub fn open(now: u128) -> (r: SettleWindow)
        requires
            now + SETTLE_DURATION <= u128::MAX,
        ensures
            r == SettleWindow::opened(now as int),
            r.quiet_deadline == now + SETTLE_DURATION,
    {
        SettleWindow { quiet_deadline: now + SETTLE_DURATION }
    }

    /// How long to wait for another event; where it is 0 the changes have
    /// settled.
    pub fn remaining(&self, now: u128) -> (r: u128)
        ensures
            r == self.left(now as int),
    {
        if self.quiet_deadline > now {
            self.quiet_deadline - now
        } else {
            0
        }
    }

    /// What follows on an event at this time; nothing where the changes have
    /// settled.
    pub fn observe(self, event: SettleEvent, now: u128) -> (r: Option<SettleWindow>)
        requires
            now + SETTLE_DURATION <= u128::MAX,
        ensures
            r == self.after(event, now as int),
    {
        match event {
            SettleEvent::Watched(event) => if is_account_change_event(event) {
                Some(SettleWindow::open(now))
            } else {
                Some(self)
            },
            SettleEvent::TimedOut => None,
            SettleEvent::Disconnected => None,
        }
    }
}

/// What the watch of the account directory is about.
#[derive(Debug, Clone, Copy, PartialEq, Eq, Structural)]
pub enum WatchState {
    /// Nothing has changed since the accounts were last reloaded.
    Idle,
    /// Changes have come and have not settled yet.
    Settling(SettleWindow),
}

/// What the watch has to do next.
#[derive(Debug, Clone, Copy, PartialEq, Eq, Structural)]
pub enum WatchAction {
    /// Wait for the next report, however long it takes.
    Wait,
    /// Wait for the next report, for so many nanoseconds.
    WaitFor(u128),
    /// Reload the accounts, and then wait for the next report, however long it
    /// takes.
    Reload,
    /// End the watch.
    Finish,
}

impl WatchState {
    /// How it goes on while changes settle: with the rest of the time, or with a
    /// reload where there is none.
    pub open spec fn settle(window: Option<SettleWindow>, now: int) -> (WatchState, WatchAction) {
        match window {
            Some(window) => if window.left(now) > 0 {
                (WatchState::Settling(window), WatchAction::WaitFor(window.left(now) as u128))
            } else {
                (WatchState::Idle, WatchAction::Reload)
            },
            None => (WatchState::Idle, WatchAction::Reload),
        }
    }

    /// What follows on an event at this time. A change begins to settle; what is
    /// no change counts for nothing. Changes that have settled are taken over
    /// with a reload, and so are those that were settling when the watcher went.
    /// Without the watcher and without changes the watch ends.
    pub open spec fn after(self, event: SettleEvent, now: int) -> (WatchState, WatchAction) {
        match self {
            WatchState::Idle => match event {
                SettleEvent::Watched(event) => if is_change(event) {
                    WatchState::settle(Some(SettleWindow::opened(now)), now)
                } else {
                    (WatchState::Idle, WatchAction::Wait)
                },
                SettleEvent::TimedOut => (WatchState::Idle, WatchAction::Wait),
                SettleEvent::Disconnected => (WatchState::Idle, WatchAction::Finish),
            },
            WatchState::Settling(window) => WatchState::settle(window.after(event, now), now),
        }
    }

    /// What follows on an event at this time, and what has to be done next.
    pub fn next(self, event: SettleEvent, now: u128) -> (r: (WatchState, WatchAction))
        requires
            now + SETTLE_DURATION <= u128::MAX,
        ensures
            r == self.after(event, now as int),
    {
        let window = match self {
            WatchState::Idle => match event {
                SettleEvent::Watched(event) => if is_account_change_event(event) {
                    Some(SettleWindow::open(now))
                } else {
                    return (WatchState::Idle, WatchAction::Wait);
                },
                SettleEvent::TimedOut => {
                    return (WatchState::Idle, WatchAction::Wait);
                },
                SettleEvent::Disconnected => {
                    return (WatchState::Idle, WatchAction::Finish);
                },
            },
            WatchState::Settling(window) => window.observe(event, now),
        };
        match window {
            Some(window) => {
                let remaining: u128 = window.remaining(now);
                if remaining > 0 {
                    (WatchState::Settling(window), WatchAction::WaitFor(remaining))
                } else {
                    (WatchState::Idle, WatchAction::Reload)
                }
            },
            None => (WatchState::Idle, WatchAction::Reload),
        }
    }
}

impl<S> SekaiClient<S> {
    /// How the watch of the account directory begins: with waiting for a report.
    /// The directory is not watched where none is configured or it does not
    /// exist.
    pub fn start_file_watcher(&self, directory_exists: bool) -> (r: Option<
        (WatchState, WatchAction),
    >)
        ensures
            r == if self.config.account_dir@.len() > 0 && directory_exists {
                Some((WatchState::Idle, WatchAction::Wait))
            } else {
                None
            },
    {
        if !self.config.account_dir.as_str().is_empty() && directory_exists {
            Some((WatchState::Idle, WatchAction::Wait))
        } else {
            None
        }
    }
}

// ---------------------------------------------------------------------------
// Laws
// ---------------------------------------------------------------------------

/// The watch after events, each with its time, and what was last to be done.
pub open spec fn after_events(events: Seq<(SettleEvent, int)>) -> (WatchState, WatchAction)
    decreases events.len(),
{
    if events.len() == 0 {
        (WatchState::Idle, WatchAction::Wait)
    } else {
        after_events(events.drop_last()).0.after(events.last().0, events.last().1)
    }
}

/// How often the accounts are reloaded in the course of the events.
pub open spec fn reloads(events: Seq<(SettleEvent, int)>) -> nat
    decreases events.len(),
{
    if events.len() == 0 {
        0
    } else {
        reloads(events.drop_last()) + if after_events(events).1 is Reload {
            1nat
        } else {
            0
        }
    }
}

/// The event reports a change.
pub open spec fn reports_change(event: SettleEvent) -> bool {
    event matches SettleEvent::Watched(report) && is_change(report)
}

/// How many of the events report a change.
pub open spec fn changes(events: Seq<(SettleEvent, int)>) -> nat
    decreases events.len(),
{
    if events.len() == 0 {
        0
    } else {
        changes(events.drop_last()) + if reports_change(events.last().0) {
            1nat
        } else {
            0
        }
    }
}

/// When the last change among the events came.
pub open spec fn last_change(events: Seq<(SettleEvent, int)>) -> int
    decreases events.len(),
{
    if events.len() <= 1 || reports_change(events.last().0) {
        events.last().1
    } else {
        last_change(events.drop_last())
    }
}

/// A time that can be told on the clock, and at which changes can begin to
/// settle.
pub open spec fn is_time(now: int) -> bool {
    0 <= now && now + SETTLE_DURATION <= u128::MAX
}

/// The events are one burst: the first reports a change, and each of the others
/// is a report that comes less than a settling time after the last change before
/// it, and not before that change.
pub open spec fn is_burst(events: Seq<(SettleEvent, int)>) -> bool {
    &&& events.len() > 0
    &&& reports_change(events[0].0)
    &&& forall|i: int|
        0 <= i < events.len() ==> (#[trigger] events[i]).0 is Watched && is_time(events[i].1)
    &&& forall|i: int|
        0 < i < events.len() ==> last_change(events.take(i)) <= (#[trigger] events[i]).1
            < last_change(events.take(i)) + SETTLE_DURATION
}

/// A burst without its last report is a burst.
proof fn lemma_shorter_burst(events: Seq<(SettleEvent, int)>)
    requires
        is_burst(events),
        events.len() > 1,
    ensures
        is_burst(events.drop_last()),
{
    let front = events.drop_last();
    assert forall|i: int| 0 < i < front.len() implies last_change(front.take(i)) <= (
    #[trigger] front[i]).1 < last_change(front.take(i)) + SETTLE_DURATION by {
        assert(front.take(i) =~= events.take(i));
        assert(front[i] == events[i]);
    }
    assert forall|i: int| 0 <= i < front.len() implies (#[trigger] front[i]).0 is Watched
        && is_time(front[i].1) by {
        assert(front[i] == events[i]);
    }
}

/// A burst of changes leads to no reload as long as it lasts, and until a
/// settling time after its last change has passed the next report is waited for.
/// What is no change does not put that off.
pub proof fn bursts_are_waited_out(events: Seq<(SettleEvent, int)>)
    requires
        is_burst(events),
    ensures
        reloads(events) == 0,
        after_events(events).0 == WatchState::Settling(SettleWindow::opened(last_change(events))),
        after_events(events).1 == WatchAction::WaitFor(
            (last_change(events) + SETTLE_DURATION - events.last().1) as u128,
        ),
        is_time(last_change(events)),
    decreases events.len(),
{
    let front = events.drop_last();
    assert(events.last() == events[events.len() - 1]);
    if events.len() == 1 {
        assert(front =~= Seq::<(SettleEvent, int)>::empty());
        assert(reloads(front) == 0);
    } else {
        lemma_shorter_burst(events);
        bursts_are_waited_out(front);
        assert(events.take(events.len() - 1) =~= front);
        assert(last_change(front) <= events[events.len() - 1].1 < last_change(front)
            + SETTLE_DURATION);
    }
}

/// A burst of changes leads to one reload: when nothing comes for the rest of its
/// settling time, or the watcher goes, or a report comes that is no change and
/// comes after that time. Then nothing is left to be reloaded.
pub proof fn bursts_lead_to_one_reload(
    events: Seq<(SettleEvent, int)>,
    end: SettleEvent,
    now: int,
)
    requires
        is_burst(events),
        is_time(now),
        end is Watched ==> !reports_change(end) && now >= last_change(events) + SETTLE_DURATION,
    ensures
        reloads(events.push((end, now))) == 1,
        after_events(events.push((end, now))) == (WatchState::Idle, WatchAction::Reload),
{
    bursts_are_waited_out(events);
    assert(events.push((end, now)).drop_last() =~= events);
}

/// The accounts are reloaded at most once for each change that is reported:
/// failures of the watcher and other reports never lead to a reload of their
/// own.
pub proof fn reloads_come_of_changes(events: Seq<(SettleEvent, int)>)
    requires
        forall|i: int| 0 <= i < events.len() ==> is_time((#[trigger] events[i]).1),
    ensures
        reloads(events) + (if after_events(events).0 is Settling {
            1nat
        } else {
            0
        }) <= changes(events),
    decreases events.len(),
{
    if events.len() > 0 {
        let front = events.drop_last();
        assert forall|i: int| 0 <= i < front.len() implies is_time((#[trigger] front[i]).1) by {
            assert(front[i] == events[i]);
        }
        assert(is_time(events[events.len() - 1].1));
        reloads_come_of_changes(front);
    }
}

/// Changes have not settled yet when the directory is looked at for the next
/// time, so what is still being written then puts the reload off.
pub proof fn the_next_look_comes_before_changes_settle(changed_at: int, elapsed: int)
    requires
        is_time(changed_at),
        0 <= elapsed <= POLL_INTERVAL,
    ensures
        SettleWindow::opened(changed_at).left(changed_at + elapsed) > 0,
        SettleWindow::opened(changed_at).left(changed_at + SETTLE_DURATION) == 0,
{
}

/// A change is a file that was created, modified or removed.
pub proof fn changes_are_these()
    ensures
        is_change(WatchEvent::Created),
        is_change(WatchEvent::Modified),
        is_change(WatchEvent::Removed),
        !is_change(WatchEvent::Accessed),
        !is_change(WatchEvent::Other),
        !is_change(WatchEvent::Failed),
{
}

/// Changes settle when six seconds have passed without another; the directory is
/// looked at every five.
pub proof fn changes_settle_in_six_seconds(now: int, later: int)
    requires
        is_time(now),
        now <= later,
    ensures
        SettleWindow::opened(now).left(later) == if later < now + 6_000_000_000 {
            now + 6_000_000_000 - later
        } else {
            0
        },
        POLL_INTERVAL == 5_000_000_000,
{
}

/// Without changes the watch waits, whatever is reported, and ends when the
/// watcher is gone; a change begins to settle.
pub proof fn an_idle_watch_waits_for_changes(report: WatchEvent, now: int)
    requires
        is_time(now),
    ensures
        !is_change(report) ==> WatchState::Idle.after(SettleEvent::Watched(report), now) == (
            WatchState::Idle,
            WatchAction::Wait,
        ),
        is_change(report) ==> WatchState::Idle.after(SettleEvent::Watched(report), now) == (
            WatchState::Settling(SettleWindow { quiet_deadline: (now + 6_000_000_000) as u128 }),
            WatchAction::WaitFor(6_000_000_000),
        ),
        WatchState::Idle.after(SettleEvent::TimedOut, now) == (
            WatchState::Idle,
            WatchAction::Wait,
        ),
        WatchState::Idle.after(SettleEvent::Disconnected, now) == (
            WatchState::Idle,
            WatchAction::Finish,
        ),
{
}

/// While changes settle, more of them begin the time anew, other reports leave
/// the rest of it, and when the time is up, or the watcher is gone, the accounts
/// are reloaded.
pub proof fn settling_changes_are_reloaded(window: SettleWindow, report: WatchEvent, now: int)
    requires
        is_time(now),
    ensures
        WatchState::Settling(window).after(SettleEvent::TimedOut, now) == (
            WatchState::Idle,
            WatchAction::Reload,
        ),
        WatchState::Settling(window).after(SettleEvent::Disconnected, now) == (
            WatchState::Idle,
            WatchAction::Reload,
        ),
        is_change(report) ==> WatchState::Settling(window).after(
            SettleEvent::Watched(report),
            now,
        ) == WatchState::Idle.after(SettleEvent::Watched(report), now),
        !is_change(report) && now < window.quiet_deadline ==> WatchState::Settling(window).after(
            SettleEvent::Watched(report),
            now,
        ) == (
            WatchState::Settling(window),
            WatchAction::WaitFor((window.quiet_deadline - now) as u128),
        ),
        !is_change(report) && now >= window.quiet_deadline ==> WatchState::Settling(window).after(
            SettleEvent::Watched(report),
            now,
        ) == (WatchState::Idle, WatchAction::Reload),
{
}

/// More changes begin the settling time anew, other reports leave it, and when the
/// time is up, or the watcher is gone, the changes have settled.
pub proof fn windows_are_opened_anew(window: SettleWindow, report: WatchEvent, now: int)
    requires
        is_time(now),
    ensures
        is_change(report) ==> window.after(SettleEvent::Watched(report), now) == Some(
            (SettleWindow { quiet_deadline: (now + 6_000_000_000) as u128 }),
        ),
        !is_change(report) ==> window.after(SettleEvent::Watched(report), now) == Some(window),
        window.after(SettleEvent::TimedOut, now) is None,
        window.after(SettleEvent::Disconnected, now) is None,
{
}

} // verus!
