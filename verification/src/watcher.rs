use vstd::prelude::*;

verus! {

/// Milliseconds between two polls of the file's modification time.
pub const POLL_INTERVAL_MS: u64 = 500;

/// Milliseconds before a failed open or a failed metadata query is retried.
pub const RETRY_INTERVAL_MS: u64 = 1000;

/// The outside step whose outcome the watcher is waiting for.
#[derive(Clone, Copy, Debug, PartialEq, Eq, Structural)]
pub enum Pending {
    /// Opening the shader file.
    Open,
    /// Sleeping before the file is opened again.
    SleepThenOpen,
    /// Querying the file's modification time.
    Stat,
    /// Reading the whole file, which was found modified at `modified`.
    Read { modified: i128 },
    /// Sending the content that was read, of the file as of `modified`.
    Publish { modified: i128 },
    /// Sleeping before the modification time is queried again.
    SleepThenStat,
}

/// The watcher between two outside steps. Times are nanoseconds since the
/// Unix epoch, negative before it.
#[derive(Clone, Copy, Debug, PartialEq, Eq, Structural)]
pub struct Watcher {
    /// Modification time of the content that was published last.
    pub last_seen: i128,
    pub pending: Pending,
}

/// The outcome of the outside step that the watcher asked for.
#[derive(Clone, Debug, PartialEq, Eq)]
pub enum WatchEvent {
    /// The file was opened.
    Opened,
    /// The file's modification time.
    Modified(i128),
    /// The whole content of the file.
    Content(String),
    /// The content was handed to the channel.
    Sent,
    /// The sleep is over.
    Woke,
    /// The step failed: the file could not be opened, queried or read, or
    /// the channel has lost its consumer.
    Failed,
}

pub enum WatchEventView {
    Opened,
    Modified(i128),
    Content(Seq<char>),
    Sent,
    Woke,
    Failed,
}

impl View for WatchEvent {
    type V = WatchEventView;

    open spec fn view(&self) -> WatchEventView {
        match self {
            WatchEvent::Opened => WatchEventView::Opened,
            WatchEvent::Modified(t) => WatchEventView::Modified(*t),
            WatchEvent::Content(text) => WatchEventView::Content(text@),
            WatchEvent::Sent => WatchEventView::Sent,
            WatchEvent::Woke => WatchEventView::Woke,
            WatchEvent::Failed => WatchEventView::Failed,
        }
    }
}

/// The outside step that the watcher asks for next.
#[derive(Clone, Debug, PartialEq, Eq)]
pub enum WatchAction {
    /// Open the shader file.
    Open,
    /// Query the modification time of the open file.
    Stat,
    /// Read the whole file from its start.
    Read,
    /// Send this content through the channel.
    Publish(String),
    /// Sleep for this many milliseconds.
    Sleep(u64),
}

pub enum WatchActionView {
    Open,
    Stat,
    Read,
    Publish(Seq<char>),
    Sleep(u64),
}

impl View for WatchAction {
    type V = WatchActionView;

    open spec fn view(&self) -> WatchActionView {
        match self {
            WatchAction::Open => WatchActionView::Open,
            WatchAction::Stat => WatchActionView::Stat,
            WatchAction::Read => WatchActionView::Read,
            WatchAction::Publish(text) => WatchActionView::Publish(text@),
            WatchAction::Sleep(ms) => WatchActionView::Sleep(*ms),
        }
    }
}

/// Whether `event` is an outcome of the step that is pending: opening,
/// querying, reading and sending succeed with their result or fail, and a
/// sleep only ends.
pub open spec fn answers(pending: Pending, event: WatchEventView) -> bool {
    match pending {
        Pending::Open => event is Opened || event is Failed,
        Pending::Stat => event is Modified || event is Failed,
        Pending::Read { .. } => event is Content || event is Failed,
        Pending::Publish { .. } => event is Sent || event is Failed,
        Pending::SleepThenOpen => event is Woke,
        Pending::SleepThenStat => event is Woke,
    }
}

/// The watcher's transition: the state and the action that follow `event`,
/// or `None` where `event` is no outcome of the pending step.
pub open spec fn spec_step(w: Watcher, event: WatchEventView) -> Option<(Watcher, WatchActionView)> {
    match (w.pending, event) {
        (Pending::Open, WatchEventView::Opened) => Some(
            (Watcher { last_seen: w.last_seen, pending: Pending::Stat }, WatchActionView::Stat),
        ),
        (Pending::Open, WatchEventView::Failed) => Some(
            (
                Watcher { last_seen: w.last_seen, pending: Pending::SleepThenOpen },
                WatchActionView::Sleep(RETRY_INTERVAL_MS),
            ),
        ),
        (Pending::SleepThenOpen, WatchEventView::Woke) => Some(
            (Watcher { last_seen: w.last_seen, pending: Pending::Open }, WatchActionView::Open),
        ),
        (Pending::Stat, WatchEventView::Modified(modified)) => if modified > w.last_seen {
            Some(
                (
                    Watcher { last_seen: w.last_seen, pending: Pending::Read { modified } },
                    WatchActionView::Read,
                ),
            )
        } else {
            Some(
                (
                    Watcher { last_seen: w.last_seen, pending: Pending::SleepThenStat },
                    WatchActionView::Sleep(POLL_INTERVAL_MS),
                ),
            )
        },
        (Pending::Stat, WatchEventView::Failed) => Some(
            (
                Watcher { last_seen: w.last_seen, pending: Pending::SleepThenStat },
                WatchActionView::Sleep(RETRY_INTERVAL_MS),
            ),
        ),
        (Pending::Read { modified }, WatchEventView::Content(text)) => Some(
            (
                Watcher { last_seen: w.last_seen, pending: Pending::Publish { modified } },
                WatchActionView::Publish(text),
            ),
        ),
        (Pending::Read { .. }, WatchEventView::Failed) => Some(
            (
                Watcher { last_seen: w.last_seen, pending: Pending::SleepThenStat },
                WatchActionView::Sleep(POLL_INTERVAL_MS),
            ),
        ),
        (Pending::Publish { modified }, WatchEventView::Sent) => Some(
            (
                Watcher { last_seen: modified, pending: Pending::SleepThenStat },
                WatchActionView::Sleep(POLL_INTERVAL_MS),
            ),
        ),
        (Pending::Publish { .. }, WatchEventView::Failed) => Some(
            (
                Watcher { last_seen: w.last_seen, pending: Pending::SleepThenStat },
                WatchActionView::Sleep(POLL_INTERVAL_MS),
            ),
        ),
        (Pending::SleepThenStat, WatchEventView::Woke) => Some(
            (Watcher { last_seen: w.last_seen, pending: Pending::Stat }, WatchActionView::Stat),
        ),
        _ => None,
    }
}

/// The state after `event`; an event that answers nothing leaves it as it is.
pub open spec fn spec_after(w: Watcher, event: WatchEventView) -> Watcher {
    match spec_step(w, event) {
        Some((next, _)) => next,
        None => w,
    }
}

/// The content that `event` makes the watcher hand to the channel.
pub open spec fn spec_offered(w: Watcher, event: WatchEventView) -> Option<Seq<char>> {
    match spec_step(w, event) {
        Some((_, WatchActionView::Publish(text))) => Some(text),
        _ => None,
    }
}

impl Watcher {
    /// A file that waits to be read or sent is newer than what was
    /// published last.
    pub open spec fn well_formed(self) -> bool {
        match self.pending {
            Pending::Read { modified } => modified > self.last_seen,
            Pending::Publish { modified } => modified > self.last_seen,
            _ => true,
        }
    }

    /// The watcher at the start of its task, with its first action: nothing
    /// was published, so the last-seen time is the epoch, and the file is
    /// to be opened.
    pub fn start() -> (begin: (Watcher, WatchAction))
        ensures
            begin.0 == (Watcher { last_seen: 0, pending: Pending::Open }),
            begin.0.well_formed(),
            begin.1@ == WatchActionView::Open,
    {
        (Watcher { last_seen: 0, pending: Pending::Open }, WatchAction::Open)
    }

    /// Takes the outcome of the pending step and returns the next one. A
    /// failed open or metadata query is retried after a second; a file that
    /// is strictly newer than the last published one is read and sent, and
    /// only a send that succeeded advances the last-seen time; every poll
    /// ends with a sleep of half a second. An event that is no outcome of
    /// the pending step changes nothing and gives `None`.
    pub fn step(&mut self, event: WatchEvent) -> (action: Option<WatchAction>)
        ensures
            match spec_step(*old(self), event@) {
                Some((next, act)) => *final(self) == next && action is Some && action->0@ == act,
                None => *final(self) == *old(self) && action is None,
            },
            action is Some <==> answers(old(self).pending, event@),
            action is Some && action->0 is Publish ==> event is Content && old(self).pending is Read,
            old(self).well_formed() ==> final(self).well_formed(),
            old(self).well_formed() ==> final(self).last_seen >= old(self).last_seen,
    {
        match (self.pending, event) {
            (Pending::Open, WatchEvent::Opened) => {
                self.pending = Pending::Stat;
                Some(WatchAction::Stat)
            },
            (Pending::Open, WatchEvent::Failed) => {
                self.pending = Pending::SleepThenOpen;
                Some(WatchAction::Sleep(RETRY_INTERVAL_MS))
            },
            (Pending::SleepThenOpen, WatchEvent::Woke) => {
                self.pending = Pending::Open;
                Some(WatchAction::Open)
            },
            (Pending::Stat, WatchEvent::Modified(modified)) => {
                if modified > self.last_seen {
                    self.pending = Pending::Read { modified };
                    Some(WatchAction::Read)
                } else {
                    self.pending = Pending::SleepThenStat;
                    Some(WatchAction::Sleep(POLL_INTERVAL_MS))
                }
            },
            (Pending::Stat, WatchEvent::Failed) => {
                self.pending = Pending::SleepThenStat;
                Some(WatchAction::Sleep(RETRY_INTERVAL_MS))
            },
            (Pending::Read { modified }, WatchEvent::Content(text)) => {
                self.pending = Pending::Publish { modified };
                Some(WatchAction::Publish(text))
            },
            (Pending::Read { .. }, WatchEvent::Failed) => {
                self.pending = Pending::SleepThenStat;
                Some(WatchAction::Sleep(POLL_INTERVAL_MS))
            },
            (Pending::Publish { modified }, WatchEvent::Sent) => {
                self.last_seen = modified;
                self.pending = Pending::SleepThenStat;
                Some(WatchAction::Sleep(POLL_INTERVAL_MS))
            },
            (Pending::Publish { .. }, WatchEvent::Failed) => {
                self.pending = Pending::SleepThenStat;
                Some(WatchAction::Sleep(POLL_INTERVAL_MS))
            },
            (Pending::SleepThenStat, WatchEvent::Woke) => {
                self.pending = Pending::Stat;
                Some(WatchAction::Stat)
            },
            _ => None,
        }
    }
}

/// The modification times of the contents that the channel took while the
/// watcher went through `events`, in the order in which it took them.
pub open spec fn spec_published(w: Watcher, events: Seq<WatchEventView>) -> Seq<i128>
    decreases events.len(),
{
    if events.len() == 0 {
        Seq::empty()
    } else {
        let rest = spec_published(spec_after(w, events[0]), events.drop_first());
        match (w.pending, events[0]) {
            (Pending::Publish { modified }, WatchEventView::Sent) => seq![modified] + rest,
            _ => rest,
        }
    }
}

/// A step keeps the watcher well formed and never moves the last-seen time
/// back.
pub proof fn lemma_step_preserves(w: Watcher, event: WatchEventView)
    requires
        w.well_formed(),
    ensures
        spec_after(w, event).well_formed(),
        spec_after(w, event).last_seen >= w.last_seen,
{
}

/// The watcher never comes to an end: whatever the outcome of the pending
/// step, a next action follows, and no failure is left without one.
pub proof fn lemma_never_stops(w: Watcher, event: WatchEventView)
    requires
        answers(w.pending, event),
    ensures
        spec_step(w, event) matches Some((next, action)) && (event is Failed ==> action is Sleep
            && next.last_seen == w.last_seen),
{
}

/// A modification time that is not strictly newer than the last published
/// one starts neither a read nor a send: the watcher sleeps until the next
/// poll and its last-seen time stays.
pub proof fn lemma_unchanged_timestamp_is_skipped(w: Watcher, modified: i128)
    requires
        w.pending == Pending::Stat,
        modified <= w.last_seen,
    ensures
        spec_step(w, WatchEventView::Modified(modified)) == Some(
            (
                Watcher { last_seen: w.last_seen, pending: Pending::SleepThenStat },
                WatchActionView::Sleep(POLL_INTERVAL_MS),
            ),
        ),
        spec_offered(w, WatchEventView::Modified(modified)) is None,
{
}

/// Whatever the outside steps report and in whatever order, the contents
/// that the channel takes have strictly increasing modification times, all
/// newer than the last-seen time at the start: each advance of the file's
/// timestamp is published at most once, and an unchanged one never again.
pub proof fn lemma_published_increasing(w: Watcher, events: Seq<WatchEventView>)
    requires
        w.well_formed(),
    ensures
        forall|i: int|
            0 <= i < spec_published(w, events).len() ==> #[trigger] spec_published(w, events)[i]
                > w.last_seen,
        forall|i: int, j: int|
            0 <= i < j < spec_published(w, events).len() ==> spec_published(w, events)[i]
                < spec_published(w, events)[j],
    decreases events.len(),
{
    if events.len() > 0 {
        let next = spec_after(w, events[0]);
        let rest = spec_published(next, events.drop_first());
        lemma_step_preserves(w, events[0]);
        lemma_published_increasing(next, events.drop_first());
        let all = spec_published(w, events);
        match (w.pending, events[0]) {
            (Pending::Publish { modified }, WatchEventView::Sent) => {
                assert(all == seq![modified] + rest);
                assert(next.last_seen == modified);
                assert forall|i: int| 0 <= i < all.len() implies #[trigger] all[i]
                    > w.last_seen by {
                    if i > 0 {
                        assert(all[i] == rest[i - 1]);
                    }
                }
                assert forall|i: int, j: int| 0 <= i < j < all.len() implies all[i] < all[j] by {
                    assert(all[j] == rest[j - 1]);
                    if i > 0 {
                        assert(all[i] == rest[i - 1]);
                    }
                }
            },
            _ => {
                assert(all == rest);
            },
        }
    }
}

} // verus!
