use crate::cancel::{cancel_token, new_token, share_token, token_is_cancelled};
use crate::message::{Message, Posting, PostingView};
use tokio_util::sync::CancellationToken;
use vstd::prelude::*;

verus! {

/// The state of a work counter as a mathematical value.
pub struct CounterView {
    /// Seconds counted so far.
    pub count_secs: u32,
    /// The work duration that the next start will use.
    pub work_secs: u32,
    /// The work duration that the running count was started with.
    pub target_secs: u32,
    pub paused: bool,
    /// Whether a count was started and not closed since.
    pub started: bool,
}

/// A work counter that is driven one second at a time. It holds no clock
/// of its own: whoever drives it waits a second and calls
/// [`Counter::second_passed`], then sends what comes back. The driver can
/// be stopped from anywhere through the cancellation token of the count.
#[derive(Debug)]
pub struct Counter {
    count_secs: u32,
    work_secs: u32,
    target_secs: u32,
    paused: bool,
    cancel_token: Option<CancellationToken>,
}

/// The count one second later. It wraps at the end of the range.
pub open spec fn next_count(count_secs: u32) -> u32 {
    if count_secs == u32::MAX {
        0
    } else {
        (count_secs + 1) as u32
    }
}

/// What one second does to a counter: nothing while it is paused or once
/// it is cancelled, one more second otherwise.
pub open spec fn counter_after_second(c: CounterView, cancelled: bool) -> CounterView {
    if c.paused || cancelled {
        c
    } else {
        CounterView { count_secs: next_count(c.count_secs), ..c }
    }
}

/// What a counter sends after one second. A paused counter sends nothing
/// and goes on, whether it is cancelled or not; a cancelled one stops.
pub open spec fn counter_posting(c: CounterView, cancelled: bool) -> PostingView {
    if c.paused {
        PostingView { to_window: seq![], to_app: None, go_on: true }
    } else if cancelled {
        PostingView { to_window: seq![], to_app: None, go_on: false }
    } else if next_count(c.count_secs) == c.target_secs {
        PostingView {
            to_window: seq![Message::Update(next_count(c.count_secs)), Message::Close],
            to_app: Some(Message::CounterEnd),
            go_on: false,
        }
    } else {
        PostingView {
            to_window: seq![Message::Update(next_count(c.count_secs))],
            to_app: None,
            go_on: true,
        }
    }
}

impl View for Counter {
    type V = CounterView;

    closed spec fn view(&self) -> CounterView {
        CounterView {
            count_secs: self.count_secs,
            work_secs: self.work_secs,
            target_secs: self.target_secs,
            paused: self.paused,
            started: self.cancel_token.is_some(),
        }
    }
}

impl Counter {
    /// A counter that was not started yet.
    pub fn new(work_secs: u32) -> (counter: Counter)
        ensures
            counter@ == (CounterView {
                count_secs: 0,
                work_secs,
                target_secs: work_secs,
                paused: false,
                started: false,
            }),
    {
        Counter {
            count_secs: 0,
            work_secs,
            target_secs: work_secs,
            paused: false,
            cancel_token: None,
        }
    }

    /// Whether the count is frozen.
    pub fn is_paused(&self) -> (paused: bool)
        ensures
            paused == self@.paused,
    {
        self.paused
    }

    /// Seconds counted so far.
    pub fn count_secs(&self) -> (secs: u32)
        ensures
            secs == self@.count_secs,
    {
        self.count_secs
    }

    /// Sets the work duration for the next start. A count that is running
    /// keeps the duration it was started with.
    pub fn set_work_secs(&mut self, work_secs: u32)
        ensures
            final(self)@ == (CounterView { work_secs, ..old(self)@ }),
    {
        self.work_secs = work_secs;
    }

    /// Starts a count from zero. A count that was running is closed first;
    /// the message for its window comes back, together with a handle on the
    /// new count's cancellation token for whoever drives it.
    pub fn start(&mut self) -> (started: (Option<Message>, CancellationToken))
        ensures
            started.0 == if old(self)@.started {
                Some(Message::Close)
            } else {
                None
            },
            final(self)@ == (CounterView {
                count_secs: 0,
                target_secs: old(self)@.work_secs,
                started: true,
                ..old(self)@
            }),
    {
        let to_previous_window = self.close();
        let token = new_token();
        let handle = share_token(&token);
        self.count_secs = 0;
        self.target_secs = self.work_secs;
        self.cancel_token = Some(token);
        (to_previous_window, handle)
    }

    /// Closes a running count: cancels its token, and returns the message
    /// for its window. Returns `None` when nothing was running.
    pub fn close(&mut self) -> (to_window: Option<Message>)
        ensures
            to_window == if old(self)@.started {
                Some(Message::Close)
            } else {
                None
            },
            final(self)@ == (CounterView { started: false, ..old(self)@ }),
    {
        match self.cancel_token.take() {
            Some(token) => {
                cancel_token(&token);
                Some(Message::Close)
            },
            None => None,
        }
    }

    /// Sets the count back to zero.
    pub fn reset(&mut self)
        ensures
            final(self)@ == (CounterView { count_secs: 0, ..old(self)@ }),
    {
        self.count_secs = 0;
    }

    /// Freezes the count.
    pub fn pause(&mut self)
        ensures
            final(self)@ == (CounterView { paused: true, ..old(self)@ }),
    {
        self.paused = true;
    }

    /// Lets a frozen count run again.
    pub fn resume(&mut self)
        ensures
            final(self)@ == (CounterView { paused: false, ..old(self)@ }),
    {
        self.paused = false;
    }

    /// One second went by, and the driver's token reads `cancelled`. A
    /// paused counter sends nothing and goes on; a cancelled one stops.
    /// Otherwise the count grows by one and is sent to the window, and when
    /// it reaches the work duration the window is closed, the application
    /// is told, and the counter stops.
    pub fn advance(&mut self, cancelled: bool) -> (posting: Posting)
        ensures
            final(self)@ == counter_after_second(old(self)@, cancelled),
            posting@ == counter_posting(old(self)@, cancelled),
    {
        let mut to_window: Vec<Message> = Vec::new();
        if self.paused {
            return Posting { to_window, to_app: None, go_on: true };
        }
        if cancelled {
            return Posting { to_window, to_app: None, go_on: false };
        }
        let secs = self.count_secs.wrapping_add(1);
        self.count_secs = secs;
        to_window.push(Message::Update(secs));
        if secs == self.target_secs {
            to_window.push(Message::Close);
            assert(to_window@ =~= seq![Message::Update(secs), Message::Close]);
            Posting { to_window, to_app: Some(Message::CounterEnd), go_on: false }
        } else {
            Posting { to_window, to_app: None, go_on: true }
        }
    }

    /// One second went by: reads the driver's token and advances. Whether
    /// the token was cancelled is decided elsewhere, so the outcome is that
    /// of [`Counter::advance`] for one of the two readings.
    pub fn second_passed(&mut self, cancel: &CancellationToken) -> (posting: Posting)
        ensures
            ({
                let before = old(self)@;
                ||| (final(self)@ == counter_after_second(before, false) && posting@
                    == counter_posting(before, false))
                ||| (final(self)@ == counter_after_second(before, true) && posting@
                    == counter_posting(before, true))
            }),
    {
        let cancelled = token_is_cancelled(cancel);
        self.advance(cancelled)
    }
}

} // verus!
