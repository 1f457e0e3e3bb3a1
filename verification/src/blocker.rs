use crate::cancel::{cancel_token, new_token, share_token, token_is_cancelled};
use crate::clock::{clock_text, push_clock};
use crate::message::{Message, Posting, PostingView};
use tokio_util::sync::CancellationToken;
use vstd::prelude::*;
use vstd::string::StringExecFns;

verus! {

/// The state of a rest countdown as a mathematical value.
pub struct BlockerView {
    /// The rest duration that the next start will use.
    pub rest_secs: u32,
    /// Seconds that are left.
    pub count_secs: u32,
    /// Whether a countdown was started and not closed since.
    pub started: bool,
}

/// A rest countdown that is driven one second at a time, like
/// [`crate::counter::Counter`].
#[derive(Debug)]
pub struct Blocker {
    rest_secs: u32,
    count_secs: u32,
    cancel_token: Option<CancellationToken>,
}

/// The countdown one second later. It wraps below zero.
pub open spec fn previous_count(count_secs: u32) -> u32 {
    if count_secs == 0 {
        u32::MAX
    } else {
        (count_secs - 1) as u32
    }
}

/// What one second does to a countdown: nothing once it is cancelled, one
/// second less otherwise.
pub open spec fn blocker_after_second(b: BlockerView, cancelled: bool) -> BlockerView {
    if cancelled {
        b
    } else {
        BlockerView { count_secs: previous_count(b.count_secs), ..b }
    }
}

/// What a countdown sends after one second.
pub open spec fn blocker_posting(b: BlockerView, cancelled: bool) -> PostingView {
    if cancelled {
        PostingView { to_window: seq![], to_app: None, go_on: false }
    } else {
        PostingView {
            to_window: seq![Message::Update(previous_count(b.count_secs))],
            to_app: None,
            go_on: previous_count(b.count_secs) > 0,
        }
    }
}

impl View for Blocker {
    type V = BlockerView;

    closed spec fn view(&self) -> BlockerView {
        BlockerView {
            rest_secs: self.rest_secs,
            count_secs: self.count_secs,
            started: self.cancel_token.is_some(),
        }
    }
}

impl Blocker {
    /// A countdown that was not started yet.
    pub fn new(rest_secs: u32) -> (blocker: Blocker)
        ensures
            blocker@ == (BlockerView { rest_secs, count_secs: 0, started: false }),
    {
        Blocker { rest_secs, count_secs: 0, cancel_token: None }
    }

    /// Seconds that are left.
    pub fn count_secs(&self) -> (secs: u32)
        ensures
            secs == self@.count_secs,
    {
        self.count_secs
    }

    /// Sets the rest duration for the next start.
    pub fn set_rest_secs(&mut self, rest_secs: u32)
        ensures
            final(self)@ == (BlockerView { rest_secs, ..old(self)@ }),
    {
        self.rest_secs = rest_secs;
    }

    /// Starts a countdown from the rest duration. A countdown that was
    /// running is closed first; the message for its window comes back,
    /// together with a handle on the new countdown's cancellation token for
    /// whoever drives it.
    pub fn start(&mut self) -> (started: (Option<Message>, CancellationToken))
        ensures
            started.0 == if old(self)@.started {
                Some(Message::Close)
            } else {
                None
            },
            final(self)@ == (BlockerView {
                count_secs: old(self)@.rest_secs,
                started: true,
                ..old(self)@
            }),
    {
        let to_previous_window = self.close();
        let token = new_token();
        let handle = share_token(&token);
        self.count_secs = self.rest_secs;
        self.cancel_token = Some(token);
        (to_previous_window, handle)
    }

    /// Closes a running countdown: cancels its token, and returns the
    /// message for its window. Returns `None` when nothing was running.
    pub fn close(&mut self) -> (to_window: Option<Message>)
        ensures
            to_window == if old(self)@.started {
                Some(Message::Close)
            } else {
                None
            },
            final(self)@ == (BlockerView { started: false, ..old(self)@ }),
    {
        match self.cancel_token.take() {
            Some(token) => {
                cancel_token(&token);
                Some(Message::Close)
            },
            None => None,
        }
    }

    /// One second went by: reads the driver's token and advances. Whether
    /// the token was cancelled is decided elsewhere, so the outcome is that
    /// of [`Blocker::advance`] for one of the two readings.
    pub fn second_passed(&mut self, cancel: &CancellationToken) -> (posting: Posting)
        ensures
            ({
                let before = old(self)@;
                ||| (final(self)@ == blocker_after_second(before, false) && posting@
                    == blocker_posting(before, false))
                ||| (final(self)@ == blocker_after_second(before, true) && posting@
                    == blocker_posting(before, true))
            }),
    {
        let cancelled = token_is_cancelled(cancel);
        self.advance(cancelled)
    }

    /// One second went by, and the driver's token reads `cancelled`. A
    /// cancelled countdown stops. Otherwise one second less is left and is
    /// sent to the window, and the countdown goes on while anything is
    /// left.
    pub fn advance(&mut self, cancelled: bool) -> (posting: Posting)
        ensures
            final(self)@ == blocker_after_second(old(self)@, cancelled),
            posting@ == blocker_posting(old(self)@, cancelled),
    {
        let mut to_window: Vec<Message> = Vec::new();
        if cancelled {
            return Posting { to_window, to_app: None, go_on: false };
        }
        let secs = self.count_secs.wrapping_sub(1);
        self.count_secs = secs;
        to_window.push(Message::Update(secs));
        Posting { to_window, to_app: None, go_on: secs > 0 }
    }
}

/// What the rest window knows: the seconds that are left and whether it
/// was told to close.
#[derive(Clone, Copy, Debug, PartialEq, Eq, Structural)]
pub struct RestWindow {
    pub count_secs: u32,
    pub closing: bool,
}

/// The rest window after a message: an update sets the count, a close
/// marks the window as closing, anything else is not for it.
pub open spec fn window_received(w: RestWindow, message: Message) -> RestWindow {
    match message {
        Message::Close => RestWindow { closing: true, ..w },
        Message::Update(secs) => RestWindow { count_secs: secs, ..w },
        _ => w,
    }
}

/// The line that the rest window shows.
pub open spec fn window_text(count_secs: u32) -> Seq<char> {
    if count_secs == 0 {
        "休息结束，滑动鼠标解锁"@
    } else {
        "正在休息中，"@ + clock_text((count_secs / 60) as nat, (count_secs % 60) as nat)
            + " 后解锁"@
    }
}

impl RestWindow {
    /// A window that opens with `count_secs` left.
    pub fn new(count_secs: u32) -> (window: RestWindow)
        ensures
            window == (RestWindow { count_secs, closing: false }),
    {
        RestWindow { count_secs, closing: false }
    }

    /// Takes in one message from the countdown.
    pub fn receive(&mut self, message: Message)
        ensures
            *final(self) == window_received(*old(self), message),
    {
        match message {
            Message::Close => {
                self.closing = true;
            },
            Message::Update(secs) => {
                self.count_secs = secs;
            },
            _ => {},
        }
    }

    /// The line to show: the time left, or the prompt to unlock once
    /// nothing is left.
    pub fn text(&self) -> (text: String)
        ensures
            text@ == window_text(self.count_secs),
    {
        if self.count_secs == 0 {
            String::from_str("休息结束，滑动鼠标解锁")
        } else {
            let mut text = String::from_str("正在休息中，");
            push_clock(&mut text, (self.count_secs / 60) as u64, (self.count_secs % 60) as u64);
            text.append(" 后解锁");
            text
        }
    }

    /// The message for the application once the user clicked the window.
    pub fn clicked(&self) -> (to_app: Message)
        ensures
            to_app == Message::BlockerEnd,
    {
        Message::BlockerEnd
    }
}

} // verus!
