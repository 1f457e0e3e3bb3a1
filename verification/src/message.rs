use vstd::prelude::*;

verus! {

/// What the seconds-driven workers and their windows tell each other.
#[derive(Clone, Copy, Debug, PartialEq, Eq, Structural)]
pub enum Message {
    /// The window should close.
    Close,
    /// The count changed to this many seconds.
    Update(u32),
    /// The work time is over.
    CounterEnd,
    /// The rest was acknowledged.
    BlockerEnd,
}

/// What a worker has to send after one second went by, and whether it goes
/// on after that.
#[derive(Debug)]
pub struct Posting {
    /// Messages for the worker's own window, in sending order.
    pub to_window: Vec<Message>,
    /// A message for the application, if any.
    pub to_app: Option<Message>,
    /// Whether the worker waits for another second.
    pub go_on: bool,
}

/// A posting as a mathematical value.
pub struct PostingView {
    pub to_window: Seq<Message>,
    pub to_app: Option<Message>,
    pub go_on: bool,
}

impl View for Posting {
    type V = PostingView;

    open spec fn view(&self) -> PostingView {
        PostingView { to_window: self.to_window@, to_app: self.to_app, go_on: self.go_on }
    }
}

} // verus!
