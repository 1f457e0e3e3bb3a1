use vstd::prelude::*;

verus! {

/// What can go wrong when a session is set up.
#[derive(Clone, Copy, Debug, PartialEq, Eq, Structural)]
pub enum TimerError {
    /// A duration or the escape threshold is zero.
    Configuration,
    /// No usable primary display was reported.
    DisplayUnavailable,
}

impl TimerError {
    /// A short human-readable description.
    pub fn message(&self) -> (text: &'static str)
        ensures
            text@ == match *self {
                TimerError::Configuration => "durations and escape threshold must be positive"@,
                TimerError::DisplayUnavailable => "no usable primary display"@,
            },
    {
        match self {
            TimerError::Configuration => "durations and escape threshold must be positive",
            TimerError::DisplayUnavailable => "no usable primary display",
        }
    }
}

} // verus!
