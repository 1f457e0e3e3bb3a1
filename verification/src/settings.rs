use vstd::prelude::*;

verus! {

/// Thirty minutes of work before a rest is due.
pub const DEFAULT_WORK_SECS: u32 = 1800;

/// Two minutes of rest.
pub const DEFAULT_REST_SECS: u32 = 120;

/// Ten presses of the escape key end a rest early.
pub const DEFAULT_ESCAPE_COUNT: u32 = 10;

/// The user's preferences as they are stored. Nothing is checked here:
/// a stored value may be zero, and [`crate::timer::TimerConfig`] refuses it.
#[derive(Clone, Copy, Debug, PartialEq, Eq, Structural)]
pub struct Settings {
    pub work_secs: u32,
    pub rest_secs: u32,
    pub escape_count: u32,
}

/// The work duration used when none is stored.
#[inline]
pub fn default_work_secs() -> (secs: u32)
    ensures
        secs == DEFAULT_WORK_SECS,
{
    DEFAULT_WORK_SECS
}

/// The rest duration used when none is stored.
#[inline]
pub fn default_rest_secs() -> (secs: u32)
    ensures
        secs == DEFAULT_REST_SECS,
{
    DEFAULT_REST_SECS
}

/// The escape count used when none is stored.
#[inline]
pub fn default_escape_count() -> (count: u32)
    ensures
        count == DEFAULT_ESCAPE_COUNT,
{
    DEFAULT_ESCAPE_COUNT
}

impl Settings {
    /// The settings of a fresh installation.
    pub open spec fn defaults() -> Settings {
        Settings {
            work_secs: DEFAULT_WORK_SECS,
            rest_secs: DEFAULT_REST_SECS,
            escape_count: DEFAULT_ESCAPE_COUNT,
        }
    }

    /// Fills in whatever the stored record leaves out.
    pub open spec fn filled(
        work_secs: Option<u32>,
        rest_secs: Option<u32>,
        escape_count: Option<u32>,
    ) -> Settings {
        Settings {
            work_secs: match work_secs {
                Some(v) => v,
                None => DEFAULT_WORK_SECS,
            },
            rest_secs: match rest_secs {
                Some(v) => v,
                None => DEFAULT_REST_SECS,
            },
            escape_count: match escape_count {
                Some(v) => v,
                None => DEFAULT_ESCAPE_COUNT,
            },
        }
    }

    /// Builds settings from a stored record in which any field may be
    /// missing; a missing field takes its default.
    pub fn from_stored(
        work_secs: Option<u32>,
        rest_secs: Option<u32>,
        escape_count: Option<u32>,
    ) -> (settings: Settings)
        ensures
            settings == Settings::filled(work_secs, rest_secs, escape_count),
    {
        Settings {
            work_secs: match work_secs {
                Some(v) => v,
                None => default_work_secs(),
            },
            rest_secs: match rest_secs {
                Some(v) => v,
                None => default_rest_secs(),
            },
            escape_count: match escape_count {
                Some(v) => v,
                None => default_escape_count(),
            },
        }
    }
}

impl Default for Settings {
    fn default() -> (settings: Settings)
        ensures
            settings == Settings::defaults(),
    {
        Settings {
            work_secs: DEFAULT_WORK_SECS,
            rest_secs: DEFAULT_REST_SECS,
            escape_count: DEFAULT_ESCAPE_COUNT,
        }
    }
}

} // verus!
