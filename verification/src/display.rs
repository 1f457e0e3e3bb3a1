use crate::error::TimerError;
use crate::timer::Phase;
use vstd::arithmetic::div_mod::{lemma_div_nonincreasing, lemma_div_pos_is_pos};
use vstd::prelude::*;

verus! {

/// Width of the counting widget, in physical pixels.
pub const WIDGET_WIDTH: u32 = 142;

/// Height of the counting widget, in physical pixels.
pub const WIDGET_HEIGHT: u32 = 70;

/// Gap between the widget and the right edge of the display.
pub const WIDGET_MARGIN_RIGHT: u32 = 30;

/// Gap between the widget and the bottom edge of the display.
pub const WIDGET_MARGIN_BOTTOM: u32 = 80;

/// A display as a mathematical value: its origin and size in physical
/// pixels and its scale factor in thousandths (1250 stands for 1.25).
pub struct Geometry {
    pub x: int,
    pub y: int,
    pub width: nat,
    pub height: nat,
    pub scale_permille: nat,
    pub is_primary: bool,
}

/// A display that overlays can be placed on. Its scale factor is never
/// zero, so every measurement on it can be divided by the scale.
#[derive(Clone, Copy, Debug, PartialEq, Eq)]
pub struct DisplayGeometry {
    x: i32,
    y: i32,
    width: u32,
    height: u32,
    scale_permille: u32,
    is_primary: bool,
}

/// A rectangle in logical pixels: physical pixels divided by the scale
/// factor of the display it lies on.
#[derive(Clone, Copy, Debug, PartialEq, Eq, Structural)]
pub struct Rect {
    pub x: i64,
    pub y: i64,
    pub width: u64,
    pub height: u64,
}

/// Where the overlays go: one on the primary display, and while the user
/// rests a second one on the secondary display, if there is one.
#[derive(Clone, Copy, Debug, PartialEq, Eq)]
pub struct LayoutPlan {
    pub primary: Rect,
    pub secondary: Option<Rect>,
}

impl View for DisplayGeometry {
    type V = Geometry;

    closed spec fn view(&self) -> Geometry {
        Geometry {
            x: self.x as int,
            y: self.y as int,
            width: self.width as nat,
            height: self.height as nat,
            scale_permille: self.scale_permille as nat,
            is_primary: self.is_primary,
        }
    }
}

/// A physical length in logical pixels: multiplied by a thousand and
/// divided by the scale in thousandths, rounded towards zero.
pub open spec fn to_logical(px: int, scale_permille: nat) -> int {
    if px >= 0 {
        px * 1000 / (scale_permille as int)
    } else {
        -((-px) * 1000 / (scale_permille as int))
    }
}

/// The rectangle that covers the whole display.
pub open spec fn screen_rect(g: Geometry) -> Rect {
    Rect {
        x: to_logical(g.x, g.scale_permille) as i64,
        y: to_logical(g.y, g.scale_permille) as i64,
        width: to_logical(g.width as int, g.scale_permille) as u64,
        height: to_logical(g.height as int, g.scale_permille) as u64,
    }
}

/// The small widget near the bottom right corner of the display.
pub open spec fn widget_rect(g: Geometry) -> Rect {
    let s = g.scale_permille;
    let width = to_logical(WIDGET_WIDTH as int, s);
    let height = to_logical(WIDGET_HEIGHT as int, s);
    let right = to_logical(WIDGET_MARGIN_RIGHT as int, s);
    let bottom = to_logical(WIDGET_MARGIN_BOTTOM as int, s);
    Rect {
        x: (to_logical(g.x, s) + to_logical(g.width as int, s) - width - right) as i64,
        y: (to_logical(g.y, s) + to_logical(g.height as int, s) - bottom - height) as i64,
        width: width as u64,
        height: height as u64,
    }
}

/// The layout of each phase: the widget while counting, full-screen
/// overlays on every known display otherwise.
pub open spec fn layout(phase: Phase, primary: Geometry, secondary: Option<Geometry>) -> LayoutPlan {
    match phase {
        Phase::Counting => LayoutPlan { primary: widget_rect(primary), secondary: None },
        _ => LayoutPlan {
            primary: screen_rect(primary),
            secondary: match secondary {
                Some(g) => Some(screen_rect(g)),
                None => None,
            },
        },
    }
}

/// The first display of `displays` that is (or is not) the primary one.
pub open spec fn first_with(displays: Seq<DisplayGeometry>, primary: bool) -> Option<
    DisplayGeometry,
>
    decreases displays.len(),
{
    if displays.len() == 0 {
        None
    } else if displays[0]@.is_primary == primary {
        Some(displays[0])
    } else {
        first_with(displays.subrange(1, displays.len() as int), primary)
    }
}

/// A logical length stays within sixty-four signed bits whenever the
/// physical one fits in thirty-two.
pub proof fn lemma_logical_bounds(px: int, scale_permille: nat)
    requires
        -0x1_0000_0000 <= px <= 0x1_0000_0000,
        scale_permille > 0,
    ensures
        -0x1_0000_0000 * 1000 <= to_logical(px, scale_permille) <= 0x1_0000_0000 * 1000,
        px >= 0 ==> to_logical(px, scale_permille) >= 0,
        px <= 0 ==> to_logical(px, scale_permille) <= 0,
{
    let d = scale_permille as int;
    if px >= 0 {
        lemma_div_nonincreasing(px * 1000, d);
        lemma_div_pos_is_pos(px * 1000, d);
    } else {
        lemma_div_nonincreasing((-px) * 1000, d);
        lemma_div_pos_is_pos((-px) * 1000, d);
    }
}

fn scale_length(px: u32, scale_permille: u32) -> (logical: u64)
    requires
        scale_permille > 0,
    ensures
        logical == to_logical(px as int, scale_permille as nat),
        logical <= 0x1_0000_0000 * 1000,
{
    proof {
        lemma_logical_bounds(px as int, scale_permille as nat);
    }
    (px as u64) * 1000 / (scale_permille as u64)
}

fn scale_offset(px: i32, scale_permille: u32) -> (logical: i64)
    requires
        scale_permille > 0,
    ensures
        logical == to_logical(px as int, scale_permille as nat),
        -0x1_0000_0000 * 1000 <= logical <= 0x1_0000_0000 * 1000,
{
    proof {
        lemma_logical_bounds(px as int, scale_permille as nat);
    }
    if px >= 0 {
        ((px as u64) * 1000 / (scale_permille as u64)) as i64
    } else {
        let magnitude: u64 = (-(px as i64)) as u64;
        -((magnitude * 1000 / (scale_permille as u64)) as i64)
    }
}

impl DisplayGeometry {
    #[verifier::type_invariant]
    spec fn usable(&self) -> bool {
        self.scale_permille > 0
    }

    /// Describes a display. A display that reports a scale factor of zero
    /// cannot carry an overlay and is refused.
    pub fn new(
        x: i32,
        y: i32,
        width: u32,
        height: u32,
        scale_permille: u32,
        is_primary: bool,
    ) -> (display: Result<DisplayGeometry, TimerError>)
        ensures
            match display {
                Ok(d) => scale_permille > 0 && d@ == (Geometry {
                    x: x as int,
                    y: y as int,
                    width: width as nat,
                    height: height as nat,
                    scale_permille: scale_permille as nat,
                    is_primary,
                }),
                Err(e) => scale_permille == 0 && e == TimerError::DisplayUnavailable,
            },
    {
        if scale_permille == 0 {
            Err(TimerError::DisplayUnavailable)
        } else {
            Ok(DisplayGeometry { x, y, width, height, scale_permille, is_primary })
        }
    }

    /// Left edge, in physical pixels.
    pub fn x(&self) -> (v: i32)
        ensures
            v == self@.x,
    {
        self.x
    }

    /// Top edge, in physical pixels.
    pub fn y(&self) -> (v: i32)
        ensures
            v == self@.y,
    {
        self.y
    }

    /// Width, in physical pixels.
    pub fn width(&self) -> (v: u32)
        ensures
            v == self@.width,
    {
        self.width
    }

    /// Height, in physical pixels.
    pub fn height(&self) -> (v: u32)
        ensures
            v == self@.height,
    {
        self.height
    }

    /// Scale factor in thousandths; never zero.
    pub fn scale_permille(&self) -> (v: u32)
        ensures
            v == self@.scale_permille,
            v > 0,
    {
        proof {
            use_type_invariant(self);
        }
        self.scale_permille
    }

    /// Whether this is the primary display.
    pub fn is_primary(&self) -> (v: bool)
        ensures
            v == self@.is_primary,
    {
        self.is_primary
    }

    /// The rectangle that covers this display.
    pub fn full_screen(&self) -> (rect: Rect)
        ensures
            rect == screen_rect(self@),
    {
        let s = self.scale_permille();
        Rect {
            x: scale_offset(self.x, s),
            y: scale_offset(self.y, s),
            width: scale_length(self.width, s),
            height: scale_length(self.height, s),
        }
    }

    /// The counting widget's rectangle on this display.
    pub fn widget(&self) -> (rect: Rect)
        ensures
            rect == widget_rect(self@),
    {
        let s = self.scale_permille();
        let width = scale_length(WIDGET_WIDTH, s);
        let height = scale_length(WIDGET_HEIGHT, s);
        let right = scale_length(WIDGET_MARGIN_RIGHT, s);
        let bottom = scale_length(WIDGET_MARGIN_BOTTOM, s);
        let screen_width = scale_length(self.width, s);
        let screen_height = scale_length(self.height, s);
        let x = scale_offset(self.x, s) + (screen_width as i64) - (width as i64) - (right as i64);
        let y = scale_offset(self.y, s) + (screen_height as i64) - (bottom as i64) - (height as i64);
        Rect { x, y, width, height }
    }
}

/// Computes where the overlays go in `phase`. While counting this is the
/// widget on the primary display and nothing else; otherwise the primary
/// display is covered, and the secondary one too when it is given.
pub fn resolve(
    phase: Phase,
    primary: &DisplayGeometry,
    secondary: Option<&DisplayGeometry>,
) -> (plan: LayoutPlan)
    ensures
        plan == layout(
            phase,
            primary@,
            match secondary {
                Some(d) => Some(d@),
                None => None,
            },
        ),
{
    match phase {
        Phase::Counting => LayoutPlan { primary: primary.widget(), secondary: None },
        _ => LayoutPlan {
            primary: primary.full_screen(),
            secondary: match secondary {
                Some(d) => Some(d.full_screen()),
                None => None,
            },
        },
    }
}

/// Picks the primary display: the first one that says it is. Without one
/// no layout can be computed, and none is guessed.
pub fn select_primary(displays: &Vec<DisplayGeometry>) -> (found: Result<
    DisplayGeometry,
    TimerError,
>)
    ensures
        match found {
            Ok(d) => first_with(displays@, true) == Some(d),
            Err(e) => first_with(displays@, true).is_none() && e == TimerError::DisplayUnavailable,
        },
{
    match find_first(displays, true) {
        Some(d) => Ok(d),
        None => Err(TimerError::DisplayUnavailable),
    }
}

/// Picks the secondary display: the first one that is not the primary.
pub fn select_secondary(displays: &Vec<DisplayGeometry>) -> (found: Option<DisplayGeometry>)
    ensures
        found == first_with(displays@, false),
{
    find_first(displays, false)
}

fn find_first(displays: &Vec<DisplayGeometry>, primary: bool) -> (found: Option<DisplayGeometry>)
    ensures
        found == first_with(displays@, primary),
{
    let mut i: usize = 0;
    assert(displays@.subrange(0, displays@.len() as int) =~= displays@);
    while i < displays.len()
        invariant
            i <= displays.len(),
            first_with(displays@, primary) == first_with(
                displays@.subrange(i as int, displays@.len() as int),
                primary,
            ),
        decreases displays.len() - i,
    {
        let ghost rest = displays@.subrange(i as int, displays@.len() as int);
        if displays[i].is_primary() == primary {
            return Some(displays[i]);
        }
        assert(rest.subrange(1, rest.len() as int) =~= displays@.subrange(
            i as int + 1,
            displays@.len() as int,
        ));
        i += 1;
    }
    None
}

} // verus!
