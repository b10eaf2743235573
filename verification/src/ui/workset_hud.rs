//! Transient overlay naming the Workset that was just activated.
//!
//! Worksets share a Space, so switching between them changes which windows
//! are on screen without any of the cues a Space switch gives. The overlay
//! is that cue: it names the Workset, then fades out on its own.

use vstd::prelude::*;

use crate::sys::geometry;
use crate::sys::geometry::{Arithmetic, CGFloat, CGPoint, CGRect, CGSize};
use crate::ui::color::Color;

verus! {

/// The bit pattern of the panel's width, 260.
pub const WIDTH_BITS: u64 = 0x4070_4000_0000_0000;

/// The bit pattern of the panel's height, 96.
pub const HEIGHT_BITS: u64 = 0x4058_0000_0000_0000;

/// The bit pattern of the corner radius of the panel's rounded rectangle, 18.
pub const CORNER_RADIUS_BITS: u64 = 0x4032_0000_0000_0000;

/// The bit pattern of the label's distance from the bottom, 30.
pub const LABEL_Y_BITS: u64 = 0x403e_0000_0000_0000;

/// The bit pattern of the label's height, 40.
pub const LABEL_HEIGHT_BITS: u64 = 0x4044_0000_0000_0000;

/// The bit pattern of the label's font size, 28.
pub const FONT_SIZE_BITS: u64 = 0x403c_0000_0000_0000;

/// The bit pattern of 2.
pub const TWO_BITS: u64 = 0x4000_0000_0000_0000;

/// For how many milliseconds the overlay is fully visible.
pub const HOLD_MS: u64 = 900;

/// In how many milliseconds it then fades out.
pub const FADE_MS: u64 = 300;

/// What the overlay looks like.
#[derive(Debug, Clone, Copy, PartialEq)]
pub struct HudLook {
    /// The panel at the origin.
    pub panel: CGRect,
    /// The label in the panel.
    pub label: CGRect,
    pub corner_radius: CGFloat,
    pub font_size: CGFloat,
    /// Above normal windows but below the group bars, so it never hides a
    /// layout cue the user is acting on.
    pub window_level: isize,
    pub backdrop: Color,
    /// Whether the window comes without a frame of its own.
    pub borderless: bool,
    /// Whether the window hides all that is behind it. One that does not shows
    /// nothing outside the backdrop, as long as its background is clear.
    pub opaque: bool,
    pub clear_background: bool,
    /// Whether the mouse reaches what is behind the window.
    pub ignores_mouse: bool,
    /// Whether closing the window releases it.
    pub released_when_closed: bool,
    /// Whether the rounded corners cut off what is in them.
    pub masks_to_bounds: bool,
    pub label_centered: bool,
    pub label_white: bool,
    pub label_bold: bool,
}

/// A rectangle at x zero, by the bit patterns of its other measures.
pub open spec fn rect_of(y: u64, width: u64, height: u64) -> CGRect {
    CGRect {
        origin: CGPoint { x: CGFloat { bits: 0 }, y: CGFloat { bits: y } },
        size: CGSize { width: CGFloat { bits: width }, height: CGFloat { bits: height } },
    }
}

/// The look of the overlay: a dark rounded panel that floats above normal
/// windows and does not catch the mouse, with a bold white label that runs
/// across the whole of it.
pub open spec fn overlay_look() -> HudLook {
    HudLook {
        panel: rect_of(0, WIDTH_BITS, HEIGHT_BITS),
        label: rect_of(LABEL_Y_BITS, WIDTH_BITS, LABEL_HEIGHT_BITS),
        corner_radius: CGFloat { bits: CORNER_RADIUS_BITS },
        font_size: CGFloat { bits: FONT_SIZE_BITS },
        window_level: 3,
        backdrop: Color { red: 8, green: 8, blue: 10, alpha: 92 },
        borderless: true,
        opaque: false,
        clear_background: true,
        ignores_mouse: true,
        released_when_closed: false,
        masks_to_bounds: true,
        label_centered: true,
        label_white: true,
        label_bold: true,
    }
}

/// A reusable overlay panel that names the active Workset.
#[derive(Debug)]
pub struct WorksetHud {
    pub look: HudLook,
    pub label: String,
    /// The lower left corner of the panel, in Cocoa coordinates.
    pub origin: CGPoint,
    /// The opacity of the panel, in hundredths.
    pub alpha: u8,
    pub on_screen: bool,
}

/// `r` is where a panel begins that leaves as much room on either side: half
/// the difference of the extents away from the start.
pub open spec fn is_centered<A: Arithmetic>(
    arith: &A,
    start: CGFloat,
    extent: CGFloat,
    panel: CGFloat,
    r: CGFloat,
) -> bool {
    exists|room: CGFloat, margin: CGFloat|
        {
            &&& #[trigger] geometry::is_difference(arith, extent, panel, room)
            &&& #[trigger] geometry::is_quotient(arith, room, (CGFloat { bits: TWO_BITS }), margin)
            &&& geometry::is_sum(arith, start, margin, r)
        }
}

/// `origin` centers the overlay in a screen's visible frame.
pub open spec fn is_centered_in<A: Arithmetic>(
    arith: &A,
    visible: CGRect,
    origin: CGPoint,
) -> bool {
    let width = CGFloat { bits: WIDTH_BITS };
    let height = CGFloat { bits: HEIGHT_BITS };
    &&& is_centered(arith, visible.origin.x, visible.size.width, width, origin.x)
    &&& is_centered(arith, visible.origin.y, visible.size.height, height, origin.y)
}

fn center<A: Arithmetic>(arith: &A, start: CGFloat, extent: CGFloat, panel: CGFloat) -> (r: CGFloat)
    ensures
        is_centered(arith, start, extent, panel, r),
{
    let room = arith.minus(extent, panel);
    let margin = arith.divide(room, CGFloat { bits: TWO_BITS });
    assert(geometry::is_difference(arith, extent, panel, room));
    assert(geometry::is_quotient(arith, room, CGFloat { bits: TWO_BITS }, margin));
    arith.plus(start, margin)
}

impl WorksetHud {
    /// An overlay that names nothing and is not on screen.
    pub fn new() -> (hud: WorksetHud)
        ensures
            hud.look == overlay_look(),
            hud.label@.len() == 0,
            hud.origin == overlay_look().panel.origin,
            hud.alpha == 100,
            !hud.on_screen,
    {
        let look = WorksetHud::look();
        WorksetHud {
            look,
            label: String::new(),
            origin: look.panel.origin,
            alpha: 100,
            on_screen: false,
        }
    }

    /// What the overlay looks like.
    pub fn look() -> (look: HudLook)
        ensures
            look == overlay_look(),
    {
        let zero = CGFloat { bits: 0 };
        let width = CGFloat { bits: WIDTH_BITS };
        HudLook {
            panel: CGRect {
                origin: CGPoint { x: zero, y: zero },
                size: CGSize { width, height: CGFloat { bits: HEIGHT_BITS } },
            },
            label: CGRect {
                origin: CGPoint { x: zero, y: CGFloat { bits: LABEL_Y_BITS } },
                size: CGSize { width, height: CGFloat { bits: LABEL_HEIGHT_BITS } },
            },
            corner_radius: CGFloat { bits: CORNER_RADIUS_BITS },
            font_size: CGFloat { bits: FONT_SIZE_BITS },
            window_level: 3,
            backdrop: Color { red: 8, green: 8, blue: 10, alpha: 92 },
            borderless: true,
            opaque: false,
            clear_background: true,
            ignores_mouse: true,
            // Closing a window that is still referenced would otherwise
            // release it twice.
            released_when_closed: false,
            masks_to_bounds: true,
            label_centered: true,
            label_white: true,
            label_bold: true,
        }
    }

    /// Shows the overlay naming `workset`, centered on the main screen.
    ///
    /// `visible` is the visible frame of that screen. Without a screen the
    /// overlay stays where it is.
    pub fn show<A: Arithmetic>(&mut self, workset: &str, visible: Option<CGRect>, arith: &A)
        ensures
            final(self).look == old(self).look,
            final(self).label@ == workset@,
            final(self).alpha == 100,
            final(self).on_screen,
            match visible {
                Some(visible) => is_centered_in(arith, visible, final(self).origin),
                None => final(self).origin == old(self).origin,
            },
    {
        self.label = workset.to_owned();
        if let Some(visible) = visible {
            let width = CGFloat { bits: WIDTH_BITS };
            let height = CGFloat { bits: HEIGHT_BITS };
            self.origin = CGPoint {
                x: center(arith, visible.origin.x, visible.size.width, width),
                y: center(arith, visible.origin.y, visible.size.height, height),
            };
        }
        self.on_screen = true;
        self.alpha = 100;
    }

    /// Hides the overlay.
    pub fn hide_overlay(&mut self)
        ensures
            !final(self).on_screen,
            final(self).look == old(self).look,
            final(self).alpha == old(self).alpha,
            final(self).label == old(self).label,
            final(self).origin == old(self).origin,
    {
        self.on_screen = false;
    }

    /// `after` is what becomes of the overlay by a time since it was shown: it
    /// is no more opaque than that time allows, and off screen once it has
    /// faded out. Nothing else changes.
    pub open spec fn faded(self, elapsed_ms: int, after: WorksetHud) -> bool {
        &&& after.alpha == if self.alpha <= opacity_at(elapsed_ms) {
            self.alpha as int
        } else {
            opacity_at(elapsed_ms)
        }
        &&& after.on_screen == (self.on_screen && elapsed_ms < HOLD_MS + FADE_MS)
        &&& after.look == self.look
        &&& after.label == self.label
        &&& after.origin == self.origin
    }

    /// Fades the overlay, given the milliseconds since it was shown.
    ///
    /// Called every now and then after `show`, this takes the overlay off the
    /// screen in the end.
    pub fn fade(&mut self, elapsed_ms: u64)
        ensures
            old(self).faded(elapsed_ms as int, *final(self)),
    {
        let opacity: u8 = if elapsed_ms <= HOLD_MS {
            100
        } else if elapsed_ms < HOLD_MS + FADE_MS {
            (100 * (HOLD_MS + FADE_MS - elapsed_ms) / FADE_MS) as u8
        } else {
            self.on_screen = false;
            0
        };
        if opacity < self.alpha {
            self.alpha = opacity;
        }
    }
}

/// The opacity, in hundredths, that the overlay has at most after a time: all
/// of it at first, then less and less, and none in the end.
pub open spec fn opacity_at(elapsed_ms: int) -> int {
    if elapsed_ms <= HOLD_MS {
        100
    } else if elapsed_ms < HOLD_MS + FADE_MS {
        100 * (HOLD_MS + FADE_MS - elapsed_ms) / FADE_MS as int
    } else {
        0
    }
}

/// The overlay fades out on its own: it keeps its look for a while, never gets
/// more opaque, and is off screen from a fixed time on.
pub proof fn law_overlay_fades_out(shown: WorksetHud, elapsed_ms: int, after: WorksetHud)
    requires
        shown.faded(elapsed_ms, after),
    ensures
        elapsed_ms <= HOLD_MS && shown.alpha <= 100 ==> after == shown,
        after.alpha <= shown.alpha,
        elapsed_ms >= HOLD_MS + FADE_MS ==> !after.on_screen && after.alpha == 0,
        elapsed_ms < HOLD_MS + FADE_MS ==> after.on_screen == shown.on_screen,
{
}

/// How often the overlay is faded on the way does not matter, only when it was
/// last.
pub proof fn law_fading_in_steps_is_fading_once(
    shown: WorksetHud,
    first_ms: int,
    between: WorksetHud,
    last_ms: int,
    after: WorksetHud,
)
    requires
        first_ms <= last_ms,
        shown.faded(first_ms, between),
        between.faded(last_ms, after),
    ensures
        opacity_at(last_ms) <= opacity_at(first_ms),
        shown.faded(last_ms, after),
{
}

/// A centered panel has as much room before it as after it, wherever the
/// arithmetic is exact. `value` is the number that a double stands for.
pub proof fn law_centered_panel_has_equal_margins<A: Arithmetic>(
    arith: &A,
    start: CGFloat,
    extent: CGFloat,
    panel: CGFloat,
    r: CGFloat,
    value: spec_fn(CGFloat) -> int,
)
    requires
        is_centered(arith, start, extent, panel, r),
        forall|room: CGFloat| #[trigger]
            geometry::is_difference(arith, extent, panel, room) ==> value(room) == value(extent)
                - value(panel),
        forall|room: CGFloat, margin: CGFloat|
            geometry::is_difference(arith, extent, panel, room) && #[trigger] geometry::is_quotient(
                arith,
                room,
                (CGFloat { bits: TWO_BITS }),
                margin,
            ) ==> 2 * value(margin) == value(room),
        forall|margin: CGFloat| #[trigger]
            geometry::is_sum(arith, start, margin, r) ==> value(r) == value(start) + value(margin),
    ensures
        value(r) - value(start) == (value(start) + value(extent)) - (value(r) + value(panel)),
{
}

} // verus!
