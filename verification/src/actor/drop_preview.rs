//! Displays the destination of an in-progress mouse layout operation.

use vstd::prelude::*;

use crate::sys::geometry;
use crate::sys::geometry::{Arithmetic, CGFloat, CGRect, CoordinateConverter};
use crate::ui::color::Color;

verus! {

/// Where a dragged window would go.
#[derive(Debug, Clone, Copy, PartialEq, Eq, Structural)]
pub enum WindowDropPlacement {
    /// Stacked with the window under the pointer.
    Group,
    /// Beside the window under the pointer, in the layout.
    SplitLeft,
    SplitRight,
    SplitTop,
    SplitBottom,
    /// To a part of the screen, floating.
    Snap,
}

/// A placement, and the frame it gives the window in Quartz coordinates.
#[derive(Debug, Clone, Copy)]
pub struct WindowDropPreview {
    pub frame: CGRect,
    pub placement: WindowDropPlacement,
}

/// What the preview is told.
#[derive(Debug, Clone, Copy)]
pub enum Event {
    Show(WindowDropPreview),
    Hide,
    ScreenParametersChanged(CoordinateConverter),
}

/// What to do with the preview window.
#[derive(Debug, Clone, Copy, PartialEq)]
pub enum PreviewAction {
    /// Leave it as it is.
    Keep,
    /// Take it off the screen.
    OrderOut,
    /// Color it, place it and bring it to the front.
    Present { frame: CGRect, fill: Color, border: Color },
}

/// Whether the placement changes the layout by a split.
pub open spec fn is_split(placement: WindowDropPlacement) -> bool {
    ||| placement is SplitLeft
    ||| placement is SplitRight
    ||| placement is SplitTop
    ||| placement is SplitBottom
}

/// The color of a placement: green for groups, purple for splits and blue for
/// floating windows.
pub open spec fn color_of(placement: WindowDropPlacement, alpha: u8) -> Color {
    if placement is Group {
        Color { red: 25, green: 78, blue: 48, alpha }
    } else if is_split(placement) {
        Color { red: 55, green: 38, blue: 95, alpha }
    } else {
        Color { red: 10, green: 56, blue: 96, alpha }
    }
}

/// The fill and border colors of a placement.
pub fn colors(placement: WindowDropPlacement) -> (r: (Color, Color))
    ensures
        r.0 == color_of(placement, 24),
        r.1 == color_of(placement, 90),
{
    let (red, green, blue): (u8, u8, u8) = match placement {
        WindowDropPlacement::Group => (25, 78, 48),
        WindowDropPlacement::SplitLeft
        | WindowDropPlacement::SplitRight
        | WindowDropPlacement::SplitTop
        | WindowDropPlacement::SplitBottom => (55, 38, 95),
        WindowDropPlacement::Snap => (10, 56, 96),
    };
    (Color { red, green, blue, alpha: 24 }, Color { red, green, blue, alpha: 90 })
}

/// The bit pattern of the corner radius of the preview, 10.
pub const CORNER_RADIUS_BITS: u64 = 0x4024_0000_0000_0000;

/// The bit pattern of the border width of the preview, 2.
pub const BORDER_WIDTH_BITS: u64 = 0x4000_0000_0000_0000;

/// What the preview looks like, apart from its colors.
#[derive(Debug, Clone, Copy, PartialEq)]
pub struct PreviewLook {
    pub corner_radius: CGFloat,
    pub border_width: CGFloat,
    /// Whether the window is a panel without a frame, which does not take the
    /// focus.
    pub borderless: bool,
    pub nonactivating: bool,
    /// Whether the window stands at the level of floating windows.
    pub floating: bool,
    pub opaque: bool,
    pub clear_background: bool,
    pub shadow: bool,
    /// Whether the mouse reaches what is behind the window.
    pub ignores_mouse: bool,
    /// Whether closing the window releases it.
    pub released_when_closed: bool,
}

/// The look of the preview: a rounded frame that floats above normal windows
/// and lets everything through but its own colors.
pub open spec fn preview_look() -> PreviewLook {
    PreviewLook {
        corner_radius: CGFloat { bits: CORNER_RADIUS_BITS },
        border_width: CGFloat { bits: BORDER_WIDTH_BITS },
        borderless: true,
        nonactivating: true,
        floating: true,
        opaque: false,
        clear_background: true,
        shadow: false,
        ignores_mouse: true,
        released_when_closed: false,
    }
}

/// The state of the preview.
#[derive(Debug, Clone, Copy)]
pub struct DropPreview {
    pub look: PreviewLook,
    pub converter: CoordinateConverter,
}

impl DropPreview {
    /// A preview that has not heard of any screen, and so cannot show anything
    /// yet.
    pub fn new() -> (preview: DropPreview)
        ensures
            preview.look == preview_look(),
            preview.converter.screen_height.bits == geometry::NAN_BITS,
            !preview.converter.converts(),
    {
        DropPreview {
            look: PreviewLook {
                corner_radius: CGFloat { bits: CORNER_RADIUS_BITS },
                border_width: CGFloat { bits: BORDER_WIDTH_BITS },
                borderless: true,
                nonactivating: true,
                floating: true,
                opaque: false,
                clear_background: true,
                shadow: false,
                ignores_mouse: true,
                released_when_closed: false,
            },
            converter: CoordinateConverter::default(),
        }
    }

    /// `action` is how a preview is shown: in Cocoa coordinates and in the
    /// color of its placement, or not at all where it cannot be converted.
    pub open spec fn shows_as<A: Arithmetic>(
        self,
        arith: &A,
        preview: WindowDropPreview,
        action: PreviewAction,
    ) -> bool {
        match action {
            PreviewAction::Keep => false,
            PreviewAction::OrderOut => !self.converter.converts(),
            PreviewAction::Present { frame, fill, border } => {
                &&& self.converter.converts()
                &&& self.converter.flips_rect(arith, preview.frame, frame)
                &&& fill == color_of(preview.placement, 24)
                &&& border == color_of(preview.placement, 90)
            },
        }
    }

    /// How to show a preview.
    pub fn show<A: Arithmetic>(&self, preview: WindowDropPreview, arith: &A) -> (action:
        PreviewAction)
        ensures
            self.shows_as(arith, preview, action),
    {
        match self.converter.convert_rect(preview.frame, arith) {
            Some(frame) => {
                let (fill, border) = colors(preview.placement);
                PreviewAction::Present { frame, fill, border }
            },
            None => PreviewAction::OrderOut,
        }
    }

    /// Takes an event in and says what to do with the window.
    pub fn handle_event<A: Arithmetic>(&mut self, event: Event, arith: &A) -> (action:
        PreviewAction)
        ensures
            match event {
                Event::Show(preview) => {
                    &&& *final(self) == *old(self)
                    &&& old(self).shows_as(arith, preview, action)
                },
                Event::Hide => {
                    &&& *final(self) == *old(self)
                    &&& action == PreviewAction::OrderOut
                },
                Event::ScreenParametersChanged(converter) => {
                    &&& final(self).converter == converter
                    &&& final(self).look == old(self).look
                    &&& action == PreviewAction::Keep
                },
            },
    {
        match event {
            Event::Show(preview) => self.show(preview, arith),
            Event::Hide => PreviewAction::OrderOut,
            Event::ScreenParametersChanged(converter) => {
                self.converter = converter;
                PreviewAction::Keep
            },
        }
    }
}

/// Until it has heard of a screen, the preview shows nothing; from then on it
/// shows what it is asked to.
pub proof fn law_preview_waits_for_a_screen<A: Arithmetic>(
    state: DropPreview,
    arith: &A,
    preview: WindowDropPreview,
    action: PreviewAction,
)
    requires
        state.shows_as(arith, preview, action),
    ensures
        action == PreviewAction::OrderOut <==> !state.converter.converts(),
        action is Present <==> state.converter.converts(),
{
}

/// Groups, splits and floating windows are told apart by color.
pub proof fn law_colors_tell_placements_apart(
    a: WindowDropPlacement,
    b: WindowDropPlacement,
    alpha: u8,
)
    requires
        color_of(a, alpha) == color_of(b, alpha),
    ensures
        a is Group <==> b is Group,
        is_split(a) <==> is_split(b),
        a is Snap <==> b is Snap,
{
}

} // verus!
