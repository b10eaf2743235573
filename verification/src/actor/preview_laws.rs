//! Where the preview appears, in which color, and when.

use vstd::prelude::*;

use crate::actor::drop_preview;
use crate::actor::drop_preview::{
    DropPreview, Event, PreviewAction, WindowDropPlacement, WindowDropPreview,
};
use crate::sys::geometry::{Arithmetic, CoordinateConverter};
use crate::sys::geometry_laws;
use crate::ui::color::Color;

verus! {

/// A color with these hundredths of red, green and blue.
pub open spec fn is_tinted(color: Color, red: int, green: int, blue: int) -> bool {
    color.red == red && color.green == green && color.blue == blue
}

/// Fill and border are of one color, which goes by the placement; the fill is
/// faint and the border strong.
pub open spec fn are_colors_of(
    placement: WindowDropPlacement,
    fill: Color,
    border: Color,
) -> bool {
    &&& fill.alpha == 24
    &&& border.alpha == 90
    &&& match placement {
        WindowDropPlacement::Group => is_tinted(fill, 25, 78, 48) && is_tinted(border, 25, 78, 48),
        WindowDropPlacement::Snap => is_tinted(fill, 10, 56, 96) && is_tinted(border, 10, 56, 96),
        WindowDropPlacement::SplitLeft => is_tinted(fill, 55, 38, 95) && is_tinted(
            border,
            55,
            38,
            95,
        ),
        WindowDropPlacement::SplitRight => is_tinted(fill, 55, 38, 95) && is_tinted(
            border,
            55,
            38,
            95,
        ),
        WindowDropPlacement::SplitTop => is_tinted(fill, 55, 38, 95) && is_tinted(
            border,
            55,
            38,
            95,
        ),
        WindowDropPlacement::SplitBottom => is_tinted(fill, 55, 38, 95) && is_tinted(
            border,
            55,
            38,
            95,
        ),
    }
}

/// Placements have the colors that are laid down for them.
pub proof fn law_colors_of_a_placement(placement: WindowDropPlacement, r: (Color, Color))
    requires
        call_ensures(drop_preview::colors, (placement,), r),
    ensures
        are_colors_of(placement, r.0, r.1),
{
}

/// `action` presents the image of the preview's frame in the colors of its
/// placement, or orders the window out where the height of the screen is a NaN.
pub open spec fn presents<A: Arithmetic>(
    state: DropPreview,
    arith: &A,
    preview: WindowDropPreview,
    action: PreviewAction,
) -> bool {
    match action {
        PreviewAction::Keep => false,
        PreviewAction::OrderOut => geometry_laws::has_nan_bits(state.converter.screen_height),
        PreviewAction::Present { frame, fill, border } => {
            &&& !geometry_laws::has_nan_bits(state.converter.screen_height)
            &&& geometry_laws::is_image(
                arith,
                state.converter.screen_height,
                preview.frame,
                frame,
            )
            &&& are_colors_of(preview.placement, fill, border)
        },
    }
}

proof fn lemma_presents<A: Arithmetic>(
    state: DropPreview,
    arith: &A,
    preview: WindowDropPreview,
    action: PreviewAction,
)
    requires
        state.shows_as(arith, preview, action),
    ensures
        presents(state, arith, preview, action),
{
    geometry_laws::lemma_nan_bits(state.converter.screen_height);
    if let PreviewAction::Present { frame, fill, border } = action {
        geometry_laws::lemma_flipped_rect_is_image(state.converter, arith, preview.frame, frame);
    }
}

/// Whatever the placement, a preview is shown at the image of its frame: the
/// same x and size, and for y the height of the screen less the frame's
/// greatest y. Only the colors go by the placement.
pub proof fn law_preview_is_shown_at_its_image<A: Arithmetic>(
    state: &DropPreview,
    preview: WindowDropPreview,
    arith: &A,
    action: PreviewAction,
)
    requires
        call_ensures(DropPreview::show::<A>, (state, preview, arith), action),
    ensures
        presents(*state, arith, preview, action),
{
    lemma_presents(*state, arith, preview, action);
}

/// Asked to show a preview, the window presents it or goes out, and nothing is
/// remembered.
pub proof fn law_show_event<A: Arithmetic>(
    state: &mut DropPreview,
    preview: WindowDropPreview,
    arith: &A,
    action: PreviewAction,
)
    requires
        call_ensures(DropPreview::handle_event::<A>, (state, Event::Show(preview), arith), action),
    ensures
        presents(*old(state), arith, preview, action),
        *final(state) == *old(state),
{
    lemma_presents(*old(state), arith, preview, action);
}

/// Asked to hide, the window goes out, and nothing is remembered.
pub proof fn law_hide_event<A: Arithmetic>(
    state: &mut DropPreview,
    arith: &A,
    action: PreviewAction,
)
    requires
        call_ensures(DropPreview::handle_event::<A>, (state, Event::Hide, arith), action),
    ensures
        action is OrderOut,
        *final(state) == *old(state),
{
}

/// A preview shown after a change of screens is converted at the new height.
pub proof fn law_shown_after_a_change_of_screens<A: Arithmetic>(
    state: &mut DropPreview,
    converter: CoordinateConverter,
    preview: WindowDropPreview,
    arith: &A,
    change: PreviewAction,
    changed: DropPreview,
    shown: PreviewAction,
)
    requires
        call_ensures(
            DropPreview::handle_event::<A>,
            (state, Event::ScreenParametersChanged(converter), arith),
            change,
        ),
        *final(state) == changed,
        call_ensures(DropPreview::show::<A>, (&changed, preview, arith), shown),
    ensures
        change is Keep,
        changed.converter == converter,
        changed.look == old(state).look,
        presents(changed, arith, preview, shown),
{
    lemma_presents(changed, arith, preview, shown);
}

/// A new preview has its look, and shows nothing before it has heard of a
/// screen.
pub proof fn law_new_preview<A: Arithmetic>(
    state: DropPreview,
    preview: WindowDropPreview,
    arith: &A,
    action: PreviewAction,
)
    requires
        call_ensures(DropPreview::new, (), state),
        call_ensures(DropPreview::show::<A>, (&state, preview, arith), action),
    ensures
        action is OrderOut,
        // 10 and 2 as doubles.
        state.look.corner_radius.bits == 0x4024_0000_0000_0000,
        state.look.border_width.bits == 0x4000_0000_0000_0000,
        state.look.borderless,
        state.look.nonactivating,
        state.look.floating,
        !state.look.opaque,
        state.look.clear_background,
        !state.look.shadow,
        state.look.ignores_mouse,
        !state.look.released_when_closed,
{
}

} // verus!
