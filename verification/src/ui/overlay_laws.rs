//! Where the overlay stands, how it looks, and how it goes away.

use vstd::prelude::*;

use crate::sys::geometry::{Arithmetic, CGFloat, CGRect};
use crate::ui::workset_hud;
use crate::ui::workset_hud::{HudLook, WorksetHud};

verus! {

/// A panel of 260 by 96 points with corners of 18, on it a label of 28 points
/// at a height of 30, 40 high and as wide as the panel; without a frame, clear
/// but for its dark backdrop, and not in the way of the mouse.
pub open spec fn is_overlay(look: HudLook) -> bool {
    &&& look.panel.origin.x.bits == 0 && look.panel.origin.y.bits == 0
    &&& look.panel.size.width.bits == 0x4070_4000_0000_0000
    &&& look.panel.size.height.bits == 0x4058_0000_0000_0000
    &&& look.label.origin.x.bits == 0 && look.label.origin.y.bits == 0x403e_0000_0000_0000
    &&& look.label.size.width == look.panel.size.width
    &&& look.label.size.height.bits == 0x4044_0000_0000_0000
    &&& look.corner_radius.bits == 0x4032_0000_0000_0000
    &&& look.font_size.bits == 0x403c_0000_0000_0000
    &&& look.window_level == 3
    &&& look.backdrop.red == 8 && look.backdrop.green == 8 && look.backdrop.blue == 10
    &&& look.backdrop.alpha == 92
    &&& look.borderless && look.clear_background && look.ignores_mouse && look.masks_to_bounds
    &&& look.label_centered && look.label_white && look.label_bold
    &&& !look.opaque && !look.released_when_closed
}

/// The overlay looks as laid down.
pub proof fn law_look_of_the_overlay(look: HudLook)
    requires
        call_ensures(WorksetHud::look, (), look),
    ensures
        is_overlay(look),
{
}

/// A new overlay has that look, names nothing, and is opaque but not shown.
pub proof fn law_new_overlay(hud: WorksetHud)
    requires
        call_ensures(WorksetHud::new, (), hud),
    ensures
        is_overlay(hud.look),
        hud.label@.len() == 0,
        hud.origin.x.bits == 0 && hud.origin.y.bits == 0,
        hud.alpha == 100,
        !hud.on_screen,
{
}

/// `at` lies half of what `extent` has more than `panel` after `start`.
pub open spec fn is_half_way<A: Arithmetic>(
    arith: &A,
    start: CGFloat,
    extent: CGFloat,
    panel: CGFloat,
    at: CGFloat,
    room: CGFloat,
    half: CGFloat,
) -> bool {
    &&& call_ensures(A::minus, (arith, extent, panel), room)
    &&& call_ensures(A::divide, (arith, room, CGFloat { bits: 0x4000_0000_0000_0000 }), half)
    &&& call_ensures(A::plus, (arith, start, half), at)
}

proof fn lemma_half_way<A: Arithmetic>(
    arith: &A,
    start: CGFloat,
    extent: CGFloat,
    panel: CGFloat,
    at: CGFloat,
)
    requires
        workset_hud::is_centered(arith, start, extent, panel, at),
    ensures
        exists|room: CGFloat, half: CGFloat| #[trigger]
            is_half_way(arith, start, extent, panel, at, room, half),
{
    let two = CGFloat { bits: 0x4000_0000_0000_0000 };
    let (room, half) = choose|room: CGFloat, half: CGFloat|
        {
            &&& call_ensures(A::minus, (arith, extent, panel), room)
            &&& call_ensures(A::divide, (arith, room, two), half)
            &&& call_ensures(A::plus, (arith, start, half), at)
        };
    assert(is_half_way(arith, start, extent, panel, at, room, half));
}

/// Shown, the overlay names the Workset in full opacity, half way in both
/// directions of the visible frame; without a screen it stays where it was.
pub proof fn law_shown_overlay<A: Arithmetic>(
    hud: &mut WorksetHud,
    workset: &str,
    visible: Option<CGRect>,
    arith: &A,
)
    requires
        call_ensures(WorksetHud::show::<A>, (hud, workset, visible, arith), ()),
    ensures
        final(hud).label@ == workset@,
        final(hud).alpha == 100,
        final(hud).on_screen,
        final(hud).look == old(hud).look,
        visible is None ==> final(hud).origin == old(hud).origin,
        visible is Some ==> {
            let frame = visible->0;
            // 260 and 96 as doubles.
            let width = CGFloat { bits: 0x4070_4000_0000_0000 };
            let height = CGFloat { bits: 0x4058_0000_0000_0000 };
            &&& exists|room: CGFloat, half: CGFloat| #[trigger]
                is_half_way(
                    arith,
                    frame.origin.x,
                    frame.size.width,
                    width,
                    final(hud).origin.x,
                    room,
                    half,
                )
            &&& exists|room: CGFloat, half: CGFloat| #[trigger]
                is_half_way(
                    arith,
                    frame.origin.y,
                    frame.size.height,
                    height,
                    final(hud).origin.y,
                    room,
                    half,
                )
        },
{
    if visible is Some {
        let frame = visible->0;
        let width = CGFloat { bits: 0x4070_4000_0000_0000 };
        let height = CGFloat { bits: 0x4058_0000_0000_0000 };
        lemma_half_way(arith, frame.origin.x, frame.size.width, width, final(hud).origin.x);
        lemma_half_way(arith, frame.origin.y, frame.size.height, height, final(hud).origin.y);
    }
}

/// Hidden, the overlay is off screen and otherwise as it was.
pub proof fn law_hidden_overlay(hud: &mut WorksetHud)
    requires
        call_ensures(WorksetHud::hide_overlay, (hud,), ()),
    ensures
        !final(hud).on_screen,
        final(hud).alpha == old(hud).alpha,
        final(hud).label == old(hud).label,
        final(hud).origin == old(hud).origin,
        final(hud).look == old(hud).look,
{
}

/// A fully opaque overlay stays so for 900 milliseconds and then loses a
/// hundredth of its opacity every 3 milliseconds; after 1200 it is gone. Its
/// place, name and look do not change.
pub proof fn law_fading_overlay(hud: &mut WorksetHud, elapsed_ms: u64)
    requires
        call_ensures(WorksetHud::fade, (hud, elapsed_ms), ()),
    ensures
        final(hud).label == old(hud).label,
        final(hud).origin == old(hud).origin,
        final(hud).look == old(hud).look,
        final(hud).alpha <= old(hud).alpha,
        final(hud).on_screen <==> old(hud).on_screen && elapsed_ms < 1200,
        old(hud).alpha <= 100 && elapsed_ms <= 900 ==> final(hud).alpha == old(hud).alpha,
        old(hud).alpha == 100 && 900 < elapsed_ms <= 1200 ==> 3 * final(hud).alpha <= 1200
            - elapsed_ms < 3 * final(hud).alpha + 3,
        elapsed_ms >= 1200 ==> final(hud).alpha == 0,
{
}

} // verus!
