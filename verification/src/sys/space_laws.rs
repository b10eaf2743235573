//! What holds of desktop numbers and display names, whatever is connected.

use vstd::prelude::*;

use crate::search;
use crate::sys::display_selector::DisplaySelector;
use crate::sys::space;
use crate::sys::space::{DesktopLookup, DisplayView, ManagedDisplay, ManagedSpace, SpaceId};
use crate::text;

verus! {

proof fn lemma_filter_map_concat<A, B>(a: Seq<A>, b: Seq<A>, f: spec_fn(A) -> Option<B>)
    ensures
        (a + b).filter_map(f) == a.filter_map(f) + b.filter_map(f),
    decreases b.len(),
{
    if b.len() == 0 {
        assert(a + b =~= a);
        assert(a.filter_map(f) + b.filter_map(f) =~= a.filter_map(f));
    } else {
        lemma_filter_map_concat(a, b.drop_last(), f);
        assert((a + b).drop_last() =~= a + b.drop_last());
        assert((a + b).filter_map(f) =~= a.filter_map(f) + b.filter_map(f));
    }
}

proof fn lemma_filter_map_same<A, B>(a: Seq<A>, b: Seq<A>, f: spec_fn(A) -> Option<B>)
    requires
        a.len() == b.len(),
        forall|i: int| 0 <= i < a.len() ==> f(#[trigger] a[i]) == f(b[i]),
    ensures
        a.filter_map(f) == b.filter_map(f),
    decreases a.len(),
{
    if a.len() > 0 {
        assert forall|i: int| 0 <= i < a.drop_last().len() implies f(
            #[trigger] a.drop_last()[i],
        ) == f(b.drop_last()[i]) by {
            assert(f(a[i]) == f(b[i]));
        }
        lemma_filter_map_same(a.drop_last(), b.drop_last(), f);
        assert(f(a[a.len() - 1]) == f(b[b.len() - 1]));
    }
}

/// A sequence with one element put in that does not qualify finds what it
/// found before.
proof fn lemma_find_around(
    before: Seq<DisplayView>,
    added: DisplayView,
    after: Seq<DisplayView>,
    p: spec_fn(DisplayView) -> bool,
)
    requires
        !p(added),
    ensures
        space::desktops_where(before + seq![added] + after, p) == space::desktops_where(
            before + after,
            p,
        ),
{
    let long = before + seq![added] + after;
    let short = before + after;
    let n = before.len() as int;
    if exists|i: int| 0 <= i < short.len() && p(short[i]) {
        let i = choose|i: int| 0 <= i < short.len() && p(short[i]);
        search::lemma_first_where_exists(short, p, i);
        let k = search::first_where(short, p)->0;
        let moved = if k < n {
            k
        } else {
            k + 1
        };
        assert(long[moved] == short[k]);
        assert forall|j: int| 0 <= j < moved implies !p(#[trigger] long[j]) by {
            if j < n {
                assert(long[j] == short[j]);
            } else if j > n {
                assert(long[j] == short[j - 1]);
            }
        }
        assert(search::is_first_where(long, p, moved));
        search::lemma_first_where_is(long, p, moved);
    } else {
        assert forall|i: int| 0 <= i < long.len() implies !p(#[trigger] long[i]) by {
            if i < n {
                assert(long[i] == short[i]);
            } else if i > n {
                assert(long[i] == short[i - 1]);
            }
        }
    }
}

proof fn lemma_displays_around(
    before: Seq<Option<ManagedDisplay>>,
    added: Option<ManagedDisplay>,
    after: Seq<Option<ManagedDisplay>>,
)
    ensures
        space::displays_of(before + after) == space::displays_of(before) + space::displays_of(
            after,
        ),
        space::displays_of(before + seq![added] + after) == space::displays_of(before) + (
        match space::display_of(added) {
            Some(display) => seq![display],
            None => Seq::empty(),
        }) + space::displays_of(after),
{
    let f = |entry: Option<ManagedDisplay>| space::display_of(entry);
    lemma_filter_map_concat(before, after, f);
    lemma_filter_map_concat(before + seq![added], after, f);
    lemma_filter_map_concat(before, seq![added], f);
    Seq::lemma_filter_map_singleton(added, f);
}

/// The status icon and a binding agree: the number shown for a desktop is the
/// number that resolves to it.
pub proof fn law_shown_number_resolves_to_its_desktop(
    displays: Seq<DisplayView>,
    desktop: SpaceId,
    number: int,
)
    requires
        space::desktop_number(displays, desktop) == Some(number),
    ensures
        space::numbered_desktop(displays, number, desktop) == Some(desktop),
{
}

/// The other way round, the desktop that a number resolves to is shown under
/// that number, as long as no space is listed twice.
pub proof fn law_resolved_desktop_shows_its_number(
    displays: Seq<DisplayView>,
    on_display: SpaceId,
    desktop: SpaceId,
    number: int,
)
    requires
        forall|i: int, j: int, k: int, l: int|
            0 <= i < displays.len() && 0 <= j < displays.len() && 0 <= k
                < displays[i].spaces.len() && 0 <= l < displays[j].spaces.len()
                && #[trigger] displays[i].spaces[k] == #[trigger] displays[j].spaces[l] ==> i == j
                && k == l,
        space::numbered_desktop(displays, number, on_display) == Some(desktop),
    ensures
        space::desktop_number(displays, desktop) == Some(number),
{
    let i = search::first_where(displays, space::has_desktop(on_display))->0;
    let spaces = displays[i].spaces;
    assert(spaces[number - 1] == desktop);
    let p = space::has_desktop(desktop);
    assert forall|j: int| 0 <= j < i implies !p(#[trigger] displays[j]) by {
        if displays[j].spaces.contains(desktop) {
            let l = choose|l: int|
                0 <= l < displays[j].spaces.len() && displays[j].spaces[l] == desktop;
            assert(displays[i].spaces[number - 1] == displays[j].spaces[l]);
        }
    }
    assert(spaces.contains(desktop));
    search::lemma_first_where_is(displays, p, i);
    assert forall|k: int| 0 <= k < number - 1 implies !space::is_space(desktop)(
        #[trigger] spaces[k],
    ) by {
        if spaces[k] == desktop {
            assert(displays[i].spaces[k] == displays[i].spaces[number - 1]);
        }
    }
    search::lemma_first_where_is(spaces, space::is_space(desktop), number - 1);
}

/// A display's desktops are numbered from 1 without a gap. With one desktop,
/// only 1 resolves.
pub proof fn law_numbers_run_from_one(
    displays: Seq<DisplayView>,
    on_display: SpaceId,
    spaces: Seq<SpaceId>,
    number: int,
)
    requires
        space::desktops_where(displays, space::has_desktop(on_display)) == Some(spaces),
    ensures
        space::numbered_desktop(displays, number, on_display) is Some <==> 1 <= number
            <= spaces.len(),
        spaces.len() == 1 ==> space::numbered_desktop(displays, 1, on_display) == Some(on_display),
{
}

/// Attaching another display renumbers nothing on the displays that are there,
/// wherever the window server lists it.
pub proof fn law_attached_display_renumbers_nothing(
    before: Seq<Option<ManagedDisplay>>,
    attached: Option<ManagedDisplay>,
    after: Seq<Option<ManagedDisplay>>,
    on_display: SpaceId,
    number: int,
)
    requires
        space::display_of(attached) matches Some(display) ==> !display.spaces.contains(on_display),
    ensures
        space::numbered_desktop(
            space::displays_of(before + seq![attached] + after),
            number,
            on_display,
        ) == space::numbered_desktop(space::displays_of(before + after), number, on_display),
        space::desktop_number(space::displays_of(before + seq![attached] + after), on_display)
            == space::desktop_number(space::displays_of(before + after), on_display),
{
    lemma_displays_around(before, attached, after);
    let first = space::displays_of(before);
    let last = space::displays_of(after);
    match space::display_of(attached) {
        Some(display) => {
            lemma_find_around(first, display, last, space::has_desktop(on_display));
        },
        None => {
            assert(first + Seq::empty() + last =~= first + last);
        },
    }
}

/// Attaching a display changes nothing for those that are named otherwise.
pub proof fn law_attached_display_leaves_other_names_alone(
    before: Seq<Option<ManagedDisplay>>,
    attached: Option<ManagedDisplay>,
    after: Seq<Option<ManagedDisplay>>,
    selector: DisplaySelector,
    main: Option<Seq<char>>,
)
    requires
        space::display_of(attached) matches Some(display) ==> (space::wanted_identifier(
            selector,
            main,
        ) matches Some(wanted) ==> !space::answers_to(wanted)(display)),
    ensures
        space::selected_desktops(
            space::displays_of(before + seq![attached] + after),
            selector,
            main,
        ) == space::selected_desktops(space::displays_of(before + after), selector, main),
{
    lemma_displays_around(before, attached, after);
    let first = space::displays_of(before);
    let last = space::displays_of(after);
    match (space::display_of(attached), space::wanted_identifier(selector, main)) {
        (Some(display), Some(wanted)) => {
            lemma_find_around(first, display, last, space::answers_to(wanted));
        },
        _ => {
            assert(first + Seq::empty() + last =~= first + last);
        },
    }
}

/// The tile of a fullscreen or Split View app counts for nothing: with it or
/// without it, a display has the same desktops under the same numbers.
pub proof fn law_fullscreen_tile_is_not_numbered(
    before: Seq<Option<ManagedSpace>>,
    tile: ManagedSpace,
    after: Seq<Option<ManagedSpace>>,
)
    requires
        !space::is_desktop_type(tile.ty),
    ensures
        space::desktops_of(before + seq![Some(tile)] + after) == space::desktops_of(before + after),
{
    let f = |entry: Option<ManagedSpace>| space::desktop_of(entry);
    lemma_filter_map_concat(before, after, f);
    lemma_filter_map_concat(before + seq![Some(tile)], after, f);
    lemma_filter_map_concat(before, seq![Some(tile)], f);
    Seq::lemma_filter_map_singleton(Some(tile), f);
    assert(before.filter_map(f) + Seq::empty() =~= before.filter_map(f));
}

/// A window going fullscreen on one display leaves every display's desktops,
/// and so every number, as they are.
pub proof fn law_going_fullscreen_renumbers_nothing(
    report: Seq<Option<ManagedDisplay>>,
    fullscreen: Seq<Option<ManagedDisplay>>,
    place: int,
    before: Seq<Option<ManagedSpace>>,
    tile: ManagedSpace,
    after: Seq<Option<ManagedSpace>>,
)
    requires
        report.len() == fullscreen.len(),
        0 <= place < report.len(),
        forall|i: int| 0 <= i < report.len() && i != place ==> report[i] == fullscreen[i],
        ({
            &&& report[place] matches Some(display)
            &&& fullscreen[place] matches Some(changed)
            &&& text::text_of(changed.identifier) == text::text_of(display.identifier)
            &&& display.spaces matches Some(spaces)
            &&& changed.spaces matches Some(more)
            &&& spaces@ == before + after
            &&& more@ == before + seq![Some(tile)] + after
        }),
        !space::is_desktop_type(tile.ty),
    ensures
        space::displays_of(fullscreen) == space::displays_of(report),
{
    law_fullscreen_tile_is_not_numbered(before, tile, after);
    let f = |entry: Option<ManagedDisplay>| space::display_of(entry);
    assert forall|i: int| 0 <= i < fullscreen.len() implies f(#[trigger] fullscreen[i]) == f(
        report[i],
    ) by {
        if i != place {
            assert(report[i] == fullscreen[i]);
        }
    }
    lemma_filter_map_same(fullscreen, report, f);
}

/// What is numbered are the listed spaces whose type does not say otherwise,
/// with the ids that the window server gave them.
pub proof fn law_numbered_desktops_are_listed(entries: Seq<Option<ManagedSpace>>, desktop: SpaceId)
    requires
        space::desktops_of(entries).contains(desktop),
    ensures
        exists|entry: ManagedSpace| #[trigger]
            entries.contains(Some(entry)) && entry.id == Some(desktop.raw()) && desktop.raw() != 0
                && space::is_desktop_type(entry.ty),
{
    let f = |entry: Option<ManagedSpace>| space::desktop_of(entry);
    entries.lemma_filter_map_contains(f, desktop);
    let entry = choose|entry: Option<ManagedSpace>| #[trigger]
        entries.contains(entry) && f(entry) == Some(desktop);
    space::law_numbers_identify_spaces(entry->0.id->0, desktop);
    assert(entries.contains(Some(entry->0)));
}

/// `Builtin` goes by the identity of the main display, not by its place in the
/// list: it finds what that display's UUID finds.
pub proof fn law_builtin_is_the_main_display(
    displays: Seq<DisplayView>,
    main: Seq<char>,
    uuid: String,
    any: Option<Seq<char>>,
)
    requires
        uuid@ == main,
    ensures
        space::selected_desktops(displays, DisplaySelector::Builtin, Some(main))
            == space::selected_desktops(displays, DisplaySelector::Uuid(uuid), any),
{
}

/// Without a main display, `Builtin` finds nothing.
pub proof fn law_builtin_needs_a_main_display(displays: Seq<DisplayView>)
    ensures
        space::selected_desktops(displays, DisplaySelector::Builtin, None) is None,
{
}

/// A display is found wherever it stands in the list, as long as no other
/// display answers to the same name.
pub proof fn law_display_is_found_in_any_place(
    displays: Seq<DisplayView>,
    selector: DisplaySelector,
    main: Option<Seq<char>>,
    wanted: Seq<char>,
    place: int,
)
    requires
        space::wanted_identifier(selector, main) == Some(wanted),
        0 <= place < displays.len(),
        forall|i: int|
            0 <= i < displays.len() ==> (space::answers_to(wanted)(#[trigger] displays[i]) <==> i
                == place),
    ensures
        space::selected_desktops(displays, selector, main) == Some(displays[place].spaces),
{
    search::lemma_first_where_is(displays, space::answers_to(wanted), place);
}

/// UUIDs that differ only in case name the same display.
pub proof fn law_uuid_matches_in_any_case(
    displays: Seq<DisplayView>,
    a: String,
    b: String,
    main: Option<Seq<char>>,
)
    requires
        text::same_but_for_ascii_case(a@, b@),
    ensures
        space::selected_desktops(displays, DisplaySelector::Uuid(a), main)
            == space::selected_desktops(displays, DisplaySelector::Uuid(b), main),
{
    let p = space::answers_to(a@);
    let q = space::answers_to(b@);
    assert forall|display: DisplayView| #[trigger] p(display) == q(display) by {
        if let Some(identifier) = display.identifier {
            text::lemma_ascii_case_is_transitive(identifier, a@, b@);
            text::lemma_ascii_case_is_symmetric(a@, b@);
            text::lemma_ascii_case_is_transitive(identifier, b@, a@);
        }
    }
    assert(p =~= q);
}

/// A display that is not connected and a desktop that is not there are told
/// apart: the display is missing exactly when nothing answers to its name.
pub proof fn law_missing_display_is_not_a_missing_desktop(
    displays: Seq<DisplayView>,
    selector: DisplaySelector,
    main: Option<Seq<char>>,
    number: int,
)
    ensures
        space::lookup_of(space::selected_desktops(displays, selector, main), number)
            == DesktopLookup::DisplayMissing <==> {
            ||| space::wanted_identifier(selector, main) is None
            ||| forall|i: int|
                0 <= i < displays.len() ==> !space::answers_to(
                    space::wanted_identifier(selector, main)->0,
                )(#[trigger] displays[i])
        },
{
    if let Some(wanted) = space::wanted_identifier(selector, main) {
        let p = space::answers_to(wanted);
        if exists|i: int| 0 <= i < displays.len() && p(#[trigger] displays[i]) {
            let i = choose|i: int| 0 <= i < displays.len() && p(#[trigger] displays[i]);
            search::lemma_first_where_exists(displays, p, i);
        }
    }
}

} // verus!
