//! What a report of the window server comes to: which desktops there are, on
//! which display, and under which numbers.

use vstd::prelude::*;

use crate::search;
use crate::sys::display_selector::DisplaySelector;
use crate::sys::space;
use crate::sys::space::{
    DesktopLookup, DisplaySpaces, ManagedDisplay, ManagedSpace, SpaceId,
};
use crate::text;
use crate::text_laws;

verus! {

/// Spaces are known by any number but zero, which stands for none.
pub proof fn law_space_of_a_number(id: u64, r: Option<SpaceId>)
    requires
        call_ensures(SpaceId::from_raw, (id,), r),
    ensures
        r is None <==> id == 0,
        r matches Some(space) ==> space.raw() == id,
{
    space::law_numbers_identify_spaces(id, SpaceId::of(id));
}

/// Any number but zero makes a space.
pub proof fn law_any_number_makes_a_space(id: u64)
    requires
        id != 0,
    ensures
        call_requires(SpaceId::new, (id,)),
{
}

/// A space gives back the number it was made with.
pub proof fn law_space_keeps_its_number(id: u64, space: SpaceId, got: u64)
    requires
        call_ensures(SpaceId::new, (id,), space),
        call_ensures(SpaceId::get, (&space,), got),
    ensures
        got == id,
        space.raw() == id,
{
}

/// A space is a desktop when its type is zero or missing.
pub proof fn law_desktops_have_type_zero_or_none(ty: Option<i64>, r: bool)
    requires
        call_ensures(space::is_user_space, (ty,), r),
    ensures
        r <==> match ty {
            Some(ty) => ty == 0,
            None => true,
        },
{
}

/// An entry that the window server numbers as a desktop: it has a number that
/// is not zero, and its type is zero or missing.
pub open spec fn is_desktop_entry(entry: Option<ManagedSpace>) -> bool {
    &&& entry is Some
    &&& entry->0.id is Some
    &&& entry->0.id->0 != 0
    &&& entry->0.ty is None || entry->0.ty->0 == 0
}

/// `spaces` are the desktops among `entries`: all of them, in their order, with
/// their numbers. `places` says where they stand.
pub open spec fn are_the_desktops(
    entries: Seq<Option<ManagedSpace>>,
    spaces: Seq<SpaceId>,
    places: Seq<int>,
) -> bool {
    &&& places.len() == spaces.len()
    &&& forall|k: int, l: int|
        0 <= k < l < places.len() ==> #[trigger] places[k] < #[trigger] places[l]
    &&& forall|k: int|
        0 <= k < places.len() ==> {
            &&& 0 <= #[trigger] places[k] < entries.len()
            &&& is_desktop_entry(entries[places[k]])
            &&& entries[places[k]]->0.id->0 == spaces[k].raw()
        }
    &&& forall|i: int|
        0 <= i < entries.len() && is_desktop_entry(#[trigger] entries[i]) ==> places.contains(i)
}

proof fn lemma_desktops(entries: Seq<Option<ManagedSpace>>) -> (places: Seq<int>)
    ensures
        are_the_desktops(entries, space::desktops_of(entries), places),
{
    let f = |entry: Option<ManagedSpace>| space::desktop_of(entry);
    let spaces = space::desktops_of(entries);
    let places = search::lemma_filter_map_places(entries, f);
    assert forall|k: int| 0 <= k < places.len() implies {
        &&& 0 <= #[trigger] places[k] < entries.len()
        &&& is_desktop_entry(entries[places[k]])
        &&& entries[places[k]]->0.id->0 == spaces[k].raw()
    } by {
        let entry = entries[places[k]];
        assert(f(entry) == Some(spaces[k]));
        space::law_numbers_identify_spaces(entry->0.id->0, spaces[k]);
    }
    assert forall|i: int|
        0 <= i < entries.len() && is_desktop_entry(#[trigger] entries[i]) implies places.contains(
        i,
    ) by {
        assert(f(entries[i]) is Some);
    }
    places
}

/// The displays of a report are the entries that have a list of spaces, all of
/// them and in their order, each under its own identifier and with all its
/// desktops. `places` says where the displays stand, and `desktops` where the
/// desktops of each do.
pub proof fn law_displays_of_a_report(
    report: Option<&Vec<Option<ManagedDisplay>>>,
    r: Option<Vec<DisplaySpaces>>,
) -> (found: (Seq<int>, Seq<Seq<int>>))
    requires
        call_ensures(space::displays_with_user_spaces, (report,), r),
    ensures
        r is Some <==> report is Some,
        r is Some ==> ({
            let entries = report->0@;
            let displays = r->0@;
            let (places, desktops) = found;
            &&& places.len() == displays.len()
            &&& desktops.len() == displays.len()
            &&& forall|k: int, l: int|
                0 <= k < l < places.len() ==> #[trigger] places[k] < #[trigger] places[l]
            &&& forall|k: int|
                0 <= k < places.len() ==> {
                    &&& 0 <= #[trigger] places[k] < entries.len()
                    &&& entries[places[k]] is Some
                    &&& entries[places[k]]->0.spaces is Some
                    &&& match (entries[places[k]]->0.identifier, displays[k].identifier) {
                        (Some(given), Some(kept)) => kept@ == given@,
                        (None, None) => true,
                        _ => false,
                    }
                    &&& are_the_desktops(
                        entries[places[k]]->0.spaces->0@,
                        displays[k].spaces@,
                        desktops[k],
                    )
                }
            &&& forall|i: int|
                0 <= i < entries.len() && (#[trigger] entries[i]) is Some
                    && entries[i]->0.spaces is Some ==> places.contains(i)
        }),
{
    if r is Some {
        let entries = report->0@;
        let displays = r->0@;
        let f = |entry: Option<ManagedDisplay>| space::display_of(entry);
        let places = search::lemma_filter_map_places(entries, f);
        let all = space::displays_of(entries);
        let desktops = Seq::new(
            places.len(),
            |k: int|
                choose|at: Seq<int>|
                    are_the_desktops(
                        entries[places[k]]->0.spaces->0@,
                        displays[k].spaces@,
                        at,
                    ),
        );
        assert(space::views(displays) == all);
        assert forall|k: int| 0 <= k < places.len() implies {
            &&& 0 <= #[trigger] places[k] < entries.len()
            &&& entries[places[k]] is Some
            &&& entries[places[k]]->0.spaces is Some
            &&& match (entries[places[k]]->0.identifier, displays[k].identifier) {
                (Some(given), Some(kept)) => kept@ == given@,
                (None, None) => true,
                _ => false,
            }
            &&& are_the_desktops(
                entries[places[k]]->0.spaces->0@,
                displays[k].spaces@,
                desktops[k],
            )
        } by {
            let entry = entries[places[k]];
            assert(f(entry) == Some(all[k]));
            assert(space::views(displays)[k] == displays[k]@);
            let at = lemma_desktops(entry->0.spaces->0@);
            assert(are_the_desktops(entry->0.spaces->0@, displays[k].spaces@, at));
        }
        assert forall|i: int|
            0 <= i < entries.len() && (#[trigger] entries[i]) is Some
                && entries[i]->0.spaces is Some implies places.contains(i) by {
            assert(f(entries[i]) is Some);
        }
        (places, desktops)
    } else {
        (Seq::empty(), Seq::empty())
    }
}

/// The first of `displays` that has `desktop` is the one at `d`.
pub open spec fn is_display_of(displays: Seq<DisplaySpaces>, desktop: SpaceId, d: int) -> bool {
    &&& 0 <= d < displays.len()
    &&& displays[d].spaces@.contains(desktop)
    &&& forall|e: int| 0 <= e < d ==> !(#[trigger] displays[e]).spaces@.contains(desktop)
}

/// None of `displays` has `desktop`.
pub open spec fn is_nowhere(displays: Seq<DisplaySpaces>, desktop: SpaceId) -> bool {
    forall|e: int|
        0 <= e < displays.len() ==> !(#[trigger] displays[e]).spaces@.contains(desktop)
}

proof fn lemma_display_of(displays: Seq<DisplaySpaces>, desktop: SpaceId, d: int)
    ensures
        is_display_of(displays, desktop, d) ==> space::desktops_where(
            space::views(displays),
            space::has_desktop(desktop),
        ) == Some(displays[d].spaces@),
        is_nowhere(displays, desktop) ==> space::desktops_where(
            space::views(displays),
            space::has_desktop(desktop),
        ) is None,
{
    let all = space::views(displays);
    let p = space::has_desktop(desktop);
    assert forall|e: int| 0 <= e < displays.len() implies p(#[trigger] all[e])
        == displays[e].spaces@.contains(desktop) by {
        assert(all[e] == displays[e]@);
    }
    if is_display_of(displays, desktop, d) {
        assert forall|e: int| 0 <= e < d implies !p(#[trigger] all[e]) by {
            assert(!displays[e].spaces@.contains(desktop));
        }
        search::lemma_first_where_is(all, p, d);
    }
    if is_nowhere(displays, desktop) {
        assert forall|e: int| 0 <= e < all.len() implies !p(#[trigger] all[e]) by {
            assert(!displays[e].spaces@.contains(desktop));
        }
    }
}

/// The spaces of the display that shows a desktop are all that display's
/// desktops, in order.
pub proof fn law_spaces_of_the_display_that_shows(
    on_display: SpaceId,
    report: Option<&Vec<Option<ManagedDisplay>>>,
    displays: Vec<DisplaySpaces>,
    d: int,
    r: Option<Vec<SpaceId>>,
)
    requires
        call_ensures(space::displays_with_user_spaces, (report,), Some(displays)),
        call_ensures(space::spaces_of_display, (on_display, report), r),
    ensures
        is_display_of(displays@, on_display, d) ==> r is Some && r->0@ == displays@[d].spaces@,
        is_nowhere(displays@, on_display) ==> r is None,
{
    lemma_display_of(displays@, on_display, d);
}

/// A number resolves to the desktop at that place on the display that shows
/// `on_display`, counted from 1; and to nothing where there is no such place or
/// no such display.
pub proof fn law_number_resolves(
    number: usize,
    on_display: SpaceId,
    report: Option<&Vec<Option<ManagedDisplay>>>,
    displays: Vec<DisplaySpaces>,
    d: int,
    r: Option<SpaceId>,
)
    requires
        call_ensures(space::displays_with_user_spaces, (report,), Some(displays)),
        call_ensures(space::space_with_number, (number, on_display, report), r),
    ensures
        is_display_of(displays@, on_display, d) ==> (r is Some <==> 1 <= number
            <= displays@[d].spaces@.len()),
        is_display_of(displays@, on_display, d) && r is Some ==> r->0
            == displays@[d].spaces@[number - 1],
        is_nowhere(displays@, on_display) ==> r is None,
{
    lemma_display_of(displays@, on_display, d);
}

/// The number shown for the active desktop is its place on the first display
/// that has it, counted from 1.
pub proof fn law_active_number(
    active: u64,
    space: SpaceId,
    report: Option<&Vec<Option<ManagedDisplay>>>,
    displays: Vec<DisplaySpaces>,
    d: int,
    at: int,
    r: Option<usize>,
)
    requires
        space.raw() == active,
        call_ensures(space::displays_with_user_spaces, (report,), Some(displays)),
        call_ensures(space::get_active_space_number, (active, report), r),
    ensures
        active == 0 ==> r is None,
        active != 0 && is_display_of(displays@, space, d) && 0 <= at < displays@[d].spaces@.len()
            && displays@[d].spaces@[at] == space && (forall|j: int|
            0 <= j < at ==> #[trigger] displays@[d].spaces@[j] != space) ==> r is Some && r->0 == at
            + 1,
        is_nowhere(displays@, space) ==> r is None,
{
    space::law_numbers_identify_spaces(active, space);
    lemma_display_of(displays@, space, d);
    if active != 0 && is_display_of(displays@, space, d) && 0 <= at < displays@[d].spaces@.len()
        && displays@[d].spaces@[at] == space && (forall|j: int|
        0 <= j < at ==> #[trigger] displays@[d].spaces@[j] != space) {
        search::lemma_first_where_is(displays@[d].spaces@, space::is_space(space), at);
    }
}

/// Without a report there is nothing to find.
pub proof fn law_nothing_without_a_report(
    number: usize,
    on_display: SpaceId,
    active: u64,
    selector: &DisplaySelector,
    main: Option<&str>,
    spaces: Option<Vec<SpaceId>>,
    desktop: Option<SpaceId>,
    active_number: Option<usize>,
    selected: Option<Vec<SpaceId>>,
    lookup: DesktopLookup,
)
    requires
        call_ensures(space::spaces_of_display, (on_display, None), spaces),
        call_ensures(space::space_with_number, (number, on_display, None), desktop),
        call_ensures(space::get_active_space_number, (active, None), active_number),
        call_ensures(space::spaces_of_selected_display, (selector, None, main), selected),
        call_ensures(space::space_on_display, (selector, number, None, main), lookup),
    ensures
        spaces is None,
        desktop is None,
        active_number is None,
        selected is None,
        lookup == DesktopLookup::DisplayMissing,
{
}

/// `name` is the identifier that a selector asks for: its UUID, or that of the
/// main display.
pub open spec fn asks_for(
    selector: DisplaySelector,
    main: Option<&str>,
    name: Seq<char>,
) -> bool {
    match selector {
        DisplaySelector::Uuid(uuid) => name == uuid@,
        DisplaySelector::Builtin => main is Some && name == main->0@,
    }
}

/// A display has an identifier, and it is `name` letter by letter, in whatever
/// case.
pub open spec fn is_named(display: DisplaySpaces, name: Seq<char>) -> bool {
    &&& display.identifier is Some
    &&& display.identifier->0@.len() == name.len()
    &&& forall|i: int|
        0 <= i < name.len() ==> text_laws::same_letter(
            #[trigger] display.identifier->0@[i],
            name[i],
        )
}

/// The first of `displays` that has the name is the one at `d`.
pub open spec fn is_display_named(displays: Seq<DisplaySpaces>, name: Seq<char>, d: int) -> bool {
    &&& 0 <= d < displays.len()
    &&& is_named(displays[d], name)
    &&& forall|e: int| 0 <= e < d ==> !is_named(#[trigger] displays[e], name)
}

/// None of `displays` has the name.
pub open spec fn is_no_name(displays: Seq<DisplaySpaces>, name: Seq<char>) -> bool {
    forall|e: int| 0 <= e < displays.len() ==> !is_named(#[trigger] displays[e], name)
}

proof fn lemma_named(
    displays: Seq<DisplaySpaces>,
    selector: DisplaySelector,
    main: Option<&str>,
    name: Seq<char>,
    d: int,
)
    requires
        asks_for(selector, main, name),
    ensures
        is_display_named(displays, name, d) ==> space::selected_desktops(
            space::views(displays),
            selector,
            text::text_of_str(main),
        ) == Some(displays[d].spaces@),
        is_no_name(displays, name) ==> space::selected_desktops(
            space::views(displays),
            selector,
            text::text_of_str(main),
        ) is None,
{
    let all = space::views(displays);
    let p = space::answers_to(name);
    assert(space::wanted_identifier(selector, text::text_of_str(main)) == Some(name));
    assert forall|e: int| 0 <= e < displays.len() implies p(#[trigger] all[e]) == is_named(
        displays[e],
        name,
    ) by {
        assert(all[e] == displays[e]@);
        if displays[e].identifier is Some {
            text_laws::lemma_same_letters(displays[e].identifier->0@, name);
        }
    }
    if is_display_named(displays, name, d) {
        assert forall|e: int| 0 <= e < d implies !p(#[trigger] all[e]) by {
            assert(!is_named(displays[e], name));
        }
        search::lemma_first_where_is(all, p, d);
    }
    if is_no_name(displays, name) {
        assert forall|e: int| 0 <= e < all.len() implies !p(#[trigger] all[e]) by {
            assert(!is_named(displays[e], name));
        }
    }
}

/// A selector picks the first display that has the name it asks for, with all
/// its desktops; and nothing where no display has it.
pub proof fn law_selector_picks_by_name(
    displays: Vec<DisplaySpaces>,
    selector: &DisplaySelector,
    main: Option<&str>,
    name: Seq<char>,
    d: int,
    r: Option<Vec<SpaceId>>,
)
    requires
        call_ensures(space::select_display, (displays, selector, main), r),
        asks_for(*selector, main, name),
    ensures
        is_display_named(displays@, name, d) ==> r is Some && r->0@ == displays@[d].spaces@,
        is_no_name(displays@, name) ==> r is None,
{
    lemma_named(displays@, *selector, main, name, d);
}

/// The same of a report, by the displays it comes to.
pub proof fn law_selector_picks_from_a_report(
    selector: &DisplaySelector,
    report: Option<&Vec<Option<ManagedDisplay>>>,
    main: Option<&str>,
    displays: Vec<DisplaySpaces>,
    name: Seq<char>,
    d: int,
    r: Option<Vec<SpaceId>>,
)
    requires
        call_ensures(space::displays_with_user_spaces, (report,), Some(displays)),
        call_ensures(space::spaces_of_selected_display, (selector, report, main), r),
        asks_for(*selector, main, name),
    ensures
        is_display_named(displays@, name, d) ==> r is Some && r->0@ == displays@[d].spaces@,
        is_no_name(displays@, name) ==> r is None,
{
    lemma_named(displays@, *selector, main, name, d);
}

/// Without a main display the built-in one is not found, whatever is connected.
pub proof fn law_builtin_is_not_found_without_main(
    displays: Vec<DisplaySpaces>,
    report: Option<&Vec<Option<ManagedDisplay>>>,
    number: usize,
    picked: Option<Vec<SpaceId>>,
    selected: Option<Vec<SpaceId>>,
    lookup: DesktopLookup,
)
    requires
        call_ensures(space::select_display, (displays, &DisplaySelector::Builtin, None), picked),
        call_ensures(
            space::spaces_of_selected_display,
            (&DisplaySelector::Builtin, report, None),
            selected,
        ),
        call_ensures(
            space::space_on_display,
            (&DisplaySelector::Builtin, number, report, None),
            lookup,
        ),
    ensures
        picked is None,
        selected is None,
        lookup == DesktopLookup::DisplayMissing,
{
}

/// Looking a number up on a named display finds the desktop at that place,
/// counted from 1. A display that is not there and a place that is not there
/// are told apart.
pub proof fn law_lookup_finds_the_nth_desktop(
    selector: &DisplaySelector,
    number: usize,
    report: Option<&Vec<Option<ManagedDisplay>>>,
    main: Option<&str>,
    spaces: Option<Vec<SpaceId>>,
    r: DesktopLookup,
)
    requires
        call_ensures(space::spaces_of_selected_display, (selector, report, main), spaces),
        call_ensures(space::space_on_display, (selector, number, report, main), r),
    ensures
        r is DisplayMissing <==> spaces is None,
        spaces is Some ==> (r is Found <==> 1 <= number <= spaces->0@.len()),
        spaces is Some && r is Found ==> r->Found_0 == spaces->0@[number - 1],
{
}

/// On a display that lists no space twice, different numbers find different
/// desktops.
pub proof fn law_numbers_find_different_desktops(
    selector: &DisplaySelector,
    report: Option<&Vec<Option<ManagedDisplay>>>,
    main: Option<&str>,
    spaces: Vec<SpaceId>,
    a: usize,
    b: usize,
    found_a: SpaceId,
    found_b: SpaceId,
)
    requires
        call_ensures(space::spaces_of_selected_display, (selector, report, main), Some(spaces)),
        call_ensures(
            space::space_on_display,
            (selector, a, report, main),
            DesktopLookup::Found(found_a),
        ),
        call_ensures(
            space::space_on_display,
            (selector, b, report, main),
            DesktopLookup::Found(found_b),
        ),
        forall|i: int, j: int|
            0 <= i < j < spaces@.len() ==> #[trigger] spaces@[i] != #[trigger] spaces@[j],
        a != b,
    ensures
        found_a != found_b,
{
    law_lookup_finds_the_nth_desktop(
        selector,
        a,
        report,
        main,
        Some(spaces),
        DesktopLookup::Found(found_a),
    );
    law_lookup_finds_the_nth_desktop(
        selector,
        b,
        report,
        main,
        Some(spaces),
        DesktopLookup::Found(found_b),
    );
}

/// The number shown for the active desktop resolves to it again: on the display
/// that shows it, and on that display by name.
pub proof fn law_shown_number_finds_the_active_desktop(
    active: u64,
    space: SpaceId,
    number: usize,
    report: Option<&Vec<Option<ManagedDisplay>>>,
    displays: Vec<DisplaySpaces>,
    d: int,
    selector: &DisplaySelector,
    main: Option<&str>,
    name: Seq<char>,
    resolved: Option<SpaceId>,
    lookup: DesktopLookup,
)
    requires
        space.raw() == active,
        call_ensures(space::displays_with_user_spaces, (report,), Some(displays)),
        call_ensures(space::get_active_space_number, (active, report), Some(number)),
        call_ensures(space::space_with_number, (number, space, report), resolved),
        is_display_of(displays@, space, d),
        asks_for(*selector, main, name),
        is_display_named(displays@, name, d),
        call_ensures(space::space_on_display, (selector, number, report, main), lookup),
    ensures
        resolved == Some(space),
        lookup == DesktopLookup::Found(space),
{
    space::law_numbers_identify_spaces(active, space);
    lemma_display_of(displays@, space, d);
    lemma_named(displays@, *selector, main, name, d);
}

/// A desktop put at the end of a display's list comes last, and leaves the
/// others as they are; another space put there changes nothing.
pub proof fn law_appended_desktop_comes_last(
    entries: Seq<Option<ManagedSpace>>,
    entry: Option<ManagedSpace>,
)
    ensures
        is_desktop_entry(entry) ==> {
            let spaces = space::desktops_of(entries);
            let more = space::desktops_of(entries.push(entry));
            &&& more.len() == spaces.len() + 1
            &&& more.take(spaces.len() as int) == spaces
            &&& more[spaces.len() as int].raw() == entry->0.id->0
        },
        !is_desktop_entry(entry) ==> space::desktops_of(entries.push(entry))
            == space::desktops_of(entries),
{
    let spaces = space::desktops_of(entries);
    let more = space::desktops_of(entries.push(entry));
    assert(entries.push(entry).drop_last() =~= entries);
    if is_desktop_entry(entry) {
        let id = entry->0.id->0;
        space::law_numbers_identify_spaces(id, SpaceId::of(id));
        assert(more.take(spaces.len() as int) =~= spaces);
    }
}

} // verus!
