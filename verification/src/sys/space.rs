//! The desktops of each display, and the numbers by which users know them.

use vstd::prelude::*;

use crate::search;
use crate::sys::display_selector::DisplaySelector;
use crate::text;

verus! {

/// Identifies a macOS Space. The window server never uses zero for one.
#[derive(Debug, Copy, Clone, PartialEq, Eq, Structural, PartialOrd, Ord, Hash)]
pub struct SpaceId {
    id: u64,
}

impl SpaceId {
    #[verifier::type_invariant]
    spec fn nonzero(self) -> bool {
        self.id != 0
    }

    /// The window server's number for this space.
    pub closed spec fn raw(self) -> u64 {
        self.id
    }

    /// The space with this number.
    pub closed spec fn of(id: u64) -> SpaceId {
        SpaceId { id }
    }

    /// The id of the space with this number, which must not be zero.
    pub fn new(id: u64) -> (space: SpaceId)
        requires
            id != 0,
        ensures
            space == SpaceId::of(id),
            space.raw() == id,
    {
        SpaceId { id }
    }

    /// Reads a number that the window server gave. Zero stands for no space.
    pub fn from_raw(id: u64) -> (space: Option<SpaceId>)
        ensures
            space == space_of(id),
    {
        if id == 0 {
            None
        } else {
            Some(SpaceId { id })
        }
    }

    /// The window server's number for this space.
    pub fn get(&self) -> (id: u64)
        ensures
            id == self.raw(),
            id != 0,
            *self == SpaceId::of(id),
    {
        proof {
            use_type_invariant(self);
        }
        self.id
    }
}

/// Spaces and their numbers correspond one to one.
pub proof fn law_numbers_identify_spaces(id: u64, space: SpaceId)
    ensures
        SpaceId::of(id).raw() == id,
        SpaceId::of(space.raw()) == space,
{
}

/// The space that the window server means by a number, where zero means none.
pub open spec fn space_of(id: u64) -> Option<SpaceId> {
    if id == 0 {
        None
    } else {
        Some(SpaceId::of(id))
    }
}

/// One space as the window server lists it. A field that is missing, or not a
/// number, is `None`.
#[derive(Debug, Clone, Copy, PartialEq, Eq)]
pub struct ManagedSpace {
    /// What the space is for.
    pub ty: Option<i64>,
    /// Its number.
    pub id: Option<u64>,
}

/// One display as the window server lists it.
#[derive(Debug, Clone)]
pub struct ManagedDisplay {
    /// The window server's name for the display, if it gave a text.
    pub identifier: Option<String>,
    /// The display's spaces in order, if it gave a list. An entry that is not a
    /// dictionary is `None`.
    pub spaces: Option<Vec<Option<ManagedSpace>>>,
}

/// One display's user-facing desktops, with the identifier macOS knows it by.
#[derive(Debug, Clone)]
pub struct DisplaySpaces {
    /// The window server's identifier for this display. A UUID for a real
    /// display; `None` if macOS did not report one.
    pub identifier: Option<String>,
    pub spaces: Vec<SpaceId>,
}

/// A display by what matters of it: its identifier, and its desktops in order.
#[verifier::ext_equal]
pub struct DisplayView {
    pub identifier: Option<Seq<char>>,
    pub spaces: Seq<SpaceId>,
}

impl View for DisplaySpaces {
    type V = DisplayView;

    open spec fn view(&self) -> DisplayView {
        DisplayView { identifier: text::text_of(self.identifier), spaces: self.spaces@ }
    }
}

/// The type macOS reports for an ordinary desktop, as opposed to the tile a
/// fullscreen or Split View app gets.
pub const SPACE_TYPE_USER: i64 = 0;

/// A space is a desktop unless its type says otherwise.
pub open spec fn is_desktop_type(ty: Option<i64>) -> bool {
    ty is None || ty == Some(SPACE_TYPE_USER)
}

/// Whether a space with this reported type is one of the desktops macOS
/// numbers.
///
/// A space whose type is missing or unreadable counts as a desktop: wrongly
/// skipping one renumbers every desktop after it, which is worse than counting
/// a fullscreen tile we failed to identify.
pub fn is_user_space(ty: Option<i64>) -> (r: bool)
    ensures
        r == is_desktop_type(ty),
{
    match ty {
        None => true,
        Some(ty) => ty == SPACE_TYPE_USER,
    }
}

/// The desktop that an entry of a display's list stands for, if it does.
pub open spec fn desktop_of(entry: Option<ManagedSpace>) -> Option<SpaceId> {
    match entry {
        Some(space) => match space.id {
            Some(id) => if is_desktop_type(space.ty) {
                space_of(id)
            } else {
                None
            },
            None => None,
        },
        None => None,
    }
}

/// The desktops among the entries of a display's list, in order.
pub open spec fn desktops_of(entries: Seq<Option<ManagedSpace>>) -> Seq<SpaceId> {
    entries.filter_map(|entry: Option<ManagedSpace>| desktop_of(entry))
}

/// The display that an entry of the window server's list stands for. An entry
/// without a list of spaces stands for none.
pub open spec fn display_of(entry: Option<ManagedDisplay>) -> Option<DisplayView> {
    match entry {
        Some(display) => match display.spaces {
            Some(spaces) => Some(
                DisplayView {
                    identifier: text::text_of(display.identifier),
                    spaces: desktops_of(spaces@),
                },
            ),
            None => None,
        },
        None => None,
    }
}

/// The displays among the entries of the window server's list, in order.
pub open spec fn displays_of(entries: Seq<Option<ManagedDisplay>>) -> Seq<DisplayView> {
    entries.filter_map(|entry: Option<ManagedDisplay>| display_of(entry))
}

/// The views of a list of displays.
pub open spec fn views(displays: Seq<DisplaySpaces>) -> Seq<DisplayView> {
    displays.map_values(|display: DisplaySpaces| display@)
}

fn desktops(entries: &Vec<Option<ManagedSpace>>) -> (spaces: Vec<SpaceId>)
    ensures
        spaces@ == desktops_of(entries@),
{
    let ghost f = |entry: Option<ManagedSpace>| desktop_of(entry);
    let mut spaces: Vec<SpaceId> = Vec::new();
    let mut i: usize = 0;
    while i < entries.len()
        invariant
            i <= entries@.len(),
            f == |entry: Option<ManagedSpace>| desktop_of(entry),
            spaces@ == entries@.take(i as int).filter_map(f),
        decreases entries@.len() - i,
    {
        proof {
            entries@.lemma_filter_map_take_succ(f, i as int);
        }
        if let Some(space) = entries[i] {
            if let Some(id) = space.id {
                if let Some(id) = SpaceId::from_raw(id) {
                    if is_user_space(space.ty) {
                        spaces.push(id);
                    }
                }
            }
        }
        i += 1;
    }
    assert(entries@.take(entries@.len() as int) =~= entries@);
    spaces
}

/// Each display's user-facing desktops, in the order macOS presents them.
///
/// Fullscreen and Split View apps occupy spaces of their own in the window
/// server's list, but Mission Control does not number them and neither does
/// the native Desktop shortcut. Counting them here would shift every desktop
/// number after the fullscreen window for as long as it stays fullscreen, so
/// they are filtered out and only `type == 0` spaces are numbered.
///
/// `report` is the window server's list of displays, if it gave one; an entry
/// that is not a dictionary is `None`.
pub fn displays_with_user_spaces(report: Option<&Vec<Option<ManagedDisplay>>>) -> (r: Option<
    Vec<DisplaySpaces>,
>)
    ensures
        r is Some <==> report is Some,
        r matches Some(displays) ==> views(displays@) == displays_of(report->0@),
{
    let entries = match report {
        Some(entries) => entries,
        None => {
            return None;
        },
    };
    let ghost f = |entry: Option<ManagedDisplay>| display_of(entry);
    let mut displays: Vec<DisplaySpaces> = Vec::new();
    let mut i: usize = 0;
    while i < entries.len()
        invariant
            i <= entries@.len(),
            f == |entry: Option<ManagedDisplay>| display_of(entry),
            views(displays@) == entries@.take(i as int).filter_map(f),
        decreases entries@.len() - i,
    {
        proof {
            entries@.lemma_filter_map_take_succ(f, i as int);
        }
        if let Some(display) = &entries[i] {
            if let Some(spaces) = &display.spaces {
                let identifier = text::copy_of(&display.identifier);
                let ghost before = displays@;
                let shown = DisplaySpaces { identifier, spaces: desktops(spaces) };
                displays.push(shown);
                assert(views(displays@) =~= views(before).push(shown@));
            }
        }
        i += 1;
    }
    assert(entries@.take(entries@.len() as int) =~= entries@);
    Some(displays)
}

/// The result of looking up a desktop on a named display.
///
/// A disconnected display and a display without that many desktops are
/// different situations: the first is temporary and the caller may want to
/// wait for the display or fall back, while the second is a config error that
/// falling back would only hide.
#[derive(Debug, PartialEq, Eq, Structural, Clone, Copy)]
pub enum DesktopLookup {
    Found(SpaceId),
    /// The display is connected, but has no desktop at that position.
    NoSuchDesktop,
    /// The display is not currently connected.
    DisplayMissing,
}

/// The displays that answer to `wanted`.
pub open spec fn answers_to(wanted: Seq<char>) -> spec_fn(DisplayView) -> bool {
    |display: DisplayView|
        display.identifier matches Some(identifier) && text::same_but_for_ascii_case(
            identifier,
            wanted,
        )
}

/// The displays that have `space` among their desktops.
pub open spec fn has_desktop(space: SpaceId) -> spec_fn(DisplayView) -> bool {
    |display: DisplayView| display.spaces.contains(space)
}

/// The desktops of the first display that meets `p`.
pub open spec fn desktops_where(
    displays: Seq<DisplayView>,
    p: spec_fn(DisplayView) -> bool,
) -> Option<Seq<SpaceId>> {
    match search::first_where(displays, p) {
        Some(i) => Some(displays[i].spaces),
        None => None,
    }
}

/// The identifier that a selector asks for, given that of the main display.
pub open spec fn wanted_identifier(
    selector: DisplaySelector,
    main: Option<Seq<char>>,
) -> Option<Seq<char>> {
    match selector {
        DisplaySelector::Builtin => main,
        DisplaySelector::Uuid(uuid) => Some(uuid@),
    }
}

/// The desktops of the display that a selector names.
pub open spec fn selected_desktops(
    displays: Seq<DisplayView>,
    selector: DisplaySelector,
    main: Option<Seq<char>>,
) -> Option<Seq<SpaceId>> {
    match wanted_identifier(selector, main) {
        Some(wanted) => desktops_where(displays, answers_to(wanted)),
        None => None,
    }
}

/// The desktop at a user-facing position: the first is number 1.
pub open spec fn desktop_at(spaces: Seq<SpaceId>, number: int) -> Option<SpaceId> {
    if 1 <= number <= spaces.len() {
        Some(spaces[number - 1])
    } else {
        None
    }
}

/// The spaces that are `space`.
pub open spec fn is_space(space: SpaceId) -> spec_fn(SpaceId) -> bool {
    |s: SpaceId| s == space
}

/// The user-facing position of the first occurrence of `space`.
pub open spec fn number_of(spaces: Seq<SpaceId>, space: SpaceId) -> Option<int> {
    match search::first_where(spaces, is_space(space)) {
        Some(i) => Some(i + 1),
        None => None,
    }
}

/// The desktop with a number on the display that shows `on_display`.
pub open spec fn numbered_desktop(
    displays: Seq<DisplayView>,
    number: int,
    on_display: SpaceId,
) -> Option<SpaceId> {
    match desktops_where(displays, has_desktop(on_display)) {
        Some(spaces) => desktop_at(spaces, number),
        None => None,
    }
}

/// The number of `space` on the display that shows it.
pub open spec fn desktop_number(displays: Seq<DisplayView>, space: SpaceId) -> Option<int> {
    match desktops_where(displays, has_desktop(space)) {
        Some(spaces) => number_of(spaces, space),
        None => None,
    }
}

/// The answer to a lookup of a desktop by number on a named display.
pub open spec fn lookup_of(spaces: Option<Seq<SpaceId>>, number: int) -> DesktopLookup {
    match spaces {
        Some(spaces) => match desktop_at(spaces, number) {
            Some(space) => DesktopLookup::Found(space),
            None => DesktopLookup::NoSuchDesktop,
        },
        None => DesktopLookup::DisplayMissing,
    }
}

/// The place of the first occurrence of a space.
fn position(spaces: &Vec<SpaceId>, space: SpaceId) -> (r: Option<usize>)
    ensures
        r is Some <==> spaces@.contains(space),
        r matches Some(i) ==> i < spaces.len() && search::is_first_where(
            spaces@,
            is_space(space),
            i as int,
        ),
{
    let mut i: usize = 0;
    while i < spaces.len()
        invariant
            i <= spaces@.len(),
            forall|j: int| 0 <= j < i ==> spaces@[j] != space,
        decreases spaces@.len() - i,
    {
        if spaces[i] == space {
            return Some(i);
        }
        i += 1;
    }
    None
}

/// The displays that a report lists. A report that is missing lists none.
pub open spec fn reported(report: Option<&Vec<Option<ManagedDisplay>>>) -> Seq<DisplayView> {
    match report {
        Some(entries) => displays_of(entries@),
        None => Seq::empty(),
    }
}

/// The spaces of an optional list.
pub open spec fn spaces_of(spaces: Option<Vec<SpaceId>>) -> Option<Seq<SpaceId>> {
    match spaces {
        Some(spaces) => Some(spaces@),
        None => None,
    }
}

/// Nothing is found where no display qualifies.
proof fn lemma_no_display(displays: Seq<DisplayView>, p: spec_fn(DisplayView) -> bool)
    requires
        forall|i: int| 0 <= i < displays.len() ==> !p(#[trigger] displays[i]),
    ensures
        desktops_where(displays, p) is None,
{
}

/// Returns the spaces of the display that currently shows `on_display`,
/// in the order macOS presents them.
///
/// Each display owns an independent set of spaces, so "Desktop 2" means the
/// second space *of one display*, matching what Mission Control shows. A
/// space number is only meaningful together with a display.
pub fn spaces_of_display(
    on_display: SpaceId,
    report: Option<&Vec<Option<ManagedDisplay>>>,
) -> (r: Option<Vec<SpaceId>>)
    ensures
        spaces_of(r) == desktops_where(reported(report), has_desktop(on_display)),
{
    let ghost all = reported(report);
    let ghost p = has_desktop(on_display);
    let mut displays = match displays_with_user_spaces(report) {
        Some(displays) => displays,
        None => {
            proof {
                lemma_no_display(all, p);
            }
            return None;
        },
    };
    let mut i: usize = 0;
    while i < displays.len()
        invariant
            views(displays@) == all,
            p == has_desktop(on_display),
            all == reported(report),
            i <= displays@.len(),
            forall|j: int| 0 <= j < i ==> !p(#[trigger] all[j]),
        decreases displays@.len() - i,
    {
        assert(all[i as int] == displays@[i as int]@);
        if position(&displays[i].spaces, on_display).is_some() {
            proof {
                search::lemma_first_where_is(all, p, i as int);
            }
            let display = displays.remove(i);
            return Some(display.spaces);
        }
        i += 1;
    }
    proof {
        lemma_no_display(all, p);
    }
    None
}

/// Picks the display a selector names out of the window server's list.
///
/// `main` is the UUID macOS currently reports as the main display.
pub fn select_display(
    displays: Vec<DisplaySpaces>,
    selector: &DisplaySelector,
    main: Option<&str>,
) -> (r: Option<Vec<SpaceId>>)
    ensures
        spaces_of(r) == selected_desktops(views(displays@), *selector, text::text_of_str(main)),
{
    let wanted: &str = match selector {
        DisplaySelector::Builtin => match main {
            Some(main) => main,
            None => {
                return None;
            },
        },
        DisplaySelector::Uuid(uuid) => uuid.as_str(),
    };
    let ghost all = views(displays@);
    let ghost p = answers_to(wanted@);
    let mut rest = displays;
    let mut i: usize = 0;
    while i < rest.len()
        invariant
            views(rest@) == all,
            all == views(displays@),
            p == answers_to(wanted@),
            selected_desktops(all, *selector, text::text_of_str(main)) == desktops_where(all, p),
            i <= rest@.len(),
            forall|j: int| 0 <= j < i ==> !p(#[trigger] all[j]),
        decreases rest@.len() - i,
    {
        assert(all[i as int] == rest@[i as int]@);
        let found = match &rest[i].identifier {
            Some(identifier) => text::eq_ignore_ascii_case(identifier.as_str(), wanted),
            None => false,
        };
        if found {
            proof {
                search::lemma_first_where_is(all, p, i as int);
            }
            let display = rest.remove(i);
            return Some(display.spaces);
        }
        i += 1;
    }
    proof {
        lemma_no_display(all, p);
    }
    None
}

/// The spaces of the display this selector names, in the order macOS presents
/// them, or `None` when that display is not currently connected.
pub fn spaces_of_selected_display(
    selector: &DisplaySelector,
    report: Option<&Vec<Option<ManagedDisplay>>>,
    main: Option<&str>,
) -> (r: Option<Vec<SpaceId>>)
    ensures
        spaces_of(r) == selected_desktops(
            reported(report),
            *selector,
            text::text_of_str(main),
        ),
{
    match displays_with_user_spaces(report) {
        Some(displays) => select_display(displays, selector, main),
        None => {
            proof {
                if let Some(wanted) = wanted_identifier(*selector, text::text_of_str(main)) {
                    lemma_no_display(reported(report), answers_to(wanted));
                }
            }
            None
        },
    }
}

/// The space at a user-facing position of a list.
fn space_at(spaces: &Vec<SpaceId>, number: usize) -> (r: Option<SpaceId>)
    ensures
        r == desktop_at(spaces@, number as int),
{
    if 1 <= number && number <= spaces.len() {
        Some(spaces[number - 1])
    } else {
        None
    }
}

/// The space at a user-facing position on a named display.
pub fn space_on_display(
    selector: &DisplaySelector,
    number: usize,
    report: Option<&Vec<Option<ManagedDisplay>>>,
    main: Option<&str>,
) -> (r: DesktopLookup)
    ensures
        r == lookup_of(
            selected_desktops(reported(report), *selector, text::text_of_str(main)),
            number as int,
        ),
{
    match spaces_of_selected_display(selector, report, main) {
        Some(spaces) => match space_at(&spaces, number) {
            Some(space) => DesktopLookup::Found(space),
            None => DesktopLookup::NoSuchDesktop,
        },
        None => DesktopLookup::DisplayMissing,
    }
}

/// Returns the space at a user-facing position on the display that currently
/// shows `on_display`.
///
/// Space ids are assigned by the window server and change across reboots, so
/// config refers to spaces by this position instead. Numbering is per display:
/// with one desktop, only `1` resolves, and attaching a second display does
/// not renumber the first display's spaces.
pub fn space_with_number(
    number: usize,
    on_display: SpaceId,
    report: Option<&Vec<Option<ManagedDisplay>>>,
) -> (r: Option<SpaceId>)
    ensures
        r == numbered_desktop(reported(report), number as int, on_display),
{
    match spaces_of_display(on_display, report) {
        Some(spaces) => space_at(&spaces, number),
        None => None,
    }
}

/// Returns the user-facing number of the currently active space.
///
/// Numbered within its own display, the same way [`space_with_number`] reads a
/// number from config, so the status icon and a binding agree on what "Desktop
/// 2" means. Numbering across displays instead would label the second
/// display's only desktop with whatever the first display's count reached.
///
/// `active` is the window server's number for that space, or zero.
pub fn get_active_space_number(
    active: u64,
    report: Option<&Vec<Option<ManagedDisplay>>>,
) -> (r: Option<usize>)
    ensures
        match r {
            Some(number) => active != 0 && desktop_number(
                reported(report),
                SpaceId::of(active),
            ) == Some(number as int),
            None => active == 0 || desktop_number(reported(report), SpaceId::of(active)) is None,
        },
{
    let active = match SpaceId::from_raw(active) {
        Some(active) => active,
        None => {
            return None;
        },
    };
    match spaces_of_display(active, report) {
        Some(spaces) => {
            proof {
                lemma_found_display_has_desktop(reported(report), active);
            }
            match position(&spaces, active) {
                Some(index) => {
                    proof {
                        search::lemma_first_where_is(spaces@, is_space(active), index as int);
                    }
                    Some(index + 1)
                },
                None => None,
            }
        },
        None => None,
    }
}

/// A display found by a desktop has that desktop.
proof fn lemma_found_display_has_desktop(displays: Seq<DisplayView>, space: SpaceId)
    ensures
        desktops_where(displays, has_desktop(space)) matches Some(spaces) ==> spaces.contains(
            space,
        ),
{
}

} // verus!
