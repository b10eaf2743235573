//! Menu bar icon for displaying the current space ID.

use vstd::prelude::*;

use crate::actor::command::{Command, ReactorCommand, WmCmd, WmCommand, WmEvent};
use crate::sys::geometry::CGFloat;
use crate::text;

verus! {

pub const SAVE_AND_QUIT_TAG: i64 = 1;

pub const TOGGLE_GLOBAL_TAG: i64 = 2;

pub const TOGGLE_SPACE_TAG: i64 = 3;

pub const SHOW_DOCS_TAG: i64 = 4;

/// One Workset as shown in the status menu.
#[derive(Debug, Clone)]
pub struct WorksetMenuEntry {
    pub name: String,
    /// The key that selects this Workset, without its modifiers.
    pub key_equivalent: Option<String>,
    pub is_active: bool,
}

/// One item of the status menu.
#[derive(Debug, Clone, PartialEq, Eq)]
pub enum MenuItem {
    Separator,
    /// Sends its tag when it is chosen.
    Action { title: String, tag: i64, enabled: bool },
    /// Only to be read, and disabled.
    Label { title: String },
}

/// A menu item by what it shows.
pub enum ItemView {
    Separator,
    Action { title: Seq<char>, tag: i64, enabled: bool },
    Label { title: Seq<char> },
}

impl View for MenuItem {
    type V = ItemView;

    open spec fn view(&self) -> ItemView {
        match *self {
            MenuItem::Separator => ItemView::Separator,
            MenuItem::Action { title, tag, enabled } => ItemView::Action {
                title: title@,
                tag,
                enabled,
            },
            MenuItem::Label { title } => ItemView::Label { title: title@ },
        }
    }
}

/// What the status icon shows, apart from what never changes.
#[verifier::ext_equal]
pub struct StatusIconView {
    /// The text next to the icon.
    pub text: Seq<char>,
    pub space_toggle_title: Seq<char>,
    pub space_toggle_enabled: bool,
    /// The titles of the Workset items.
    pub worksets: Seq<Seq<char>>,
    pub version: Seq<char>,
    pub toggle_title: Seq<char>,
}

impl StatusIconView {
    /// The items above the Worksets.
    pub open spec fn head(self) -> Seq<ItemView> {
        seq![
            ItemView::Action {
                title: self.space_toggle_title,
                tag: TOGGLE_SPACE_TAG,
                enabled: self.space_toggle_enabled,
            },
            ItemView::Separator,
        ]
    }

    /// The Worksets, to be read only.
    pub open spec fn labels(self) -> Seq<ItemView> {
        self.worksets.map_values(|title: Seq<char>| ItemView::Label { title })
    }

    /// The items below the Worksets.
    pub open spec fn tail(self) -> Seq<ItemView> {
        seq![
            ItemView::Label { title: self.version },
            ItemView::Action { title: "Documentation"@, tag: SHOW_DOCS_TAG, enabled: true },
            ItemView::Separator,
            ItemView::Action { title: self.toggle_title, tag: TOGGLE_GLOBAL_TAG, enabled: true },
            ItemView::Action { title: "Quit"@, tag: SAVE_AND_QUIT_TAG, enabled: true },
        ]
    }

    /// The whole menu.
    pub open spec fn menu(self) -> Seq<ItemView> {
        self.head() + self.labels() + self.tail()
    }
}

/// The menu bar icon and its menu.
#[derive(Debug)]
pub struct StatusIcon {
    items: Vec<MenuItem>,
    /// Where the Workset items start, so they can be replaced in place.
    workset_index: usize,
    /// How many Workset items there are.
    workset_count: usize,
    text: String,
}

/// The title of an item that has one.
pub open spec fn title_of(item: ItemView) -> Seq<char> {
    match item {
        ItemView::Separator => Seq::empty(),
        ItemView::Action { title, tag, enabled } => title,
        ItemView::Label { title } => title,
    }
}

/// The views of a list of items.
pub open spec fn views(items: Seq<MenuItem>) -> Seq<ItemView> {
    items.map_values(|item: MenuItem| item@)
}

impl View for StatusIcon {
    type V = StatusIconView;

    closed spec fn view(&self) -> StatusIconView {
        let items = views(self.items@);
        let n = self.workset_count as int;
        StatusIconView {
            text: self.text@,
            space_toggle_title: title_of(items[0]),
            space_toggle_enabled: items[0]->enabled,
            worksets: Seq::new(n as nat, |i: int| title_of(items[2 + i])),
            version: title_of(items[2 + n]),
            toggle_title: title_of(items[5 + n]),
        }
    }
}

/// What a Workset item says: a bullet marks where the user is, and the shortcut
/// follows the name.
pub open spec fn workset_title(is_active: bool, name: Seq<char>, shortcut: Option<Seq<char>>) -> Seq<
    char,
> {
    (if is_active {
        "●"@
    } else {
        "○"@
    }) + " "@ + name + (match shortcut {
        Some(key) => "  ⌥"@ + key,
        None => Seq::empty(),
    })
}

/// The title of a Workset's item. Its key is shown in upper case.
pub open spec fn entry_title(entry: WorksetMenuEntry) -> Seq<char> {
    workset_title(
        entry.is_active,
        entry.name@,
        match entry.key_equivalent {
            Some(key) => Some(text::uppercase(key@)),
            None => None,
        },
    )
}

/// The title of a Workset's item, given its key as it is shown.
pub fn format_workset_title(is_active: bool, name: &str, shortcut: Option<&str>) -> (title: String)
    ensures
        title@ == workset_title(is_active, name@, text::text_of_str(shortcut)),
{
    // A bullet marks where the user is. The shortcut goes in the title because
    // a disabled item does not render a key equivalent.
    let mut title: String = if is_active {
        "●".to_owned()
    } else {
        "○".to_owned()
    };
    title.append(" ");
    title.append(name);
    if let Some(key) = shortcut {
        let mut suffix: String = "  ⌥".to_owned();
        suffix.append(key);
        title.append(suffix.as_str());
    }
    proof {
        assert(workset_title(is_active, name@, text::text_of_str(shortcut)) =~= title@);
    }
    title
}

/// The title of a Workset's item.
pub fn title_of_entry(entry: &WorksetMenuEntry) -> (title: String)
    ensures
        title@ == entry_title(*entry),
{
    match &entry.key_equivalent {
        Some(key) => {
            let key = key.as_str().to_uppercase();
            format_workset_title(entry.is_active, entry.name.as_str(), Some(key.as_str()))
        },
        None => format_workset_title(entry.is_active, entry.name.as_str(), None),
    }
}

impl StatusIcon {
    /// The items are those of the menu, in order.
    pub closed spec fn well_formed(self) -> bool {
        &&& self.workset_index == 2
        &&& self.items@.len() == 7 + self.workset_count
        &&& views(self.items@) == self@.menu()
    }

    /// Creates a new menu bar manager.
    pub fn new(version: &str) -> (icon: StatusIcon)
        ensures
            icon.well_formed(),
            icon@ == (StatusIconView {
                text: Seq::empty(),
                space_toggle_title: "Enable Space"@,
                space_toggle_enabled: true,
                worksets: Seq::empty(),
                version: "Glide v"@ + version@,
                toggle_title: "Enable Glide"@,
            }),
    {
        let mut items: Vec<MenuItem> = Vec::new();
        items.push(
            MenuItem::Action {
                title: "Enable Space".to_owned(),
                tag: TOGGLE_SPACE_TAG,
                enabled: true,
            },
        );
        items.push(MenuItem::Separator);
        let workset_index: usize = items.len();

        let mut title: String = "Glide v".to_owned();
        title.append(version);
        items.push(MenuItem::Label { title });
        items.push(
            MenuItem::Action {
                title: "Documentation".to_owned(),
                tag: SHOW_DOCS_TAG,
                enabled: true,
            },
        );
        items.push(MenuItem::Separator);
        items.push(
            MenuItem::Action {
                title: "Enable Glide".to_owned(),
                tag: TOGGLE_GLOBAL_TAG,
                enabled: true,
            },
        );
        items.push(
            MenuItem::Action { title: "Quit".to_owned(), tag: SAVE_AND_QUIT_TAG, enabled: true },
        );
        let icon = StatusIcon { items, workset_index, workset_count: 0, text: String::new() };
        assert(views(icon.items@) =~= icon@.menu());
        icon
    }

    /// The title of the menu.
    pub fn menu_title() -> (title: &'static str)
        ensures
            title@ == "Glide"@,
    {
        "Glide"
    }

    /// Whether the menu decides by itself which items are enabled. It must not:
    /// the items say so, and their state is set by hand.
    pub fn autoenables_items() -> (r: bool)
        ensures
            !r,
    {
        false
    }

    /// The items of the menu, in order.
    pub fn items(&self) -> (items: &Vec<MenuItem>)
        requires
            self.well_formed(),
        ensures
            views(items@) == self@.menu(),
    {
        &self.items
    }

    /// Where the Workset items start.
    pub fn workset_index(&self) -> (index: usize)
        requires
            self.well_formed(),
        ensures
            index == self@.head().len(),
    {
        self.workset_index
    }

    /// How many Workset items there are.
    pub fn workset_count(&self) -> (count: usize)
        requires
            self.well_formed(),
        ensures
            count == self@.worksets.len(),
    {
        self.workset_count
    }

    /// The text next to the icon.
    pub fn text(&self) -> (text: &str)
        ensures
            text@ == self@.text,
    {
        self.text.as_str()
    }

    /// Lists this Space's Worksets in the menu, marking the active one and
    /// showing the shortcut that selects each.
    ///
    /// Worksets are created as they are used, so the list is rebuilt rather
    /// than updated in place.
    pub fn set_worksets(&mut self, worksets: &[WorksetMenuEntry])
        requires
            old(self).well_formed(),
        ensures
            final(self).well_formed(),
            final(self)@ == (StatusIconView {
                worksets: worksets@.map_values(|entry: WorksetMenuEntry| entry_title(entry)),
                ..old(self)@
            }),
    {
        let ghost before = self.items@;
        let ghost count = self.workset_count as int;
        let ghost head = before.take(2);
        let ghost tail = before.skip(2 + count);
        while self.workset_count > 0
            invariant
                self.workset_index == 2,
                self.workset_count <= count,
                before.len() == 7 + count,
                head == before.take(2),
                self.items@ == head + before.skip(2 + count - self.workset_count),
                self.text == old(self).text,
            decreases self.workset_count,
        {
            self.items.remove(self.workset_index);
            self.workset_count = self.workset_count - 1;
            assert(self.items@ =~= head + before.skip(2 + count - self.workset_count));
        }
        assert(self.items@ == head + tail);

        let ghost titles = worksets@.map_values(|entry: WorksetMenuEntry| entry_title(entry));
        let ghost mut labels: Seq<MenuItem> = Seq::empty();
        assert(head + labels + tail =~= head + tail);
        let mut offset: usize = 0;
        while offset < worksets.len()
            invariant
                titles == worksets@.map_values(|entry: WorksetMenuEntry| entry_title(entry)),
                self.workset_index == 2,
                self.workset_count == offset,
                head.len() == 2,
                tail.len() == 5,
                self.items@ == head + labels + tail,
                labels.len() == offset,
                offset <= worksets@.len(),
                forall|i: int|
                    0 <= i < offset ==> (#[trigger] labels[i])@ == (ItemView::Label {
                        title: titles[i],
                    }),
                self.text == old(self).text,
            decreases worksets@.len() - offset,
        {
            // A mark shows where the user is; the rest are shown for
            // orientation, not as actions, so they stay disabled.
            let title = title_of_entry(&worksets[offset]);
            let item = MenuItem::Label { title };
            assert(self.items.len() == 7 + offset);
            self.items.insert(self.workset_index + offset, item);
            proof {
                labels = labels.push(item);
                assert(self.items@ =~= head + labels + tail);
            }
            self.workset_count = self.workset_count + 1;
            offset += 1;
        }
        proof {
            let old_items = views(before);
            assert(old_items == old(self)@.menu());
            assert(views(self.items@) =~= views(head) + views(labels) + views(tail));
            assert(views(head) =~= old_items.take(2));
            assert(views(tail) =~= old_items.skip(2 + count));
            assert(old(self)@.labels().len() == count);
            assert(old(self)@.menu().take(2) =~= old(self)@.head());
            assert(old(self)@.menu().skip(2 + count) =~= old(self)@.tail());
            assert(self@.worksets =~= titles);
            assert(self@ =~= StatusIconView { worksets: titles, ..old(self)@ });
            assert(views(labels) =~= self@.labels());
        }
    }

    /// Sets the text next to the icon.
    pub fn set_text(&mut self, text: &str)
        requires
            old(self).well_formed(),
        ensures
            final(self).well_formed(),
            final(self)@ == (StatusIconView { text: text@, ..old(self)@ }),
    {
        self.text = text.to_owned();
        assert(self@.menu() =~= old(self)@.menu());
    }

    /// Sets the toggle menu item title.
    pub fn set_toggle_title(&mut self, title: &str)
        requires
            old(self).well_formed(),
        ensures
            final(self).well_formed(),
            final(self)@ == (StatusIconView { toggle_title: title@, ..old(self)@ }),
    {
        let place: usize = self.items.len() - 2;
        self.items[place] = MenuItem::Action {
            title: title.to_owned(),
            tag: TOGGLE_GLOBAL_TAG,
            enabled: true,
        };
        proof {
            let items = views(self.items@);
            assert(items =~= old(self)@.menu().update(place as int, self.items@[place as int]@));
            assert(self@ =~= StatusIconView { toggle_title: title@, ..old(self)@ });
            assert(items =~= self@.menu());
        }
    }

    /// Sets the space toggle menu item title.
    pub fn set_space_toggle_title(&mut self, title: &str)
        requires
            old(self).well_formed(),
        ensures
            final(self).well_formed(),
            final(self)@ == (StatusIconView { space_toggle_title: title@, ..old(self)@ }),
    {
        let enabled = match &self.items[0] {
            MenuItem::Action { enabled, .. } => *enabled,
            _ => true,
        };
        self.set_space_toggle(title.to_owned(), enabled);
    }

    /// Sets whether the space toggle menu item is enabled.
    pub fn set_space_toggle_enabled(&mut self, enabled: bool)
        requires
            old(self).well_formed(),
        ensures
            final(self).well_formed(),
            final(self)@ == (StatusIconView { space_toggle_enabled: enabled, ..old(self)@ }),
    {
        let title = match &self.items[0] {
            MenuItem::Action { title, .. } => title.as_str().to_owned(),
            _ => String::new(),
        };
        self.set_space_toggle(title, enabled);
    }

    fn set_space_toggle(&mut self, title: String, enabled: bool)
        requires
            old(self).well_formed(),
        ensures
            final(self).well_formed(),
            final(self)@ == (StatusIconView {
                space_toggle_title: title@,
                space_toggle_enabled: enabled,
                ..old(self)@
            }),
    {
        self.items[0] = MenuItem::Action { title, tag: TOGGLE_SPACE_TAG, enabled };
        proof {
            let items = views(self.items@);
            assert(items =~= old(self)@.menu().update(0, self.items@[0]@));
            assert(self@ =~= StatusIconView {
                space_toggle_title: title@,
                space_toggle_enabled: enabled,
                ..old(self)@
            });
            assert(items =~= self@.menu());
        }
    }
}

/// An event that the menu sends.
pub type MenuEvent = WmEvent<WmCommand<WmCmd, Command>>;

/// What choosing a menu item sets off.
#[derive(Debug, Clone, Copy, PartialEq, Eq)]
pub enum MenuAction {
    /// Send an event to the window manager.
    Send(MenuEvent),
    /// Open the documentation in a browser.
    ShowDocs,
    /// Nothing: no item has this tag.
    Unknown,
}

/// What the item with a tag sets off.
pub open spec fn action_of(tag: i64) -> MenuAction {
    if tag == SAVE_AND_QUIT_TAG {
        MenuAction::Send(
            WmEvent::Command(
                WmCommand::ReactorCommand(Command::Reactor(ReactorCommand::SaveAndExit)),
            ),
        )
    } else if tag == TOGGLE_GLOBAL_TAG {
        MenuAction::Send(WmEvent::Command(WmCommand::Wm(WmCmd::ToggleGlobalEnabled)))
    } else if tag == TOGGLE_SPACE_TAG {
        MenuAction::Send(WmEvent::Command(WmCommand::Wm(WmCmd::ToggleSpaceActivated)))
    } else if tag == SHOW_DOCS_TAG {
        MenuAction::ShowDocs
    } else {
        MenuAction::Unknown
    }
}

/// What to do when the item with this tag is chosen.
pub fn handle_action(tag: i64) -> (action: MenuAction)
    ensures
        action == action_of(tag),
{
    match tag {
        SAVE_AND_QUIT_TAG => MenuAction::Send(
            WmEvent::Command(
                WmCommand::ReactorCommand(Command::Reactor(ReactorCommand::SaveAndExit)),
            ),
        ),
        TOGGLE_GLOBAL_TAG => MenuAction::Send(
            WmEvent::Command(WmCommand::Wm(WmCmd::ToggleGlobalEnabled)),
        ),
        TOGGLE_SPACE_TAG => MenuAction::Send(
            WmEvent::Command(WmCommand::Wm(WmCmd::ToggleSpaceActivated)),
        ),
        SHOW_DOCS_TAG => MenuAction::ShowDocs,
        _ => MenuAction::Unknown,
    }
}

/// The page that the documentation item opens.
pub fn docs_url() -> (url: &'static str)
    ensures
        url@ == "https://glidewm.org/reference/config"@,
{
    "https://glidewm.org/reference/config"
}

/// How the icon is drawn.
#[derive(Debug, Clone, Copy, PartialEq)]
pub struct ParachuteIcon {
    /// The file that holds the picture.
    pub asset: &'static str,
    /// Width and height in points.
    pub side: CGFloat,
    /// Whether the picture is a template that follows the system appearance.
    pub template: bool,
}

/// The bit pattern of 16.
pub const ICON_SIDE_BITS: u64 = 0x4030_0000_0000_0000;

/// The icon, in color or as a template.
pub fn create_parachute_icon(color: bool) -> (icon: ParachuteIcon)
    ensures
        icon.asset@ == if color {
            "parachute-small.svg"@
        } else {
            "parachute-nocolor.svg"@
        },
        icon.side.bits == ICON_SIDE_BITS,
        icon.template == !color,
{
    ParachuteIcon {
        asset: if color {
            "parachute-small.svg"
        } else {
            "parachute-nocolor.svg"
        },
        side: CGFloat { bits: ICON_SIDE_BITS },
        template: !color,
    }
}

/// The Worksets stand between the same items whatever they are, and a new list
/// takes the place of the old one.
pub proof fn law_worksets_are_replaced_in_place(
    icon: StatusIconView,
    first: Seq<Seq<char>>,
    second: Seq<Seq<char>>,
)
    ensures
        ({
            let listed = StatusIconView { worksets: first, ..icon };
            let relisted = StatusIconView { worksets: second, ..listed };
            &&& relisted == (StatusIconView { worksets: second, ..icon })
            &&& relisted.menu() == icon.head() + relisted.labels() + icon.tail()
            &&& relisted.menu().len() == 7 + second.len()
            &&& forall|i: int|
                0 <= i < second.len() ==> #[trigger] relisted.menu()[icon.head().len() + i]
                    == (ItemView::Label { title: second[i] })
        }),
{
    let relisted = StatusIconView { worksets: second, ..icon };
    assert(relisted.head() =~= icon.head());
    assert(relisted.tail() =~= icon.tail());
}

/// Every item that can be chosen sets something off, and no two set off the
/// same.
pub proof fn law_every_choice_has_its_own_action(icon: StatusIconView, i: int, j: int)
    requires
        0 <= i < icon.menu().len(),
        0 <= j < icon.menu().len(),
        icon.menu()[i] is Action,
        icon.menu()[j] is Action,
    ensures
        action_of(icon.menu()[i]->tag) != MenuAction::Unknown,
        action_of(icon.menu()[i]->tag) == action_of(icon.menu()[j]->tag) ==> i == j,
{
    let n = icon.worksets.len() as int;
    assert forall|k: int| 0 <= k < icon.menu().len() && icon.menu()[k] is Action implies k == 0 || k
        == 3 + n || k == 5 + n || k == 6 + n by {
        if 2 <= k < 2 + n {
            assert(icon.menu()[k] == icon.labels()[k - 2]);
        } else if k >= 2 + n {
            assert(icon.menu()[k] == icon.tail()[k - 2 - n]);
        }
    }
}

} // verus!
