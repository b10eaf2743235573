//! What stands in the status menu, item by item.

use vstd::prelude::*;

use crate::actor::command::{Command, ReactorCommand, WmCmd, WmCommand, WmEvent};
use crate::text;
use crate::ui::status_bar;
use crate::ui::status_bar::{
    MenuAction, MenuItem, ParachuteIcon, StatusIcon, WorksetMenuEntry,
};

verus! {

/// An item that can be chosen, with this title, tag and state.
pub open spec fn is_choice(item: MenuItem, title: Seq<char>, tag: int, enabled: bool) -> bool {
    &&& item is Action
    &&& item->Action_title@ == title
    &&& item->tag == tag
    &&& item->enabled == enabled
}

/// An item to be read only, with this title.
pub open spec fn is_label(item: MenuItem, title: Seq<char>) -> bool {
    item is Label && item->Label_title@ == title
}

/// Two items that look and do the same.
pub open spec fn is_same_item(a: MenuItem, b: MenuItem) -> bool {
    match (a, b) {
        (MenuItem::Separator, MenuItem::Separator) => true,
        (
            MenuItem::Action { title, tag, enabled },
            MenuItem::Action { title: other, tag: other_tag, enabled: other_enabled },
        ) => title@ == other@ && tag == other_tag && enabled == other_enabled,
        (MenuItem::Label { title }, MenuItem::Label { title: other }) => title@ == other@,
        _ => false,
    }
}

/// The views of items tell the items.
proof fn lemma_items(items: Seq<MenuItem>)
    ensures
        status_bar::views(items).len() == items.len(),
        forall|k: int|
            0 <= k < items.len() ==> #[trigger] status_bar::views(items)[k] == items[k]@,
{
}

/// A new menu: the choice for the Space above a line, then the version and the
/// documentation, and below another line the choice for everything and the end.
/// There is no text by the icon, and no Workset.
pub proof fn law_new_menu(
    version: &str,
    icon: StatusIcon,
    items: &Vec<MenuItem>,
    text: &str,
    index: usize,
    count: usize,
)
    requires
        call_ensures(StatusIcon::new, (version,), icon),
        call_ensures(StatusIcon::items, (&icon,), items),
        call_ensures(StatusIcon::text, (&icon,), text),
        call_ensures(StatusIcon::workset_index, (&icon,), index),
        call_ensures(StatusIcon::workset_count, (&icon,), count),
    ensures
        icon.well_formed(),
        items@.len() == 7,
        is_choice(items@[0], "Enable Space"@, 3, true),
        items@[1] is Separator,
        is_label(items@[2], "Glide v"@ + version@),
        is_choice(items@[3], "Documentation"@, 4, true),
        items@[4] is Separator,
        is_choice(items@[5], "Enable Glide"@, 2, true),
        is_choice(items@[6], "Quit"@, 1, true),
        text@.len() == 0,
        index == 2,
        count == 0,
{
    lemma_items(items@);
    let views = status_bar::views(items@);
    assert(views == icon@.menu());
    assert(icon@.labels().len() == 0);
    assert(views[0] == items@[0]@ && views[1] == items@[1]@ && views[2] == items@[2]@);
    assert(views[3] == items@[3]@ && views[4] == items@[4]@ && views[5] == items@[5]@);
    assert(views[6] == items@[6]@);
}

/// The title of a Workset: a full or an empty bullet, a blank and the name,
/// and then the key in upper case, if there is one, after two blanks and the
/// sign for Option.
pub open spec fn is_title_of(title: Seq<char>, entry: WorksetMenuEntry) -> bool {
    let bullet = if entry.is_active {
        "●"@
    } else {
        "○"@
    };
    match entry.key_equivalent {
        Some(key) => title == bullet + " "@ + entry.name@ + "  ⌥"@ + text::uppercase(key@),
        None => title == bullet + " "@ + entry.name@,
    }
}

proof fn lemma_title(entry: WorksetMenuEntry)
    ensures
        is_title_of(status_bar::entry_title(entry), entry),
{
    let bullet = if entry.is_active {
        "●"@
    } else {
        "○"@
    };
    let title = status_bar::entry_title(entry);
    match entry.key_equivalent {
        Some(key) => {
            assert(title =~= bullet + " "@ + entry.name@ + "  ⌥"@ + text::uppercase(key@));
        },
        None => {
            assert(title =~= bullet + " "@ + entry.name@);
        },
    }
}

/// A Workset's title is made of its state, name and key.
pub proof fn law_title_of_a_workset(entry: &WorksetMenuEntry, title: String)
    requires
        call_ensures(status_bar::title_of_entry, (entry,), title),
    ensures
        is_title_of(title@, *entry),
{
    lemma_title(*entry);
}

/// A title is made of its parts as they are given.
pub proof fn law_parts_of_a_title(
    is_active: bool,
    name: &str,
    shortcut: Option<&str>,
    title: String,
)
    requires
        call_ensures(status_bar::format_workset_title, (is_active, name, shortcut), title),
    ensures
        ({
            let bullet = if is_active {
                "●"@
            } else {
                "○"@
            };
            match shortcut {
                Some(key) => title@ == bullet + " "@ + name@ + "  ⌥"@ + key@,
                None => title@ == bullet + " "@ + name@,
            }
        }),
{
    let bullet = if is_active {
        "●"@
    } else {
        "○"@
    };
    match shortcut {
        Some(key) => {
            assert(title@ =~= bullet + " "@ + name@ + "  ⌥"@ + key@);
        },
        None => {
            assert(title@ =~= bullet + " "@ + name@);
        },
    }
}

/// Listing Worksets puts a label for each between the first two items and the
/// rest, in their order, in place of the labels that stood there. All other
/// items stay, and so does the text by the icon.
pub proof fn law_listed_worksets(
    icon: &mut StatusIcon,
    worksets: &[WorksetMenuEntry],
    listed: StatusIcon,
    items_before: &Vec<MenuItem>,
    count_before: usize,
    text_before: &str,
    items: &Vec<MenuItem>,
    count: usize,
    index: usize,
    text: &str,
)
    requires
        old(icon).well_formed(),
        call_ensures(StatusIcon::items, (&*old(icon),), items_before),
        call_ensures(StatusIcon::workset_count, (&*old(icon),), count_before),
        call_ensures(StatusIcon::text, (&*old(icon),), text_before),
        call_ensures(StatusIcon::set_worksets, (icon, worksets), ()),
        *final(icon) == listed,
        call_ensures(StatusIcon::items, (&listed,), items),
        call_ensures(StatusIcon::workset_count, (&listed,), count),
        call_ensures(StatusIcon::workset_index, (&listed,), index),
        call_ensures(StatusIcon::text, (&listed,), text),
    ensures
        listed.well_formed(),
        text@ == text_before@,
        index == 2,
        count == worksets@.len(),
        items@.len() + count_before == items_before@.len() + worksets@.len(),
        is_same_item(items@[0], items_before@[0]),
        is_same_item(items@[1], items_before@[1]),
        forall|k: int|
            0 <= k < worksets@.len() ==> (#[trigger] items@[2 + k]) is Label && is_title_of(
                items@[2 + k]->Label_title@,
                worksets@[k],
            ),
        forall|k: int|
            2 + worksets@.len() <= k < items@.len() ==> is_same_item(
                #[trigger] items@[k],
                items_before@[k - worksets@.len() + count_before],
            ),
{
    let before = old(icon)@;
    let after = listed@;
    lemma_items(items_before@);
    lemma_items(items@);
    let n = worksets@.len() as int;
    let c = count_before as int;
    let shown_before = status_bar::views(items_before@);
    let shown = status_bar::views(items@);
    assert(shown_before == before.menu() && shown == after.menu());
    assert(before.labels().len() == c && after.labels().len() == n);
    assert(shown[0] == shown_before[0] && shown[1] == shown_before[1]);
    assert(items@[0]@ == shown[0] && items@[1]@ == shown[1]);
    assert(items_before@[0]@ == shown_before[0] && items_before@[1]@ == shown_before[1]);
    assert forall|k: int| 0 <= k < n implies (#[trigger] items@[2 + k]) is Label && is_title_of(
        items@[2 + k]->Label_title@,
        worksets@[k],
    ) by {
        assert(shown[2 + k] == items@[2 + k]@);
        assert(shown[2 + k] == after.labels()[k]);
        lemma_title(worksets@[k]);
    }
    assert forall|k: int| 2 + n <= k < items@.len() implies is_same_item(
        #[trigger] items@[k],
        items_before@[k - n + c],
    ) by {
        let l = k - n + c;
        assert(shown[k] == items@[k]@);
        assert(shown_before[l] == items_before@[l]@);
        assert(shown[k] == after.tail()[k - 2 - n]);
        assert(shown_before[l] == before.tail()[l - 2 - c]);
        assert(after.tail() =~= before.tail());
    }
}

/// The items of the menu, one of which may differ from before.
pub open spec fn differ_only_at(items: Seq<MenuItem>, before: Seq<MenuItem>, at: int) -> bool {
    &&& items.len() == before.len()
    &&& 0 <= at < items.len()
    &&& forall|k: int|
        0 <= k < items.len() && k != at ==> is_same_item(#[trigger] items[k], before[k])
}

proof fn lemma_differ_only_at(items: Seq<MenuItem>, before: Seq<MenuItem>, at: int)
    requires
        0 <= at < items.len(),
        items.len() == before.len(),
        forall|k: int|
            0 <= k < items.len() && k != at ==> #[trigger] status_bar::views(items)[k]
                == status_bar::views(before)[k],
    ensures
        differ_only_at(items, before, at),
{
    assert forall|k: int| 0 <= k < items.len() && k != at implies is_same_item(
        #[trigger] items[k],
        before[k],
    ) by {
        assert(status_bar::views(items)[k] == items[k]@);
        assert(status_bar::views(before)[k] == before[k]@);
    }
}

/// The text by the icon is what it was set to, and the menu stays.
pub proof fn law_text_is_set(
    icon: &mut StatusIcon,
    text: &str,
    changed: StatusIcon,
    items_before: &Vec<MenuItem>,
    items: &Vec<MenuItem>,
    got: &str,
)
    requires
        old(icon).well_formed(),
        call_ensures(StatusIcon::items, (&*old(icon),), items_before),
        call_ensures(StatusIcon::set_text, (icon, text), ()),
        *final(icon) == changed,
        call_ensures(StatusIcon::items, (&changed,), items),
        call_ensures(StatusIcon::text, (&changed,), got),
    ensures
        changed.well_formed(),
        got@ == text@,
        items@.len() == items_before@.len(),
        forall|k: int|
            0 <= k < items@.len() ==> is_same_item(#[trigger] items@[k], items_before@[k]),
{
    lemma_items(items_before@);
    lemma_items(items@);
    assert(changed@.menu() =~= old(icon)@.menu());
    assert forall|k: int| 0 <= k < items@.len() implies is_same_item(
        #[trigger] items@[k],
        items_before@[k],
    ) by {
        assert(status_bar::views(items@)[k] == items@[k]@);
        assert(status_bar::views(items_before@)[k] == items_before@[k]@);
    }
}

/// Setting the title of the choice for everything changes that title, on the
/// last item but one, and nothing else.
pub proof fn law_toggle_title_is_set(
    icon: &mut StatusIcon,
    title: &str,
    changed: StatusIcon,
    items_before: &Vec<MenuItem>,
    text_before: &str,
    items: &Vec<MenuItem>,
    text: &str,
)
    requires
        old(icon).well_formed(),
        call_ensures(StatusIcon::items, (&*old(icon),), items_before),
        call_ensures(StatusIcon::text, (&*old(icon),), text_before),
        call_ensures(StatusIcon::set_toggle_title, (icon, title), ()),
        *final(icon) == changed,
        call_ensures(StatusIcon::items, (&changed,), items),
        call_ensures(StatusIcon::text, (&changed,), text),
    ensures
        changed.well_formed(),
        text@ == text_before@,
        differ_only_at(items@, items_before@, items@.len() - 2),
        is_choice(items@[items@.len() - 2], title@, 2, true),
{
    lemma_items(items_before@);
    lemma_items(items@);
    let at = items@.len() - 2;
    assert(changed@.labels() == old(icon)@.labels());
    assert(changed@.menu().len() == 7 + changed@.labels().len());
    assert(status_bar::views(items@)[at] == items@[at]@);
    lemma_differ_only_at(items@, items_before@, at);
}

/// Setting the title of the choice for the Space changes that title, on the
/// first item, and nothing else.
pub proof fn law_space_toggle_title_is_set(
    icon: &mut StatusIcon,
    title: &str,
    changed: StatusIcon,
    items_before: &Vec<MenuItem>,
    text_before: &str,
    items: &Vec<MenuItem>,
    text: &str,
)
    requires
        old(icon).well_formed(),
        call_ensures(StatusIcon::items, (&*old(icon),), items_before),
        call_ensures(StatusIcon::text, (&*old(icon),), text_before),
        call_ensures(StatusIcon::set_space_toggle_title, (icon, title), ()),
        *final(icon) == changed,
        call_ensures(StatusIcon::items, (&changed,), items),
        call_ensures(StatusIcon::text, (&changed,), text),
    ensures
        changed.well_formed(),
        text@ == text_before@,
        differ_only_at(items@, items_before@, 0),
        items_before@[0] is Action,
        is_choice(items@[0], title@, 3, items_before@[0]->enabled),
{
    lemma_items(items_before@);
    lemma_items(items@);
    assert(changed@.labels() == old(icon)@.labels());
    assert(status_bar::views(items@)[0] == items@[0]@);
    assert(status_bar::views(items_before@)[0] == items_before@[0]@);
    lemma_differ_only_at(items@, items_before@, 0);
}

/// Setting whether the Space can be chosen changes that, on the first item, and
/// nothing else.
pub proof fn law_space_toggle_state_is_set(
    icon: &mut StatusIcon,
    enabled: bool,
    changed: StatusIcon,
    items_before: &Vec<MenuItem>,
    text_before: &str,
    items: &Vec<MenuItem>,
    text: &str,
)
    requires
        old(icon).well_formed(),
        call_ensures(StatusIcon::items, (&*old(icon),), items_before),
        call_ensures(StatusIcon::text, (&*old(icon),), text_before),
        call_ensures(StatusIcon::set_space_toggle_enabled, (icon, enabled), ()),
        *final(icon) == changed,
        call_ensures(StatusIcon::items, (&changed,), items),
        call_ensures(StatusIcon::text, (&changed,), text),
    ensures
        changed.well_formed(),
        text@ == text_before@,
        differ_only_at(items@, items_before@, 0),
        items_before@[0] is Action,
        is_choice(items@[0], items_before@[0]->Action_title@, 3, enabled),
{
    lemma_items(items_before@);
    lemma_items(items@);
    assert(changed@.labels() == old(icon)@.labels());
    assert(status_bar::views(items@)[0] == items@[0]@);
    assert(status_bar::views(items_before@)[0] == items_before@[0]@);
    lemma_differ_only_at(items@, items_before@, 0);
}

/// The four tags save and quit, toggle everything, toggle the Space and show
/// the documentation; any other does nothing.
pub proof fn law_actions_of_the_tags(tag: i64, action: MenuAction)
    requires
        call_ensures(status_bar::handle_action, (tag,), action),
    ensures
        match action {
            MenuAction::Send(WmEvent::Command(WmCommand::ReactorCommand(command))) => tag == 1
                && command == Command::Reactor(ReactorCommand::SaveAndExit),
            MenuAction::Send(WmEvent::Command(WmCommand::Wm(WmCmd::ToggleGlobalEnabled))) => tag
                == 2,
            MenuAction::Send(WmEvent::Command(WmCommand::Wm(WmCmd::ToggleSpaceActivated))) => tag
                == 3,
            MenuAction::ShowDocs => tag == 4,
            MenuAction::Unknown => tag < 1 || tag > 4,
        },
{
}

/// What the items that never change their tag do when they are chosen: the
/// first toggles the Space, the last but one everything, and the last quits.
pub proof fn law_chosen_items(
    icon: &StatusIcon,
    items: &Vec<MenuItem>,
    first: MenuAction,
    last_but_one: MenuAction,
    last: MenuAction,
)
    requires
        icon.well_formed(),
        call_ensures(StatusIcon::items, (icon,), items),
        call_ensures(status_bar::handle_action, (items@[0]->tag,), first),
        call_ensures(
            status_bar::handle_action,
            (items@[items@.len() - 2]->tag,),
            last_but_one,
        ),
        call_ensures(status_bar::handle_action, (items@[items@.len() - 1]->tag,), last),
    ensures
        items@.len() >= 7,
        items@[0] is Action && items@[items@.len() - 2] is Action && items@[items@.len()
            - 1] is Action,
        first == MenuAction::Send(WmEvent::Command(WmCommand::Wm(WmCmd::ToggleSpaceActivated))),
        last_but_one == MenuAction::Send(
            WmEvent::Command(WmCommand::Wm(WmCmd::ToggleGlobalEnabled)),
        ),
        last == MenuAction::Send(
            WmEvent::Command(
                WmCommand::ReactorCommand(Command::Reactor(ReactorCommand::SaveAndExit)),
            ),
        ),
{
    lemma_items(items@);
    let shown = status_bar::views(items@);
    let n = items@.len() as int;
    assert(shown == icon@.menu());
    assert(n == 7 + icon@.labels().len());
    assert(shown[0] == items@[0]@);
    assert(shown[n - 2] == items@[n - 2]@ && shown[n - 2] == icon@.tail()[3]);
    assert(shown[n - 1] == items@[n - 1]@ && shown[n - 1] == icon@.tail()[4]);
}

/// The menu is called "Glide", leaves the state of its items alone, and shows
/// the documentation at its address.
pub proof fn law_fixed_parts_of_the_menu(title: &'static str, auto: bool, url: &'static str)
    requires
        call_ensures(StatusIcon::menu_title, (), title),
        call_ensures(StatusIcon::autoenables_items, (), auto),
        call_ensures(status_bar::docs_url, (), url),
    ensures
        title@ == "Glide"@,
        !auto,
        url@ == "https://glidewm.org/reference/config"@,
{
}

/// The icon is 16 points wide and high. In color it is the small picture as it
/// is; otherwise it is the picture without color, as a template.
pub proof fn law_pictures_of_the_icon(color: bool, icon: ParachuteIcon)
    requires
        call_ensures(status_bar::create_parachute_icon, (color,), icon),
    ensures
        icon.side.bits == 0x4030_0000_0000_0000,
        color ==> icon.asset@ == "parachute-small.svg"@ && !icon.template,
        !color ==> icon.asset@ == "parachute-nocolor.svg"@ && icon.template,
{
}

} // verus!
