use glide_wm::actor::command::{Command, ReactorCommand, WmCmd, WmCommand, WmEvent};
use glide_wm::ui::status_bar::{
    create_parachute_icon, docs_url, format_workset_title, handle_action, title_of_entry,
    MenuAction, MenuItem, StatusIcon, WorksetMenuEntry, SAVE_AND_QUIT_TAG, SHOW_DOCS_TAG,
    TOGGLE_GLOBAL_TAG, TOGGLE_SPACE_TAG,
};

fn entry(name: &str, key: Option<&str>, is_active: bool) -> WorksetMenuEntry {
    WorksetMenuEntry {
        name: name.to_owned(),
        key_equivalent: key.map(|k| k.to_owned()),
        is_active,
    }
}

fn action(title: &str, tag: i64, enabled: bool) -> MenuItem {
    MenuItem::Action { title: title.to_owned(), tag, enabled }
}

fn label(title: &str) -> MenuItem {
    MenuItem::Label { title: title.to_owned() }
}

fn fresh_menu() -> Vec<MenuItem> {
    vec![
        action("Enable Space", 3, true),
        MenuItem::Separator,
        label("Glide v0.2.15"),
        action("Documentation", 4, true),
        MenuItem::Separator,
        action("Enable Glide", 2, true),
        action("Quit", 1, true),
    ]
}

#[test]
fn a_new_menu_has_its_items() {
    let icon = StatusIcon::new("0.2.15");
    assert_eq!(icon.items(), &fresh_menu());
    assert_eq!(icon.workset_index(), 2);
    assert_eq!(icon.workset_count(), 0);
    assert_eq!(icon.text(), "");
}

#[test]
fn worksets_are_listed_between_separator_and_version() {
    let mut icon = StatusIcon::new("0.2.15");
    icon.set_worksets(&[
        entry("Agents", Some("a"), true),
        entry("Terminal", Some("t"), false),
        entry("Mail", None, false),
    ]);
    let mut expected = fresh_menu();
    expected.insert(2, label("\u{25cf} Agents  \u{2325}A"));
    expected.insert(3, label("\u{25cb} Terminal  \u{2325}T"));
    expected.insert(4, label("\u{25cb} Mail"));
    assert_eq!(icon.items(), &expected);
    assert_eq!(icon.workset_count(), 3);

    icon.set_worksets(&[entry("Mail", None, true)]);
    let mut expected = fresh_menu();
    expected.insert(2, label("\u{25cf} Mail"));
    assert_eq!(icon.items(), &expected);

    icon.set_worksets(&[]);
    assert_eq!(icon.items(), &fresh_menu());
}

#[test]
fn keys_are_shown_in_upper_case() {
    assert_eq!(title_of_entry(&entry("x", Some("\u{df}"), false)), "\u{25cb} x  \u{2325}SS");
    assert_eq!(format_workset_title(true, "x", Some("q")), "\u{25cf} x  \u{2325}q");
    assert_eq!(format_workset_title(false, "", None), "\u{25cb} ");
}

#[test]
fn titles_are_set_in_place() {
    let mut icon = StatusIcon::new("0.2.15");
    icon.set_worksets(&[entry("Mail", None, true)]);
    icon.set_toggle_title("Disable Glide");
    icon.set_space_toggle_title("Disable Space");
    icon.set_space_toggle_enabled(false);
    icon.set_text("2");
    assert_eq!(
        icon.items(),
        &vec![
            action("Disable Space", 3, false),
            MenuItem::Separator,
            label("\u{25cf} Mail"),
            label("Glide v0.2.15"),
            action("Documentation", 4, true),
            MenuItem::Separator,
            action("Disable Glide", 2, true),
            action("Quit", 1, true),
        ]
    );
    assert_eq!(icon.text(), "2");

    icon.set_space_toggle_title("Enable Space");
    assert_eq!(icon.items()[0], action("Enable Space", 3, false));
}

#[test]
fn each_tag_has_its_action() {
    assert_eq!(
        handle_action(SAVE_AND_QUIT_TAG),
        MenuAction::Send(WmEvent::Command(WmCommand::ReactorCommand(Command::Reactor(
            ReactorCommand::SaveAndExit
        ))))
    );
    assert_eq!(
        handle_action(TOGGLE_GLOBAL_TAG),
        MenuAction::Send(WmEvent::Command(WmCommand::Wm(WmCmd::ToggleGlobalEnabled)))
    );
    assert_eq!(
        handle_action(TOGGLE_SPACE_TAG),
        MenuAction::Send(WmEvent::Command(WmCommand::Wm(WmCmd::ToggleSpaceActivated)))
    );
    assert_eq!(handle_action(SHOW_DOCS_TAG), MenuAction::ShowDocs);
    for tag in [0, 5, -1, i64::MAX] {
        assert_eq!(handle_action(tag), MenuAction::Unknown);
    }
    assert_eq!(docs_url(), "https://glidewm.org/reference/config");
}

#[test]
fn every_choice_does_something_of_its_own() {
    let icon = StatusIcon::new("0.2.15");
    let mut seen = vec![];
    for item in icon.items() {
        if let MenuItem::Action { tag, .. } = item {
            let action = handle_action(*tag);
            assert_ne!(action, MenuAction::Unknown);
            assert!(!seen.contains(&action));
            seen.push(action);
        }
    }
    assert_eq!(seen.len(), 4);
}

#[test]
fn the_icon_is_a_template_without_color() {
    let plain = create_parachute_icon(false);
    assert_eq!(plain.asset, "parachute-nocolor.svg");
    assert!(plain.template);
    assert_eq!(f64::from_bits(plain.side.bits), 16.0);
    let colored = create_parachute_icon(true);
    assert_eq!(colored.asset, "parachute-small.svg");
    assert!(!colored.template);
}

#[test]
fn the_menu_does_not_enable_items_by_itself() {
    assert!(!StatusIcon::autoenables_items());
    assert_eq!(StatusIcon::menu_title(), "Glide");
}
