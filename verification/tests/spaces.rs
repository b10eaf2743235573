use std::str::FromStr;

use glide_wm::sys::display_selector::{is_display_uuid, unknown_name, DisplaySelector};
use glide_wm::sys::space::{
    displays_with_user_spaces, get_active_space_number, is_user_space, select_display,
    space_on_display, space_with_number, spaces_of_display, spaces_of_selected_display,
    DesktopLookup, DisplaySpaces, ManagedDisplay, ManagedSpace, SpaceId,
};

fn display(uuid: &str, spaces: &[u64]) -> DisplaySpaces {
    DisplaySpaces {
        identifier: Some(uuid.to_owned()),
        spaces: spaces.iter().map(|&id| SpaceId::new(id)).collect(),
    }
}

fn desktop(id: u64) -> Option<ManagedSpace> {
    Some(ManagedSpace { ty: Some(0), id: Some(id) })
}

fn tile(id: u64) -> Option<ManagedSpace> {
    Some(ManagedSpace { ty: Some(4), id: Some(id) })
}

fn managed(uuid: &str, spaces: Vec<Option<ManagedSpace>>) -> Option<ManagedDisplay> {
    Some(ManagedDisplay { identifier: Some(uuid.to_owned()), spaces: Some(spaces) })
}

fn ids(spaces: &[SpaceId]) -> Vec<u64> {
    spaces.iter().map(|s| s.get()).collect()
}

const BUILTIN: &str = "F8C4E36C-4313-4104-88FA-C9736A46352C";
const EXTERNAL: &str = "84EFFBF0-1178-405C-9D64-3B574C1BE249";

fn two_displays() -> Vec<Option<ManagedDisplay>> {
    vec![
        managed(EXTERNAL, vec![desktop(199)]),
        managed(BUILTIN, vec![desktop(166), tile(170), desktop(167), desktop(168)]),
    ]
}

#[test]
fn builtin_follows_the_main_display_not_the_list_order() {
    // macOS rebuilds the display list as displays come and go, so on wake
    // the main display is not always first. Resolving by position would
    // hand back the other display's spaces.
    let displays = vec![
        display(EXTERNAL, &[199]),
        display(BUILTIN, &[166, 167, 168]),
    ];
    assert_eq!(
        Some(vec![SpaceId::new(166), SpaceId::new(167), SpaceId::new(168)]),
        select_display(displays, &DisplaySelector::Builtin, Some(BUILTIN)),
    );
}

#[test]
fn builtin_is_missing_when_no_display_is_main() {
    let displays = vec![display(BUILTIN, &[166])];
    assert_eq!(None, select_display(displays, &DisplaySelector::Builtin, None));
}

#[test]
fn a_uuid_matches_regardless_of_case_and_position() {
    let displays = vec![display(BUILTIN, &[166]), display(EXTERNAL, &[199])];
    assert_eq!(
        Some(vec![SpaceId::new(199)]),
        select_display(
            displays,
            &DisplaySelector::Uuid(EXTERNAL.to_ascii_lowercase()),
            Some(BUILTIN),
        ),
    );
}

#[test]
fn a_disconnected_display_resolves_to_nothing() {
    let displays = vec![display(BUILTIN, &[166])];
    assert_eq!(
        None,
        select_display(
            displays,
            &DisplaySelector::Uuid(EXTERNAL.to_owned()),
            Some(BUILTIN),
        ),
    );
}

#[test]
fn display_selector_rejects_a_misspelled_alias() {
    assert_eq!(
        DisplaySelector::from_str("builtin"),
        Ok(DisplaySelector::Builtin)
    );
    assert_eq!(DisplaySelector::from_str("MAIN"), Ok(DisplaySelector::Builtin));
    assert_eq!(
        DisplaySelector::from_str("84EFFBF0-1178-405C-9D64-3B574C1BE249"),
        Ok(DisplaySelector::Uuid(
            "84EFFBF0-1178-405C-9D64-3B574C1BE249".to_owned()
        ))
    );

    // A typo would otherwise become a UUID that never matches a display,
    // silently parking or falling back forever.
    assert!(DisplaySelector::from_str("buitlin").is_err());
    assert!(DisplaySelector::from_str("").is_err());
    assert!(DisplaySelector::from_str("not-a-uuid").is_err());
}

#[test]
fn only_desktops_are_numbered() {
    // Mission Control numbers desktops but not the tile a fullscreen or
    // Split View app gets, so a number from config has to skip those.
    assert!(is_user_space(Some(0)));
    assert!(!is_user_space(Some(4)));

    // An unreadable type counts, so a desktop is never skipped by accident.
    assert!(is_user_space(None));
}

#[test]
fn a_display_without_identifier_is_never_selected() {
    let displays = vec![
        DisplaySpaces { identifier: None, spaces: vec![SpaceId::new(1)] },
        display(EXTERNAL, &[2]),
    ];
    assert_eq!(
        Some(vec![SpaceId::new(2)]),
        select_display(displays, &DisplaySelector::Uuid(EXTERNAL.to_owned()), None),
    );
}

#[test]
fn the_first_of_two_equal_names_is_selected() {
    let displays = vec![display(EXTERNAL, &[1]), display(EXTERNAL, &[2])];
    assert_eq!(
        Some(vec![SpaceId::new(1)]),
        select_display(displays, &DisplaySelector::Uuid(EXTERNAL.to_owned()), None),
    );
}

#[test]
fn case_folding_stops_at_ascii() {
    let displays = vec![display("\u{e9}a", &[1])];
    let upper = DisplaySelector::Uuid("\u{c9}A".to_owned());
    assert_eq!(None, select_display(displays.clone(), &upper, None));
    let lower = DisplaySelector::Uuid("\u{e9}A".to_owned());
    assert_eq!(Some(vec![SpaceId::new(1)]), select_display(displays, &lower, None));
}

#[test]
fn every_alias_of_the_builtin_display_is_read() {
    for name in ["builtin", "Main", "pRiMaRy", "BUILTIN"] {
        assert_eq!(DisplaySelector::parse(name), Ok(DisplaySelector::Builtin));
    }
}

#[test]
fn uuid_shape_is_checked_group_by_group() {
    assert!(is_display_uuid(EXTERNAL));
    assert!(is_display_uuid("84effbf0-1178-405c-9d64-3b574c1be249"));
    assert!(!is_display_uuid("84EFFBF-01178-405C-9D64-3B574C1BE249"));
    assert!(!is_display_uuid("84EFFBF0-1178-405C-9D64-3B574C1BE24G"));
    assert!(!is_display_uuid("84EFFBF0-1178-405C-9D64-3B574C1BE2490"));
    assert!(!is_display_uuid("84EFFBF0-1178-405C-9D64-3B574C1BE24"));
    assert!(!is_display_uuid("84EFFBF0-1178-405C-9D64-3B574C1BE2-4"));
    assert!(!is_display_uuid("84EFFBF0-1178-405C-9D64-3B574C1BE2\u{e9}"));
    assert!(!is_display_uuid(""));
}

#[test]
fn an_unknown_name_is_quoted_in_the_error() {
    assert_eq!(
        DisplaySelector::parse("bui\"tlin"),
        Err("expected \"builtin\" or a display UUID like \
             \"84EFFBF0-1178-405C-9D64-3B574C1BE249\", found \"bui\\\"tlin\""
            .to_owned())
    );
    assert_eq!(
        unknown_name("x"),
        "expected \"builtin\" or a display UUID like \
         \"84EFFBF0-1178-405C-9D64-3B574C1BE249\", found x"
    );
}

#[test]
fn a_written_selector_reads_back() {
    for selector in [DisplaySelector::Builtin, DisplaySelector::Uuid(EXTERNAL.to_owned())] {
        assert_eq!(DisplaySelector::parse(selector.as_str()), Ok(selector.clone()));
    }
    assert_eq!(DisplaySelector::Builtin.as_str(), "builtin");
}

#[test]
fn unreadable_entries_are_left_out() {
    let report = vec![
        None,
        Some(ManagedDisplay { identifier: Some("a".to_owned()), spaces: None }),
        Some(ManagedDisplay {
            identifier: None,
            spaces: Some(vec![
                None,
                Some(ManagedSpace { ty: None, id: Some(7) }),
                Some(ManagedSpace { ty: Some(0), id: None }),
                Some(ManagedSpace { ty: Some(0), id: Some(0) }),
                tile(8),
                desktop(9),
            ]),
        }),
        managed(EXTERNAL, vec![]),
    ];
    let displays = displays_with_user_spaces(Some(&report)).unwrap();
    assert_eq!(displays.len(), 2);
    assert_eq!(displays[0].identifier, None);
    assert_eq!(ids(&displays[0].spaces), vec![7, 9]);
    assert_eq!(displays[1].identifier.as_deref(), Some(EXTERNAL));
    assert_eq!(ids(&displays[1].spaces), vec![]);
    assert!(displays_with_user_spaces(None).is_none());
}

#[test]
fn the_spaces_of_a_display_are_found_by_any_of_them() {
    let report = two_displays();
    let spaces = spaces_of_display(SpaceId::new(167), Some(&report)).unwrap();
    assert_eq!(ids(&spaces), vec![166, 167, 168]);
    assert_eq!(spaces_of_display(SpaceId::new(170), Some(&report)), None);
    assert_eq!(spaces_of_display(SpaceId::new(167), None), None);
}

#[test]
fn a_number_resolves_within_its_display() {
    let report = two_displays();
    let on = SpaceId::new(168);
    assert_eq!(space_with_number(0, on, Some(&report)), None);
    assert_eq!(space_with_number(1, on, Some(&report)), Some(SpaceId::new(166)));
    assert_eq!(space_with_number(2, on, Some(&report)), Some(SpaceId::new(167)));
    assert_eq!(space_with_number(3, on, Some(&report)), Some(SpaceId::new(168)));
    assert_eq!(space_with_number(4, on, Some(&report)), None);
    assert_eq!(space_with_number(usize::MAX, on, Some(&report)), None);

    // With one desktop, only 1 resolves.
    let alone = SpaceId::new(199);
    assert_eq!(space_with_number(1, alone, Some(&report)), Some(alone));
    assert_eq!(space_with_number(2, alone, Some(&report)), None);
}

#[test]
fn attaching_a_display_renumbers_nothing() {
    let before = vec![managed(BUILTIN, vec![desktop(166), desktop(167)])];
    let mut after = before.clone();
    after.insert(0, managed(EXTERNAL, vec![desktop(199), desktop(200)]));
    let on = SpaceId::new(166);
    for number in 0..4 {
        assert_eq!(
            space_with_number(number, on, Some(&before)),
            space_with_number(number, on, Some(&after)),
        );
    }
    let selector = DisplaySelector::Uuid(BUILTIN.to_owned());
    assert_eq!(
        spaces_of_selected_display(&selector, Some(&before), None),
        spaces_of_selected_display(&selector, Some(&after), None),
    );
}

#[test]
fn a_fullscreen_tile_renumbers_nothing() {
    let windowed = vec![managed(BUILTIN, vec![desktop(166), desktop(167)])];
    let fullscreen = vec![managed(BUILTIN, vec![desktop(166), tile(300), desktop(167)])];
    let on = SpaceId::new(166);
    assert_eq!(
        space_with_number(2, on, Some(&windowed)),
        space_with_number(2, on, Some(&fullscreen)),
    );
    assert_eq!(get_active_space_number(167, Some(&fullscreen)), Some(2));
    assert_eq!(get_active_space_number(300, Some(&fullscreen)), None);
}

#[test]
fn the_shown_number_is_the_one_that_resolves() {
    let report = two_displays();
    for id in [199, 166, 167, 168] {
        let number = get_active_space_number(id, Some(&report)).unwrap();
        let space = SpaceId::new(id);
        assert_eq!(space_with_number(number, space, Some(&report)), Some(space));
    }
    assert_eq!(get_active_space_number(199, Some(&report)), Some(1));
    assert_eq!(get_active_space_number(168, Some(&report)), Some(3));
    assert_eq!(get_active_space_number(0, Some(&report)), None);
    assert_eq!(get_active_space_number(168, None), None);
}

#[test]
fn a_missing_display_is_not_a_missing_desktop() {
    let report = two_displays();
    let external = DisplaySelector::Uuid(EXTERNAL.to_owned());
    let main = Some(BUILTIN);
    assert_eq!(
        space_on_display(&external, 1, Some(&report), main),
        DesktopLookup::Found(SpaceId::new(199))
    );
    assert_eq!(
        space_on_display(&external, 2, Some(&report), main),
        DesktopLookup::NoSuchDesktop
    );
    assert_eq!(
        space_on_display(&external, 0, Some(&report), main),
        DesktopLookup::NoSuchDesktop
    );
    assert_eq!(
        space_on_display(&DisplaySelector::Builtin, 3, Some(&report), main),
        DesktopLookup::Found(SpaceId::new(168))
    );
    assert_eq!(
        space_on_display(&DisplaySelector::Builtin, 3, Some(&report), None),
        DesktopLookup::DisplayMissing
    );
    assert_eq!(
        space_on_display(&DisplaySelector::Uuid("x".to_owned()), 1, Some(&report), main),
        DesktopLookup::DisplayMissing
    );
    assert_eq!(
        space_on_display(&external, 1, None, main),
        DesktopLookup::DisplayMissing
    );
}

#[test]
fn zero_is_no_space() {
    assert_eq!(SpaceId::from_raw(0), None);
    assert_eq!(SpaceId::from_raw(5), Some(SpaceId::new(5)));
    assert_eq!(SpaceId::new(u64::MAX).get(), u64::MAX);
    assert!(SpaceId::new(1) < SpaceId::new(2));
}
