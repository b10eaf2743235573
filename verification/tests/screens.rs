use glide_wm::sys::geometry::{
    Arithmetic, CGFloat, CGPoint, CGRect, CGSize, CoordinateConverter, NAN_BITS,
};
use glide_wm::sys::screen::{
    get_ns_screens, main_display, main_screen, undescribed_screens, ActiveDisplay, CGError,
    CGScreenInfo, NSScreenExt, NSScreenInfo, NSScreenReport, ScreenCache, ScreenConfigError,
    ScreenId, ScreenInfo, System,
};
use glide_wm::sys::space::SpaceId;

struct Doubles;

impl Arithmetic for Doubles {
    fn plus(&self, a: CGFloat, b: CGFloat) -> CGFloat {
        float(f64::from_bits(a.bits) + f64::from_bits(b.bits))
    }
    fn minus(&self, a: CGFloat, b: CGFloat) -> CGFloat {
        float(f64::from_bits(a.bits) - f64::from_bits(b.bits))
    }
    fn divide(&self, a: CGFloat, b: CGFloat) -> CGFloat {
        float(f64::from_bits(a.bits) / f64::from_bits(b.bits))
    }
}

fn float(value: f64) -> CGFloat {
    CGFloat { bits: value.to_bits() }
}

fn point(x: f64, y: f64) -> CGPoint {
    CGPoint { x: float(x), y: float(y) }
}

fn rect(x: f64, y: f64, width: f64, height: f64) -> CGRect {
    CGRect {
        origin: point(x, y),
        size: CGSize { width: float(width), height: float(height) },
    }
}

fn cg_screen(id: u32, bounds: CGRect) -> CGScreenInfo {
    CGScreenInfo { cg_id: ScreenId::new(id), bounds }
}

fn ns_screen(id: u32, visible_frame: CGRect) -> NSScreenInfo {
    NSScreenInfo {
        cg_id: ScreenId::new(id),
        frame: visible_frame,
        visible_frame,
        backing_scale_factor: float(2.0),
    }
}

struct Stub {
    cg_screens: Vec<CGScreenInfo>,
}

impl System for Stub {
    fn cg_screens(&self) -> Result<Vec<CGScreenInfo>, CGError> {
        Ok(self.cg_screens.clone())
    }
    fn uuid_for_rect(&self, rect: CGRect) -> String {
        format!("stub at {}", f64::from_bits(rect.origin.x.bits))
    }
    fn current_space(&self, uuid: &String) -> u64 {
        match uuid.as_str() {
            "stub at 0" => 41,
            "stub at 20" => 43,
            _ => 0,
        }
    }
}

struct Unavailable;

impl System for Unavailable {
    fn cg_screens(&self) -> Result<Vec<CGScreenInfo>, CGError> {
        Err(1004)
    }
    fn uuid_for_rect(&self, _rect: CGRect) -> String {
        unreachable!()
    }
    fn current_space(&self, _uuid: &String) -> u64 {
        unreachable!()
    }
}

#[test]
fn it_calculates_the_visible_frame() {
    let stub = Stub {
        cg_screens: vec![
            cg_screen(1, rect(3840.0, 1080.0, 1512.0, 982.0)),
            cg_screen(3, rect(0.0, 0.0, 3840.0, 2160.0)),
        ],
    };
    let ns_screens = vec![
        NSScreenInfo {
            cg_id: ScreenId::new(3),
            frame: rect(0.0, 0.0, 3840.0, 2160.0),
            visible_frame: rect(0.0, 76.0, 3840.0, 2059.0),
            backing_scale_factor: float(2.0),
        },
        NSScreenInfo {
            cg_id: ScreenId::new(1),
            frame: rect(3840.0, 98.0, 1512.0, 982.0),
            visible_frame: rect(3840.0, 98.0, 1512.0, 950.0),
            backing_scale_factor: float(2.0),
        },
    ];
    let mut sc = ScreenCache::new_with(stub);
    assert_eq!(
        vec![
            rect(0.0, 25.0, 3840.0, 2059.0),
            rect(3840.0, 1112.0, 1512.0, 950.0),
        ],
        sc.update_screen_config(ns_screens, &Doubles)
            .unwrap()
            .unwrap()
            .0
            .iter()
            .map(|s| s.visible_frame)
            .collect::<Vec<_>>()
    );
}

#[test]
fn rejected_screen_update_preserves_the_previous_cache() {
    let mut sc = ScreenCache::new_with(Stub {
        cg_screens: vec![cg_screen(1, rect(0.0, 0.0, 100.0, 100.0))],
    });
    let ns_screens = vec![NSScreenInfo {
        cg_id: ScreenId::new(1),
        frame: rect(0.0, 0.0, 0.0, 0.0),
        visible_frame: rect(0.0, 0.0, 0.0, 0.0),
        backing_scale_factor: float(1.0),
    }];
    assert!(sc.update_screen_config(ns_screens.clone(), &Doubles).unwrap().is_some());

    sc.system.cg_screens.push(cg_screen(2, rect(100.0, 0.0, 100.0, 100.0)));
    assert!(sc.update_screen_config(ns_screens, &Doubles).unwrap().is_none());
    assert_eq!(sc.uuids.len(), 1);
}

#[test]
fn the_main_screen_changes_places_with_the_first() {
    let mut sc = ScreenCache::new_with(Stub {
        cg_screens: vec![
            cg_screen(1, rect(-10.0, 0.0, 10.0, 10.0)),
            cg_screen(2, rect(10.0, 0.0, 10.0, 10.0)),
            cg_screen(3, rect(-0.0, 0.0, 10.0, 20.0)),
        ],
    });
    let ns = vec![
        ns_screen(1, rect(-10.0, 0.0, 10.0, 10.0)),
        ns_screen(2, rect(10.0, 0.0, 10.0, 10.0)),
        ns_screen(3, rect(0.0, 0.0, 10.0, 20.0)),
    ];
    let (screens, converter) = sc.update_screen_config(ns, &Doubles).unwrap().unwrap();
    assert_eq!(
        screens.iter().map(|s| s.id).collect::<Vec<_>>(),
        vec![ScreenId::new(3), ScreenId::new(2), ScreenId::new(1)]
    );
    assert_eq!(screens[0].scale_factor, float(2.0));
    assert_eq!(converter.screen_height, float(20.0));
    assert_eq!(sc.uuids, vec!["stub at -0", "stub at 10", "stub at -10"]);
}

#[test]
fn without_a_main_screen_the_order_stays() {
    let mut sc = ScreenCache::new_with(Stub {
        cg_screens: vec![
            cg_screen(1, rect(5.0, 5.0, 10.0, 10.0)),
            cg_screen(2, rect(15.0, 5.0, 10.0, 10.0)),
        ],
    });
    let ns = vec![
        ns_screen(2, rect(0.0, 0.0, 1.0, 1.0)),
        ns_screen(1, rect(0.0, 0.0, 1.0, 2.0)),
    ];
    let (screens, converter) = sc.update_screen_config(ns, &Doubles).unwrap().unwrap();
    assert_eq!(converter.screen_height, float(15.0));
    assert_eq!(screens[0].id, ScreenId::new(1));
    assert_eq!(screens[0].visible_frame, rect(0.0, 13.0, 1.0, 2.0));
    assert_eq!(screens[1].id, ScreenId::new(2));
}

#[test]
fn a_screen_that_appkit_does_not_know_is_left_out() {
    let mut sc = ScreenCache::new_with(Stub {
        cg_screens: vec![
            cg_screen(1, rect(0.0, 0.0, 10.0, 10.0)),
            cg_screen(2, rect(10.0, 0.0, 10.0, 10.0)),
        ],
    });
    let ns = vec![
        ns_screen(2, rect(10.0, 0.0, 10.0, 10.0)),
        ns_screen(7, rect(0.0, 0.0, 10.0, 10.0)),
    ];
    let (screens, _) = sc.update_screen_config(ns, &Doubles).unwrap().unwrap();
    assert_eq!(screens.len(), 1);
    assert_eq!(screens[0].id, ScreenId::new(2));
    assert_eq!(sc.uuids, vec!["stub at 10"]);
    assert_eq!(sc.get_screen_spaces(), vec![None]);
}

#[test]
fn spaces_are_those_of_the_returned_screens() {
    let cg_screens = vec![
        cg_screen(1, rect(0.0, 0.0, 10.0, 10.0)),
        cg_screen(2, rect(10.0, 0.0, 10.0, 10.0)),
        cg_screen(3, rect(20.0, 0.0, 10.0, 10.0)),
    ];
    let ns = vec![
        ns_screen(1, rect(0.0, 0.0, 10.0, 10.0)),
        ns_screen(3, rect(20.0, 0.0, 10.0, 10.0)),
        ns_screen(7, rect(30.0, 0.0, 10.0, 10.0)),
    ];
    assert_eq!(undescribed_screens(&ns, &cg_screens), vec![ScreenId::new(2)]);
    let mut sc = ScreenCache::new_with(Stub { cg_screens });
    let (screens, _) = sc.update_screen_config(ns, &Doubles).unwrap().unwrap();
    assert_eq!(
        screens.iter().map(|s| s.id).collect::<Vec<_>>(),
        vec![ScreenId::new(1), ScreenId::new(3)]
    );
    assert_eq!(
        sc.get_screen_spaces(),
        vec![Some(SpaceId::new(41)), Some(SpaceId::new(43))]
    );
}

#[test]
fn the_order_of_descriptions_does_not_matter() {
    let cg_screens = vec![
        cg_screen(1, rect(10.0, 0.0, 10.0, 10.0)),
        cg_screen(2, rect(0.0, 0.0, 10.0, 20.0)),
        cg_screen(3, rect(20.0, 0.0, 10.0, 10.0)),
    ];
    let ns = vec![
        ns_screen(3, rect(20.0, 1.0, 10.0, 9.0)),
        ns_screen(2, rect(0.0, 2.0, 10.0, 18.0)),
        ns_screen(1, rect(10.0, 3.0, 10.0, 7.0)),
    ];
    let mut reordered = ns.clone();
    reordered.reverse();
    let mut a = ScreenCache::new_with(Stub { cg_screens: cg_screens.clone() });
    let mut b = ScreenCache::new_with(Stub { cg_screens });
    let config = a.update_screen_config(ns, &Doubles);
    assert_eq!(config, b.update_screen_config(reordered, &Doubles));
    assert_eq!(config.unwrap().unwrap().0.len(), 3);
    assert_eq!(a.uuids, b.uuids);
}

#[test]
fn a_main_screen_is_at_the_origin() {
    let first = cg_screen(1, rect(5.0, 0.0, 10.0, 10.0));
    let second = cg_screen(2, rect(0.0, -0.0, 10.0, 10.0));
    assert_eq!(main_screen(&vec![first, second]), Some(1));
    assert_eq!(main_screen(&vec![first]), None);
    assert_eq!(main_screen(&vec![]), None);
}

#[test]
fn no_screens_leave_no_displays() {
    let mut sc = ScreenCache::new_with(Stub {
        cg_screens: vec![cg_screen(1, rect(0.0, 0.0, 100.0, 100.0))],
    });
    assert!(sc
        .update_screen_config(vec![ns_screen(1, rect(0.0, 0.0, 1.0, 1.0))], &Doubles)
        .unwrap()
        .is_some());
    sc.system.cg_screens.clear();
    let (screens, converter) = sc.update_screen_config(vec![], &Doubles).unwrap().unwrap();
    assert!(screens.is_empty());
    assert_eq!(converter.convert_point(point(1.0, 1.0), &Doubles), None);
    assert!(sc.uuids.is_empty());
    assert_eq!(sc.get_screen_spaces(), vec![]);
}

#[test]
fn errors_name_what_is_missing() {
    let mut unavailable = ScreenCache::new_with(Unavailable);
    assert_eq!(
        unavailable.update_screen_config(vec![], &Doubles),
        Err(ScreenConfigError::ScreenList(1004))
    );

    let mut sc = ScreenCache::new_with(Stub {
        cg_screens: vec![cg_screen(1, rect(0.0, f64::NAN, 1.0, 1.0))],
    });
    let matching = vec![ns_screen(1, rect(0.0, 0.0, 1.0, 1.0))];
    assert_eq!(
        sc.update_screen_config(matching, &Doubles),
        Err(ScreenConfigError::HeightNotANumber)
    );
    let other = vec![ns_screen(2, rect(0.0, 0.0, 1.0, 1.0))];
    let (screens, converter) = sc.update_screen_config(other, &Doubles).unwrap().unwrap();
    assert!(screens.is_empty());
    assert!(converter.screen_height.is_nan());
}

#[test]
fn spaces_follow_the_cached_displays() {
    let mut sc = ScreenCache::new_with(Stub {
        cg_screens: vec![
            cg_screen(1, rect(10.0, 0.0, 10.0, 10.0)),
            cg_screen(2, rect(0.0, 0.0, 10.0, 10.0)),
        ],
    });
    assert_eq!(sc.get_screen_spaces(), vec![]);
    let ns = vec![
        ns_screen(1, rect(10.0, 0.0, 10.0, 10.0)),
        ns_screen(2, rect(0.0, 0.0, 10.0, 10.0)),
    ];
    assert!(sc.update_screen_config(ns, &Doubles).unwrap().is_some());
    assert_eq!(sc.get_screen_spaces(), vec![Some(SpaceId::new(41)), None]);
}

#[test]
fn numberless_screens_are_left_out() {
    let report = |number| NSScreenReport {
        frame: rect(0.0, 0.0, 4.0, 4.0),
        visible_frame: rect(0.0, 0.0, 4.0, 3.0),
        number,
        backing_scale_factor: float(1.0),
    };
    assert_eq!(report(Some(5)).get_number(), Ok(ScreenId::new(5)));
    assert_eq!(report(None).get_number(), Err(()));
    let screens = get_ns_screens(&vec![report(Some(5)), report(None), report(Some(6))]);
    assert_eq!(screens.len(), 2);
    assert_eq!(screens[0].cg_id, ScreenId::new(5));
    assert_eq!(screens[1].cg_id, ScreenId::new(6));
    assert_eq!(screens[1].frame, rect(0.0, 0.0, 4.0, 4.0));
    assert_eq!(screens[1].visible_frame, rect(0.0, 0.0, 4.0, 3.0));
    assert_eq!(screens[1].backing_scale_factor, float(1.0));
}

#[test]
fn the_main_display_says_so_itself() {
    let display = |id, is_main| ActiveDisplay { id, is_main };
    assert_eq!(main_display(&vec![display(7, 0), display(8, 1), display(9, 1)]), Some(8));
    assert_eq!(main_display(&vec![display(7, 0), display(8, u32::MAX)]), Some(8));
    assert_eq!(main_display(&vec![display(7, 0)]), None);
    assert_eq!(main_display(&vec![]), None);
}

#[test]
fn zeros_and_nans_are_told_by_their_bits() {
    for value in [0.0, -0.0] {
        assert!(float(value).is_zero());
    }
    for value in [1.0, -1.0, f64::MIN_POSITIVE, f64::INFINITY, f64::NAN, 5e-324] {
        assert!(!float(value).is_zero());
    }
    for value in [0.0, 1.0, f64::INFINITY, f64::NEG_INFINITY, f64::MAX] {
        assert!(!float(value).is_nan());
    }
    for value in [f64::NAN, -f64::NAN, f64::from_bits(0x7ff0_0000_0000_0001)] {
        assert!(float(value).is_nan());
    }
    assert!(f64::from_bits(NAN_BITS).is_nan());
    assert!(point(0.0, -0.0).is_origin());
    assert!(!point(0.0, 1.0).is_origin());
    assert!(!point(1.0, 0.0).is_origin());
}

#[test]
fn doubles_are_compared_as_numbers() {
    let values = [0.0, -0.0, 1.0, -1.0, 5e-324, f64::INFINITY, f64::NEG_INFINITY, f64::NAN];
    for a in values {
        for b in values {
            assert_eq!(float(a) == float(b), a == b);
            assert_eq!(point(a, 2.0) == point(b, 2.0), a == b);
            assert_eq!(point(2.0, a) == point(2.0, b), a == b);
            assert_eq!(rect(a, 1.0, 1.0, 1.0) == rect(b, 1.0, 1.0, 1.0), a == b);
            assert_eq!(rect(1.0, 1.0, a, 1.0) == rect(1.0, 1.0, b, 1.0), a == b);
            assert_eq!(rect(1.0, 1.0, 1.0, a) == rect(1.0, 1.0, 1.0, b), a == b);
        }
    }
}

#[test]
fn screens_are_compared_by_their_numbers() {
    let screen = |id, y, scale| ScreenInfo {
        visible_frame: rect(1.0, y, 2.0, 3.0),
        id: ScreenId::new(id),
        scale_factor: float(scale),
    };
    assert_eq!(screen(1, 4.0, 0.0), screen(1, 4.0, -0.0));
    assert_eq!(screen(1, -0.0, 2.0), screen(1, 0.0, 2.0));
    assert_ne!(screen(1, 4.0, 2.0), screen(2, 4.0, 2.0));
    assert_ne!(screen(1, 4.0, 2.0), screen(1, 5.0, 2.0));
    assert_ne!(screen(1, 4.0, 2.0), screen(1, 4.0, 1.0));
    assert_ne!(screen(1, 4.0, f64::NAN), screen(1, 4.0, f64::NAN));
}

#[test]
fn conversion_turns_the_y_axis_round() {
    let converter = CoordinateConverter { screen_height: float(100.0) };
    let p = point(3.0, 30.0);
    let q = converter.convert_point(p, &Doubles).unwrap();
    assert_eq!(q, point(3.0, 70.0));
    assert_eq!(converter.convert_point(q, &Doubles), Some(p));

    let r = rect(3.0, 30.0, 5.0, 20.0);
    let s = converter.convert_rect(r, &Doubles).unwrap();
    assert_eq!(s, rect(3.0, 50.0, 5.0, 20.0));
    assert_eq!(converter.convert_rect(s, &Doubles), Some(r));
    assert_eq!(converter.convert_point(point(3.0, 50.0), &Doubles), Some(s.origin));
}

#[test]
fn the_default_converter_converts_nothing() {
    let converter = CoordinateConverter::default();
    assert_eq!(converter.convert_point(point(0.0, 0.0), &Doubles), None);
    assert_eq!(converter.convert_rect(rect(0.0, 0.0, 1.0, 1.0), &Doubles), None);
}
