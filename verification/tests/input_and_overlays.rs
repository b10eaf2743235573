use glide_wm::actor::command::{Command, ReactorCommand, WmCmd, WmCommand, WmEvent};
use glide_wm::actor::drop_preview::{
    colors, DropPreview, Event, PreviewAction, WindowDropPlacement, WindowDropPreview,
    BORDER_WIDTH_BITS, CORNER_RADIUS_BITS as PREVIEW_RADIUS_BITS,
};
use glide_wm::sys::event::{
    cg_result, get_mouse_pos, get_mouse_state, post_native_space_shortcut, EventTap,
    HotkeyBinding, KeyEvent, MouseState, ShortcutAction, ShortcutError, SourceState,
};
use glide_wm::sys::geometry::{
    Arithmetic, CGFloat, CGPoint, CGRect, CGSize, CoordinateConverter,
};
use glide_wm::ui::color::Color;
use glide_wm::ui::workset_hud::{WorksetHud, FADE_MS, HOLD_MS};

struct Doubles;

impl Arithmetic for Doubles {
    fn plus(&self, a: CGFloat, b: CGFloat) -> CGFloat {
        float(f64::from_bits(a.bits) + f64::from_bits(b.bits))
    }
    fn minus(&self, a: CGFloat, b: CGFloat) -> CGFloat {
        float(f64::from_bits(a.bits) - f64::from_bits(b.bits))
    }
    fn divide(&self, a: CGFloat, b: CGFloat) -> CGFloat {
        float(f64::from_bits(a.bits) / f64::from_bits(b.bits))
    }
}

fn float(value: f64) -> CGFloat {
    CGFloat { bits: value.to_bits() }
}

fn point(x: f64, y: f64) -> CGPoint {
    CGPoint { x: float(x), y: float(y) }
}

fn rect(x: f64, y: f64, width: f64, height: f64) -> CGRect {
    CGRect {
        origin: point(x, y),
        size: CGSize { width: float(width), height: float(height) },
    }
}

#[test]
fn each_desktop_has_its_key() {
    let codes = [18, 19, 20, 21, 23, 22, 26, 28, 25];
    for (i, key_code) in codes.into_iter().enumerate() {
        assert_eq!(
            post_native_space_shortcut(i + 1),
            Ok(ShortcutAction::CreateSource { key_code })
        );
    }
    for desktop in [0, 10, usize::MAX] {
        assert_eq!(post_native_space_shortcut(desktop), Err(ShortcutError::NoSuchShortcut));
    }
}

#[test]
fn a_replay_goes_in_order_and_stops_at_a_failure() {
    let source = post_native_space_shortcut(5).unwrap();
    let press = source.next(true).unwrap();
    let release = press.next(true).unwrap();
    assert_eq!(press, ShortcutAction::PressKey { key_code: 23 });
    assert_eq!(release, ShortcutAction::ReleaseKey { key_code: 23 });
    assert_eq!(release.next(true), Ok(ShortcutAction::Done));
    assert_eq!(ShortcutAction::Done.next(false), Ok(ShortcutAction::Done));

    assert_eq!(source.next(false), Err(ShortcutError::NoEventSource));
    assert_eq!(press.next(false), Err(ShortcutError::NoKeyDownEvent));
    assert_eq!(release.next(false), Err(ShortcutError::NoKeyUpEvent));
}

#[test]
fn shortcut_errors_have_their_words() {
    assert_eq!(
        ShortcutError::NoSuchShortcut.message(),
        "native Desktop shortcut must be between 1 and 9"
    );
    assert_eq!(
        ShortcutError::NoEventSource.message(),
        "could not create keyboard event source"
    );
    assert_eq!(ShortcutError::NoKeyDownEvent.message(), "could not create key-down event");
    assert_eq!(ShortcutError::NoKeyUpEvent.message(), "could not create key-up event");
}

#[test]
fn a_hotkey_sends_its_command_on_every_press() {
    let quit = Command::Reactor(ReactorCommand::SaveAndExit);
    let mut binding: HotkeyBinding<WmCommand<WmCmd, Command>> = HotkeyBinding::of_reactor(quit);
    for press in 1..4 {
        assert_eq!(
            binding.press(),
            WmEvent::Command(WmCommand::ReactorCommand(quit))
        );
        assert_eq!(binding.presses, press);
    }
    let toggle: WmCommand<WmCmd, Command> = WmCommand::Wm(WmCmd::ToggleGlobalEnabled);
    assert_eq!(HotkeyBinding::of(toggle).press(), WmEvent::Command(toggle));
}

#[test]
fn a_hotkey_carries_any_command() {
    let run: WmCommand<Vec<String>, u8> = WmCommand::Wm(vec!["ls".to_owned()]);
    let mut binding = HotkeyBinding::of(run.clone());
    assert_eq!(binding.press(), WmEvent::Command(run));
    let mut binding: HotkeyBinding<WmCommand<Vec<String>, u8>> = HotkeyBinding::of_reactor(9);
    assert_eq!(binding.press(), WmEvent::Command(WmCommand::ReactorCommand(9)));
}

#[test]
fn key_events_hold_option_and_go_to_the_session() {
    let source = post_native_space_shortcut(7).unwrap();
    assert_eq!(source.key_event(), None);
    assert_eq!(source.source_state(), Some(SourceState::HidSystem));
    let press = source.next(true).unwrap();
    let down = KeyEvent { key_code: 26, down: true, option_held: true, tap: EventTap::Session };
    assert_eq!(press.key_event(), Some(down));
    let release = press.next(true).unwrap();
    assert_eq!(release.key_event(), Some(KeyEvent { down: false, ..down }));
    assert_eq!(ShortcutAction::Done.key_event(), None);
    for action in [press, release, ShortcutAction::Done] {
        assert_eq!(action.source_state(), None);
    }
}

#[test]
fn only_the_left_button_counts() {
    assert_eq!(get_mouse_state(0), MouseState::Up);
    assert_eq!(get_mouse_state(1), MouseState::Down);
    assert_eq!(get_mouse_state(2), MouseState::Up);
    assert_eq!(get_mouse_state(7), MouseState::Down);
    assert_eq!(get_mouse_state(usize::MAX - 1), MouseState::Up);
}

#[test]
fn the_mouse_position_is_converted() {
    let converter = CoordinateConverter { screen_height: float(900.0) };
    assert_eq!(
        get_mouse_pos(converter, point(10.0, 100.0), &Doubles),
        Some(point(10.0, 800.0))
    );
    assert_eq!(
        get_mouse_pos(CoordinateConverter::default(), point(10.0, 100.0), &Doubles),
        None
    );
}

#[test]
fn zero_is_success() {
    assert_eq!(cg_result(0), Ok(()));
    assert_eq!(cg_result(1000), Err(1000));
    assert_eq!(cg_result(-1), Err(-1));
}

#[test]
fn placements_have_their_colors() {
    let green = (25, 78, 48);
    let purple = (55, 38, 95);
    let blue = (10, 56, 96);
    for (placement, (red, green, blue)) in [
        (WindowDropPlacement::Group, green),
        (WindowDropPlacement::SplitLeft, purple),
        (WindowDropPlacement::SplitRight, purple),
        (WindowDropPlacement::SplitTop, purple),
        (WindowDropPlacement::SplitBottom, purple),
        (WindowDropPlacement::Snap, blue),
    ] {
        assert_eq!(
            colors(placement),
            (
                Color { red, green, blue, alpha: 24 },
                Color { red, green, blue, alpha: 90 },
            )
        );
    }
    assert_eq!(f64::from_bits(PREVIEW_RADIUS_BITS), 10.0);
    assert_eq!(f64::from_bits(BORDER_WIDTH_BITS), 2.0);
}

#[test]
fn the_preview_waits_for_a_screen() {
    let mut state = DropPreview::new();
    let look = state.look;
    assert_eq!(look.corner_radius, float(10.0));
    assert_eq!(look.border_width, float(2.0));
    assert!(look.borderless && look.nonactivating && look.floating);
    assert!(look.clear_background && look.ignores_mouse);
    assert!(!look.opaque && !look.shadow && !look.released_when_closed);
    let preview = WindowDropPreview {
        frame: rect(10.0, 20.0, 30.0, 40.0),
        placement: WindowDropPlacement::Group,
    };
    assert_eq!(state.handle_event(Event::Show(preview), &Doubles), PreviewAction::OrderOut);

    let converter = CoordinateConverter { screen_height: float(100.0) };
    assert_eq!(
        state.handle_event(Event::ScreenParametersChanged(converter), &Doubles),
        PreviewAction::Keep
    );
    let (fill, border) = colors(WindowDropPlacement::Group);
    assert_eq!(
        state.handle_event(Event::Show(preview), &Doubles),
        PreviewAction::Present { frame: rect(10.0, 40.0, 30.0, 40.0), fill, border }
    );
    assert_eq!(state.handle_event(Event::Hide, &Doubles), PreviewAction::OrderOut);
    assert_eq!(state.converter, converter);
    assert_eq!(state.look, look);
}

#[test]
fn the_overlay_is_centered_and_named() {
    let mut hud = WorksetHud::new();
    assert!(!hud.on_screen);
    assert_eq!(hud.label, "");
    assert_eq!(hud.origin, point(0.0, 0.0));

    hud.show("Terminal", Some(rect(100.0, 50.0, 1060.0, 696.0)), &Doubles);
    assert_eq!(hud.label, "Terminal");
    assert_eq!(hud.origin, point(500.0, 350.0));
    assert_eq!(hud.alpha, 100);
    assert!(hud.on_screen);

    hud.hide_overlay();
    assert!(!hud.on_screen);
    assert_eq!(hud.label, "Terminal");

    hud.show("Agents", None, &Doubles);
    assert_eq!(hud.label, "Agents");
    assert_eq!(hud.origin, point(500.0, 350.0));
    assert!(hud.on_screen);
}

#[test]
fn the_overlay_has_its_measures() {
    let look = WorksetHud::look();
    assert_eq!(look.panel, rect(0.0, 0.0, 260.0, 96.0));
    assert_eq!(look.label, rect(0.0, 30.0, 260.0, 40.0));
    assert_eq!(look.corner_radius, float(18.0));
    assert_eq!(look.font_size, float(28.0));
    assert_eq!(look.window_level, 3);
    assert_eq!(look.backdrop, Color { red: 8, green: 8, blue: 10, alpha: 92 });
    assert!(look.borderless && look.clear_background && look.ignores_mouse);
    assert!(look.masks_to_bounds && look.label_centered && look.label_white && look.label_bold);
    assert!(!look.opaque && !look.released_when_closed);
    assert_eq!(WorksetHud::new().look, look);
}

#[test]
fn the_overlay_fades_out_on_its_own() {
    let mut hud = WorksetHud::new();
    hud.show("Terminal", None, &Doubles);
    hud.fade(0);
    hud.fade(HOLD_MS);
    assert!(hud.on_screen);
    assert_eq!(hud.alpha, 100);
    hud.fade(HOLD_MS + FADE_MS / 2);
    assert!(hud.on_screen);
    assert_eq!(hud.alpha, 50);
    // A late timer does not bring it back.
    hud.fade(HOLD_MS);
    assert_eq!(hud.alpha, 50);
    hud.fade(HOLD_MS + FADE_MS);
    assert!(!hud.on_screen);
    assert_eq!(hud.alpha, 0);
    assert_eq!(hud.label, "Terminal");

    hud.show("Agents", None, &Doubles);
    assert!(hud.on_screen);
    assert_eq!(hud.alpha, 100);
    hud.fade(u64::MAX);
    assert!(!hud.on_screen);
}
