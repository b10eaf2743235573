//! What presses, replayed shortcuts and the mouse come to.

use vstd::prelude::*;

use crate::actor::command::{WmCommand, WmEvent};
use crate::sys::event;
use crate::sys::event::{
    HotkeyBinding, KeyEvent, MouseState, ShortcutAction, ShortcutError, SourceState,
};
use crate::sys::geometry::{Arithmetic, CGPoint, CoordinateConverter};
use crate::sys::geometry_laws;
use crate::sys::screen::CGError;

verus! {

/// A binding has its command and has not been pressed.
pub proof fn law_new_binding<W, R>(
    cmd: WmCommand<W, R>,
    reactor_cmd: R,
    binding: HotkeyBinding<WmCommand<W, R>>,
    reactor_binding: HotkeyBinding<WmCommand<W, R>>,
)
    requires
        call_ensures(HotkeyBinding::<WmCommand<W, R>>::of, (cmd,), binding),
        call_ensures(HotkeyBinding::<WmCommand<W, R>>::of_reactor, (reactor_cmd,), reactor_binding),
    ensures
        binding.command == cmd,
        binding.presses == 0,
        reactor_binding.command is ReactorCommand,
        reactor_binding.command->ReactorCommand_0 == reactor_cmd,
        reactor_binding.presses == 0,
{
}

/// The clone of a command goes to the same receiver, with a clone of what it is
/// told.
pub proof fn law_clone_of_a_command<W: Clone, R: Clone>(
    cmd: &WmCommand<W, R>,
    r: WmCommand<W, R>,
)
    requires
        call_ensures(<WmCommand<W, R> as Clone>::clone, (cmd,), r),
    ensures
        r is Wm <==> cmd is Wm,
        r is Wm ==> cloned(cmd->Wm_0, r->Wm_0),
        r is ReactorCommand ==> cloned(cmd->ReactorCommand_0, r->ReactorCommand_0),
{
}

/// A hotkey can be pressed as long as its presses can be counted.
pub proof fn law_hotkey_can_be_pressed<C: Clone>(binding: &mut HotkeyBinding<C>)
    requires
        old(binding).presses < 0x7fff_ffff,
    ensures
        call_requires(HotkeyBinding::<C>::press, (binding,)),
{
}

/// Every press sends a clone of the same command, and counts one.
pub proof fn law_press_sends_the_command<C: Clone>(
    binding: &mut HotkeyBinding<C>,
    event: WmEvent<C>,
)
    requires
        call_ensures(HotkeyBinding::<C>::press, (binding,), event),
    ensures
        final(binding).command == old(binding).command,
        final(binding).presses == old(binding).presses + 1,
        event matches WmEvent::Command(sent) && cloned(old(binding).command, sent),
{
}

/// The key codes that the digits 1 to 9 have on an ANSI keyboard.
pub open spec fn has_key_code(digit: int, key_code: u16) -> bool {
    ||| digit == 1 && key_code == 18
    ||| digit == 2 && key_code == 19
    ||| digit == 3 && key_code == 20
    ||| digit == 4 && key_code == 21
    ||| digit == 5 && key_code == 23
    ||| digit == 6 && key_code == 22
    ||| digit == 7 && key_code == 26
    ||| digit == 8 && key_code == 28
    ||| digit == 9 && key_code == 25
}

/// A desktop from 1 to 9 is switched to by its digit's key, and no other is.
pub proof fn law_desktop_is_switched_to_by_its_digit(
    desktop: usize,
    r: Result<ShortcutAction, ShortcutError>,
)
    requires
        call_ensures(event::post_native_space_shortcut, (desktop,), r),
    ensures
        r is Ok <==> 1 <= desktop <= 9,
        r is Err ==> r->Err_0 == ShortcutError::NoSuchShortcut,
        r is Ok ==> r->Ok_0 is CreateSource && has_key_code(
            desktop as int,
            r->Ok_0->CreateSource_key_code,
        ),
{
}

/// A replay of which everything can be done: a source with the state of the HID
/// system, then the digit's key goes down and comes up again, with Option held
/// and to the session, and that is all.
pub proof fn law_whole_replay(
    desktop: usize,
    source: ShortcutAction,
    press: ShortcutAction,
    release: ShortcutAction,
    end: ShortcutAction,
    state: Option<SourceState>,
    down: Option<KeyEvent>,
    up: Option<KeyEvent>,
)
    requires
        call_ensures(event::post_native_space_shortcut, (desktop,), Ok(source)),
        call_ensures(ShortcutAction::source_state, (source,), state),
        call_ensures(ShortcutAction::next, (source, true), Ok(press)),
        call_ensures(ShortcutAction::key_event, (press,), down),
        call_ensures(ShortcutAction::next, (press, true), Ok(release)),
        call_ensures(ShortcutAction::key_event, (release,), up),
        call_ensures(ShortcutAction::next, (release, true), Ok(end)),
    ensures
        state is Some && state->0 is HidSystem,
        down is Some && up is Some,
        has_key_code(desktop as int, down->0.key_code),
        down->0.down && !up->0.down,
        up->0.key_code == down->0.key_code,
        down->0.option_held && up->0.option_held,
        down->0.tap is Session && up->0.tap is Session,
        end is Done,
{
}

/// The first thing that cannot be done ends a replay, with its own error.
pub proof fn law_failed_replay(
    action: ShortcutAction,
    r: Result<ShortcutAction, ShortcutError>,
)
    requires
        call_ensures(ShortcutAction::next, (action, false), r),
    ensures
        match action {
            ShortcutAction::CreateSource { .. } => r is Err && r->Err_0 is NoEventSource,
            ShortcutAction::PressKey { .. } => r is Err && r->Err_0 is NoKeyDownEvent,
            ShortcutAction::ReleaseKey { .. } => r is Err && r->Err_0 is NoKeyUpEvent,
            ShortcutAction::Done => r is Ok && r->Ok_0 is Done,
        },
{
}

/// What can be done is followed by the next step, with the same key.
pub proof fn law_replay_keeps_its_key(
    action: ShortcutAction,
    r: Result<ShortcutAction, ShortcutError>,
)
    requires
        call_ensures(ShortcutAction::next, (action, true), r),
    ensures
        r is Ok,
        match (action, r->Ok_0) {
            (
                ShortcutAction::CreateSource { key_code },
                ShortcutAction::PressKey { key_code: next },
            ) => key_code == next,
            (
                ShortcutAction::PressKey { key_code },
                ShortcutAction::ReleaseKey { key_code: next },
            ) => key_code == next,
            (ShortcutAction::ReleaseKey { .. }, ShortcutAction::Done) => true,
            (ShortcutAction::Done, ShortcutAction::Done) => true,
            _ => false,
        },
{
}

/// Only creating a source asks for a state, and only the steps of the key post
/// an event.
pub proof fn law_steps_ask_for_what_they_need(
    action: ShortcutAction,
    state: Option<SourceState>,
    key: Option<KeyEvent>,
)
    requires
        call_ensures(ShortcutAction::source_state, (action,), state),
        call_ensures(ShortcutAction::key_event, (action,), key),
    ensures
        match action {
            ShortcutAction::CreateSource { .. } => state is Some && state->0 is HidSystem
                && key is None,
            ShortcutAction::PressKey { key_code } => state is None && key is Some
                && key->0.key_code == key_code && key->0.down && key->0.option_held
                && key->0.tap is Session,
            ShortcutAction::ReleaseKey { key_code } => state is None && key is Some
                && key->0.key_code == key_code && !key->0.down && key->0.option_held
                && key->0.tap is Session,
            ShortcutAction::Done => state is None && key is None,
        },
{
}

/// Every error has words of its own.
pub proof fn law_errors_in_words(error: &ShortcutError, message: &'static str)
    requires
        call_ensures(ShortcutError::message, (error,), message),
    ensures
        error is NoSuchShortcut ==> message@ == "native Desktop shortcut must be between 1 and 9"@,
        error is NoEventSource ==> message@ == "could not create keyboard event source"@,
        error is NoKeyDownEvent ==> message@ == "could not create key-down event"@,
        error is NoKeyUpEvent ==> message@ == "could not create key-up event"@,
{
}

/// The left button is down when the mask of pressed buttons is odd.
pub proof fn law_left_button_is_the_lowest_bit(pressed: usize, state: MouseState)
    requires
        call_ensures(event::get_mouse_state, (pressed,), state),
    ensures
        state is Down <==> pressed % 2 == 1,
{
}

/// The mouse is where conversion puts its location.
pub proof fn law_mouse_position<A: Arithmetic>(
    converter: CoordinateConverter,
    ns_loc: CGPoint,
    arith: &A,
    r: Option<CGPoint>,
)
    requires
        call_ensures(event::get_mouse_pos::<A>, (converter, ns_loc, arith), r),
    ensures
        r is None <==> geometry_laws::has_nan_bits(converter.screen_height),
        r matches Some(at) ==> at.x == ns_loc.x && geometry_laws::turned(
            arith,
            converter.screen_height,
            ns_loc.y,
            at.y,
        ),
{
    geometry_laws::lemma_nan_bits(converter.screen_height);
}

/// Zero is success, and any other number the error itself.
pub proof fn law_zero_is_success(err: CGError, r: Result<(), CGError>)
    requires
        call_ensures(event::cg_result, (err,), r),
    ensures
        r is Ok <==> err == 0,
        r is Err ==> r->Err_0 == err,
{
}

} // verus!
