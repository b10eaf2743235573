//! Keyboard and mouse events.

use vstd::prelude::*;

use crate::actor::command::{WmCommand, WmEvent};
use crate::sys::geometry::{Arithmetic, CGPoint, CoordinateConverter};
use crate::sys::screen::CGError;

verus! {

/// A hotkey's command, and how often the hotkey has been pressed.
#[derive(Debug, Clone, Copy, PartialEq, Eq)]
pub struct HotkeyBinding<C> {
    pub command: C,
    pub presses: i32,
}

impl<W, R> HotkeyBinding<WmCommand<W, R>> {
    /// Binds a command of the reactor.
    pub fn of_reactor(cmd: R) -> (binding: HotkeyBinding<WmCommand<W, R>>)
        ensures
            binding == (HotkeyBinding {
                command: WmCommand::<W, R>::ReactorCommand(cmd),
                presses: 0,
            }),
    {
        HotkeyBinding::of(WmCommand::ReactorCommand(cmd))
    }
}

impl<C> HotkeyBinding<C> {
    /// Binds a command.
    pub fn of(cmd: C) -> (binding: HotkeyBinding<C>)
        ensures
            binding == (HotkeyBinding { command: cmd, presses: 0 }),
    {
        HotkeyBinding { command: cmd, presses: 0 }
    }
}

impl<C: Clone> HotkeyBinding<C> {
    /// Counts a press, and gives the event to send for it: a clone of the
    /// command.
    pub fn press(&mut self) -> (event: WmEvent<C>)
        requires
            old(self).presses < i32::MAX,
        ensures
            final(self).presses == old(self).presses + 1,
            final(self).command == old(self).command,
            event matches WmEvent::Command(command) && cloned(old(self).command, command),
    {
        self.presses = self.presses + 1;
        WmEvent::Command(self.command.clone())
    }
}

/// Why a native Desktop shortcut could not be replayed.
#[derive(Debug, Clone, Copy, PartialEq, Eq, Structural)]
pub enum ShortcutError {
    NoSuchShortcut,
    NoEventSource,
    NoKeyDownEvent,
    NoKeyUpEvent,
}

impl ShortcutError {
    /// The error in words.
    pub open spec fn words(self) -> Seq<char> {
        match self {
            ShortcutError::NoSuchShortcut => "native Desktop shortcut must be between 1 and 9"@,
            ShortcutError::NoEventSource => "could not create keyboard event source"@,
            ShortcutError::NoKeyDownEvent => "could not create key-down event"@,
            ShortcutError::NoKeyUpEvent => "could not create key-up event"@,
        }
    }

    /// The error in words.
    pub fn message(&self) -> (r: &'static str)
        ensures
            r@ == self.words(),
    {
        match self {
            ShortcutError::NoSuchShortcut => "native Desktop shortcut must be between 1 and 9",
            ShortcutError::NoEventSource => "could not create keyboard event source",
            ShortcutError::NoKeyDownEvent => "could not create key-down event",
            ShortcutError::NoKeyUpEvent => "could not create key-up event",
        }
    }
}

/// The next thing to do in replaying a shortcut.
#[derive(Debug, Clone, Copy, PartialEq, Eq, Structural)]
pub enum ShortcutAction {
    /// Create the source of the key events. See
    /// [`ShortcutAction::source_state`].
    CreateSource { key_code: u16 },
    /// Create the key-down event and post it. See [`ShortcutAction::key_event`].
    PressKey { key_code: u16 },
    /// Create the key-up event and post it. See [`ShortcutAction::key_event`].
    ReleaseKey { key_code: u16 },
    /// Nothing: the shortcut has been replayed.
    Done,
}

/// The state of keys and modifiers that a source of events goes by.
#[derive(Debug, Clone, Copy, PartialEq, Eq, Structural)]
pub enum SourceState {
    Private,
    CombinedSession,
    HidSystem,
}

/// Where an event enters the system's event stream.
#[derive(Debug, Clone, Copy, PartialEq, Eq, Structural)]
pub enum EventTap {
    Hid,
    Session,
    AnnotatedSession,
}

/// A key event to post.
#[derive(Debug, Clone, Copy, PartialEq, Eq, Structural)]
pub struct KeyEvent {
    pub key_code: u16,
    /// Whether the key goes down or comes up.
    pub down: bool,
    /// Whether the Option modifier is held. No other modifier is.
    pub option_held: bool,
    pub tap: EventTap,
}

/// The virtual key codes of the digits 1 to 9. They are not in the order of
/// the digits.
pub open spec fn digit_key_codes() -> Seq<u16> {
    seq![18, 19, 20, 21, 23, 22, 26, 28, 25]
}

/// Begins to replay the configured native Option+Digit Mission Control
/// shortcut.
pub fn post_native_space_shortcut(desktop: usize) -> (r: Result<ShortcutAction, ShortcutError>)
    ensures
        r == if 1 <= desktop <= 9 {
            Ok::<ShortcutAction, ShortcutError>(
                ShortcutAction::CreateSource { key_code: digit_key_codes()[desktop - 1] },
            )
        } else {
            Err(ShortcutError::NoSuchShortcut)
        },
{
    let key_code: u16 = match desktop {
        1 => 18,
        2 => 19,
        3 => 20,
        4 => 21,
        5 => 23,
        6 => 22,
        7 => 26,
        8 => 28,
        9 => 25,
        _ => {
            return Err(ShortcutError::NoSuchShortcut);
        },
    };
    Ok(ShortcutAction::CreateSource { key_code })
}

impl ShortcutAction {
    /// What follows an action, given whether it could be done.
    pub open spec fn followed_by(self, done: bool) -> Result<ShortcutAction, ShortcutError> {
        match self {
            ShortcutAction::CreateSource { key_code } => if done {
                Ok(ShortcutAction::PressKey { key_code })
            } else {
                Err(ShortcutError::NoEventSource)
            },
            ShortcutAction::PressKey { key_code } => if done {
                Ok(ShortcutAction::ReleaseKey { key_code })
            } else {
                Err(ShortcutError::NoKeyDownEvent)
            },
            ShortcutAction::ReleaseKey { key_code } => if done {
                Ok(ShortcutAction::Done)
            } else {
                Err(ShortcutError::NoKeyUpEvent)
            },
            ShortcutAction::Done => Ok(ShortcutAction::Done),
        }
    }

    /// The state that the source goes by which this action creates, if it
    /// creates one.
    pub fn source_state(self) -> (r: Option<SourceState>)
        ensures
            r == if self is CreateSource {
                Some(SourceState::HidSystem)
            } else {
                None
            },
    {
        match self {
            ShortcutAction::CreateSource { .. } => Some(SourceState::HidSystem),
            _ => None,
        }
    }

    /// The key event that an action posts: the shortcut's key, with Option
    /// held, to the session.
    pub open spec fn posts(self) -> Option<KeyEvent> {
        match self {
            ShortcutAction::PressKey { key_code } => Some(
                KeyEvent { key_code, down: true, option_held: true, tap: EventTap::Session },
            ),
            ShortcutAction::ReleaseKey { key_code } => Some(
                KeyEvent { key_code, down: false, option_held: true, tap: EventTap::Session },
            ),
            _ => None,
        }
    }

    /// The key event to post for this action, if it posts one.
    pub fn key_event(self) -> (r: Option<KeyEvent>)
        ensures
            r == self.posts(),
    {
        let (key_code, down) = match self {
            ShortcutAction::PressKey { key_code } => (key_code, true),
            ShortcutAction::ReleaseKey { key_code } => (key_code, false),
            _ => {
                return None;
            },
        };
        Some(KeyEvent { key_code, down, option_held: true, tap: EventTap::Session })
    }

    /// The action to do next, given whether this one could be done.
    pub fn next(self, done: bool) -> (r: Result<ShortcutAction, ShortcutError>)
        ensures
            r == self.followed_by(done),
    {
        match self {
            ShortcutAction::CreateSource { key_code } => {
                if done {
                    Ok(ShortcutAction::PressKey { key_code })
                } else {
                    Err(ShortcutError::NoEventSource)
                }
            },
            ShortcutAction::PressKey { key_code } => {
                if done {
                    Ok(ShortcutAction::ReleaseKey { key_code })
                } else {
                    Err(ShortcutError::NoKeyDownEvent)
                }
            },
            ShortcutAction::ReleaseKey { key_code: _ } => {
                if done {
                    Ok(ShortcutAction::Done)
                } else {
                    Err(ShortcutError::NoKeyUpEvent)
                }
            },
            ShortcutAction::Done => Ok(ShortcutAction::Done),
        }
    }
}

/// The state of the left mouse button.
#[derive(Debug, Copy, Clone, Eq, PartialEq, Structural)]
pub enum MouseState {
    Down,
    Up,
}

/// The state of the left mouse button, out of a mask of the pressed buttons
/// whose lowest bit stands for it.
pub fn get_mouse_state(pressed: usize) -> (state: MouseState)
    ensures
        state == if pressed % 2 == 1 {
            MouseState::Down
        } else {
            MouseState::Up
        },
{
    let left_button = pressed & 0x1 != 0;
    assert((pressed & 0x1 != 0) == (pressed % 2 == 1)) by (bit_vector);
    if left_button {
        MouseState::Down
    } else {
        MouseState::Up
    }
}

/// The position of the mouse in Quartz coordinates, out of its Cocoa location.
pub fn get_mouse_pos<A: Arithmetic>(
    converter: CoordinateConverter,
    ns_loc: CGPoint,
    arith: &A,
) -> (r: Option<CGPoint>)
    ensures
        r is Some <==> converter.converts(),
        r matches Some(position) ==> converter.flips_point(arith, ns_loc, position),
{
    converter.convert_point(ns_loc, arith)
}

/// Success, or the error that a number stands for.
pub fn cg_result(err: CGError) -> (r: Result<(), CGError>)
    ensures
        r == if err == 0 {
            Ok::<(), CGError>(())
        } else {
            Err(err)
        },
{
    if err == 0 {
        Ok(())
    } else {
        Err(err)
    }
}

/// No two desktops share a key.
pub proof fn law_each_desktop_has_its_own_key(a: int, b: int)
    requires
        1 <= a <= 9,
        1 <= b <= 9,
        digit_key_codes()[a - 1] == digit_key_codes()[b - 1],
    ensures
        a == b,
{
}

/// The actions that replay a shortcut with this key.
pub open spec fn whole_replay(key_code: u16) -> Seq<ShortcutAction> {
    seq![
        ShortcutAction::CreateSource { key_code },
        ShortcutAction::PressKey { key_code },
        ShortcutAction::ReleaseKey { key_code },
    ]
}

/// The actions that are done from `action` on, where `outcomes` says of each in
/// turn whether it could be done.
pub open spec fn replayed(action: ShortcutAction, outcomes: Seq<bool>) -> Seq<ShortcutAction>
    decreases outcomes.len(),
{
    if action is Done || outcomes.len() == 0 || !outcomes[0] {
        Seq::empty()
    } else {
        seq![action] + replayed(action.followed_by(true)->Ok_0, outcomes.drop_first())
    }
}

/// However a replay goes, it does its actions in order and with one key, and
/// stops at the first that cannot be done. So a key is never released that was
/// not pressed, and when everything can be done the key does not stay down.
pub proof fn law_replay_goes_in_order(key_code: u16, outcomes: Seq<bool>)
    ensures
        replayed(whole_replay(key_code)[0], outcomes).is_prefix_of(whole_replay(key_code)),
        outcomes.len() >= 3 && (forall|i: int| 0 <= i < 3 ==> #[trigger] outcomes[i]) ==> replayed(
            whole_replay(key_code)[0],
            outcomes,
        ) == whole_replay(key_code),
{
    let rest = outcomes.drop_first();
    let last = rest.drop_first();
    let press = whole_replay(key_code)[1];
    let release = whole_replay(key_code)[2];
    let nothing = Seq::<ShortcutAction>::empty();
    assert(replayed(ShortcutAction::Done, last.drop_first()) == nothing);
    assert(replayed(release, last) =~= if last.len() == 0 || !last[0] {
        nothing
    } else {
        seq![release]
    });
    assert(replayed(press, rest) =~= if rest.len() == 0 || !rest[0] {
        nothing
    } else {
        seq![press] + replayed(release, last)
    });
    if outcomes.len() >= 3 && (forall|i: int| 0 <= i < 3 ==> #[trigger] outcomes[i]) {
        assert(outcomes[0] && outcomes[1] && outcomes[2]);
        assert(replayed(whole_replay(key_code)[0], outcomes) =~= whole_replay(key_code));
    }
}

} // verus!
