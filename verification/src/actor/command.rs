//! Commands and the events that carry them.

use vstd::prelude::*;

verus! {

/// What the menu tells the reactor.
#[derive(Debug, Clone, Copy, PartialEq, Eq, Structural)]
pub enum ReactorCommand {
    SaveAndExit,
}

/// A command that the menu has for the reactor.
#[derive(Debug, Clone, Copy, PartialEq, Eq, Structural)]
pub enum Command {
    Reactor(ReactorCommand),
}

/// What the menu tells the window manager itself.
#[derive(Debug, Clone, Copy, PartialEq, Eq, Structural)]
pub enum WmCmd {
    ToggleGlobalEnabled,
    ToggleSpaceActivated,
}

/// A command, by who carries it out: the window manager itself, with its
/// commands `W`, or the reactor, with its commands `R`.
#[derive(Debug, Copy, PartialEq, Eq)]
pub enum WmCommand<W, R> {
    Wm(W),
    ReactorCommand(R),
}

impl<W: Clone, R: Clone> Clone for WmCommand<W, R> {
    fn clone(&self) -> (r: WmCommand<W, R>)
        ensures
            match (*self, r) {
                (WmCommand::Wm(from), WmCommand::Wm(to)) => cloned(from, to),
                (WmCommand::ReactorCommand(from), WmCommand::ReactorCommand(to)) => cloned(
                    from,
                    to,
                ),
                _ => false,
            },
    {
        match self {
            WmCommand::Wm(cmd) => WmCommand::Wm(cmd.clone()),
            WmCommand::ReactorCommand(cmd) => WmCommand::ReactorCommand(cmd.clone()),
        }
    }
}

/// What reaches the window manager controller.
#[derive(Debug, Clone, Copy, PartialEq, Eq)]
pub enum WmEvent<C> {
    Command(C),
}

} // verus!
