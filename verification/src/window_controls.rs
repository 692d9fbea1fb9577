//! The window's minimize, maximize and close buttons.
use vstd::prelude::*;

verus! {

/// A window button.
#[derive(Debug, Clone, Copy, PartialEq, Eq, Structural)]
pub enum WindowControlAction {
    Minimize,
    Maximize,
    Close,
}

/// What to do to the window.
#[derive(Debug, Clone, Copy, PartialEq, Eq, Structural)]
pub enum WindowCommand {
    /// Minimize the window.
    Minimize,
    /// Leave fullscreen for a maximized window.
    Maximize,
    /// Leave the maximized window for borderless fullscreen.
    Restore,
    /// Quit the game.
    Exit,
}

/// Whether the maximize button has put the window in its maximized state.
#[derive(Debug, Default, Clone, Copy, PartialEq, Eq, Structural)]
pub struct WindowControlState {
    pub maximized: bool,
}

/// The state after a button, and the command it gives. Minimize and
/// maximize need a window (`has_window`); maximize toggles between a
/// maximized window and borderless fullscreen; close quits in any case.
pub open spec fn window_pressed(
    s: WindowControlState,
    action: WindowControlAction,
    has_window: bool,
) -> (WindowControlState, Option<WindowCommand>) {
    match action {
        WindowControlAction::Minimize => (s, if has_window {
            Some(WindowCommand::Minimize)
        } else {
            None
        }),
        WindowControlAction::Maximize => if has_window {
            let m = !s.maximized;
            (
                WindowControlState { maximized: m },
                Some(
                    if m {
                        WindowCommand::Maximize
                    } else {
                        WindowCommand::Restore
                    },
                ),
            )
        } else {
            (s, None)
        },
        WindowControlAction::Close => (s, Some(WindowCommand::Exit)),
    }
}

impl WindowControlState {
    /// A press of `action`; `has_window` tells whether there is a primary window.
    pub fn press(&mut self, action: WindowControlAction, has_window: bool) -> (r: Option<
        WindowCommand,
    >)
        ensures
            (*final(self), r) == window_pressed(*old(self), action, has_window),
    {
        match action {
            WindowControlAction::Minimize => {
                if has_window {
                    Some(WindowCommand::Minimize)
                } else {
                    None
                }
            },
            WindowControlAction::Maximize => {
                if !has_window {
                    return None;
                }
                self.maximized = !self.maximized;
                if self.maximized {
                    Some(WindowCommand::Maximize)
                } else {
                    Some(WindowCommand::Restore)
                }
            },
            WindowControlAction::Close => Some(WindowCommand::Exit),
        }
    }
}

/// Pressing maximize twice, with a window, maximizes and then restores, and
/// leaves the state as it was.
pub proof fn law_maximize_twice_restores(s: WindowControlState)
    ensures
        ({
            let (s1, c1) = window_pressed(s, WindowControlAction::Maximize, true);
            let (s2, c2) = window_pressed(s1, WindowControlAction::Maximize, true);
            &&& s2 == s
            &&& c1 != c2
            &&& (c1 == Some(WindowCommand::Maximize) || c1 == Some(WindowCommand::Restore))
            &&& (c2 == Some(WindowCommand::Maximize) || c2 == Some(WindowCommand::Restore))
        }),
{
}

} // verus!
