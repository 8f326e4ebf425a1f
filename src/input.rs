use vstd::prelude::*;

verus! {

/// Actions available in menus and during play, outside the gameplay controls.
#[derive(PartialEq, Eq, Structural, Clone, Copy, Debug, Hash)]
pub enum MenuAction {
    Pause,
    Cancel,
    QuitGame,
    ToggleFullscreen,
    ToggleMute,
}

/// Keyboard keys that the default bindings use.
#[derive(PartialEq, Eq, Structural, Clone, Copy, Debug, Hash)]
pub enum Key {
    KeyP,
    KeyF,
    KeyM,
    KeyQ,
    Escape,
}

/// A button-like input that triggers an action.
#[derive(PartialEq, Eq, Structural, Clone, Copy, Debug, Hash)]
pub enum InputBinding {
    Key(Key),
    /// The gamepad's start button.
    GamepadStart,
    /// A key pressed while a control key is held.
    ControlChord(Key),
}

/// The default bindings of the menu actions, in order.
pub open spec fn menu_bindings() -> Seq<(MenuAction, InputBinding)> {
    seq![
        (MenuAction::Pause, InputBinding::Key(Key::KeyP)),
        (MenuAction::Pause, InputBinding::Key(Key::Escape)),
        (MenuAction::Pause, InputBinding::GamepadStart),
        (MenuAction::Cancel, InputBinding::Key(Key::Escape)),
        (MenuAction::Cancel, InputBinding::GamepadStart),
        (MenuAction::QuitGame, InputBinding::ControlChord(Key::KeyQ)),
        (MenuAction::ToggleFullscreen, InputBinding::Key(Key::KeyF)),
        (MenuAction::ToggleMute, InputBinding::Key(Key::KeyM)),
    ]
}

impl MenuAction {
    /// Pause on P, Escape or start; cancel on Escape or start; quit on
    /// Control+Q; fullscreen on F; mute on M.
    pub fn default_input_map() -> (r: Vec<(MenuAction, InputBinding)>)
        ensures
            r@ == menu_bindings(),
    {
        let mut r: Vec<(MenuAction, InputBinding)> = Vec::new();
        r.push((MenuAction::Pause, InputBinding::Key(Key::KeyP)));
        r.push((MenuAction::Pause, InputBinding::Key(Key::Escape)));
        r.push((MenuAction::Pause, InputBinding::GamepadStart));
        r.push((MenuAction::Cancel, InputBinding::Key(Key::Escape)));
        r.push((MenuAction::Cancel, InputBinding::GamepadStart));
        r.push((MenuAction::QuitGame, InputBinding::ControlChord(Key::KeyQ)));
        r.push((MenuAction::ToggleFullscreen, InputBinding::Key(Key::KeyF)));
        r.push((MenuAction::ToggleMute, InputBinding::Key(Key::KeyM)));
        proof {
            assert(r@ =~= menu_bindings());
        }
        r
    }
}

/// Pointer input, read as a pair of axes.
#[derive(PartialEq, Eq, Structural, Clone, Copy, Debug, Hash)]
pub enum MouseAction {
    Move,
}

/// An input that reports a pair of axes.
#[derive(PartialEq, Eq, Structural, Clone, Copy, Debug, Hash)]
pub enum AxisBinding {
    /// The pointer's motion.
    MouseMove,
}

impl MouseAction {
    /// Pointer motion drives `Move`.
    pub fn default_input_map() -> (r: Vec<(MouseAction, AxisBinding)>)
        ensures
            r@ == seq![(MouseAction::Move, AxisBinding::MouseMove)],
    {
        let mut r: Vec<(MouseAction, AxisBinding)> = Vec::new();
        r.push((MouseAction::Move, AxisBinding::MouseMove));
        proof {
            assert(r@ =~= seq![(MouseAction::Move, AxisBinding::MouseMove)]);
        }
        r
    }
}

} // verus!
