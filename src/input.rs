use vstd::prelude::*;

use crate::button::Button;
use crate::config::JUMP_HEIGHT;
use crate::player::Player;

verus! {

#[derive(Clone, Copy, Debug, PartialEq, Eq, Structural)]
pub enum Key {
    Space,
    Escape,
    Other,
}

#[derive(Clone, Copy, Debug, PartialEq, Eq, Structural)]
pub enum MouseButton {
    Left,
    Other,
}

/// An input event, as the event source delivers it.
#[derive(Clone, Copy, Debug, PartialEq, Eq, Structural)]
pub enum InputEvent {
    Quit,
    KeyDown { key: Key },
    KeyUp { key: Key },
    MouseDown { button: MouseButton, x: i32, y: i32 },
    Other,
}

/// What the caller does after an event has been handled.
#[derive(Clone, Copy, Debug, PartialEq, Eq, Structural)]
pub enum InputAction {
    Continue,
    /// End the session.
    Quit,
    /// Run the button's action once.
    ButtonClicked,
}

/// Turns input events into jumps, clicks and the end of the session. A jump happens
/// on the press of the jump key only, not on the repeats while it is held.
#[derive(Clone, Copy, Debug, PartialEq, Eq, Structural)]
pub struct InputRouter {
    pub jump_key_down: bool,
}

pub open spec fn is_quit(event: InputEvent) -> bool {
    event matches InputEvent::Quit || event == (InputEvent::KeyDown { key: Key::Escape })
}

pub open spec fn is_click_on(event: InputEvent, button: Button) -> bool {
    match event {
        InputEvent::MouseDown { button: MouseButton::Left, x, y } => button.rect.contains(
            x as int,
            y as int,
        ),
        _ => false,
    }
}

impl InputRouter {
    pub fn new() -> (r: InputRouter)
        ensures
            !r.jump_key_down,
    {
        InputRouter { jump_key_down: false }
    }

    /// A press of the jump key while it is not held makes the player jump.
    pub open spec fn jumps(self, event: InputEvent) -> bool {
        event == (InputEvent::KeyDown { key: Key::Space }) && !self.jump_key_down
    }

    pub fn handle(&mut self, event: InputEvent, player: &mut Player, button: &Button) -> (action:
        InputAction)
        ensures
            action == if is_quit(event) {
                InputAction::Quit
            } else if is_click_on(event, *button) {
                InputAction::ButtonClicked
            } else {
                InputAction::Continue
            },
            old(self).jumps(event) ==> {
                &&& final(player).y_velocity == JUMP_HEIGHT
                &&& final(player).frames_falling == 0
                &&& final(player).bounding_box == old(player).bounding_box
                &&& final(player).is_dead == old(player).is_dead
            },
            !old(self).jumps(event) ==> *final(player) == *old(player),
            final(self).jump_key_down == if event == (InputEvent::KeyDown { key: Key::Space }) {
                true
            } else if event == (InputEvent::KeyUp { key: Key::Space }) {
                false
            } else {
                old(self).jump_key_down
            },
    {
        match event {
            InputEvent::Quit => InputAction::Quit,
            InputEvent::KeyDown { key: Key::Escape } => InputAction::Quit,
            InputEvent::KeyDown { key: Key::Space } => {
                if !self.jump_key_down {
                    player.jump();
                    self.jump_key_down = true;
                }
                InputAction::Continue
            },
            InputEvent::KeyUp { key: Key::Space } => {
                self.jump_key_down = false;
                InputAction::Continue
            },
            InputEvent::MouseDown { button: MouseButton::Left, x, y } => {
                if button.check_for_click(x, y) {
                    InputAction::ButtonClicked
                } else {
                    InputAction::Continue
                }
            },
            _ => InputAction::Continue,
        }
    }
}

} // verus!
