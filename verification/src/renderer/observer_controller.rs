//! Keys that move the observer.
//!
//! The controller remembers which movement keys are held and turns them into
//! a direction of unit steps; opposite keys cancel. Four more keys switch the
//! observer's mode of motion.

use vstd::prelude::*;

verus! {

/// Angular momentum of the orbit that the keyboard launches, and with which
/// the spin selection opens.
pub const PRESET_ROTATION: u8 = 18;

/// The keys that the application listens to.
#[derive(Copy, Clone, PartialEq, Eq, Debug)]
pub enum KeyCode {
    KeyW,
    KeyA,
    KeyS,
    KeyD,
    ArrowUp,
    ArrowDown,
    ArrowLeft,
    ArrowRight,
    Space,
    ShiftLeft,
    Digit1,
    Digit2,
    Digit3,
    Digit4,
    /// Any other key.
    Other,
}

/// One of the six directions of movement.
#[derive(Copy, Clone, PartialEq, Eq, Debug)]
pub enum Heading {
    Forward,
    Backward,
    Left,
    Right,
    Up,
    Down,
}

/// A change of the observer's mode of motion.
#[derive(Copy, Clone, PartialEq, Eq, Debug)]
pub enum ModeSwitch {
    /// Come to rest.
    Unmoving,
    /// See what a falling observer sees.
    FrozenFall,
    /// Fall radially from here.
    Fall,
    /// Enter an orbit with the preset angular momentum.
    Orbit,
}

/// What a key means to the renderer.
#[derive(Copy, Clone, PartialEq, Eq, Debug)]
pub enum KeyAction {
    /// The key switches the mode, when pressed and when released alike.
    Switch(ModeSwitch),
    /// The key was handed to the movement controller, which did or did not
    /// know it.
    Movement { handled: bool },
}

/// The desired movement in unit steps along the observer's axes.
#[derive(Copy, Clone, PartialEq, Eq, Debug)]
pub struct Direction {
    pub forward: i8,
    pub left: i8,
    pub up: i8,
}

/// The heading that a key stands for, if it is a movement key.
pub open spec fn heading(key: KeyCode) -> Option<Heading> {
    match key {
        KeyCode::KeyW | KeyCode::ArrowUp => Some(Heading::Forward),
        KeyCode::KeyS | KeyCode::ArrowDown => Some(Heading::Backward),
        KeyCode::KeyA | KeyCode::ArrowLeft => Some(Heading::Left),
        KeyCode::KeyD | KeyCode::ArrowRight => Some(Heading::Right),
        KeyCode::Space => Some(Heading::Up),
        KeyCode::ShiftLeft => Some(Heading::Down),
        _ => None,
    }
}

/// The mode that a key switches to, if it is a mode key.
pub open spec fn mode_switch(key: KeyCode) -> Option<ModeSwitch> {
    match key {
        KeyCode::Digit1 => Some(ModeSwitch::Unmoving),
        KeyCode::Digit2 => Some(ModeSwitch::FrozenFall),
        KeyCode::Digit3 => Some(ModeSwitch::Fall),
        KeyCode::Digit4 => Some(ModeSwitch::Orbit),
        _ => None,
    }
}

/// One step along an axis for the key held in its direction, one step back
/// for the key held against it.
pub open spec fn axis(along: bool, against: bool) -> int {
    (if along {
        1int
    } else {
        0int
    }) - (if against {
        1int
    } else {
        0int
    })
}

/// The movement keys that are held.
#[derive(Copy, Clone, PartialEq, Eq, Debug)]
pub struct ObserverController {
    pub left: bool,
    pub right: bool,
    pub forward: bool,
    pub backward: bool,
    pub up: bool,
    pub down: bool,
}

impl ObserverController {
    /// Whether the key of a heading is held.
    pub open spec fn held(self, heading: Heading) -> bool {
        match heading {
            Heading::Forward => self.forward,
            Heading::Backward => self.backward,
            Heading::Left => self.left,
            Heading::Right => self.right,
            Heading::Up => self.up,
            Heading::Down => self.down,
        }
    }

    /// The controller after a key for `heading` went down or up.
    pub open spec fn with(self, heading: Heading, pressed: bool) -> ObserverController {
        match heading {
            Heading::Forward => ObserverController { forward: pressed, ..self },
            Heading::Backward => ObserverController { backward: pressed, ..self },
            Heading::Left => ObserverController { left: pressed, ..self },
            Heading::Right => ObserverController { right: pressed, ..self },
            Heading::Up => ObserverController { up: pressed, ..self },
            Heading::Down => ObserverController { down: pressed, ..self },
        }
    }

    /// The direction that the held keys add up to.
    pub open spec fn direction(self) -> Direction {
        Direction {
            forward: axis(self.forward, self.backward) as i8,
            left: axis(self.left, self.right) as i8,
            up: axis(self.up, self.down) as i8,
        }
    }

    /// A controller with no key held.
    pub fn new() -> (controller: Self)
        ensures
            forall|heading: Heading| !controller.held(heading),
    {
        ObserverController {
            left: false,
            right: false,
            forward: false,
            backward: false,
            up: false,
            down: false,
        }
    }

    /// Takes note of a key that went down (`pressed`) or up. The result says
    /// whether the key is a movement key.
    pub fn process_keyboard(&mut self, key: KeyCode, pressed: bool) -> (handled: bool)
        ensures
            handled == heading(key).is_some(),
            *final(self) == match heading(key) {
                Some(h) => old(self).with(h, pressed),
                None => *old(self),
            },
    {
        match key {
            KeyCode::KeyW | KeyCode::ArrowUp => {
                self.forward = pressed;
                true
            },
            KeyCode::KeyS | KeyCode::ArrowDown => {
                self.backward = pressed;
                true
            },
            KeyCode::KeyA | KeyCode::ArrowLeft => {
                self.left = pressed;
                true
            },
            KeyCode::KeyD | KeyCode::ArrowRight => {
                self.right = pressed;
                true
            },
            KeyCode::Space => {
                self.up = pressed;
                true
            },
            KeyCode::ShiftLeft => {
                self.down = pressed;
                true
            },
            _ => false,
        }
    }

    /// The direction in which the observer is to move in this frame.
    pub fn update_observer(&self) -> (direction: Direction)
        ensures
            direction == self.direction(),
    {
        Direction {
            forward: Self::steps(self.forward, self.backward),
            left: Self::steps(self.left, self.right),
            up: Self::steps(self.up, self.down),
        }
    }

    fn steps(along: bool, against: bool) -> (steps: i8)
        ensures
            steps == axis(along, against),
    {
        if along == against {
            0
        } else if along {
            1
        } else {
            -1
        }
    }
}

/// What a key means to the renderer: mode keys come first, all others go to
/// the movement controller.
pub fn process_keyboard(controller: &mut ObserverController, key: KeyCode, pressed: bool) -> (action:
    KeyAction)
    ensures
        action == match mode_switch(key) {
            Some(switch) => KeyAction::Switch(switch),
            None => KeyAction::Movement { handled: heading(key).is_some() },
        },
        *final(controller) == match heading(key) {
            Some(h) => old(controller).with(h, pressed),
            None => *old(controller),
        },
{
    match key {
        KeyCode::Digit1 => KeyAction::Switch(ModeSwitch::Unmoving),
        KeyCode::Digit2 => KeyAction::Switch(ModeSwitch::FrozenFall),
        KeyCode::Digit3 => KeyAction::Switch(ModeSwitch::Fall),
        KeyCode::Digit4 => KeyAction::Switch(ModeSwitch::Orbit),
        _ => {
            let handled = controller.process_keyboard(key, pressed);
            KeyAction::Movement { handled }
        },
    }
}

/// Every component of the direction is the step of its axis, a single step
/// at most, and holding both keys of an axis moves the observer no more than
/// holding neither.
pub proof fn lemma_direction_is_unit_steps(controller: ObserverController)
    ensures
        controller.direction().forward == axis(controller.forward, controller.backward),
        controller.direction().left == axis(controller.left, controller.right),
        controller.direction().up == axis(controller.up, controller.down),
        -1 <= controller.direction().forward <= 1,
        -1 <= controller.direction().left <= 1,
        -1 <= controller.direction().up <= 1,
        controller.forward == controller.backward ==> controller.direction().forward
            == 0,
        controller.left == controller.right ==> controller.direction().left == 0,
        controller.up == controller.down ==> controller.direction().up == 0,
{
}

/// A key changes the state of its own heading and of no other.
pub proof fn lemma_key_sets_its_heading(
    controller: ObserverController,
    pressed_heading: Heading,
    pressed: bool,
    other: Heading,
)
    ensures
        controller.with(pressed_heading, pressed).held(pressed_heading) == pressed,
        other != pressed_heading ==> controller.with(pressed_heading, pressed).held(other)
            == controller.held(other),
{
}

} // verus!
