//! The application between overlay, keyboard and simulation.
//!
//! The overlay reports buttons; [`SchwarzschildRaytracer`] turns them into
//! key strokes for the renderer, into commands for the observer, or into
//! changes of the spin selection, in which the forward and back buttons tune
//! the angular momentum of the orbit to come.

use vstd::prelude::*;
use crate::gui::{
    AdjustSpinButtonId, Gui, GuiResult, MovementButtonId, PressedEvent, ReleasedEvent,
    SideButtonId, SpinLights, TEXTURE_GREEN, TEXTURE_GREY, TEXTURE_ORANGE, TEXTURE_RED,
};
use crate::renderer::observer_controller::{KeyCode, ModeSwitch};
use crate::simulation::orbit::OrbitStability;

verus! {

/// What the application does in answer to a button.
#[derive(Copy, Clone, PartialEq, Eq, Debug)]
pub enum Command {
    /// Hand the key stroke to the renderer.
    Key { key: KeyCode, pressed: bool },
    /// Put the observer back to its starting place.
    Reset,
    /// Switch the observer's mode of motion.
    Switch(ModeSwitch),
    /// Set the selected angular momentum back to its preset.
    RestartSelection,
    /// Launch the observer on an orbit with the selected angular momentum.
    Launch,
    /// Nothing beyond the change of the application's own state.
    Nothing,
}

/// The commands that follow from one report of the overlay.
#[derive(Copy, Clone, PartialEq, Eq, Debug)]
pub struct Commands {
    pub pressed: Option<Command>,
    pub released: Option<Command>,
}

/// The application's own state.
#[derive(Copy, Clone, PartialEq, Eq, Debug)]
pub struct SchwarzschildRaytracer {
    /// The spin selection is open: forward and back tune the angular
    /// momentum.
    pub rotation_selection_mode: bool,
    /// Rate at which the selected angular momentum changes, in units per
    /// second.
    pub rotation_delta: i32,
    /// The performance monitor is shown.
    pub show_performance_monitor: bool,
}

/// The key that a movement button stands for.
pub open spec fn button_key(id: MovementButtonId) -> KeyCode {
    match id {
        MovementButtonId::Up => KeyCode::Space,
        MovementButtonId::Forward => KeyCode::KeyW,
        MovementButtonId::Down => KeyCode::ShiftLeft,
        MovementButtonId::Left => KeyCode::KeyA,
        MovementButtonId::Back => KeyCode::KeyS,
        MovementButtonId::Right => KeyCode::KeyD,
    }
}

/// By how much a movement button changes the rate while it is held in the
/// spin selection; zero for the buttons that do not tune.
pub open spec fn button_rate(id: MovementButtonId) -> int {
    match id {
        MovementButtonId::Forward => 1,
        MovementButtonId::Back => -1,
        _ => 0,
    }
}

/// A rate changed by `by`, kept within the range of its type.
pub open spec fn nudged(rate: i32, by: int) -> i32 {
    if rate + by > i32::MAX {
        i32::MAX
    } else if rate + by < i32::MIN {
        i32::MIN
    } else {
        (rate + by) as i32
    }
}

/// The texture slots that show a fate: red for the singularity, orange for
/// a stable orbit, green for an escape.
pub open spec fn stability_lights(stability: OrbitStability) -> SpinLights {
    match stability {
        OrbitStability::HittingSingularity => SpinLights {
            red: TEXTURE_RED,
            orange: TEXTURE_GREY,
            green: TEXTURE_GREY,
        },
        OrbitStability::StableOrbit => SpinLights {
            red: TEXTURE_GREY,
            orange: TEXTURE_ORANGE,
            green: TEXTURE_GREY,
        },
        OrbitStability::EscapeTrajectory => SpinLights {
            red: TEXTURE_GREY,
            orange: TEXTURE_GREY,
            green: TEXTURE_GREEN,
        },
    }
}

impl SchwarzschildRaytracer {
    /// Whether a movement button tunes the spin selection instead of moving
    /// the observer.
    pub open spec fn tunes(self, id: MovementButtonId) -> bool {
        self.rotation_selection_mode && button_rate(id) != 0
    }

    /// The application after a movement button went down (`pressed`) or up:
    /// a tuning button adds its rate while it goes down and takes it back
    /// when it comes up.
    pub open spec fn after_movement(self, id: MovementButtonId, pressed: bool)
        -> SchwarzschildRaytracer {
        if self.tunes(id) {
            SchwarzschildRaytracer {
                rotation_delta: nudged(
                    self.rotation_delta,
                    if pressed {
                        button_rate(id)
                    } else {
                        -button_rate(id)
                    },
                ),
                ..self
            }
        } else {
            self
        }
    }

    /// The command for a movement button: its key stroke, unless it tunes.
    pub open spec fn movement_command(self, id: MovementButtonId, pressed: bool) -> Command {
        if self.tunes(id) {
            Command::Nothing
        } else {
            Command::Key { key: button_key(id), pressed }
        }
    }

    /// The application after a side button came up.
    pub open spec fn after_side_button(self, id: SideButtonId) -> SchwarzschildRaytracer {
        match id {
            SideButtonId::Orbit => SchwarzschildRaytracer {
                rotation_selection_mode: true,
                rotation_delta: 0,
                ..self
            },
            SideButtonId::PerformanceMonitor => SchwarzschildRaytracer {
                show_performance_monitor: !self.show_performance_monitor,
                ..self
            },
            _ => self,
        }
    }

    /// The application after a released button.
    pub open spec fn after_release(self, event: ReleasedEvent) -> SchwarzschildRaytracer {
        match event {
            ReleasedEvent::SideButton(id) => self.after_side_button(id),
            ReleasedEvent::MovementButton(id) => self.after_movement(id, false),
            ReleasedEvent::AdjustSpin(_) => SchwarzschildRaytracer {
                rotation_selection_mode: false,
                ..self
            },
        }
    }

    /// The command for a released button.
    pub open spec fn release_command(self, event: ReleasedEvent) -> Command {
        match event {
            ReleasedEvent::SideButton(id) => match id {
                SideButtonId::Reset => Command::Reset,
                SideButtonId::Still => Command::Switch(ModeSwitch::Unmoving),
                SideButtonId::FrozenFall => Command::Switch(ModeSwitch::FrozenFall),
                SideButtonId::Fall => Command::Switch(ModeSwitch::Fall),
                SideButtonId::Orbit => Command::RestartSelection,
                SideButtonId::PerformanceMonitor => Command::Nothing,
            },
            ReleasedEvent::MovementButton(id) => self.movement_command(id, false),
            ReleasedEvent::AdjustSpin(_) => Command::Launch,
        }
    }

    /// The application after the pressed button of a report, if there is
    /// one.
    pub open spec fn after_pressed(self, event: Option<PressedEvent>) -> SchwarzschildRaytracer {
        match event {
            Some(PressedEvent::MovementButton(id)) => self.after_movement(id, true),
            None => self,
        }
    }

    /// An application with the spin selection closed and the monitor hidden.
    pub fn new() -> (app: Self)
        ensures
            app == (SchwarzschildRaytracer {
                rotation_selection_mode: false,
                rotation_delta: 0,
                show_performance_monitor: false,
            }),
    {
        SchwarzschildRaytracer {
            rotation_selection_mode: false,
            rotation_delta: 0,
            show_performance_monitor: false,
        }
    }

    /// Reacts to a report of the overlay, the pressed button first, then the
    /// released one.
    pub fn handle_gui_event(&mut self, gui_result: &GuiResult) -> (commands: Commands)
        ensures
            commands.pressed == match gui_result.pressed_event {
                Some(PressedEvent::MovementButton(id)) => Some(
                    old(self).movement_command(id, true),
                ),
                None => None,
            },
            commands.released == match gui_result.released_event {
                Some(event) => Some(
                    old(self).after_pressed(gui_result.pressed_event).release_command(event),
                ),
                None => None,
            },
            *final(self) == match gui_result.released_event {
                Some(event) => old(self).after_pressed(gui_result.pressed_event).after_release(
                    event,
                ),
                None => old(self).after_pressed(gui_result.pressed_event),
            },
    {
        let pressed = match gui_result.pressed_event {
            Some(PressedEvent::MovementButton(id)) => Some(self.movement_button(id, true)),
            None => None,
        };
        let released = match gui_result.released_event {
            Some(ReleasedEvent::SideButton(id)) => Some(
                match id {
                    SideButtonId::Reset => Command::Reset,
                    SideButtonId::Still => Command::Switch(ModeSwitch::Unmoving),
                    SideButtonId::FrozenFall => Command::Switch(ModeSwitch::FrozenFall),
                    SideButtonId::Fall => Command::Switch(ModeSwitch::Fall),
                    SideButtonId::Orbit => {
                        self.rotation_delta = 0;
                        self.rotation_selection_mode = true;
                        Command::RestartSelection
                    },
                    SideButtonId::PerformanceMonitor => {
                        self.show_performance_monitor = !self.show_performance_monitor;
                        Command::Nothing
                    },
                },
            ),
            Some(ReleasedEvent::MovementButton(id)) => Some(self.movement_button(id, false)),
            Some(ReleasedEvent::AdjustSpin(id)) => Some(
                match id {
                    AdjustSpinButtonId::Confirm => {
                        self.rotation_selection_mode = false;
                        Command::Launch
                    },
                },
            ),
            None => None,
        };
        Commands { pressed, released }
    }

    /// Reacts to a movement button that went down (`pressed`) or up.
    pub fn movement_button(&mut self, id: MovementButtonId, pressed: bool) -> (command: Command)
        ensures
            command == old(self).movement_command(id, pressed),
            *final(self) == old(self).after_movement(id, pressed),
    {
        let up = !pressed;
        match id {
            MovementButtonId::Up => Command::Key { key: KeyCode::Space, pressed },
            MovementButtonId::Forward => {
                if self.rotation_selection_mode {
                    self.tune(up);
                    Command::Nothing
                } else {
                    Command::Key { key: KeyCode::KeyW, pressed }
                }
            },
            MovementButtonId::Down => Command::Key { key: KeyCode::ShiftLeft, pressed },
            MovementButtonId::Left => Command::Key { key: KeyCode::KeyA, pressed },
            MovementButtonId::Back => {
                if self.rotation_selection_mode {
                    self.tune(pressed);
                    Command::Nothing
                } else {
                    Command::Key { key: KeyCode::KeyS, pressed }
                }
            },
            MovementButtonId::Right => Command::Key { key: KeyCode::KeyD, pressed },
        }
    }

    /// Lowers (`down`) or raises the rate by one, within its range.
    fn tune(&mut self, down: bool)
        ensures
            *final(self) == (SchwarzschildRaytracer {
                rotation_delta: nudged(
                    old(self).rotation_delta,
                    if down {
                        -1
                    } else {
                        1
                    },
                ),
                ..*old(self)
            }),
    {
        if down {
            if self.rotation_delta > i32::MIN {
                self.rotation_delta = self.rotation_delta - 1;
            }
        } else {
            if self.rotation_delta < i32::MAX {
                self.rotation_delta = self.rotation_delta + 1;
            }
        }
    }

    /// Shows the fate of the selected orbit on the lights of the spin
    /// selection.
    pub fn update_rotation_gui(gui: &mut Gui, stability: OrbitStability)
        ensures
            *final(gui) == (Gui { spin_lights: stability_lights(stability), ..*old(gui) }),
    {
        match stability {
            OrbitStability::HittingSingularity => gui.adjust_spin_set_colors(true, false, false),
            OrbitStability::StableOrbit => gui.adjust_spin_set_colors(false, true, false),
            OrbitStability::EscapeTrajectory => gui.adjust_spin_set_colors(false, false, true),
        }
    }
}

/// Exactly one light is lit for every fate, and different fates light
/// different lights.
pub proof fn lemma_one_light_per_fate(stability: OrbitStability, other: OrbitStability)
    ensures
        ({
            let lights = stability_lights(stability);
            (if lights.red != TEXTURE_GREY {
                1int
            } else {
                0int
            }) + (if lights.orange != TEXTURE_GREY {
                1int
            } else {
                0int
            }) + (if lights.green != TEXTURE_GREY {
                1int
            } else {
                0int
            }) == 1
        }),
        stability_lights(stability) == stability_lights(other) ==> stability == other,
{
}

/// A tuning button that goes down and comes up again within the spin
/// selection leaves the rate where it was, as long as the rate stays within
/// its range.
pub proof fn lemma_tuning_button_cancels(app: SchwarzschildRaytracer, id: MovementButtonId)
    requires
        i32::MIN < app.rotation_delta < i32::MAX,
    ensures
        app.after_movement(id, true).after_movement(id, false) == app,
{
}

/// Outside the spin selection every movement button is a key stroke and
/// leaves the application as it is.
pub proof fn lemma_movement_is_key_stroke(
    app: SchwarzschildRaytracer,
    id: MovementButtonId,
    pressed: bool,
)
    requires
        !app.rotation_selection_mode,
    ensures
        app.movement_command(id, pressed) == (Command::Key { key: button_key(id), pressed }),
        app.after_movement(id, pressed) == app,
{
}

} // verus!
