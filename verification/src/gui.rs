//! Overlay state: which panels are visible and how pointer events reach them.
//!
//! The panels themselves (placement, hit testing, drawing) belong to the host.
//! For every pointer event the host asks each panel what it saw and hands the
//! answers to [`Gui::mouse_event`], which updates the visibility flags and
//! reports what the application has to react to.

use vstd::prelude::*;

verus! {

/// Elements of the spin-selection panel.
#[derive(Copy, Clone, PartialEq, Eq, Debug)]
pub enum AdjustSpinId {
    Title,
    Value,
    Red,
    Orange,
    Green,
    Confirm,
}

/// Buttons of the spin-selection panel.
#[derive(Copy, Clone, PartialEq, Eq, Debug)]
pub enum AdjustSpinButtonId {
    Confirm,
}

/// Elements of the coordinate read-out.
#[derive(Copy, Clone, PartialEq, Eq, Debug)]
pub enum DebugValuesId {
    X,
    Y,
    Z,
}

/// Elements of the frame-rate read-out.
#[derive(Copy, Clone, PartialEq, Eq, Debug)]
pub enum FpsCounterId {
    Fps,
}

/// Buttons of the menu corner.
#[derive(Copy, Clone, PartialEq, Eq, Debug)]
pub enum MenuId {
    Menu,
}

/// Buttons that steer the observer.
#[derive(Copy, Clone, PartialEq, Eq, Debug)]
pub enum MovementButtonId {
    Up,
    Forward,
    Down,
    Left,
    Back,
    Right,
}

/// Buttons of the side bar.
#[derive(Copy, Clone, PartialEq, Eq, Debug)]
pub enum SideButtonId {
    Reset,
    Still,
    FrozenFall,
    Fall,
    Orbit,
    PerformanceMonitor,
}

/// A button went down.
#[derive(Copy, Clone, PartialEq, Eq, Debug)]
pub enum PressedEvent {
    MovementButton(MovementButtonId),
}

/// A button came up again.
#[derive(Copy, Clone, PartialEq, Eq, Debug)]
pub enum ReleasedEvent {
    SideButton(SideButtonId),
    MovementButton(MovementButtonId),
    AdjustSpin(AdjustSpinButtonId),
}

/// What the overlay made of one pointer event.
#[derive(Copy, Clone, PartialEq, Eq, Debug)]
pub struct GuiResult {
    pub pressed_event: Option<PressedEvent>,
    pub released_event: Option<ReleasedEvent>,
    pub consumed: bool,
}

/// A pointer event in overlay coordinates (origin at the bottom left).
#[derive(Copy, Clone, PartialEq, Eq, Debug)]
pub enum MouseEvent {
    Moved { x: u32, y: u32 },
    Pressed,
    Released,
}

/// What a single panel saw of a pointer event.
#[derive(PartialEq, Eq, Debug)]
pub struct PanelEvents<Id> {
    pub pressed_event: Option<Id>,
    pub released_event: Option<Id>,
    pub consumed: bool,
}

/// The panels of the overlay.
#[derive(Copy, Clone, PartialEq, Eq, Debug)]
pub enum Panel {
    Menu,
    SideButtons,
    FpsCounter,
    MovementButtons,
    AdjustSpin,
}

/// Texture slot of the lit red light.
pub const TEXTURE_RED: u32 = 2;

/// Texture slot of the lit orange light.
pub const TEXTURE_ORANGE: u32 = 3;

/// Texture slot of the lit green light.
pub const TEXTURE_GREEN: u32 = 4;

/// Texture slot shared by all unlit lights.
pub const TEXTURE_GREY: u32 = 6;

/// Texture slots of the three lights of the spin-selection panel.
#[derive(Copy, Clone, PartialEq, Eq, Debug)]
pub struct SpinLights {
    pub red: u32,
    pub orange: u32,
    pub green: u32,
}

/// Visibility and size of the overlay.
#[derive(Copy, Clone, PartialEq, Eq, Debug)]
pub struct Gui {
    pub width: u32,
    pub height: u32,
    pub show_side_buttons: bool,
    pub show_movement_buttons: bool,
    pub show_adjust_spin: bool,
    pub spin_lights: SpinLights,
}

/// Corner indices of the two triangles that tile a rectangle `A B C D`.
pub fn create_rectangle_indices() -> (indices: [u32; 6])
    ensures
        indices@ == seq![0u32, 1u32, 2u32, 2u32, 3u32, 0u32],
{
    [0, 1, 2, 2, 3, 0]
}

/// Slot of a light: its own colour when lit, grey otherwise.
pub open spec fn light_slot(lit: bool, colour: u32) -> u32 {
    if lit {
        colour
    } else {
        TEXTURE_GREY
    }
}

/// The given panels if they are shown, none otherwise.
pub open spec fn shown(show: bool, panels: Seq<Panel>) -> Seq<Panel> {
    if show {
        panels
    } else {
        Seq::empty()
    }
}

/// The panels that are drawn, from the lowest to the topmost: the menu
/// corner always, the frame rate together with the side bar.
pub open spec fn drawn(gui: Gui) -> Seq<Panel> {
    seq![Panel::Menu] + shown(gui.show_side_buttons, seq![Panel::SideButtons, Panel::FpsCounter])
        + shown(gui.show_movement_buttons, seq![Panel::MovementButtons]) + shown(
        gui.show_adjust_spin,
        seq![Panel::AdjustSpin],
    )
}

/// Visibility of the side bar after the menu corner has reported.
pub open spec fn side_buttons_after(gui: Gui, menu: PanelEvents<MenuId>) -> bool {
    gui.show_side_buttons != menu.released_event.is_some()
}

/// Whether the side bar, consulted in its turn, reports a released button.
pub open spec fn side_release(
    gui: Gui,
    menu: PanelEvents<MenuId>,
    side: PanelEvents<SideButtonId>,
) -> bool {
    side_buttons_after(gui, menu) && side.released_event.is_some()
}

/// Visibility of the spin selection when its turn comes: a released `Orbit`
/// button has opened it by then.
pub open spec fn adjust_spin_consulted(
    gui: Gui,
    menu: PanelEvents<MenuId>,
    side: PanelEvents<SideButtonId>,
) -> bool {
    gui.show_adjust_spin || (side_release(gui, menu, side) && side.released_event
        == Some(SideButtonId::Orbit))
}

/// Visibility of the spin selection after all panels have reported: a
/// released `Confirm` closes it again.
pub open spec fn adjust_spin_after(
    gui: Gui,
    menu: PanelEvents<MenuId>,
    side: PanelEvents<SideButtonId>,
    spin: PanelEvents<AdjustSpinButtonId>,
) -> bool {
    adjust_spin_consulted(gui, menu, side) && spin.released_event.is_none()
}

/// The released button that the application hears of: panels report in the
/// order side bar, movement buttons, spin selection, a later report replaces
/// an earlier one, and hidden panels are not asked.
pub open spec fn released_after(
    gui: Gui,
    menu: PanelEvents<MenuId>,
    side: PanelEvents<SideButtonId>,
    movement: PanelEvents<MovementButtonId>,
    spin: PanelEvents<AdjustSpinButtonId>,
) -> Option<ReleasedEvent> {
    if adjust_spin_consulted(gui, menu, side) && spin.released_event.is_some() {
        Some(ReleasedEvent::AdjustSpin(spin.released_event.unwrap()))
    } else if gui.show_movement_buttons && movement.released_event.is_some() {
        Some(ReleasedEvent::MovementButton(movement.released_event.unwrap()))
    } else if side_release(gui, menu, side) {
        Some(ReleasedEvent::SideButton(side.released_event.unwrap()))
    } else {
        None
    }
}

/// The pressed button that the application hears of: only movement buttons
/// report one.
pub open spec fn pressed_after(gui: Gui, movement: PanelEvents<MovementButtonId>) -> Option<
    PressedEvent,
> {
    if gui.show_movement_buttons && movement.pressed_event.is_some() {
        Some(PressedEvent::MovementButton(movement.pressed_event.unwrap()))
    } else {
        None
    }
}

/// Whether any panel that was asked has taken the event for itself.
pub open spec fn consumed_after(
    gui: Gui,
    menu: PanelEvents<MenuId>,
    side: PanelEvents<SideButtonId>,
    movement: PanelEvents<MovementButtonId>,
    spin: PanelEvents<AdjustSpinButtonId>,
) -> bool {
    ||| menu.consumed
    ||| (side_buttons_after(gui, menu) && side.consumed)
    ||| (gui.show_movement_buttons && movement.consumed)
    ||| (adjust_spin_consulted(gui, menu, side) && spin.consumed)
}

impl SpinLights {
    /// All three lights off.
    pub fn new() -> (lights: Self)
        ensures
            lights == (SpinLights { red: TEXTURE_GREY, orange: TEXTURE_GREY, green: TEXTURE_GREY }),
    {
        SpinLights { red: TEXTURE_GREY, orange: TEXTURE_GREY, green: TEXTURE_GREY }
    }
}

impl Gui {
    /// An overlay of the given size that shows the movement buttons only.
    pub fn new(width: u32, height: u32) -> (gui: Self)
        ensures
            gui.width == width,
            gui.height == height,
            !gui.show_side_buttons,
            gui.show_movement_buttons,
            !gui.show_adjust_spin,
            gui.spin_lights == (SpinLights {
                red: TEXTURE_GREY,
                orange: TEXTURE_GREY,
                green: TEXTURE_GREY,
            }),
    {
        Gui {
            width,
            height,
            show_side_buttons: false,
            show_movement_buttons: true,
            show_adjust_spin: false,
            spin_lights: SpinLights::new(),
        }
    }

    /// The menu corner toggles the side bar.
    pub fn handle_gui_menu_event(&mut self, event: MenuId)
        ensures
            *final(self) == (Gui { show_side_buttons: !old(self).show_side_buttons, ..*old(self) }),
    {
        match event {
            MenuId::Menu => {
                self.show_side_buttons = !self.show_side_buttons;
            },
        }
    }

    /// `Orbit` opens the spin selection; no other side button touches the
    /// overlay.
    pub fn handle_side_button_event(&mut self, event: SideButtonId)
        ensures
            *final(self) == (Gui {
                show_adjust_spin: old(self).show_adjust_spin || event == SideButtonId::Orbit,
                ..*old(self)
            }),
    {
        match event {
            SideButtonId::Orbit => {
                self.show_adjust_spin = true;
            },
            _ => {},
        }
    }

    /// `Confirm` closes the spin selection.
    pub fn handle_adjust_spin_event(&mut self, event: AdjustSpinButtonId)
        ensures
            *final(self) == (Gui { show_adjust_spin: false, ..*old(self) }),
    {
        match event {
            AdjustSpinButtonId::Confirm => {
                self.show_adjust_spin = false;
            },
        }
    }

    /// Records the new size of the window.
    pub fn resize(&mut self, width: u32, height: u32)
        ensures
            *final(self) == (Gui { width, height, ..*old(self) }),
    {
        self.width = width;
        self.height = height;
    }

    /// Routes one pointer event. Each argument is what the panel of that name
    /// saw of the event; the report of a panel that is hidden when its turn
    /// comes is ignored. The turns are: menu corner, side bar, movement
    /// buttons, spin selection.
    pub fn mouse_event(
        &mut self,
        menu: PanelEvents<MenuId>,
        side: PanelEvents<SideButtonId>,
        movement: PanelEvents<MovementButtonId>,
        spin: PanelEvents<AdjustSpinButtonId>,
    ) -> (result: GuiResult)
        ensures
            *final(self) == (Gui {
                show_side_buttons: side_buttons_after(*old(self), menu),
                show_adjust_spin: adjust_spin_after(*old(self), menu, side, spin),
                ..*old(self)
            }),
            result.pressed_event == pressed_after(*old(self), movement),
            result.released_event == released_after(*old(self), menu, side, movement, spin),
            result.consumed == consumed_after(*old(self), menu, side, movement, spin),
    {
        let mut gui_result = GuiResult { pressed_event: None, released_event: None, consumed: false };

        match menu.released_event {
            Some(event) => self.handle_gui_menu_event(event),
            None => {},
        }
        gui_result.consumed = gui_result.consumed || menu.consumed;

        if self.show_side_buttons {
            match side.released_event {
                Some(event) => {
                    self.handle_side_button_event(event);
                    gui_result.released_event = Some(ReleasedEvent::SideButton(event));
                },
                None => {},
            }
            gui_result.consumed = gui_result.consumed || side.consumed;
        }

        if self.show_movement_buttons {
            match movement.released_event {
                Some(event) => {
                    gui_result.released_event = Some(ReleasedEvent::MovementButton(event));
                },
                None => {},
            }
            match movement.pressed_event {
                Some(event) => {
                    gui_result.pressed_event = Some(PressedEvent::MovementButton(event));
                },
                None => {},
            }
            gui_result.consumed = gui_result.consumed || movement.consumed;
        }

        if self.show_adjust_spin {
            match spin.released_event {
                Some(event) => {
                    self.handle_adjust_spin_event(event);
                    gui_result.released_event = Some(ReleasedEvent::AdjustSpin(event));
                },
                None => {},
            }
            gui_result.consumed = gui_result.consumed || spin.consumed;
        }

        gui_result
    }

    /// The pointer moved to window position `(x, y)`, counted from the top
    /// left. The overlay counts rows from the bottom, and a pointer below the
    /// window is taken to sit on its lowest row.
    pub fn mouse_moved(&self, x: u32, y: u32) -> (event: MouseEvent)
        ensures
            event == (MouseEvent::Moved {
                x,
                y: if y <= self.height {
                    (self.height - y) as u32
                } else {
                    0u32
                },
            }),
    {
        let row: u32 = if y <= self.height {
            self.height - y
        } else {
            0
        };
        MouseEvent::Moved { x, y: row }
    }

    /// The pointer button went down (`true`) or came up (`false`).
    pub fn mouse_pressed(&self, pressed: bool) -> (event: MouseEvent)
        ensures
            event == if pressed {
                MouseEvent::Pressed
            } else {
                MouseEvent::Released
            },
    {
        if pressed {
            MouseEvent::Pressed
        } else {
            MouseEvent::Released
        }
    }

    /// The panels to draw, in drawing order.
    pub fn draw(&self) -> (panels: Vec<Panel>)
        ensures
            panels@ == drawn(*self),
    {
        let mut panels = Vec::new();
        panels.push(Panel::Menu);
        if self.show_side_buttons {
            panels.push(Panel::SideButtons);
            panels.push(Panel::FpsCounter);
        }
        if self.show_movement_buttons {
            panels.push(Panel::MovementButtons);
        }
        if self.show_adjust_spin {
            panels.push(Panel::AdjustSpin);
        }
        assert(panels@ =~= drawn(*self));
        panels
    }

    /// Lights or darkens the three lights of the spin selection.
    pub fn adjust_spin_set_colors(&mut self, red: bool, orange: bool, green: bool)
        ensures
            *final(self) == (Gui {
                spin_lights: SpinLights {
                    red: light_slot(red, TEXTURE_RED),
                    orange: light_slot(orange, TEXTURE_ORANGE),
                    green: light_slot(green, TEXTURE_GREEN),
                },
                ..*old(self)
            }),
    {
        self.spin_lights = SpinLights {
            red: if red {
                TEXTURE_RED
            } else {
                TEXTURE_GREY
            },
            orange: if orange {
                TEXTURE_ORANGE
            } else {
                TEXTURE_GREY
            },
            green: if green {
                TEXTURE_GREEN
            } else {
                TEXTURE_GREY
            },
        };
    }
}

/// An event of which no shown panel reports a button leaves the overlay as
/// it is and gives the application nothing to react to.
pub proof fn lemma_quiet_event(
    gui: Gui,
    menu: PanelEvents<MenuId>,
    side: PanelEvents<SideButtonId>,
    movement: PanelEvents<MovementButtonId>,
    spin: PanelEvents<AdjustSpinButtonId>,
)
    requires
        menu.released_event.is_none(),
        gui.show_side_buttons ==> side.released_event.is_none(),
        gui.show_movement_buttons ==> movement.released_event.is_none()
            && movement.pressed_event.is_none(),
        gui.show_adjust_spin ==> spin.released_event.is_none(),
    ensures
        side_buttons_after(gui, menu) == gui.show_side_buttons,
        adjust_spin_after(gui, menu, side, spin) == gui.show_adjust_spin,
        released_after(gui, menu, side, movement, spin).is_none(),
        pressed_after(gui, movement).is_none(),
{
}

/// The spin selection is shown after an event exactly if `Confirm` was not
/// released in it and it was open before or `Orbit` was released on a shown
/// side bar.
pub proof fn lemma_spin_selection_opens_and_closes(
    gui: Gui,
    menu: PanelEvents<MenuId>,
    side: PanelEvents<SideButtonId>,
    spin: PanelEvents<AdjustSpinButtonId>,
)
    ensures
        spin.released_event.is_some() ==> !adjust_spin_after(gui, menu, side, spin),
        spin.released_event.is_none() && gui.show_adjust_spin ==> adjust_spin_after(
            gui,
            menu,
            side,
            spin,
        ),
        !gui.show_adjust_spin && !side_buttons_after(gui, menu) ==> !adjust_spin_after(
            gui,
            menu,
            side,
            spin,
        ),
{
}

} // verus!
