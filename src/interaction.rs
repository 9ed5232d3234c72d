use vstd::prelude::*;

verus! {

/// A mouse button, as far as the controller tells them apart.
#[derive(Clone, Copy, Debug, PartialEq, Eq, Structural)]
pub enum MouseButton {
    Left,
    Middle,
    Right,
    Other,
}

/// A keyboard key, as far as the controller tells them apart.
#[derive(Clone, Copy, Debug, PartialEq, Eq, Structural)]
pub enum Key {
    /// Toggles the pause.
    Space,
    /// Regenerates the bodies.
    R,
    Other,
}

/// What the caller must do after a mouse-button event.
#[derive(Clone, Copy, Debug, PartialEq, Eq)]
pub enum ButtonAction<P> {
    Nothing,
    /// Run the picker at this screen position and hand the result to
    /// `apply_pick`.
    Pick(P),
}

/// What the caller must do after a keyboard event.
#[derive(Clone, Copy, Debug, PartialEq, Eq, Structural)]
pub enum KeyAction {
    Nothing,
    /// Regenerate the bodies and recentre the camera.
    Reset,
}

/// The controller's mode flags, the last cursor position (a screen point of
/// type `P`) and the index of the body that the camera follows.
pub struct InteractionState<P> {
    pub panning: bool,
    pub zooming: bool,
    pub paused: bool,
    pub cursor_position: Option<P>,
    pub follow_body_index: Option<usize>,
}

impl<P: Copy> InteractionState<P> {
    /// Nothing pressed, not paused, no cursor seen, nothing followed.
    pub fn new() -> (r: Self)
        ensures
            !r.panning,
            !r.zooming,
            !r.paused,
            r.cursor_position is None,
            r.follow_body_index is None,
    {
        InteractionState {
            panning: false,
            zooming: false,
            paused: false,
            cursor_position: None,
            follow_body_index: None,
        }
    }

    /// Applies one mouse-button event. Middle starts and stops zooming; a left
    /// press starts panning and drops the followed body, a left release stops
    /// panning; a right release asks for a pick at the last cursor position, if
    /// one is known. Every other event changes nothing.
    pub fn on_mouse_button(&mut self, button: MouseButton, pressed: bool) -> (r: ButtonAction<P>)
        ensures
            final(self).zooming == (if button == MouseButton::Middle {
                pressed
            } else {
                old(self).zooming
            }),
            final(self).panning == (if button == MouseButton::Left {
                pressed
            } else {
                old(self).panning
            }),
            final(self).follow_body_index == (if button == MouseButton::Left && pressed {
                None
            } else {
                old(self).follow_body_index
            }),
            final(self).paused == old(self).paused,
            final(self).cursor_position == old(self).cursor_position,
            r == (if button == MouseButton::Right && !pressed {
                match old(self).cursor_position {
                    Some(p) => ButtonAction::Pick(p),
                    None => ButtonAction::Nothing,
                }
            } else {
                ButtonAction::Nothing
            }),
    {
        match button {
            MouseButton::Middle => {
                self.zooming = pressed;
                ButtonAction::Nothing
            },
            MouseButton::Left => {
                self.panning = pressed;
                if pressed {
                    self.follow_body_index = None;
                }
                ButtonAction::Nothing
            },
            MouseButton::Right => {
                if pressed {
                    ButtonAction::Nothing
                } else {
                    match self.cursor_position {
                        Some(p) => ButtonAction::Pick(p),
                        None => ButtonAction::Nothing,
                    }
                }
            },
            MouseButton::Other => ButtonAction::Nothing,
        }
    }

    /// Records the picker's answer: the hit body is followed, no hit clears the
    /// follow.
    pub fn apply_pick(&mut self, hit: Option<usize>)
        ensures
            final(self).follow_body_index == hit,
            final(self).panning == old(self).panning,
            final(self).zooming == old(self).zooming,
            final(self).paused == old(self).paused,
            final(self).cursor_position == old(self).cursor_position,
    {
        self.follow_body_index = hit;
    }

    /// Takes the cursor positions delivered in one frame, in order: the last
    /// one wins; none leaves the known position as it was.
    pub fn on_cursor_moved(&mut self, positions: &Vec<P>)
        ensures
            final(self).cursor_position == (if positions@.len() == 0 {
                old(self).cursor_position
            } else {
                Some(positions@.last())
            }),
            final(self).panning == old(self).panning,
            final(self).zooming == old(self).zooming,
            final(self).paused == old(self).paused,
            final(self).follow_body_index == old(self).follow_body_index,
    {
        let n = positions.len();
        if n > 0 {
            self.cursor_position = Some(positions[n - 1]);
        }
    }

    /// Applies one keyboard event. A space press toggles the pause; an R
    /// press asks for a reset; every other event changes nothing.
    pub fn on_key(&mut self, key: Key, pressed: bool) -> (r: KeyAction)
        ensures
            final(self).paused == (if key == Key::Space && pressed {
                !old(self).paused
            } else {
                old(self).paused
            }),
            r == (if key == Key::R && pressed {
                KeyAction::Reset
            } else {
                KeyAction::Nothing
            }),
            final(self).panning == old(self).panning,
            final(self).zooming == old(self).zooming,
            final(self).cursor_position == old(self).cursor_position,
            final(self).follow_body_index == old(self).follow_body_index,
    {
        if pressed {
            match key {
                Key::Space => {
                    self.paused = !self.paused;
                    KeyAction::Nothing
                },
                Key::R => KeyAction::Reset,
                Key::Other => KeyAction::Nothing,
            }
        } else {
            KeyAction::Nothing
        }
    }

    /// The body whose synced position the camera snaps to this frame: the
    /// followed index, where it names one of the `n_bodies` visual entities.
    pub fn follow_target(&self, n_bodies: usize) -> (r: Option<usize>)
        ensures
            r == (match self.follow_body_index {
                Some(i) => if i < n_bodies {
                    Some(i)
                } else {
                    None
                },
                None => None,
            }),
    {
        match self.follow_body_index {
            Some(i) => if i < n_bodies {
                Some(i)
            } else {
                None
            },
            None => None,
        }
    }
}

} // verus!
