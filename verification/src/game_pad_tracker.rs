//! Edge-triggered input tracking over raw button bitmasks.

use vstd::prelude::*;

verus! {

/// Raw input state of this tick and the last, with the derived edge masks.
#[derive(Clone, Copy, Debug, PartialEq, Eq, Structural)]
pub struct GamePadTracker {
    pub current_gamepad: u8,
    pub prev_gamepad: u8,
    pub new_presses: u8,
    pub current_mouse: u8,
    pub prev_mouse: u8,
    pub new_clicks: u8,
    pub new_releases: u8,
    pub mouse_x: i16,
    pub mouse_y: i16,
}

/// The tracker after taking one tick's raw state.
pub open spec fn tracker_updated(
    t: GamePadTracker,
    current_gamepad: u8,
    current_mouse: u8,
    mouse_x: i16,
    mouse_y: i16,
) -> GamePadTracker {
    GamePadTracker {
        prev_gamepad: t.current_gamepad,
        current_gamepad,
        new_presses: current_gamepad & !t.current_gamepad,
        prev_mouse: t.current_mouse,
        current_mouse,
        new_clicks: current_mouse & !t.current_mouse,
        new_releases: t.current_mouse & !current_mouse,
        mouse_x,
        mouse_y,
    }
}

impl GamePadTracker {
    pub fn new() -> (r: GamePadTracker)
        ensures
            r == (GamePadTracker {
                current_gamepad: 0u8,
                prev_gamepad: 0u8,
                new_presses: 0u8,
                current_mouse: 0u8,
                prev_mouse: 0u8,
                new_clicks: 0u8,
                new_releases: 0u8,
                mouse_x: 0i16,
                mouse_y: 0i16,
            }),
    {
        GamePadTracker {
            current_gamepad: 0,
            prev_gamepad: 0,
            new_presses: 0,
            prev_mouse: 0,
            current_mouse: 0,
            new_clicks: 0,
            new_releases: 0,
            mouse_x: 0,
            mouse_y: 0,
        }
    }

    /// Take this tick's raw state; the edge masks hold the bits that turned
    /// on (presses, clicks) or off (releases) since the last tick.
    pub fn update(&mut self, current_gamepad: u8, current_mouse: u8, mouse_x: i16, mouse_y: i16)
        ensures
            final(self).prev_gamepad == old(self).current_gamepad,
            final(self).current_gamepad == current_gamepad,
            final(self).new_presses == current_gamepad & !old(self).current_gamepad,
            final(self).prev_mouse == old(self).current_mouse,
            final(self).current_mouse == current_mouse,
            final(self).new_clicks == current_mouse & !old(self).current_mouse,
            final(self).new_releases == old(self).current_mouse & !current_mouse,
            final(self).mouse_x == mouse_x,
            final(self).mouse_y == mouse_y,
            *final(self) == tracker_updated(
                *old(self),
                current_gamepad,
                current_mouse,
                mouse_x,
                mouse_y,
            ),
    {
        self.prev_gamepad = self.current_gamepad;
        self.current_gamepad = current_gamepad;
        self.new_presses = self.current_gamepad & (self.current_gamepad ^ self.prev_gamepad);

        self.prev_mouse = self.current_mouse;
        self.current_mouse = current_mouse;
        self.new_clicks = self.current_mouse & (self.current_mouse ^ self.prev_mouse);
        self.new_releases = self.prev_mouse & (self.current_mouse ^ self.prev_mouse);

        self.mouse_x = mouse_x;
        self.mouse_y = mouse_y;

        proof {
            assert(forall|c: u8, p: u8| #[trigger] (c & (c ^ p)) == c & !p) by (bit_vector);
            assert(forall|c: u8, p: u8| #[trigger] (p & (c ^ p)) == p & !c) by (bit_vector);
        }
    }

    pub fn pressed(&self, key: u8) -> (r: bool)
        ensures
            r == (self.current_gamepad & key != 0),
    {
        self.current_gamepad & key != 0
    }

    pub fn newly_pressed(&self, key: u8) -> (r: bool)
        ensures
            r == (self.new_presses & key != 0),
    {
        self.new_presses & key != 0
    }

    pub fn clicked(&self, key: u8) -> (r: bool)
        ensures
            r == (self.current_mouse & key != 0),
    {
        self.current_mouse & key != 0
    }

    pub fn newly_clicked(&self, key: u8) -> (r: bool)
        ensures
            r == (self.new_clicks & key != 0),
    {
        self.new_clicks & key != 0
    }

    pub fn newly_released(&self, key: u8) -> (r: bool)
        ensures
            r == (self.new_releases & key != 0),
    {
        self.new_releases & key != 0
    }
}

} // verus!
