//! Input state: current key/button states, modifier keys, and per-frame
//! accumulators for mouse motion and scroll.
//!
//! The host event loop translates raw window events into plain values: a key
//! or mouse button is a numeric code, a cursor position is a pair of
//! subpixel coordinates, and scroll is measured in thousandths of a line
//! (pixel-based scroll is normalized to lines by the event dispatcher).

use std::collections::HashMap;
use vstd::prelude::*;

verus! {

broadcast use vstd::std_specs::hash::group_hash_axioms;

/// State of the three modifier keys.
#[derive(Clone, Copy, Debug, PartialEq, Eq, Structural)]
pub struct Modifiers {
    pub alt: bool,
    pub ctrl: bool,
    pub shift: bool,
}

impl Modifiers {
    /// No modifier held.
    pub fn none() -> (m: Modifiers)
        ensures
            !m.alt && !m.ctrl && !m.shift,
    {
        Modifiers { alt: false, ctrl: false, shift: false }
    }
}

/// A two-dimensional integer vector: cursor coordinates and the per-frame
/// motion accumulator.
#[derive(Clone, Copy, Debug, PartialEq, Eq, Structural)]
pub struct Vec2i {
    pub x: i64,
    pub y: i64,
}

impl Vec2i {
    /// The origin.
    pub fn zero() -> (v: Vec2i)
        ensures
            v.x == 0 && v.y == 0,
    {
        Vec2i { x: 0, y: 0 }
    }

    /// Build a vector from its two coordinates.
    pub fn new(x: i64, y: i64) -> (v: Vec2i)
        ensures
            v.x == x && v.y == y,
    {
        Vec2i { x, y }
    }
}

/// Gather and store user inputs.
///
/// Key and button states persist until the matching release event; the
/// motion and scroll accumulators hold only the current frame's events and
/// are zeroed once per frame by `reset`.
pub struct Inputs {
    mouse: HashMap<u64, bool>,
    keys: HashMap<u64, bool>,
    modifiers: Modifiers,
    mouse_delta: Vec2i,
    mouse_wheel_delta: i64,
}

impl Inputs {
    /// Recorded mouse-button states, by button code.
    pub closed spec fn spec_mouse(self) -> Map<u64, bool> {
        self.mouse@
    }

    /// Recorded key states, by key code.
    pub closed spec fn spec_keys(self) -> Map<u64, bool> {
        self.keys@
    }

    /// Current modifier-key state.
    pub closed spec fn spec_modifiers(self) -> Modifiers {
        self.modifiers
    }

    /// Running sum of the cursor positions reported this frame.
    pub closed spec fn spec_mouse_delta(self) -> Vec2i {
        self.mouse_delta
    }

    /// Scroll accumulated this frame, in thousandths of a line.
    pub closed spec fn spec_mouse_wheel_delta(self) -> i64 {
        self.mouse_wheel_delta
    }

    /// Whether key `keycode` is currently recorded as pressed; a key never
    /// seen is not pressed.
    pub open spec fn key_down(self, keycode: u64) -> bool {
        self.spec_keys().contains_key(keycode) && self.spec_keys()[keycode]
    }

    /// Whether button `button` is currently recorded as pressed; a button
    /// never seen is not pressed.
    pub open spec fn button_down(self, button: u64) -> bool {
        self.spec_mouse().contains_key(button) && self.spec_mouse()[button]
    }

    /// A fresh input state: nothing pressed, accumulators at zero.
    pub fn new() -> (inputs: Inputs)
        ensures
            inputs.spec_mouse() == Map::<u64, bool>::empty(),
            inputs.spec_keys() == Map::<u64, bool>::empty(),
            inputs.spec_modifiers() == (Modifiers { alt: false, ctrl: false, shift: false }),
            inputs.spec_mouse_delta() == (Vec2i { x: 0, y: 0 }),
            inputs.spec_mouse_wheel_delta() == 0,
    {
        Inputs {
            mouse: HashMap::new(),
            keys: HashMap::new(),
            modifiers: Modifiers::none(),
            mouse_delta: Vec2i::zero(),
            mouse_wheel_delta: 0,
        }
    }

    /// Zero the per-frame accumulators; key, button and modifier state is
    /// kept. Called exactly once per frame, after all consumers have read
    /// the accumulators.
    pub fn reset(&mut self)
        ensures
            final(self).spec_mouse_delta() == (Vec2i { x: 0, y: 0 }),
            final(self).spec_mouse_wheel_delta() == 0,
            final(self).spec_mouse() == old(self).spec_mouse(),
            final(self).spec_keys() == old(self).spec_keys(),
            final(self).spec_modifiers() == old(self).spec_modifiers(),
    {
        self.mouse_delta = Vec2i::zero();
        self.mouse_wheel_delta = 0;
    }

    /// Add a reported cursor position to the motion accumulator. This is a
    /// running sum of positions, not a displacement: with more than one move
    /// event per frame the accumulator is the sum of all reported positions.
    pub fn on_mouse_move(&mut self, position: Vec2i)
        requires
            old(self).spec_mouse_delta().x + position.x <= i64::MAX,
            old(self).spec_mouse_delta().x + position.x >= i64::MIN,
            old(self).spec_mouse_delta().y + position.y <= i64::MAX,
            old(self).spec_mouse_delta().y + position.y >= i64::MIN,
        ensures
            final(self).spec_mouse_delta().x == old(self).spec_mouse_delta().x + position.x,
            final(self).spec_mouse_delta().y == old(self).spec_mouse_delta().y + position.y,
            final(self).spec_mouse_wheel_delta() == old(self).spec_mouse_wheel_delta(),
            final(self).spec_mouse() == old(self).spec_mouse(),
            final(self).spec_keys() == old(self).spec_keys(),
            final(self).spec_modifiers() == old(self).spec_modifiers(),
    {
        self.mouse_delta = Vec2i::new(self.mouse_delta.x + position.x,
            self.mouse_delta.y + position.y);
    }

    /// Add a scroll delta, in thousandths of a line, to the scroll
    /// accumulator.
    pub fn on_mouse_wheel(&mut self, delta: i64)
        requires
            old(self).spec_mouse_wheel_delta() + delta <= i64::MAX,
            old(self).spec_mouse_wheel_delta() + delta >= i64::MIN,
        ensures
            final(self).spec_mouse_wheel_delta() == old(self).spec_mouse_wheel_delta() + delta,
            final(self).spec_mouse_delta() == old(self).spec_mouse_delta(),
            final(self).spec_mouse() == old(self).spec_mouse(),
            final(self).spec_keys() == old(self).spec_keys(),
            final(self).spec_modifiers() == old(self).spec_modifiers(),
    {
        self.mouse_wheel_delta = self.mouse_wheel_delta + delta;
    }

    /// Record button `button` as pressed.
    pub fn on_mouse_button_down(&mut self, button: u64)
        ensures
            final(self).spec_mouse() == old(self).spec_mouse().insert(button, true),
            final(self).spec_keys() == old(self).spec_keys(),
            final(self).spec_modifiers() == old(self).spec_modifiers(),
            final(self).spec_mouse_delta() == old(self).spec_mouse_delta(),
            final(self).spec_mouse_wheel_delta() == old(self).spec_mouse_wheel_delta(),
    {
        self.mouse.insert(button, true);
    }

    /// Record button `button` as released.
    pub fn on_mouse_button_up(&mut self, button: u64)
        ensures
            final(self).spec_mouse() == old(self).spec_mouse().insert(button, false),
            final(self).spec_keys() == old(self).spec_keys(),
            final(self).spec_modifiers() == old(self).spec_modifiers(),
            final(self).spec_mouse_delta() == old(self).spec_mouse_delta(),
            final(self).spec_mouse_wheel_delta() == old(self).spec_mouse_wheel_delta(),
    {
        self.mouse.insert(button, false);
    }

    /// Record key `keycode` as pressed.
    pub fn on_key_down(&mut self, keycode: u64)
        ensures
            final(self).spec_keys() == old(self).spec_keys().insert(keycode, true),
            final(self).spec_mouse() == old(self).spec_mouse(),
            final(self).spec_modifiers() == old(self).spec_modifiers(),
            final(self).spec_mouse_delta() == old(self).spec_mouse_delta(),
            final(self).spec_mouse_wheel_delta() == old(self).spec_mouse_wheel_delta(),
    {
        self.keys.insert(keycode, true);
    }

    /// Record key `keycode` as released.
    pub fn on_key_up(&mut self, keycode: u64)
        ensures
            final(self).spec_keys() == old(self).spec_keys().insert(keycode, false),
            final(self).spec_mouse() == old(self).spec_mouse(),
            final(self).spec_modifiers() == old(self).spec_modifiers(),
            final(self).spec_mouse_delta() == old(self).spec_mouse_delta(),
            final(self).spec_mouse_wheel_delta() == old(self).spec_mouse_wheel_delta(),
    {
        self.keys.insert(keycode, false);
    }

    /// Replace the modifier-key state.
    pub fn set_modifiers(&mut self, alt: bool, ctrl: bool, shift: bool)
        ensures
            final(self).spec_modifiers() == (Modifiers { alt, ctrl, shift }),
            final(self).spec_mouse() == old(self).spec_mouse(),
            final(self).spec_keys() == old(self).spec_keys(),
            final(self).spec_mouse_delta() == old(self).spec_mouse_delta(),
            final(self).spec_mouse_wheel_delta() == old(self).spec_mouse_wheel_delta(),
    {
        self.modifiers.alt = alt;
        self.modifiers.ctrl = ctrl;
        self.modifiers.shift = shift;
    }

    /// Whether key `keycode` is currently pressed.
    pub fn get_key_down(&self, keycode: u64) -> (r: bool)
        ensures
            r == self.key_down(keycode),
    {
        match self.keys.get(&keycode) {
            Some(down) => *down,
            None => false,
        }
    }

    /// The current modifier-key state.
    pub fn get_modifiers(&self) -> (r: &Modifiers)
        ensures
            *r == self.spec_modifiers(),
    {
        &self.modifiers
    }

    /// Whether button `button` is currently pressed.
    pub fn get_button_down(&self, button: u64) -> (r: bool)
        ensures
            r == self.button_down(button),
    {
        match self.mouse.get(&button) {
            Some(down) => *down,
            None => false,
        }
    }

    /// The motion accumulated this frame: the running sum of reported
    /// cursor positions.
    pub fn get_mouse_delta(&self) -> (r: Vec2i)
        ensures
            r == self.spec_mouse_delta(),
    {
        self.mouse_delta
    }

    /// The scroll accumulated this frame, in thousandths of a line.
    pub fn get_mouse_wheel_delta(&self) -> (r: i64)
        ensures
            r == self.spec_mouse_wheel_delta(),
    {
        self.mouse_wheel_delta
    }
}

impl Default for Inputs {
    /// Same as `new`: nothing pressed, accumulators at zero.
    fn default() -> (inputs: Inputs)
        ensures
            inputs.spec_mouse() == Map::<u64, bool>::empty(),
            inputs.spec_keys() == Map::<u64, bool>::empty(),
            inputs.spec_modifiers() == (Modifiers { alt: false, ctrl: false, shift: false }),
            inputs.spec_mouse_delta() == (Vec2i { x: 0, y: 0 }),
            inputs.spec_mouse_wheel_delta() == 0,
    {
        Inputs::new()
    }
}

/// Law: recording key `k` as pressed makes it read as pressed; recording
/// it as released afterwards makes it read as released.
pub proof fn lemma_key_press_release(i0: Inputs, i1: Inputs, i2: Inputs, k: u64)
    requires
        i1.spec_keys() == i0.spec_keys().insert(k, true),
        i2.spec_keys() == i1.spec_keys().insert(k, false),
    ensures
        i1.key_down(k),
        !i2.key_down(k),
{
}

/// Law: a key that was never recorded reads as not pressed.
pub proof fn lemma_unseen_key_not_down(i: Inputs, k: u64)
    requires
        !i.spec_keys().contains_key(k),
    ensures
        !i.key_down(k),
{
}

/// Law: two reported cursor positions before a reset accumulate to their
/// sum — the documented running-sum semantics, not a displacement.
pub proof fn lemma_mouse_move_running_sum(i0: Inputs, i1: Inputs, i2: Inputs, p1: Vec2i, p2: Vec2i)
    requires
        i0.spec_mouse_delta() == (Vec2i { x: 0, y: 0 }),
        i1.spec_mouse_delta().x == i0.spec_mouse_delta().x + p1.x,
        i1.spec_mouse_delta().y == i0.spec_mouse_delta().y + p1.y,
        i2.spec_mouse_delta().x == i1.spec_mouse_delta().x + p2.x,
        i2.spec_mouse_delta().y == i1.spec_mouse_delta().y + p2.y,
    ensures
        i2.spec_mouse_delta().x == p1.x + p2.x,
        i2.spec_mouse_delta().y == p1.y + p2.y,
{
}

} // verus!
