use vstd::prelude::*;
use crate::spawning::Dir;

verus! {

/// The state of a key in this frame.
#[derive(Clone, Copy, Debug, PartialEq, Eq, Structural)]
pub enum Button {
    Pressed,
    Released,
}

impl Button {
    /// Whether the key is held down.
    pub fn is_pressed(&self) -> (r: bool)
        ensures
            r == (*self == Button::Pressed),
    {
        match self {
            Button::Pressed => true,
            Button::Released => false,
        }
    }

    /// 1 for a held key, 0 otherwise.
    pub open spec fn axis(self) -> int {
        if self == Button::Pressed { 1 } else { 0 }
    }
}

impl From<bool> for Button {
    fn from(b: bool) -> (r: Button) {
        if b {
            Button::Pressed
        } else {
            Button::Released
        }
    }
}

impl vstd::std_specs::convert::FromSpecImpl<bool> for Button {
    open spec fn obeys_from_spec() -> bool {
        true
    }

    open spec fn from_spec(b: bool) -> Button {
        if b { Button::Pressed } else { Button::Released }
    }
}

/// The decoded input of a frame: the four direction keys and the dash key.
#[derive(Clone, Copy, Debug, PartialEq, Eq, Structural)]
pub struct Input {
    pub w: Button,
    pub a: Button,
    pub s: Button,
    pub d: Button,
    pub space: Button,
}

impl Input {
    /// The intended direction, not normalized: right less left, down less up.
    pub fn dir(&self) -> (r: Dir)
        ensures
            r.x == self.d.axis() - self.a.axis(),
            r.y == self.s.axis() - self.w.axis(),
    {
        let right: i32 = if self.d.is_pressed() { 1 } else { 0 };
        let left: i32 = if self.a.is_pressed() { 1 } else { 0 };
        let down: i32 = if self.s.is_pressed() { 1 } else { 0 };
        let up: i32 = if self.w.is_pressed() { 1 } else { 0 };
        Dir { x: right - left, y: down - up }
    }

    /// Whether the input asks for a dash: the dash key held with some
    /// direction given.
    pub fn wants_dash(&self) -> (r: bool)
        ensures
            r == (self.space == Button::Pressed
                && (self.d.axis() != self.a.axis() || self.s.axis() != self.w.axis())),
    {
        let dir = self.dir();
        self.space.is_pressed() && (dir.x != 0 || dir.y != 0)
    }
}

} // verus!
