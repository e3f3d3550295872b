use vstd::prelude::*;

verus! {

/// An RGBA color with four independent 8-bit channels.
///
/// Used only as node paint data: the scene graph carries it through to the
/// emitted draw primitives untouched.  Conversion to normalized floating
/// point form is the renderer's business, not the scene graph's.
#[derive(Clone, Copy, Debug, Hash, PartialEq, Eq, Structural)]
pub struct Color {
    pub r: u8,
    pub g: u8,
    pub b: u8,
    pub a: u8,
}

impl Color {
    pub fn new(r: u8, g: u8, b: u8, a: u8) -> (c: Color)
        ensures
            c.r == r,
            c.g == g,
            c.b == b,
            c.a == a,
    {
        Color { r, g, b, a }
    }

    pub fn set_r(&mut self, r: u8)
        ensures
            *final(self) == (Color { r, ..*old(self) }),
    {
        self.r = r;
    }

    pub fn set_g(&mut self, g: u8)
        ensures
            *final(self) == (Color { g, ..*old(self) }),
    {
        self.g = g;
    }

    pub fn set_b(&mut self, b: u8)
        ensures
            *final(self) == (Color { b, ..*old(self) }),
    {
        self.b = b;
    }

    pub fn set_a(&mut self, a: u8)
        ensures
            *final(self) == (Color { a, ..*old(self) }),
    {
        self.a = a;
    }
}

} // verus!
