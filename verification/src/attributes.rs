//! Attribute model: bounded numeric traits attached to cells and units.
//!
//! Every attribute is a pair `(low, high)` of integers.  No ordering between
//! the two components is enforced; the pair is stored as given.

use vstd::prelude::*;

verus! {

/// The faction an edge occupant or a unit belongs to.
#[derive(Clone, Copy, PartialEq, Eq, Structural, Debug)]
pub enum Team {
    Allies,
    Enemies,
    Passives,
    Other,
}

impl Default for Team {
    fn default() -> (t: Self)
        ensures
            t == Team::Allies,
    {
        Team::Allies
    }
}

/// The seven bounded attribute pairs carried by every interactive cell and
/// by units: health, move points, action points, the secondary resource
/// pool, range, height and area.
#[derive(Clone, Copy, PartialEq, Eq, Debug)]
pub struct BasicsAttributes {
    pub hpp: (i32, i32),
    pub movp: (i32, i32),
    pub actp: (i32, i32),
    pub efyp: (i32, i32),
    pub ranp: (i32, i32),
    pub height: (i32, i32),
    pub area: (i32, i32),
}

impl BasicsAttributes {
    pub fn hpp(&self) -> (r: (i32, i32))
        ensures
            r == self.hpp,
    {
        self.hpp
    }

    pub fn movp(&self) -> (r: (i32, i32))
        ensures
            r == self.movp,
    {
        self.movp
    }

    pub fn actp(&self) -> (r: (i32, i32))
        ensures
            r == self.actp,
    {
        self.actp
    }

    pub fn efyp(&self) -> (r: (i32, i32))
        ensures
            r == self.efyp,
    {
        self.efyp
    }

    pub fn ranp(&self) -> (r: (i32, i32))
        ensures
            r == self.ranp,
    {
        self.ranp
    }

    pub fn height(&self) -> (r: (i32, i32))
        ensures
            r == self.height,
    {
        self.height
    }

    pub fn area(&self) -> (r: (i32, i32))
        ensures
            r == self.area,
    {
        self.area
    }

    pub fn set_hpp(&mut self, x: (i32, i32))
        ensures
            *final(self) == (BasicsAttributes { hpp: x, ..*old(self) }),
    {
        self.hpp = x;
    }

    pub fn set_movp(&mut self, x: (i32, i32))
        ensures
            *final(self) == (BasicsAttributes { movp: x, ..*old(self) }),
    {
        self.movp = x;
    }

    pub fn set_actp(&mut self, x: (i32, i32))
        ensures
            *final(self) == (BasicsAttributes { actp: x, ..*old(self) }),
    {
        self.actp = x;
    }

    pub fn set_efyp(&mut self, x: (i32, i32))
        ensures
            *final(self) == (BasicsAttributes { efyp: x, ..*old(self) }),
    {
        self.efyp = x;
    }

    pub fn set_ranp(&mut self, x: (i32, i32))
        ensures
            *final(self) == (BasicsAttributes { ranp: x, ..*old(self) }),
    {
        self.ranp = x;
    }

    pub fn set_height(&mut self, x: (i32, i32))
        ensures
            *final(self) == (BasicsAttributes { height: x, ..*old(self) }),
    {
        self.height = x;
    }

    pub fn set_area(&mut self, x: (i32, i32))
        ensures
            *final(self) == (BasicsAttributes { area: x, ..*old(self) }),
    {
        self.area = x;
    }
}

/// The attribute set in which every pair is `(0, 0)`.
pub open spec fn spec_zero_attributes() -> BasicsAttributes {
    BasicsAttributes {
        hpp: (0, 0),
        movp: (0, 0),
        actp: (0, 0),
        efyp: (0, 0),
        ranp: (0, 0),
        height: (0, 0),
        area: (0, 0),
    }
}

impl Default for BasicsAttributes {
    fn default() -> (a: Self)
        ensures
            a == spec_zero_attributes(),
    {
        Self {
            hpp: (0, 0),
            movp: (0, 0),
            actp: (0, 0),
            efyp: (0, 0),
            ranp: (0, 0),
            height: (0, 0),
            area: (0, 0),
        }
    }
}

} // verus!
