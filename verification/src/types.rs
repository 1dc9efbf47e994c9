//! The plain values that cross the boundary to the compositor: points, sizes,
//! rectangles, and the flag sets of views.

use vstd::prelude::*;

verus! {

/// A position on an output, in pixels.
#[derive(Debug, Clone, Copy, PartialEq, Eq, Hash, Structural)]
pub struct Point {
    pub x: i32,
    pub y: i32,
}

/// An extent in pixels.
#[derive(Debug, Clone, Copy, PartialEq, Eq, Hash, Structural)]
pub struct Size {
    pub w: u32,
    pub h: u32,
}

/// A rectangle: where it starts and how far it reaches. One without width or
/// height is a value like any other, and stands for "no geometry".
#[derive(Debug, Clone, Copy, PartialEq, Eq, Hash, Structural)]
pub struct Geometry {
    pub origin: Point,
    pub size: Size,
}

impl Geometry {
    /// The rectangle at the origin that covers nothing.
    pub open spec fn spec_zero() -> Geometry {
        Geometry { origin: Point { x: 0, y: 0 }, size: Size { w: 0, h: 0 } }
    }

    /// The rectangle at the origin that covers nothing.
    #[verifier::when_used_as_spec(spec_zero)]
    pub fn zero() -> (geometry: Geometry)
        ensures
            geometry == Geometry::spec_zero(),
    {
        Geometry { origin: Point { x: 0, y: 0 }, size: Size { w: 0, h: 0 } }
    }
}

/// The edges that an interactive resize drags: a set of flags in one word.
#[derive(Debug, Clone, Copy, PartialEq, Eq, Hash, Structural)]
pub struct ResizeEdge {
    bits: u32,
}

impl View for ResizeEdge {
    type V = u32;

    /// The word that holds the flags, one bit each.
    closed spec fn view(&self) -> u32 {
        self.bits
    }
}

impl ResizeEdge {
    /// The set without flags: no edge is dragged.
    pub fn empty() -> (set: ResizeEdge)
        ensures
            set@ == 0,
    {
        ResizeEdge { bits: 0 }
    }

    /// The set whose flags are the bits of `bits`, every one of them kept.
    pub fn from_raw(bits: u32) -> (set: ResizeEdge)
        ensures
            set@ == bits,
    {
        ResizeEdge { bits }
    }

    /// The word that holds the flags.
    pub fn bits(&self) -> (bits: u32)
        ensures
            bits == self@,
    {
        self.bits
    }

    /// Whether no flag is set.
    pub fn is_empty(&self) -> (empty: bool)
        ensures
            empty == (self@ == 0),
    {
        self.bits == 0
    }

    /// Whether every flag of `other` is set in this set too.
    pub fn contains(&self, other: ResizeEdge) -> (all: bool)
        ensures
            all == (self@ & other@ == other@),
    {
        self.bits & other.bits == other.bits
    }

    /// The flags of this set together with those of `other`.
    pub fn union(self, other: ResizeEdge) -> (set: ResizeEdge)
        ensures
            set@ == self@ | other@,
    {
        ResizeEdge { bits: self.bits | other.bits }
    }
}

/// What kind of surface a view is: a set of flags in one word.
#[derive(Debug, Clone, Copy, PartialEq, Eq, Hash, Structural)]
pub struct ViewType {
    bits: u32,
}

impl View for ViewType {
    type V = u32;

    /// The word that holds the flags, one bit each.
    closed spec fn view(&self) -> u32 {
        self.bits
    }
}

impl ViewType {
    /// The set without flags.
    pub fn empty() -> (set: ViewType)
        ensures
            set@ == 0,
    {
        ViewType { bits: 0 }
    }

    /// The set whose flags are the bits of `bits`, every one of them kept.
    pub fn from_raw(bits: u32) -> (set: ViewType)
        ensures
            set@ == bits,
    {
        ViewType { bits }
    }

    /// The word that holds the flags.
    pub fn bits(&self) -> (bits: u32)
        ensures
            bits == self@,
    {
        self.bits
    }

    /// Whether no flag is set.
    pub fn is_empty(&self) -> (empty: bool)
        ensures
            empty == (self@ == 0),
    {
        self.bits == 0
    }

    /// Whether every flag of `other` is set in this set too.
    pub fn contains(&self, other: ViewType) -> (all: bool)
        ensures
            all == (self@ & other@ == other@),
    {
        self.bits & other.bits == other.bits
    }

    /// The flags of this set together with those of `other`.
    pub fn union(self, other: ViewType) -> (set: ViewType)
        ensures
            set@ == self@ | other@,
    {
        ViewType { bits: self.bits | other.bits }
    }
}

/// What a view is doing at the moment: a set of flags in one word.
#[derive(Debug, Clone, Copy, PartialEq, Eq, Hash, Structural)]
pub struct ViewState {
    bits: u32,
}

impl View for ViewState {
    type V = u32;

    /// The word that holds the flags, one bit each.
    closed spec fn view(&self) -> u32 {
        self.bits
    }
}

impl ViewState {
    /// The set without flags.
    pub fn empty() -> (set: ViewState)
        ensures
            set@ == 0,
    {
        ViewState { bits: 0 }
    }

    /// The set whose flags are the bits of `bits`, every one of them kept.
    pub fn from_raw(bits: u32) -> (set: ViewState)
        ensures
            set@ == bits,
    {
        ViewState { bits }
    }

    /// The word that holds the flags.
    pub fn bits(&self) -> (bits: u32)
        ensures
            bits == self@,
    {
        self.bits
    }

    /// Whether no flag is set.
    pub fn is_empty(&self) -> (empty: bool)
        ensures
            empty == (self@ == 0),
    {
        self.bits == 0
    }

    /// Whether every flag of `other` is set in this set too.
    pub fn contains(&self, other: ViewState) -> (all: bool)
        ensures
            all == (self@ & other@ == other@),
    {
        self.bits & other.bits == other.bits
    }

    /// The flags of this set together with those of `other`.
    pub fn union(self, other: ViewState) -> (set: ViewState)
        ensures
            set@ == self@ | other@,
    {
        ViewState { bits: self.bits | other.bits }
    }
}

} // verus!
