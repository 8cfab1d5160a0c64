//! Positions, sizes and the geometry record of a window.

use vstd::prelude::*;

verus! {

/// Screen-space offset of the window's outer top-left corner, in physical
/// pixels. Either coordinate may be negative on a multi-monitor desktop.
#[derive(Clone, Copy, Debug, PartialEq, Eq, Structural)]
pub struct Position {
    pub x: i32,
    pub y: i32,
}

/// Outer size of the window, in physical pixels.
#[derive(Clone, Copy, Debug, PartialEq, Eq, Structural)]
pub struct Size {
    pub width: u32,
    pub height: u32,
}

/// Where the window is and how large it is: the one entity that is persisted.
///
/// No constraint ties `x` and `y` to the current monitors; a geometry saved
/// under another monitor layout may lie off-screen.
#[derive(Clone, Copy, Debug, PartialEq, Eq, Structural)]
pub struct WindowGeometry {
    pub width: u32,
    pub height: u32,
    pub x: i32,
    pub y: i32,
}

impl WindowGeometry {
    /// The geometry made of a position and a size.
    pub open spec fn of(position: Position, size: Size) -> WindowGeometry {
        WindowGeometry { width: size.width, height: size.height, x: position.x, y: position.y }
    }

    /// The position half of this geometry.
    pub open spec fn position_of(self) -> Position {
        Position { x: self.x, y: self.y }
    }

    /// The size half of this geometry.
    pub open spec fn size_of(self) -> Size {
        Size { width: self.width, height: self.height }
    }

    /// A geometry has an area when both of its dimensions are positive. Only
    /// a geometry with an area is ever applied to the window; one without may
    /// be stored and read back, and is then passed over.
    pub open spec fn has_area_spec(self) -> bool {
        self.width > 0 && self.height > 0
    }

    /// Joins a position and a size into a complete geometry.
    pub fn new(position: Position, size: Size) -> (geometry: WindowGeometry)
        ensures
            geometry == WindowGeometry::of(position, size),
    {
        WindowGeometry { width: size.width, height: size.height, x: position.x, y: position.y }
    }

    /// The position to move the window to.
    pub fn position(&self) -> (position: Position)
        ensures
            position == self.position_of(),
    {
        Position { x: self.x, y: self.y }
    }

    /// The size to give the window.
    pub fn size(&self) -> (size: Size)
        ensures
            size == self.size_of(),
    {
        Size { width: self.width, height: self.height }
    }

    /// Whether both dimensions are positive.
    pub fn has_area(&self) -> (yes: bool)
        ensures
            yes == self.has_area_spec(),
    {
        self.width > 0 && self.height > 0
    }
}

} // verus!
