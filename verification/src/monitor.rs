//! Monitor related stuff: the size type carried by the window builder.

use vstd::prelude::*;

verus! {

/// The base DPI at 100% scaling.
pub const BASE_DPI: u32 = 96;

/// Represents an unscaled logical or physical size.
///
/// The DPI scaling itself (multiplying a logical size by the monitor's
/// scale ratio) belongs to the platform's unit-conversion helpers outside
/// this crate; here a size is only carried from the builder to the
/// window-creation step.
#[derive(Copy, Clone, Debug, PartialEq, Eq, Structural)]
pub enum Size {
    /// Logical size that is scalable to monitor DPI.
    Logical(u32, u32),
    /// Physical size in absolute values regardless of DPI.
    Physical(u32, u32),
}

impl Size {
    /// Constructs a logical size from a given width and height.
    pub fn logical(width: u32, height: u32) -> (r: Self)
        ensures
            r == Size::Logical(width, height),
    {
        Size::Logical(width, height)
    }

    /// Constructs a physical size from a given width and height.
    pub fn physical(width: u32, height: u32) -> (r: Self)
        ensures
            r == Size::Physical(width, height),
    {
        Size::Physical(width, height)
    }
}

} // verus!
