use vstd::prelude::*;

verus! {

/// An RGB color as three signed components.
///
/// `Color` and `Point` hold the same field types, yet neither stands in for
/// the other: each is a type of its own.
#[derive(Debug, Clone, Copy, PartialEq, Eq, Structural)]
pub struct Color(pub i32, pub i32, pub i32);

/// A point in three-dimensional space, by its `x`, `y` and `z` coordinates.
#[derive(Debug, Clone, Copy, PartialEq, Eq, Structural)]
pub struct Point(pub i32, pub i32, pub i32);

/// The color whose every component is one more than in `c`.
pub open spec fn brighter(c: Color) -> Color {
    Color((c.0 + 1) as i32, (c.1 + 1) as i32, (c.2 + 1) as i32)
}

/// Whether each component of `c` can grow by one without leaving `i32`.
pub open spec fn can_brighten(c: Color) -> bool {
    c.0 < i32::MAX && c.1 < i32::MAX && c.2 < i32::MAX
}

/// Adds one to each component of `c` in place and hands the same reference
/// back; only a `Color` is accepted here, never a `Point`.
pub fn tuple_structs_are_unique_types(c: &mut Color) -> (r: &mut Color)
    requires
        can_brighten(*old(c)),
    ensures
        *r == brighter(*old(c)),
        *final(c) == *final(r),
{
    c.0 += 1;
    c.1 += 1;
    c.2 += 1;
    c
}

} // verus!
