//! Plain integer 2D/3D vectors and axis-aligned bounding boxes.
//!
//! World coordinates are whole world units (`i64`); the engine shell
//! converts its own coordinate values to and from this form.

use vstd::prelude::*;

verus! {

/// A 2D point or displacement in whole world units.
#[derive(Clone, Copy, PartialEq, Eq, Structural, Debug)]
pub struct Vec2i {
    pub x: i64,
    pub y: i64,
}

/// A 3D point or displacement: `x`/`y` in world units, `z` the depth layer.
#[derive(Clone, Copy, PartialEq, Eq, Structural, Debug)]
pub struct Vec3i {
    pub x: i64,
    pub y: i64,
    pub z: i64,
}

impl Vec3i {
    /// The zero vector, the rest state of the player's direction.
    pub fn zero() -> (r: Vec3i)
        ensures
            r == (Vec3i { x: 0, y: 0, z: 0 }),
    {
        Vec3i { x: 0, y: 0, z: 0 }
    }
}

/// An axis-aligned box in world units, closed on all four sides.
#[derive(Clone, Copy, PartialEq, Eq, Structural, Debug)]
pub struct Aabb {
    pub min_x: i64,
    pub max_x: i64,
    pub min_y: i64,
    pub max_y: i64,
}

impl Aabb {
    /// A box is well formed when each minimum is at or below its maximum.
    pub open spec fn wf(self) -> bool {
        self.min_x <= self.max_x && self.min_y <= self.max_y
    }

    /// Whether `p` lies inside the box, borders included.
    pub open spec fn spec_contains(self, p: Vec2i) -> bool {
        self.min_x <= p.x <= self.max_x && self.min_y <= p.y <= self.max_y
    }

    /// The box of a sprite drawn centred at `center` from an image of
    /// `width` by `height` pixels: each side extends half the image size
    /// from the centre, halves rounded towards zero.
    pub open spec fn spec_from_center_size(center: Vec2i, width: i64, height: i64) -> Aabb {
        Aabb {
            min_x: (center.x - width / 2) as i64,
            max_x: (center.x + width / 2) as i64,
            min_y: (center.y - height / 2) as i64,
            max_y: (center.y + height / 2) as i64,
        }
    }

    /// Whether the corners of `spec_from_center_size(center, width, height)`
    /// stay within `i64`.
    pub open spec fn from_center_size_fits(center: Vec2i, width: i64, height: i64) -> bool {
        &&& i64::MIN <= center.x - width / 2
    &&& center.x + width / 2 <= i64::MAX
    &&& i64::MIN <= center.y - height / 2
    &&& center.y + height / 2 <= i64::MAX
    }

    pub fn from_center_size(center: Vec2i, width: i64, height: i64) -> (r: Aabb)
        requires
            0 <= width,
            0 <= height,
            Aabb::from_center_size_fits(center, width, height),
        ensures
            r == Aabb::spec_from_center_size(center, width, height),
            r.wf(),
    {
        Aabb {
            min_x: center.x - width / 2,
            max_x: center.x + width / 2,
            min_y: center.y - height / 2,
            max_y: center.y + height / 2,
        }
    }

    pub fn contains(&self, p: Vec2i) -> (r: bool)
        ensures
            r == self.spec_contains(p),
    {
        p.x <= self.max_x && p.x >= self.min_x && p.y <= self.max_y && p.y >= self.min_y
    }
}

} // verus!
