//! Click detection: which sprite, if any, is under the cursor when the
//! left button is pressed, and the `just_clicked` flag each clickable
//! carries for one frame afterwards.

use vstd::prelude::*;
use crate::geometry::{Aabb, Vec2i};

verus! {

/// A sprite's image size, in the same world units as positions.
#[derive(Clone, Copy, PartialEq, Eq, Structural, Debug)]
pub struct ImageSize {
    pub width: i64,
    pub height: i64,
}

/// The marker a clickable entity carries; `just_clicked` holds for the one
/// frame after a click lands on it.
#[derive(Clone, Copy, PartialEq, Eq, Structural, Debug, Default)]
pub struct Clickable {
    pub just_clicked: bool,
}

impl Clickable {
    /// A fresh clickable has not been clicked.
    pub fn new() -> (r: Clickable)
        ensures
            !r.just_clicked,
    {
        Clickable { just_clicked: false }
    }
}

/// What click testing sees of one clickable sprite: where it is drawn and,
/// once its image asset has loaded, how large the image is.
#[derive(Clone, Copy, PartialEq, Eq, Structural, Debug)]
pub struct ClickTarget {
    pub center: Vec2i,
    pub image: Option<ImageSize>,
}

impl ClickTarget {
    /// Image sizes are non-negative and the sprite's box stays within
    /// coordinate range.
    pub open spec fn wf(self) -> bool {
        self.image matches Some(s) ==> {
            &&& 0 <= s.width
            &&& 0 <= s.height
            &&& Aabb::from_center_size_fits(self.center, s.width, s.height)
        }
    }

    /// A point hits the target when its image has loaded and the point lies
    /// in the sprite's world-space box; a sprite whose image is still
    /// loading cannot be hit.
    pub open spec fn spec_hit(self, p: Vec2i) -> bool {
        match self.image {
            Some(s) => Aabb::spec_from_center_size(self.center, s.width, s.height).spec_contains(
                p,
            ),
            None => false,
        }
    }

    pub fn hit(&self, p: Vec2i) -> (r: bool)
        requires
            self.wf(),
        ensures
            r == self.spec_hit(p),
    {
        match self.image {
            Some(s) => Aabb::from_center_size(self.center, s.width, s.height).contains(p),
            None => false,
        }
    }
}

/// The first target the point hits, earlier entries winning over later
/// ones; no tie-break beyond order.
pub fn first_hit(targets: &Vec<ClickTarget>, p: Vec2i) -> (r: Option<usize>)
    requires
        forall|i: int| 0 <= i < targets@.len() ==> targets@[i].wf(),
    ensures
        match r {
            Some(i) => {
                &&& i < targets@.len()
                &&& targets@[i as int].spec_hit(p)
                &&& forall|j: int| 0 <= j < i ==> !targets@[j].spec_hit(p)
            },
            None => forall|j: int| 0 <= j < targets@.len() ==> !targets@[j].spec_hit(p),
        },
{
    let n: usize = targets.len();
    let mut i: usize = 0;
    while i < n
        invariant
            n == targets@.len(),
            0 <= i <= n,
            forall|j: int| 0 <= j < i ==> !targets@[j].spec_hit(p),
            forall|j: int| 0 <= j < targets@.len() ==> targets@[j].wf(),
        decreases n - i,
    {
        if targets[i].hit(p) {
            return Some(i);
        }
        i = i + 1;
    }
    None
}

/// Whether target `i` ends the frame marked just-clicked: the button was
/// pressed this frame, the cursor has a world position, and `i` is the
/// first target that position hits.
pub open spec fn spec_just_clicked(
    targets: Seq<ClickTarget>,
    left_just_pressed: bool,
    world_cursor: Option<Vec2i>,
    i: int,
) -> bool {
    &&& left_just_pressed
    &&& world_cursor matches Some(p)
    &&& targets[i].spec_hit(world_cursor.unwrap())
    &&& forall|j: int| 0 <= j < i ==> !targets[j].spec_hit(world_cursor.unwrap())
}

/// A click lands on at most one target: once one target is the first hit
/// of the frame, no later target is.
pub proof fn lemma_at_most_one_clicked(
    targets: Seq<ClickTarget>,
    left_just_pressed: bool,
    world_cursor: Option<Vec2i>,
    i: int,
    j: int,
)
    requires
        0 <= i < j < targets.len(),
        spec_just_clicked(targets, left_just_pressed, world_cursor, i),
    ensures
        !spec_just_clicked(targets, left_just_pressed, world_cursor, j),
{
}

/// One frame of click handling: every flag from the previous frame is
/// cleared, and when the left button was just pressed over a known cursor
/// position, the first target hit — if any — is marked. The result holds
/// each target's new `just_clicked` flag, in target order.
pub fn update_clicked(
    targets: &Vec<ClickTarget>,
    left_just_pressed: bool,
    world_cursor: Option<Vec2i>,
) -> (flags: Vec<bool>)
    requires
        forall|i: int| 0 <= i < targets@.len() ==> targets@[i].wf(),
    ensures
        flags@.len() == targets@.len(),
        forall|i: int|
            0 <= i < targets@.len() ==> flags@[i] == spec_just_clicked(
                targets@,
                left_just_pressed,
                world_cursor,
                i,
            ),
{
    let n: usize = targets.len();
    let mut flags: Vec<bool> = Vec::new();
    let mut i: usize = 0;
    while i < n
        invariant
            n == targets@.len(),
            0 <= i <= n,
            flags@.len() == i,
            forall|j: int| 0 <= j < i ==> !flags@[j],
        decreases n - i,
    {
        flags.push(false);
        i = i + 1;
    }
    if !left_just_pressed {
        return flags;
    }
    if let Some(p) = world_cursor {
        match first_hit(targets, p) {
            Some(hit_index) => {
                flags.set(hit_index, true);
            },
            None => {},
        }
    }
    flags
}

} // verus!
