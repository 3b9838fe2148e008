//! The tooltip dropdown: created where an inspectable sprite was clicked,
//! despawned by the next click that lands elsewhere, drawn only while it is
//! the single dropdown alive.

use vstd::prelude::*;
use crate::click::Clickable;
use crate::geometry::Vec2i;

verus! {

/// A display name an entity offers for inspection.
#[derive(PartialEq, Eq, Debug)]
pub struct Inspectable {
    pub name: String,
}

impl Inspectable {
    pub fn new(name: String) -> (r: Inspectable)
        ensures
            r.name@ == name@,
    {
        Inspectable { name }
    }
}

impl Clone for Inspectable {
    /// The copy carries the same name.
    fn clone(&self) -> (r: Self)
        ensures
            r.name@ == self.name@,
    {
        Inspectable { name: String::from_str(self.name.as_str()) }
    }
}

/// A dropdown pinned at an overlay-UI position, showing the display name of
/// the inspectable it was opened for.
#[derive(PartialEq, Eq, Debug)]
pub struct Dropdown {
    pub screen_position: Vec2i,
    pub name: String,
}

/// Whether a click this frame closes an entity marked to despawn when not
/// clicked: the left button was just pressed and the click did not land on
/// the entity itself.
pub fn should_despawn(left_just_pressed: bool, clickable: &Clickable) -> (r: bool)
    ensures
        r == (left_just_pressed && !clickable.just_clicked),
{
    left_just_pressed && !clickable.just_clicked
}

/// The dropdowns one frame opens, given each inspectable's display name and
/// `just_clicked` flag in entity order: one per clicked inspectable, in the
/// same order, each pinned at the cursor's overlay position. With no known
/// overlay position, none opens.
pub open spec fn spec_dropdowns_to_open(
    items: Seq<(Clickable, Seq<char>)>,
    overlay_cursor: Option<Vec2i>,
) -> Seq<(Vec2i, Seq<char>)>
    decreases items.len(),
{
    if items.len() == 0 || overlay_cursor is None {
        Seq::empty()
    } else {
        spec_dropdowns_to_open(items.drop_last(), overlay_cursor) + (if items.last().0.just_clicked {
            seq![(overlay_cursor.unwrap(), items.last().1)]
        } else {
            Seq::empty()
        })
    }
}

/// One frame of dropdown creation, as `spec_dropdowns_to_open` states it.
pub fn dropdowns_to_open(
    items: &Vec<(Clickable, Inspectable)>,
    overlay_cursor: Option<Vec2i>,
) -> (r: Vec<Dropdown>)
    ensures
        r@.map_values(|d: Dropdown| (d.screen_position, d.name@)) == spec_dropdowns_to_open(
            items@.map_values(|it: (Clickable, Inspectable)| (it.0, it.1.name@)),
            overlay_cursor,
        ),
{
    let ghost all = items@.map_values(|it: (Clickable, Inspectable)| (it.0, it.1.name@));
    let mut r: Vec<Dropdown> = Vec::new();
    let pos: Vec2i = match overlay_cursor {
        Some(p) => p,
        None => {
            proof {
                assert(r@.map_values(|d: Dropdown| (d.screen_position, d.name@)) =~= Seq::empty());
            }
            return r;
        },
    };
    let n: usize = items.len();
    let mut i: usize = 0;
    while i < n
        invariant
            n == items@.len(),
            0 <= i <= n,
            all == items@.map_values(|it: (Clickable, Inspectable)| (it.0, it.1.name@)),
            overlay_cursor == Some(pos),
            r@.map_values(|d: Dropdown| (d.screen_position, d.name@)) == spec_dropdowns_to_open(
                all.take(i as int),
                overlay_cursor,
            ),
        decreases n - i,
    {
        proof {
            assert(all.take(i + 1).drop_last() =~= all.take(i as int));
            assert(all.take(i + 1).last() == all[i as int]);
        }
        if items[i].0.just_clicked {
            let name = items[i].1.clone();
            r.push(Dropdown { screen_position: pos, name: name.name });
            proof {
                let view_of = |d: Dropdown| (d.screen_position, d.name@);
                assert(r@.drop_last().map_values(view_of) =~= r@.map_values(view_of).drop_last());
                assert(r@.map_values(view_of) =~= spec_dropdowns_to_open(
                    all.take(i + 1),
                    overlay_cursor,
                ));
            }
        }
        i = i + 1;
    }
    proof {
        assert(all.take(n as int) =~= all);
    }
    r
}

/// What the frame's UI pass does with the dropdowns alive this frame.
#[derive(PartialEq, Eq, Structural, Debug)]
pub enum DrawDecision {
    /// Exactly one dropdown exists: draw it.
    DrawSingle,
    /// No dropdown exists: draw nothing.
    Nothing,
    /// More than one exists: drawing several is unsupported, warn instead.
    TooMany,
}

/// The draw decision for the number of dropdowns alive: only a single
/// dropdown is drawn.
pub fn dropdown_to_draw(count: usize) -> (r: DrawDecision)
    ensures
        r == DrawDecision::DrawSingle <==> count == 1,
        r == DrawDecision::Nothing <==> count == 0,
        r == DrawDecision::TooMany <==> count > 1,
{
    if count == 1 {
        DrawDecision::DrawSingle
    } else if count == 0 {
        DrawDecision::Nothing
    } else {
        DrawDecision::TooMany
    }
}

} // verus!
