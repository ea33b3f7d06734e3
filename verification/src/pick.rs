//! The pass from the pointer to the ground.
//!
//! Each frame the scene may follow the pointer down to the ground plane: it
//! asks the window for the cursor, turns the cursor into a ray from the camera,
//! and meets the ray with the plane. Any of the three may find nothing, and
//! then the frame does nothing more. The engine does the looking; what is
//! looked up next, and whether the frame ends with something placed on the
//! ground, is decided here.

use vstd::prelude::*;

verus! {

/// What a pass is for.
#[derive(Clone, Copy, Debug, PartialEq, Eq, Structural)]
pub enum Purpose {
    /// The marker under the pointer, drawn every frame.
    Marker,
    /// A tree, planted only in a frame in which it was asked for.
    Tree,
}

/// What a pass looks up, in the order in which it does so.
#[derive(Clone, Copy, Debug, PartialEq, Eq, Structural)]
pub enum Lookup {
    /// Where the cursor is in the window.
    Cursor,
    /// The ray from the camera through the cursor.
    Ray,
    /// Where the ray meets the ground plane.
    Ground,
}

/// What a pass does next.
#[derive(Clone, Copy, Debug, PartialEq, Eq, Structural)]
pub enum Step {
    /// Make this lookup and report whether it found anything.
    Find(Lookup),
    /// Put what the pass is for at the point found on the ground.
    Place,
    /// Nothing more this frame.
    Rest,
}

/// What each lookup of a frame would find, were it made.
pub struct Sight {
    pub cursor: bool,
    pub ray: bool,
    pub ground: bool,
}

impl Purpose {
    /// Whether a pass for this purpose is made at all in a frame: always for
    /// the marker, for a tree only on a click.
    pub open spec fn wanted(self, click: bool) -> bool {
        self == Purpose::Marker || click
    }
}

impl Sight {
    /// Whether `lookup` finds anything.
    pub open spec fn finds(self, lookup: Lookup) -> bool {
        match lookup {
            Lookup::Cursor => self.cursor,
            Lookup::Ray => self.ray,
            Lookup::Ground => self.ground,
        }
    }

    /// Whether every lookup finds something.
    pub open spec fn finds_all(self) -> bool {
        self.cursor && self.ray && self.ground
    }
}

/// The first step of a pass: the cursor is looked up if the pass is wanted,
/// else the frame rests.
pub open spec fn first_step(purpose: Purpose, click: bool) -> Step {
    if purpose.wanted(click) {
        Step::Find(Lookup::Cursor)
    } else {
        Step::Rest
    }
}

/// The step that follows `step`, where `found` tells whether the lookup of
/// `step` found anything. A lookup that found nothing ends the pass; one that
/// found something leads to the next lookup, and the last of them to placing.
/// After placing, and after resting, the pass rests.
pub open spec fn step_after(step: Step, found: bool) -> Step {
    match step {
        Step::Find(lookup) => if !found {
            Step::Rest
        } else {
            match lookup {
                Lookup::Cursor => Step::Find(Lookup::Ray),
                Lookup::Ray => Step::Find(Lookup::Ground),
                Lookup::Ground => Step::Place,
            }
        },
        Step::Place => Step::Rest,
        Step::Rest => Step::Rest,
    }
}

/// How many lookups may still lie ahead of `step`.
pub open spec fn lookups_ahead(step: Step) -> nat {
    match step {
        Step::Find(Lookup::Cursor) => 3,
        Step::Find(Lookup::Ray) => 2,
        Step::Find(Lookup::Ground) => 1,
        Step::Place => 0,
        Step::Rest => 0,
    }
}

/// The step at which the lookups end, for a pass that is at `step` and would
/// find what `sight` says: placing or resting.
pub open spec fn outcome(step: Step, sight: Sight) -> Step
    decreases lookups_ahead(step),
{
    match step {
        Step::Find(lookup) => outcome(step_after(step, sight.finds(lookup)), sight),
        Step::Place => step,
        Step::Rest => step,
    }
}

/// The lookups that a pass makes from `step` on, in order, if it would find
/// what `sight` says.
pub open spec fn lookups_made(step: Step, sight: Sight) -> Seq<Lookup>
    decreases lookups_ahead(step),
{
    match step {
        Step::Find(lookup) => seq![lookup] + lookups_made(
            step_after(step, sight.finds(lookup)),
            sight,
        ),
        Step::Place => Seq::empty(),
        Step::Rest => Seq::empty(),
    }
}

/// The first step of a frame's pass for `purpose`; `click` tells whether a
/// tree was asked for this frame.
pub fn begin(purpose: Purpose, click: bool) -> (r: Step)
    ensures
        r == first_step(purpose, click),
{
    match purpose {
        Purpose::Marker => Step::Find(Lookup::Cursor),
        Purpose::Tree => if click {
            Step::Find(Lookup::Cursor)
        } else {
            Step::Rest
        },
    }
}

/// The step that follows `step`. For a lookup, `found` tells whether it found
/// anything; for the other steps it is not read.
pub fn advance(step: Step, found: bool) -> (r: Step)
    ensures
        r == step_after(step, found),
{
    match step {
        Step::Find(lookup) => {
            if !found {
                Step::Rest
            } else {
                match lookup {
                    Lookup::Cursor => Step::Find(Lookup::Ray),
                    Lookup::Ray => Step::Find(Lookup::Ground),
                    Lookup::Ground => Step::Place,
                }
            }
        },
        Step::Place => Step::Rest,
        Step::Rest => Step::Rest,
    }
}

/// A pass ends with placing exactly when it is wanted and every lookup finds
/// something; in every other frame it ends with resting.
pub proof fn pass_places_iff_all_found(purpose: Purpose, click: bool, sight: Sight)
    ensures
        outcome(first_step(purpose, click), sight) == if purpose.wanted(click) && sight.finds_all() {
            Step::Place
        } else {
            Step::Rest
        },
{
    reveal_with_fuel(outcome, 4);
}

/// A pass makes its lookups in the order cursor, ray, ground, and makes none
/// after one that found nothing: a pass that is not wanted makes none, and a
/// wanted one stops after the first lookup that fails.
pub proof fn pass_stops_at_first_miss(purpose: Purpose, click: bool, sight: Sight)
    ensures
        lookups_made(first_step(purpose, click), sight) == if !purpose.wanted(click) {
            Seq::<Lookup>::empty()
        } else if !sight.cursor {
            seq![Lookup::Cursor]
        } else if !sight.ray {
            seq![Lookup::Cursor, Lookup::Ray]
        } else {
            seq![Lookup::Cursor, Lookup::Ray, Lookup::Ground]
        },
{
    reveal_with_fuel(lookups_made, 4);
}

} // verus!
