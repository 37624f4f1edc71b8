//! What a presentation has to do to keep up with the game.
//!
//! A presentation keeps one entity for each cell of a row of cells: one row
//! for the snake's segments, one for the food. After a frame the row may have
//! changed. The presentation numbers its entities by their place in the row
//! and is told, place by place, what to do.

use vstd::prelude::*;
use crate::grid::Position;

verus! {

/// What is to happen at one place of a row.
#[derive(Clone, Copy, Debug, PartialEq, Eq, Structural)]
pub enum EntityChange {
    /// No entity is shown for this place yet: create one at the position.
    Create(Position),
    /// An entity is shown for this place: put it at the position.
    Update(Position),
    /// An entity is shown for this place, but the row has ended: destroy it.
    Destroy,
}

/// What is to happen at `place`, when `shown` entities are shown and the row
/// is now `cells`.
pub open spec fn change_at(shown: nat, cells: Seq<Position>, place: int) -> EntityChange {
    if place >= cells.len() {
        EntityChange::Destroy
    } else if place < shown {
        EntityChange::Update(cells[place])
    } else {
        EntityChange::Create(cells[place])
    }
}

/// One change for every place that is shown or is in the row.
pub open spec fn changes(shown: nat, cells: Seq<Position>) -> Seq<EntityChange> {
    Seq::new(
        if shown > cells.len() {
            shown
        } else {
            cells.len()
        },
        |place: int| change_at(shown, cells, place),
    )
}

/// Lists what is to happen at every place, in order, when `shown` entities
/// are shown and the row is now `cells`.
pub fn entity_changes(shown: usize, cells: &Vec<Position>) -> (plan: Vec<EntityChange>)
    ensures
        plan@ == changes(shown as nat, cells@),
{
    let places = if shown > cells.len() {
        shown
    } else {
        cells.len()
    };
    let mut plan: Vec<EntityChange> = Vec::new();
    let mut place: usize = 0;
    while place < places
        invariant
            place <= places,
            places == changes(shown as nat, cells@).len(),
            plan@ == changes(shown as nat, cells@).take(place as int),
        decreases places - place,
    {
        let change = if place >= cells.len() {
            EntityChange::Destroy
        } else if place < shown {
            EntityChange::Update(cells[place])
        } else {
            EntityChange::Create(cells[place])
        };
        plan.push(change);
        place += 1;
        assert(plan@ =~= changes(shown as nat, cells@).take(place as int));
    }
    assert(plan@ =~= changes(shown as nat, cells@));
    plan
}

} // verus!
