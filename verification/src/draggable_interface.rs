//! Selecting with the pointer: the marks that a draggable thing carries, and
//! how the pointer and the mouse button change them.

use vstd::prelude::*;

verus! {

/// The marks on one draggable thing.
#[derive(Clone, Copy, Debug, PartialEq, Eq, Structural)]
pub struct Markers {
    /// The thing is selected: the wheel zooms it.
    pub selected: bool,
    /// The pointer left the thing while the button was down: it stops being
    /// selected when the button comes up.
    pub pending_unselect: bool,
}

impl Markers {
    /// The marks of a thing that was just made: none.
    pub fn new() -> (r: Markers)
        ensures
            r == (Markers { selected: false, pending_unselect: false }),
    {
        Markers { selected: false, pending_unselect: false }
    }
}

/// The number of selected things among some.
pub open spec fn selected_count(things: Seq<Markers>) -> nat
    decreases things.len(),
{
    if things.len() == 0 {
        0
    } else {
        selected_count(things.drop_last()) + if things.last().selected {
            1nat
        } else {
            0nat
        }
    }
}

impl Markers {
    /// The marks after the pointer came over the thing, or a drag of it
    /// ended, while `selected` things were selected, this one counted: the
    /// thing becomes selected if nothing is, and nothing changes otherwise.
    pub open spec fn pointer_over(self, selected: nat) -> Markers {
        if selected == 0 {
            Markers { selected: true, pending_unselect: self.pending_unselect }
        } else {
            self
        }
    }

    /// The marks after the pointer left the thing: with the left button
    /// down the thing waits for the button to come up, and else it stops
    /// being selected.
    pub open spec fn pointer_out(self, left_pressed: bool) -> Markers {
        if left_pressed {
            Markers { selected: self.selected, pending_unselect: true }
        } else {
            Markers { selected: false, pending_unselect: self.pending_unselect }
        }
    }

    /// The marks after a frame's look at the left button: when it was just
    /// released, a thing that waited for that loses both marks.
    pub open spec fn button_up(self, left_just_released: bool) -> Markers {
        if left_just_released && self.pending_unselect {
            Markers { selected: false, pending_unselect: false }
        } else {
            self
        }
    }
}

/// The marks of a thing after the pointer came over it, or a drag of it
/// ended. `selected` is the number of selected things, this one counted.
pub fn insert_selected_on(markers: Markers, selected: usize) -> (r: Markers)
    ensures
        r == markers.pointer_over(selected as nat),
{
    if selected == 0 {
        Markers { selected: true, pending_unselect: markers.pending_unselect }
    } else {
        markers
    }
}

/// The marks of a thing after the pointer left it, with the left button
/// down or up.
pub fn remove_selected_on(markers: Markers, left_pressed: bool) -> (r: Markers)
    ensures
        r == markers.pointer_out(left_pressed),
{
    if left_pressed {
        Markers { selected: markers.selected, pending_unselect: true }
    } else {
        Markers { selected: false, pending_unselect: markers.pending_unselect }
    }
}

/// The marks of a thing after a frame's look at the left button.
pub fn mouse_up(markers: Markers, left_just_released: bool) -> (r: Markers)
    ensures
        r == markers.button_up(left_just_released),
{
    if left_just_released && markers.pending_unselect {
        Markers { selected: false, pending_unselect: false }
    } else {
        markers
    }
}

/// Changing one thing's marks changes the count of selected things by that
/// thing alone.
pub proof fn lemma_count_update(things: Seq<Markers>, i: int, markers: Markers)
    requires
        0 <= i < things.len(),
    ensures
        selected_count(things.update(i, markers)) + (if things[i].selected {
            1nat
        } else {
            0nat
        }) == selected_count(things) + (if markers.selected {
            1nat
        } else {
            0nat
        }),
    decreases things.len(),
{
    let after = things.update(i, markers);
    if i == things.len() - 1 {
        assert(after.drop_last() =~= things.drop_last());
    } else {
        lemma_count_update(things.drop_last(), i, markers);
        assert(after.drop_last() =~= things.drop_last().update(i, markers));
    }
}

/// One selection at a time: where at most one thing is selected, the
/// pointer coming over any thing leaves at most one selected.
pub proof fn lemma_pointer_over_keeps_one(things: Seq<Markers>, i: int)
    requires
        0 <= i < things.len(),
        selected_count(things) <= 1,
    ensures
        selected_count(things.update(i, things[i].pointer_over(selected_count(things)))) <= 1,
{
    lemma_count_update(things, i, things[i].pointer_over(selected_count(things)));
}

/// The pointer leaving a thing and the button coming up never select
/// anything: the count of selected things does not grow.
pub proof fn lemma_leaving_never_selects(
    things: Seq<Markers>,
    i: int,
    left_pressed: bool,
    left_just_released: bool,
)
    requires
        0 <= i < things.len(),
    ensures
        selected_count(things.update(i, things[i].pointer_out(left_pressed))) <= selected_count(
            things,
        ),
        selected_count(things.update(i, things[i].button_up(left_just_released)))
            <= selected_count(things),
{
    lemma_count_update(things, i, things[i].pointer_out(left_pressed));
    lemma_count_update(things, i, things[i].button_up(left_just_released));
}

} // verus!
