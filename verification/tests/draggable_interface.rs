use overlay_things::draggable_interface::{
    insert_selected_on, mouse_up, remove_selected_on, Markers,
};

fn marks(selected: bool, pending_unselect: bool) -> Markers {
    Markers { selected, pending_unselect }
}

fn count(things: &[Markers]) -> usize {
    let mut n = 0;
    for thing in things {
        if thing.selected {
            n += 1;
        }
    }
    n
}

#[test]
fn new_markers_are_clear() {
    assert_eq!(Markers::new(), marks(false, false));
}

#[test]
fn pointer_over_selects_when_nothing_is_selected() {
    assert_eq!(insert_selected_on(marks(false, false), 0), marks(true, false));
    assert_eq!(insert_selected_on(marks(false, true), 0), marks(true, true));
}

#[test]
fn pointer_over_changes_nothing_when_something_is_selected() {
    assert_eq!(insert_selected_on(marks(false, false), 1), marks(false, false));
    assert_eq!(insert_selected_on(marks(true, false), 1), marks(true, false));
    assert_eq!(insert_selected_on(marks(true, true), 3), marks(true, true));
    assert_eq!(insert_selected_on(marks(false, true), usize::MAX), marks(false, true));
}

#[test]
fn pointer_out_with_the_button_up_unselects() {
    assert_eq!(remove_selected_on(marks(true, false), false), marks(false, false));
    assert_eq!(remove_selected_on(marks(true, true), false), marks(false, true));
    assert_eq!(remove_selected_on(marks(false, false), false), marks(false, false));
}

#[test]
fn pointer_out_with_the_button_down_waits() {
    assert_eq!(remove_selected_on(marks(true, false), true), marks(true, true));
    assert_eq!(remove_selected_on(marks(false, false), true), marks(false, true));
    assert_eq!(remove_selected_on(marks(true, true), true), marks(true, true));
}

#[test]
fn button_up_unselects_what_waited() {
    assert_eq!(mouse_up(marks(true, true), true), marks(false, false));
    assert_eq!(mouse_up(marks(false, true), true), marks(false, false));
}

#[test]
fn button_up_leaves_the_rest() {
    assert_eq!(mouse_up(marks(true, false), true), marks(true, false));
    assert_eq!(mouse_up(marks(false, false), true), marks(false, false));
    assert_eq!(mouse_up(marks(true, true), false), marks(true, true));
    assert_eq!(mouse_up(marks(false, true), false), marks(false, true));
}

#[test]
fn one_thing_is_selected_at_a_time() {
    let mut things = [Markers::new(), Markers::new(), Markers::new()];
    things[1] = insert_selected_on(things[1], count(&things));
    assert_eq!(count(&things), 1);
    things[0] = insert_selected_on(things[0], count(&things));
    things[2] = insert_selected_on(things[2], count(&things));
    assert_eq!(things, [marks(false, false), marks(true, false), marks(false, false)]);
    things[1] = remove_selected_on(things[1], false);
    assert_eq!(count(&things), 0);
    things[2] = insert_selected_on(things[2], count(&things));
    assert_eq!(things, [marks(false, false), marks(false, false), marks(true, false)]);
}

#[test]
fn drag_out_and_release() {
    let mut thing = insert_selected_on(Markers::new(), 0);
    thing = remove_selected_on(thing, true);
    assert_eq!(thing, marks(true, true));
    thing = mouse_up(thing, false);
    assert_eq!(thing, marks(true, true));
    thing = insert_selected_on(thing, 1);
    assert_eq!(thing, marks(true, true));
    thing = mouse_up(thing, true);
    assert_eq!(thing, marks(false, false));
}
