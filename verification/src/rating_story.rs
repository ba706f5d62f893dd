//! Decisions of the interactive star-rating showcase: its initial states, the
//! size chosen with the size buttons and the minus and plus buttons.

use vstd::prelude::*;

use crate::rating::{capped, change_event, RatingEvent, RatingState};
use crate::size::Size;

verus! {

/// The number of stars of the showcased ratings.
pub const STORY_STARS: usize = 5;

/// The size chosen with the `ix`-th button of the size group (extra small,
/// small, medium, large).
pub open spec fn selection_size(ix: usize) -> Size {
    if ix == 0 {
        Size::XSmall
    } else if ix == 1 {
        Size::Small
    } else if ix == 2 {
        Size::Medium
    } else {
        Size::Large
    }
}

/// The value the minus button asks for: one less, but not below zero.
pub open spec fn decreased(value: usize) -> usize {
    if value > 0 {
        (value - 1) as usize
    } else {
        0
    }
}

/// The value the plus button asks for: one more, but at most the number of
/// stars of the showcase.
pub open spec fn increased(value: usize) -> usize {
    if value < STORY_STARS {
        (value + 1) as usize
    } else {
        STORY_STARS
    }
}

/// The interactive rating of the showcase: five stars, three of them filled.
pub fn story_rating() -> (s: RatingState)
    ensures
        s.value() == 3,
        s.hovered_value() == 0,
        s.max_value() == STORY_STARS,
{
    RatingState::new(STORY_STARS, 3)
}

/// The disabled rating of the showcase: five stars, two of them filled.
pub fn disabled_story_rating() -> (s: RatingState)
    ensures
        s.value() == 2,
        s.hovered_value() == 0,
        s.max_value() == STORY_STARS,
{
    RatingState::new(STORY_STARS, 2)
}

/// The size chosen with the `ix`-th button of the size group.
pub fn size_for_selection(ix: usize) -> (s: Size)
    requires
        ix < 4,
    ensures
        s == selection_size(ix),
{
    match ix {
        0 => Size::XSmall,
        1 => Size::Small,
        2 => Size::Medium,
        _ => Size::Large,
    }
}

/// The minus button: lowers the rating by one star, not below zero.
pub fn step_down(state: &mut RatingState) -> (event: Option<RatingEvent>)
    ensures
        final(state).value() == capped(decreased(old(state).value()), old(state).max_value()),
        final(state).max_value() == old(state).max_value(),
        final(state).hovered_value() == old(state).hovered_value(),
        event == change_event(old(state).value(), final(state).value()),
{
    let v = state.value().saturating_sub(1);
    state.set_value(v)
}

/// The plus button: raises the rating by one star, up to the showcase's
/// number of stars.
pub fn step_up(state: &mut RatingState) -> (event: Option<RatingEvent>)
    ensures
        final(state).value() == capped(increased(old(state).value()), old(state).max_value()),
        final(state).max_value() == old(state).max_value(),
        final(state).hovered_value() == old(state).hovered_value(),
        event == change_event(old(state).value(), final(state).value()),
{
    let v = state.value();
    let v = if v < STORY_STARS {
        v + 1
    } else {
        STORY_STARS
    };
    state.set_value(v)
}

/// On a rating with at most the showcase's number of stars, the minus button
/// undoes the plus button whenever the plus button changed the value.
pub proof fn lemma_step_down_undoes_step_up(value: usize, max: usize)
    requires
        value < max,
        max <= STORY_STARS,
    ensures
        capped(decreased(capped(increased(value), max)), max) == value,
{
}

/// The minus button never raises the rating and the plus button never lowers
/// it; at the ends of the scale they change nothing.
pub proof fn lemma_steps_are_monotone(value: usize, max: usize)
    requires
        value <= max,
    ensures
        capped(decreased(value), max) <= value,
        value <= STORY_STARS ==> value <= capped(increased(value), max),
        value == 0 ==> capped(decreased(value), max) == 0,
        value == max && max <= STORY_STARS ==> capped(increased(value), max) == max,
{
}

} // verus!
