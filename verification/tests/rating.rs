use ui::rating::{clicked_value, Rating, RatingEvent, RatingState, Star};
use ui::rating_story::{
    disabled_story_rating, size_for_selection, step_down, step_up, story_rating, STORY_STARS,
};
use ui::size::Size;

#[test]
fn new_caps_value_at_max() {
    let s = RatingState::new(5, 9);
    assert_eq!(s.value(), 5);
    assert_eq!(s.max_value(), 5);
    assert_eq!(s.hovered_value(), 0);
    let s = RatingState::new(5, 3);
    assert_eq!(s.value(), 3);
}

#[test]
fn set_value_emits_change_only_when_changed() {
    let mut s = RatingState::new(5, 1);
    assert_eq!(s.set_value(4), Some(RatingEvent::Change(4)));
    assert_eq!(s.value(), 4);
    assert_eq!(s.set_value(4), None);
    assert_eq!(s.set_value(10), Some(RatingEvent::Change(5)));
    assert_eq!(s.value(), 5);
    assert_eq!(s.set_value(7), None);
    assert_eq!(s.value(), 5);
}

#[test]
fn hover_and_reset() {
    let mut s = RatingState::new(5, 2);
    s.set_hovered_value(4);
    assert_eq!(s.hovered_value(), 4);
    assert_eq!(s.value(), 2);
    s.reset_hover();
    assert_eq!(s.hovered_value(), 0);
    assert_eq!(s.value(), 2);
}

#[test]
fn click_fills_then_clears_a_star() {
    let mut s = RatingState::new(5, 1);
    assert_eq!(s.click_star(3), (3, Some(RatingEvent::Change(3))));
    assert_eq!(s.value(), 3);
    assert_eq!(s.click_star(3), (2, Some(RatingEvent::Change(2))));
    assert_eq!(s.value(), 2);
    assert_eq!(s.click_star(1), (0, Some(RatingEvent::Change(0))));
    assert_eq!(s.value(), 0);
}

#[test]
fn clicked_value_cases() {
    assert_eq!(clicked_value(0, 1), 1);
    assert_eq!(clicked_value(3, 3), 2);
    assert_eq!(clicked_value(4, 2), 1);
    assert_eq!(clicked_value(0, 0), 0);
}

#[test]
fn stars_show_value_and_hover() {
    let mut s = RatingState::new(4, 2);
    s.set_hovered_value(3);
    let stars = s.stars();
    assert_eq!(stars.len(), 4);
    assert_eq!(stars[0], Star { index: 1, filled: true, hovered: true });
    assert_eq!(stars[1], Star { index: 2, filled: true, hovered: true });
    assert_eq!(stars[2], Star { index: 3, filled: false, hovered: true });
    assert_eq!(stars[3], Star { index: 4, filled: false, hovered: false });
    assert!(stars[2].highlighted());
    assert!(!stars[3].highlighted());
    assert_eq!(RatingState::new(0, 0).stars().len(), 0);
}

#[test]
fn value_text_is_value_over_max() {
    assert_eq!(RatingState::new(5, 3).value_text(), "3/5");
    assert_eq!(RatingState::new(120, 107).value_text(), "107/120");
    assert_eq!(RatingState::new(10, 0).value_text(), "0/10");
}

#[test]
fn rating_options() {
    let r = Rating::new();
    assert_eq!(r.size, Size::Medium);
    assert!(r.interactive());
    assert_eq!(r.value_label(&RatingState::new(5, 3)), None);
    let r = r.show_value().star_size(Size::Large).disabled(true);
    assert!(!r.interactive());
    assert_eq!(r.size, Size::Large);
    assert_eq!(r.value_label(&RatingState::new(5, 3)), Some("3/5".to_string()));
    assert_eq!(r.with_size(Size::Small).size, Size::Small);
}

#[test]
fn story_initial_states() {
    let s = story_rating();
    assert_eq!((s.value(), s.max_value()), (3, STORY_STARS));
    let d = disabled_story_rating();
    assert_eq!((d.value(), d.max_value()), (2, 5));
}

#[test]
fn story_size_selection() {
    assert_eq!(size_for_selection(0), Size::XSmall);
    assert_eq!(size_for_selection(1), Size::Small);
    assert_eq!(size_for_selection(2), Size::Medium);
    assert_eq!(size_for_selection(3), Size::Large);
}

#[test]
fn story_steps() {
    let mut s = story_rating();
    assert_eq!(step_up(&mut s), Some(RatingEvent::Change(4)));
    assert_eq!(step_up(&mut s), Some(RatingEvent::Change(5)));
    assert_eq!(step_up(&mut s), None);
    assert_eq!(s.value(), 5);
    assert_eq!(step_down(&mut s), Some(RatingEvent::Change(4)));
    let mut z = RatingState::new(5, 0);
    assert_eq!(step_down(&mut z), None);
    assert_eq!(z.value(), 0);
    let mut small = RatingState::new(2, 2);
    assert_eq!(step_up(&mut small), None);
    assert_eq!(small.value(), 2);
}

#[test]
fn disabled_rating_ignores_pointer() {
    let options = Rating::new().disabled(true);
    let mut s = RatingState::new(5, 2);
    options.hover(&mut s, 4);
    assert_eq!(s.hovered_value(), 0);
    assert_eq!(options.click(&mut s, 4), None);
    assert_eq!(s.value(), 2);
    assert_eq!(options.click(&mut s, 1), None);
    assert_eq!(s.value(), 2);
}

#[test]
fn interactive_rating_handles_pointer() {
    let options = Rating::new();
    let mut s = RatingState::new(5, 2);
    options.hover(&mut s, 4);
    assert_eq!(s.hovered_value(), 4);
    assert_eq!(options.click(&mut s, 4), Some((4, Some(RatingEvent::Change(4)))));
    assert_eq!(options.click(&mut s, 4), Some((3, Some(RatingEvent::Change(3)))));
    assert_eq!(s.value(), 3);
}

#[test]
fn row_hover_clears_on_leave_only() {
    let mut s = RatingState::new(5, 2);
    s.set_hovered_value(3);
    Rating::new().row_hover(&mut s, true);
    assert_eq!(s.hovered_value(), 3);
    Rating::new().row_hover(&mut s, false);
    assert_eq!(s.hovered_value(), 0);
    assert_eq!(s.value(), 2);
    s.set_hovered_value(4);
    Rating::new().disabled(true).row_hover(&mut s, false);
    assert_eq!(s.hovered_value(), 0);
}
