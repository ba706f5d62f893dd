//! State of a star rating: the chosen value, the star under the pointer and
//! the number of stars, with what a click, a hover and a change do to it.

use vstd::prelude::*;
use vstd::string::StringExecFns;

use crate::size::Size;
use crate::text::{decimal, is_digit, lemma_decimal_reads_back, numeral_value, push_decimal};

verus! {

/// Events emitted by [`RatingState`].
#[derive(Clone, Debug, PartialEq, Eq, Structural)]
pub enum RatingEvent {
    /// The rating value changed.
    Change(usize),
}

/// `value` limited to at most `max`.
pub open spec fn capped(value: usize, max: usize) -> usize {
    if value <= max {
        value
    } else {
        max
    }
}

/// The event that a change of the value from `before` to `after` emits:
/// `Change(after)` when the two differ, none when they are equal.
pub open spec fn change_event(before: usize, after: usize) -> Option<RatingEvent> {
    if before != after {
        Some(RatingEvent::Change(after))
    } else {
        None
    }
}

/// The value that a click on star `ix` (1-based) asks for when the rating is
/// `current`: a star that is already filled is cleared down to the star
/// before it, an empty one fills the rating up to itself.
pub open spec fn value_after_click(current: usize, ix: usize) -> usize {
    if current >= ix {
        if ix > 0 {
            (ix - 1) as usize
        } else {
            0
        }
    } else {
        ix
    }
}

/// How star `ix` (1-based) is shown: filled when it is within the value,
/// hovered when it is within the star under the pointer.
#[derive(Clone, Copy, Debug, PartialEq, Eq, Structural)]
pub struct Star {
    /// Position of the star, counted from 1.
    pub index: usize,
    /// The star is within the rating value and is drawn filled.
    pub filled: bool,
    /// The star is within the hovered stars.
    pub hovered: bool,
}

impl Star {
    /// The star is drawn in the active colour: it is filled or hovered.
    pub fn highlighted(&self) -> (r: bool)
        ensures
            r == (self.filled || self.hovered),
    {
        self.filled || self.hovered
    }
}

/// State for the Rating component.
pub struct RatingState {
    value: usize,
    hovered_value: usize,
    max: usize,
}

impl RatingState {
    /// The value never exceeds the number of stars.
    #[verifier::type_invariant]
    spec fn value_within_max(&self) -> bool {
        self.value <= self.max
    }

    /// The current rating value.
    pub closed spec fn spec_value(&self) -> usize {
        self.value
    }

    /// The hovered star index (0 when not hovering).
    pub closed spec fn spec_hovered_value(&self) -> usize {
        self.hovered_value
    }

    /// The number of stars.
    pub closed spec fn spec_max_value(&self) -> usize {
        self.max
    }

    /// How star `ix` is shown in this state.
    pub open spec fn spec_star(&self, ix: usize) -> Star {
        Star {
            index: ix,
            filled: ix <= self.spec_value(),
            hovered: self.spec_hovered_value() >= ix,
        }
    }

    /// Create a new [`RatingState`] with the given max and initial value.
    pub fn new(max: usize, value: usize) -> (s: Self)
        ensures
            s.spec_value() == capped(value, max),
            s.spec_hovered_value() == 0,
            s.spec_max_value() == max,
    {
        let value = if value <= max {
            value
        } else {
            max
        };
        RatingState { value, hovered_value: 0, max }
    }

    /// Return the current rating value.
    #[verifier::when_used_as_spec(spec_value)]
    pub fn value(&self) -> (r: usize)
        ensures
            r == self.spec_value(),
            r <= self.spec_max_value(),
    {
        proof {
            use_type_invariant(self);
        }
        self.value
    }

    /// Return the hovered star index (0 if not hovering).
    #[verifier::when_used_as_spec(spec_hovered_value)]
    pub fn hovered_value(&self) -> (r: usize)
        ensures
            r == self.spec_hovered_value(),
    {
        self.hovered_value
    }

    /// Return the maximum number of stars.
    #[verifier::when_used_as_spec(spec_max_value)]
    pub fn max_value(&self) -> (r: usize)
        ensures
            r == self.spec_max_value(),
    {
        self.max
    }

    /// Set the rating value, limited to the number of stars. Returns the
    /// [`RatingEvent::Change`] to emit when the value changed, and `None`
    /// when it stayed the same.
    pub fn set_value(&mut self, value: usize) -> (event: Option<RatingEvent>)
        ensures
            final(self).value() == capped(value, old(self).max_value()),
            final(self).value() <= final(self).max_value(),
            final(self).max_value() == old(self).max_value(),
            final(self).hovered_value() == old(self).hovered_value(),
            event == change_event(old(self).value(), capped(value, old(self).max_value())),
    {
        let v = if value <= self.max {
            value
        } else {
            self.max
        };
        if self.value != v {
            self.value = v;
            Some(RatingEvent::Change(v))
        } else {
            None
        }
    }

    /// Set the hovered star index.
    pub fn set_hovered_value(&mut self, value: usize)
        ensures
            final(self).hovered_value() == value,
            final(self).value() == old(self).value(),
            final(self).max_value() == old(self).max_value(),
    {
        proof {
            use_type_invariant(&*self);
        }
        self.hovered_value = value;
    }

    /// Reset the hovered value (typically on mouse leave).
    pub fn reset_hover(&mut self)
        ensures
            final(self).hovered_value() == 0,
            final(self).value() == old(self).value(),
            final(self).max_value() == old(self).max_value(),
    {
        proof {
            use_type_invariant(&*self);
        }
        self.hovered_value = 0;
    }

    /// A click on star `ix` (1-based): a filled star clears the rating down
    /// to the star before it, an empty one fills it up to itself. Returns the
    /// value that the click asked for, which is what a click handler is told,
    /// and the event of the change, if any.
    pub fn click_star(&mut self, ix: usize) -> (r: (usize, Option<RatingEvent>))
        ensures
            r.0 == value_after_click(old(self).value(), ix),
            final(self).value() == capped(r.0, old(self).max_value()),
            final(self).max_value() == old(self).max_value(),
            final(self).hovered_value() == old(self).hovered_value(),
            r.1 == change_event(old(self).value(), final(self).value()),
    {
        let new = clicked_value(self.value, ix);
        let event = self.set_value(new);
        (new, event)
    }

    /// How star `ix` (1-based) is shown.
    pub fn star(&self, ix: usize) -> (s: Star)
        ensures
            s == self.spec_star(ix),
    {
        Star { index: ix, filled: ix <= self.value, hovered: self.hovered_value >= ix }
    }

    /// All stars, from the first to the last.
    pub fn stars(&self) -> (v: Vec<Star>)
        ensures
            v@.len() == self.max_value(),
            forall|i: int| 0 <= i < v@.len() ==> #[trigger] v@[i] == self.spec_star((i + 1) as usize),
            filled_count(v@) == self.value(),
    {
        proof {
            use_type_invariant(self);
        }
        let mut v: Vec<Star> = Vec::new();
        let mut i: usize = 0;
        while i < self.max
            invariant
                i <= self.max,
                v@.len() == i,
                forall|j: int| 0 <= j < i ==> #[trigger] v@[j] == self.spec_star((j + 1) as usize),
            decreases self.max - i,
        {
            v.push(self.star(i + 1));
            i = i + 1;
        }
        proof {
            lemma_filled_stars_count_value(*self, v@);
        }
        v
    }

    /// The numeric value shown beside the stars, as `"{value}/{max}"`.
    pub fn value_text(&self) -> (s: String)
        ensures
            s@ == decimal(self.value() as nat) + "/"@ + decimal(self.max_value() as nat),
    {
        let mut s = String::new();
        push_decimal(&mut s, self.value);
        s.append("/");
        push_decimal(&mut s, self.max);
        proof {
            reveal_strlit("/");
        }
        assert(s@ =~= decimal(self.value() as nat) + "/"@ + decimal(self.max_value() as nat));
        s
    }
}

/// The value that a click on star `ix` asks for when the rating is `current`.
pub fn clicked_value(current: usize, ix: usize) -> (r: usize)
    ensures
        r == value_after_click(current, ix),
{
    if current >= ix {
        ix.saturating_sub(1)
    } else {
        ix
    }
}

/// The display options of a star rating element: the size of its stars,
/// whether it reacts to the pointer and whether the numeric value is shown
/// beside the stars.
#[derive(Clone, Copy, Debug, PartialEq, Eq, Structural)]
pub struct Rating {
    pub size: Size,
    pub disabled: bool,
    pub show_value: bool,
}

impl Rating {
    /// A medium-sized, interactive rating without the numeric value.
    pub fn new() -> (r: Self)
        ensures
            r == (Rating { size: Size::Medium, disabled: false, show_value: false }),
    {
        Rating { size: Size::Medium, disabled: false, show_value: false }
    }

    /// Set the star icon size.
    pub fn star_size(self, size: Size) -> (r: Self)
        ensures
            r == (Rating { size, ..self }),
    {
        Rating { size, ..self }
    }

    /// Set the star icon size.
    pub fn with_size(self, size: Size) -> (r: Self)
        ensures
            r == (Rating { size, ..self }),
    {
        Rating { size, ..self }
    }

    /// Display the numeric value alongside the stars.
    pub fn show_value(self) -> (r: Self)
        ensures
            r == (Rating { show_value: true, ..self }),
    {
        Rating { show_value: true, ..self }
    }

    /// Disable interaction.
    pub fn disabled(self, disabled: bool) -> (r: Self)
        ensures
            r == (Rating { disabled, ..self }),
    {
        Rating { disabled, ..self }
    }

    /// The stars react to hovering and clicking.
    pub fn interactive(&self) -> (r: bool)
        ensures
            r == !self.disabled,
    {
        !self.disabled
    }

    /// The pointer moves over star `ix`: an interactive rating marks the
    /// stars up to `ix` as hovered; a disabled one ignores the pointer and
    /// leaves `state` as it is.
    pub fn hover(&self, state: &mut RatingState, ix: usize)
        ensures
            self.disabled ==> *final(state) == *old(state),
            !self.disabled ==> final(state).hovered_value() == ix,
            final(state).value() == old(state).value(),
            final(state).max_value() == old(state).max_value(),
    {
        if !self.disabled {
            state.set_hovered_value(ix);
        }
    }

    /// The row of stars reports whether the pointer is over it: when the
    /// pointer leaves the row the hover is cleared, whether or not the rating
    /// is disabled; when it enters, nothing changes.
    pub fn row_hover(&self, state: &mut RatingState, hovered: bool)
        ensures
            !hovered ==> final(state).hovered_value() == 0,
            hovered ==> *final(state) == *old(state),
            final(state).value() == old(state).value(),
            final(state).max_value() == old(state).max_value(),
    {
        if !hovered {
            state.reset_hover();
        }
    }

    /// A click on star `ix`: an interactive rating handles it as
    /// [`RatingState::click_star`] does and returns the value the click asked
    /// for with the change event, if any; a disabled one ignores the click,
    /// leaves `state` as it is and returns `None`, so no event is emitted and
    /// no click handler is told.
    pub fn click(&self, state: &mut RatingState, ix: usize) -> (r: Option<(usize, Option<RatingEvent>)>)
        ensures
            self.disabled ==> r is None && *final(state) == *old(state),
            !self.disabled ==> (r matches Some(c) && c.0 == value_after_click(old(state).value(), ix)
                && final(state).value() == capped(c.0, old(state).max_value())
                && c.1 == change_event(old(state).value(), final(state).value())),
            final(state).max_value() == old(state).max_value(),
            final(state).hovered_value() == old(state).hovered_value(),
    {
        if self.disabled {
            None
        } else {
            Some(state.click_star(ix))
        }
    }

    /// The text shown beside the stars for `state`: its value out of its
    /// number of stars when the value is shown, nothing otherwise.
    pub fn value_label(&self, state: &RatingState) -> (r: Option<String>)
        ensures
            self.show_value ==> (r matches Some(s) && s@ == decimal(state.value() as nat) + "/"@
                + decimal(state.max_value() as nat)),
            !self.show_value ==> r is None,
    {
        if self.show_value {
            Some(state.value_text())
        } else {
            None
        }
    }
}

/// A click on a filled star `ix` (`1 <= ix <= current`) always asks for
/// `ix - 1`, one star less than the clicked one, however many stars are
/// filled beyond it; a click on an empty star (`ix > current`) asks for `ix`.
pub proof fn lemma_click_value(current: usize, ix: usize)
    ensures
        1 <= ix <= current ==> value_after_click(current, ix) + 1 == ix,
        ix > current ==> value_after_click(current, ix) == ix,
        ix == 0 ==> value_after_click(current, ix) == 0,
        value_after_click(current, ix) <= ix,
{
}

/// A click on a star of a rating with at least that many stars leaves
/// exactly the stars before it filled when it was filled, and exactly the
/// stars up to it filled when it was empty.
pub proof fn lemma_click_on_state(current: usize, ix: usize, max: usize)
    requires
        current <= max,
        1 <= ix <= max,
    ensures
        ix <= current ==> capped(value_after_click(current, ix), max) == ix - 1,
        ix > current ==> capped(value_after_click(current, ix), max) == ix,
{
}

/// Star `ix` of any rating (`1 <= ix <= max`) is drawn filled exactly when
/// `ix` is at most the value, and hovered exactly when `ix` is at most the
/// hovered star; its index is `ix`.
pub proof fn lemma_star_shows_value(state: RatingState, ix: usize)
    requires
        1 <= ix <= state.max_value(),
    ensures
        state.spec_star(ix).filled <==> ix <= state.value(),
        state.spec_star(ix).hovered <==> ix <= state.hovered_value(),
        state.spec_star(ix).index == ix,
{
}

/// The number of filled stars in `stars`.
pub open spec fn filled_count(stars: Seq<Star>) -> nat
    decreases stars.len(),
{
    if stars.len() == 0 {
        0
    } else {
        filled_count(stars.drop_last()) + if stars.last().filled { 1nat } else { 0nat }
    }
}

/// Among the stars of a rating, as `stars()` lists them, exactly `value`
/// are filled: the first `value` ones.
pub proof fn lemma_filled_stars_count_value(state: RatingState, stars: Seq<Star>)
    requires
        state.value() <= state.max_value(),
        stars.len() == state.max_value(),
        forall|i: int| 0 <= i < stars.len() ==> #[trigger] stars[i] == state.spec_star((i + 1) as usize),
    ensures
        filled_count(stars) == state.value(),
        forall|i: int| 0 <= i < stars.len() ==> (#[trigger] stars[i].filled <==> i < state.value()),
{
    lemma_filled_prefix(state, stars, stars.len() as int);
    assert(stars.take(stars.len() as int) =~= stars);
}

/// The first `k` stars hold `min(k, value)` filled ones.
proof fn lemma_filled_prefix(state: RatingState, stars: Seq<Star>, k: int)
    requires
        0 <= k <= stars.len(),
        stars.len() == state.max_value(),
        forall|i: int| 0 <= i < stars.len() ==> #[trigger] stars[i] == state.spec_star((i + 1) as usize),
    ensures
        filled_count(stars.take(k)) == if k <= state.value() { k } else { state.value() as int },
    decreases k,
{
    if k > 0 {
        lemma_filled_prefix(state, stars, k - 1);
        assert(stars.take(k).drop_last() =~= stars.take(k - 1));
        assert(stars.take(k).last() == stars[k - 1]);
    }
}

/// The value label `value/max` reads back as its two numbers: it holds one
/// `'/'`, every other character is a digit, the digits before the slash read
/// as `value` and those after it as `max`.
pub proof fn lemma_value_text_reads_back(value: usize, max: usize)
    ensures
        ({
            let t = decimal(value as nat) + "/"@ + decimal(max as nat);
            let k = decimal(value as nat).len() as int;
            &&& 0 < k < t.len() - 1
            &&& t[k] == '/'
            &&& forall|i: int| 0 <= i < t.len() && i != k ==> is_digit(#[trigger] t[i])
            &&& numeral_value(t.take(k)) == value
            &&& numeral_value(t.skip(k + 1)) == max
        }),
{
    reveal_strlit("/");
    lemma_decimal_reads_back(value as nat);
    lemma_decimal_reads_back(max as nat);
    let a = decimal(value as nat);
    let b = decimal(max as nat);
    let t = a + "/"@ + b;
    let k = a.len() as int;
    assert(t.take(k) =~= a);
    assert(t.skip(k + 1) =~= b);
    assert forall|i: int| 0 <= i < t.len() && i != k implies is_digit(#[trigger] t[i]) by {
        if i < k {
            assert(t[i] == a[i]);
        } else {
            assert(t[i] == b[i - k - 1]);
        }
    }
}

/// Setting the same value twice changes nothing the second time: the value
/// stays where the first call put it and no second event is emitted.
pub proof fn lemma_set_value_idempotent(value: usize, max: usize)
    ensures
        capped(capped(value, max), max) == capped(value, max),
        change_event(capped(value, max), capped(value, max)) is None,
{
}

/// A click on an empty star `ix` fills the rating up to it; a second click on
/// the same star clears it again, leaving the rating one below `ix`.
pub proof fn lemma_click_twice_clears_star(current: usize, ix: usize, max: usize)
    requires
        current < ix,
        ix <= max,
    ensures
        capped(value_after_click(current, ix), max) == ix,
        capped(value_after_click(capped(value_after_click(current, ix), max), ix), max) == ix - 1,
{
}

/// A rating never exceeds its number of stars, whatever a change asked for.
pub proof fn lemma_capped_within_max(value: usize, max: usize)
    ensures
        capped(value, max) <= max,
        value <= max ==> capped(value, max) == value,
{
}

} // verus!
