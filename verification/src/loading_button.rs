//! A button that shows a loading spinner when in the loading state.
//!
//! When `loading` is set, the label is replaced with a spinner and optional
//! spinner text. Two renderings are offered: one that locks the button while
//! it loads, and one that hands the loading state on to the underlying button.

use vstd::prelude::*;

use crate::button::{copy_text, ButtonPlan, ButtonRounded, ButtonVariant};
use crate::size::Size;

verus! {

/// A button that shows a loading spinner when in the loading state.
pub struct LoadingButton {
    pub id: String,
    pub label: Option<String>,
    pub loading: bool,
    pub spinner_text: Option<String>,
    pub disabled: bool,
    pub selected: bool,
    pub variant: ButtonVariant,
    pub size: Size,
    pub outline: bool,
    pub compact: bool,
    pub rounded: ButtonRounded,
}

/// `t` holds exactly the text `s`.
pub open spec fn holds_text(t: Option<String>, s: &str) -> bool {
    t matches Some(v) && v@ == s@
}

/// The plan of a button that locks itself while loading: while loading it is
/// disabled, shows a small spinner with the spinner text and neither its label
/// nor its children; otherwise it shows its label and children.
pub open spec fn locking_plan(b: LoadingButton) -> ButtonPlan {
    ButtonPlan {
        label: if b.loading { None } else { b.label },
        disabled: b.loading || b.disabled,
        selected: b.selected,
        variant: b.variant,
        size: b.size,
        rounded: b.rounded,
        outline: b.outline,
        compact: b.compact,
        loading: false,
        spinner: if b.loading { Some(Size::Small) } else { None },
        spinner_text: if b.loading { b.spinner_text } else { None },
        children: !b.loading,
    }
}

/// The plan of a button that hands its loading state on: while loading it
/// keeps its own enabled state, tells the underlying button it is loading and
/// shows a spinner of its own size with the spinner text in place of the
/// label; its children are shown either way.
pub open spec fn forwarding_plan(b: LoadingButton) -> ButtonPlan {
    ButtonPlan {
        label: if b.loading { None } else { b.label },
        disabled: b.disabled,
        selected: b.selected,
        variant: b.variant,
        size: b.size,
        rounded: b.rounded,
        outline: b.outline,
        compact: b.compact,
        loading: b.loading,
        spinner: if b.loading { Some(b.size) } else { None },
        spinner_text: if b.loading { b.spinner_text } else { None },
        children: true,
    }
}

impl LoadingButton {
    /// Create a new LoadingButton.
    pub fn new(id: &str) -> (b: Self)
        ensures
            b.id@ == id@,
            b.label is None,
            !b.loading,
            b.spinner_text is None,
            !b.disabled,
            !b.selected,
            b.variant == ButtonVariant::Default,
            b.size == Size::Medium,
            !b.outline,
            !b.compact,
            b.rounded == ButtonRounded::Medium,
    {
        LoadingButton {
            id: id.to_owned(),
            label: None,
            loading: false,
            spinner_text: None,
            disabled: false,
            selected: false,
            variant: ButtonVariant::default(),
            size: Size::default(),
            outline: false,
            compact: false,
            rounded: ButtonRounded::default(),
        }
    }

    /// Set the button label.
    pub fn label(self, label: &str) -> (b: Self)
        ensures
            holds_text(b.label, label),
            b == (LoadingButton { label: b.label, ..self }),
    {
        LoadingButton { label: Some(label.to_owned()), ..self }
    }

    /// Set to `true` to show the loading spinner instead of the label.
    pub fn loading(self, loading: bool) -> (b: Self)
        ensures
            b == (LoadingButton { loading, ..self }),
    {
        LoadingButton { loading, ..self }
    }

    /// Set text shown alongside the spinner when loading.
    pub fn spinner_text(self, text: &str) -> (b: Self)
        ensures
            holds_text(b.spinner_text, text),
            b == (LoadingButton { spinner_text: b.spinner_text, ..self }),
    {
        LoadingButton { spinner_text: Some(text.to_owned()), ..self }
    }

    /// Set the outline style.
    pub fn outline(self) -> (b: Self)
        ensures
            b == (LoadingButton { outline: true, ..self }),
    {
        LoadingButton { outline: true, ..self }
    }

    /// Set the button to compact mode.
    pub fn compact(self) -> (b: Self)
        ensures
            b == (LoadingButton { compact: true, ..self }),
    {
        LoadingButton { compact: true, ..self }
    }

    /// Set the border radius.
    pub fn rounded(self, rounded: ButtonRounded) -> (b: Self)
        ensures
            b == (LoadingButton { rounded, ..self }),
    {
        LoadingButton { rounded, ..self }
    }

    /// Disable or enable the button.
    pub fn disabled(self, disabled: bool) -> (b: Self)
        ensures
            b == (LoadingButton { disabled, ..self }),
    {
        LoadingButton { disabled, ..self }
    }

    /// Mark the button as selected or not.
    pub fn selected(self, selected: bool) -> (b: Self)
        ensures
            b == (LoadingButton { selected, ..self }),
    {
        LoadingButton { selected, ..self }
    }

    /// The button is selected.
    pub fn is_selected(&self) -> (r: bool)
        ensures
            r == self.selected,
    {
        self.selected
    }

    /// Set the size of the button.
    pub fn with_size(self, size: Size) -> (b: Self)
        ensures
            b == (LoadingButton { size, ..self }),
    {
        LoadingButton { size, ..self }
    }

    /// Set the size to [`Size::XSmall`].
    pub fn xsmall(self) -> (b: Self)
        ensures
            b == (LoadingButton { size: Size::XSmall, ..self }),
    {
        self.with_size(Size::XSmall)
    }

    /// Set the size to [`Size::Small`].
    pub fn small(self) -> (b: Self)
        ensures
            b == (LoadingButton { size: Size::Small, ..self }),
    {
        self.with_size(Size::Small)
    }

    /// Set the size to [`Size::Large`].
    pub fn large(self) -> (b: Self)
        ensures
            b == (LoadingButton { size: Size::Large, ..self }),
    {
        self.with_size(Size::Large)
    }

    /// Set the colour scheme of the button.
    pub fn with_variant(self, variant: ButtonVariant) -> (b: Self)
        ensures
            b == (LoadingButton { variant, ..self }),
    {
        LoadingButton { variant, ..self }
    }

    /// Use the primary colour scheme.
    pub fn primary(self) -> (b: Self)
        ensures
            b == (LoadingButton { variant: ButtonVariant::Primary, ..self }),
    {
        self.with_variant(ButtonVariant::Primary)
    }

    /// Use the secondary colour scheme.
    pub fn secondary(self) -> (b: Self)
        ensures
            b == (LoadingButton { variant: ButtonVariant::Secondary, ..self }),
    {
        self.with_variant(ButtonVariant::Secondary)
    }

    /// Use the danger colour scheme.
    pub fn danger(self) -> (b: Self)
        ensures
            b == (LoadingButton { variant: ButtonVariant::Danger, ..self }),
    {
        self.with_variant(ButtonVariant::Danger)
    }

    /// What the button hands to the underlying button when it locks itself
    /// while loading.
    pub fn locking_plan(&self) -> (p: ButtonPlan)
        ensures
            p == locking_plan(*self),
    {
        if self.loading {
            ButtonPlan {
                label: None,
                disabled: true,
                selected: self.selected,
                variant: self.variant,
                size: self.size,
                rounded: self.rounded,
                outline: self.outline,
                compact: self.compact,
                loading: false,
                spinner: Some(Size::Small),
                spinner_text: copy_text(&self.spinner_text),
                children: false,
            }
        } else {
            ButtonPlan {
                label: copy_text(&self.label),
                disabled: self.disabled,
                selected: self.selected,
                variant: self.variant,
                size: self.size,
                rounded: self.rounded,
                outline: self.outline,
                compact: self.compact,
                loading: false,
                spinner: None,
                spinner_text: None,
                children: true,
            }
        }
    }

    /// What the button hands to the underlying button when it passes its
    /// loading state on.
    pub fn forwarding_plan(&self) -> (p: ButtonPlan)
        ensures
            p == forwarding_plan(*self),
    {
        if self.loading {
            ButtonPlan {
                label: None,
                disabled: self.disabled,
                selected: self.selected,
                variant: self.variant,
                size: self.size,
                rounded: self.rounded,
                outline: self.outline,
                compact: self.compact,
                loading: true,
                spinner: Some(self.size),
                spinner_text: copy_text(&self.spinner_text),
                children: true,
            }
        } else {
            ButtonPlan {
                label: copy_text(&self.label),
                disabled: self.disabled,
                selected: self.selected,
                variant: self.variant,
                size: self.size,
                rounded: self.rounded,
                outline: self.outline,
                compact: self.compact,
                loading: false,
                spinner: None,
                spinner_text: None,
                children: true,
            }
        }
    }
}

/// While a button loads, its label is never shown and a spinner is, in both
/// renderings; a button that locks itself cannot be clicked while loading.
pub proof fn lemma_loading_shows_spinner(b: LoadingButton)
    requires
        b.loading,
    ensures
        locking_plan(b).label is None,
        locking_plan(b).spinner is Some,
        locking_plan(b).disabled,
        forwarding_plan(b).label is None,
        forwarding_plan(b).spinner is Some,
        forwarding_plan(b).loading,
        locking_plan(b).spinner == Some(Size::Small),
        forwarding_plan(b).spinner == Some(b.size),
        !locking_plan(b).children,
        forwarding_plan(b).children,
{
}

/// Loading or not, both renderings keep the button's own styling: its size,
/// colour scheme, corner radius, outline, compactness and selection. While
/// loading they show the button's spinner text; otherwise its label.
pub proof fn lemma_plans_keep_styling(b: LoadingButton)
    ensures
        locking_plan(b).size == b.size && forwarding_plan(b).size == b.size,
        locking_plan(b).variant == b.variant && forwarding_plan(b).variant == b.variant,
        locking_plan(b).rounded == b.rounded && forwarding_plan(b).rounded == b.rounded,
        locking_plan(b).outline == b.outline && forwarding_plan(b).outline == b.outline,
        locking_plan(b).compact == b.compact && forwarding_plan(b).compact == b.compact,
        locking_plan(b).selected == b.selected && forwarding_plan(b).selected == b.selected,
        b.loading ==> locking_plan(b).spinner_text == b.spinner_text
            && forwarding_plan(b).spinner_text == b.spinner_text,
        !b.loading ==> locking_plan(b).label == b.label && forwarding_plan(b).label == b.label,
        !b.loading ==> locking_plan(b).disabled == b.disabled && forwarding_plan(b).disabled
            == b.disabled,
        b.loading ==> forwarding_plan(b).disabled == b.disabled,
{
}

/// A loading button can never be clicked, whichever way it is rendered.
pub proof fn lemma_loading_never_clickable(b: LoadingButton)
    requires
        b.loading,
    ensures
        !(!locking_plan(b).disabled && !locking_plan(b).loading),
        !(!forwarding_plan(b).disabled && !forwarding_plan(b).loading),
{
}

/// A button that is not loading renders the same in both ways: with its
/// label, its children and no spinner.
pub proof fn lemma_idle_renderings_agree(b: LoadingButton)
    requires
        !b.loading,
    ensures
        locking_plan(b) == forwarding_plan(b),
        locking_plan(b).label == b.label,
        locking_plan(b).spinner is None,
        locking_plan(b).children,
        locking_plan(b).disabled == b.disabled,
{
}

} // verus!
