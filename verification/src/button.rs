//! Button styling choices, and the description of the button that a
//! composite button renders.

use vstd::prelude::*;

use crate::size::Size;

verus! {

/// The colour scheme of a button.
#[derive(Clone, Copy, Debug, PartialEq, Eq, Structural)]
pub enum ButtonVariant {
    Default,
    Primary,
    Secondary,
    Danger,
    Info,
    Success,
    Warning,
    Link,
    Text,
}

impl Default for ButtonVariant {
    /// Buttons use the default colour scheme unless told otherwise.
    fn default() -> (v: Self)
        ensures
            v == ButtonVariant::Default,
    {
        ButtonVariant::Default
    }
}

/// The corner radius of a button.
#[derive(Clone, Copy, Debug, PartialEq, Eq, Structural)]
pub enum ButtonRounded {
    /// Square corners.
    Zero,
    Small,
    Medium,
    Large,
}

impl Default for ButtonRounded {
    /// Buttons have medium rounded corners unless told otherwise.
    fn default() -> (r: Self)
        ensures
            r == ButtonRounded::Medium,
    {
        ButtonRounded::Medium
    }
}

/// What a composite button hands to the underlying button when it renders.
pub struct ButtonPlan {
    /// The label shown on the button, if any.
    pub label: Option<String>,
    /// The button does not react to clicks.
    pub disabled: bool,
    pub selected: bool,
    pub variant: ButtonVariant,
    pub size: Size,
    pub rounded: ButtonRounded,
    pub outline: bool,
    pub compact: bool,
    /// The underlying button is itself told that it is loading.
    pub loading: bool,
    /// A spinner is shown, of this size.
    pub spinner: Option<Size>,
    /// Text shown beside the spinner.
    pub spinner_text: Option<String>,
    /// The composite button's child elements are passed on.
    pub children: bool,
}

impl ButtonPlan {
    /// The drawn button reacts to clicks: it is neither disabled nor loading.
    pub fn clickable(&self) -> (r: bool)
        ensures
            r == (!self.disabled && !self.loading),
    {
        !self.disabled && !self.loading
    }
}

/// A copy of an optional text.
pub fn copy_text(text: &Option<String>) -> (r: Option<String>)
    ensures
        r == *text,
{
    match text {
        Some(t) => Some(t.clone()),
        None => None,
    }
}

} // verus!
