//! A simple text label with configurable size and muted variant.

use vstd::prelude::*;

use crate::size::Size;

verus! {

/// A simple text label with configurable size and muted variant.
pub struct Label {
    pub text: String,
    pub size: Size,
    pub muted: bool,
}

/// The font size, in pixels, of a label of size `size`.
pub open spec fn label_text_px(size: Size) -> u32 {
    match size {
        Size::XSmall => 12,
        Size::Small => 14,
        Size::Medium => 14,
        Size::Large => 16,
    }
}

impl Label {
    /// Create a new label with the given text.
    pub fn new(text: &str) -> (l: Self)
        ensures
            l.text@ == text@,
            l.size == Size::Medium,
            !l.muted,
    {
        Label { text: text.to_owned(), size: Size::Medium, muted: false }
    }

    /// Render the label with muted (secondary) color.
    pub fn muted(self) -> (l: Self)
        ensures
            l.muted,
            l.text == self.text,
            l.size == self.size,
    {
        Label { muted: true, ..self }
    }

    /// Set the size of the label.
    pub fn with_size(self, size: Size) -> (l: Self)
        ensures
            l.size == size,
            l.text == self.text,
            l.muted == self.muted,
    {
        Label { size, ..self }
    }

    /// Set the size to [`Size::XSmall`].
    pub fn xsmall(self) -> (l: Self)
        ensures
            l.size == Size::XSmall,
            l.text == self.text,
            l.muted == self.muted,
    {
        self.with_size(Size::XSmall)
    }

    /// Set the size to [`Size::Small`].
    pub fn small(self) -> (l: Self)
        ensures
            l.size == Size::Small,
            l.text == self.text,
            l.muted == self.muted,
    {
        self.with_size(Size::Small)
    }

    /// Set the size to [`Size::Large`].
    pub fn large(self) -> (l: Self)
        ensures
            l.size == Size::Large,
            l.text == self.text,
            l.muted == self.muted,
    {
        self.with_size(Size::Large)
    }

    /// The font size the label is drawn with, in pixels.
    pub fn text_px(&self) -> (px: u32)
        ensures
            px == label_text_px(self.size),
    {
        match self.size {
            Size::XSmall => 12,
            Size::Small => 14,
            Size::Medium => 14,
            Size::Large => 16,
        }
    }

    /// The label is drawn in the muted foreground colour rather than the
    /// ordinary one.
    pub fn uses_muted_color(&self) -> (r: bool)
        ensures
            r == self.muted,
    {
        self.muted
    }
}

} // verus!
