//! Code-editor state used by text inputs when no language server support is
//! built in: LSP provider lists that stay empty, and popover, completion and
//! menu placeholders.

use core::ops::Range;
use vstd::prelude::*;

verus! {

/// The character used to mask password input fields.
pub const MASK_CHAR: char = '•';

/// The language-server state of an input: its code action providers and its
/// optional definition and completion providers, each empty here.
#[derive(Clone)]
pub struct Lsp {
    pub code_action_providers: Vec<()>,
    pub definition_provider: Option<()>,
    pub completion_provider: Option<()>,
}

impl Lsp {
    /// An LSP state without any provider.
    pub fn default() -> (l: Self)
        ensures
            l.code_action_providers@.len() == 0,
            l.definition_provider is None,
            l.completion_provider is None,
    {
        Lsp { code_action_providers: Vec::new(), definition_provider: None, completion_provider: None }
    }

    /// Forget per-document state. Without language-server support there is
    /// none, so the state is left as it is.
    pub fn reset(&mut self)
        ensures
            *final(self) == *old(self),
    {
    }
}

impl Default for Lsp {
    fn default() -> (l: Self)
        ensures
            l.code_action_providers@.len() == 0,
            l.definition_provider is None,
            l.completion_provider is None,
    {
        Lsp::default()
    }
}

/// Placeholder for the popover that lists diagnostics. Never created without
/// language-server support.
pub struct DiagnosticPopover;

/// Placeholder for the popover shown when hovering a symbol.
pub struct HoverPopover {
    /// The byte range of the hovered symbol.
    pub symbol_range: Range<usize>,
}

impl Default for HoverPopover {
    /// A popover over the empty range at the start of the text.
    fn default() -> (p: Self)
        ensures
            p.symbol_range.start == 0,
            p.symbol_range.end == 0,
    {
        HoverPopover { symbol_range: 0..0 }
    }
}

/// Placeholder for hover-based "Go to Definition".
#[derive(Clone, Default)]
pub struct HoverDefinition;

/// A suggested completion shown inline as ghost text.
pub struct InlineCompletionItem {
    /// The text the completion inserts.
    pub insert_text: String,
}

/// The inline completion (ghost text) of an input: the suggestion and the
/// range it applies to, if any.
pub struct InlineCompletion {
    pub item: Option<InlineCompletionItem>,
    pub range: Option<Range<usize>>,
}

impl Default for InlineCompletion {
    /// No inline completion.
    fn default() -> (c: Self)
        ensures
            c.item is None,
            c.range is None,
    {
        InlineCompletion { item: None, range: None }
    }
}

/// A copy of a byte range.
fn copy_range(r: &Range<usize>) -> (c: Range<usize>)
    ensures
        c == *r,
{
    r.start..r.end
}

impl Clone for HoverPopover {
    fn clone(&self) -> (p: Self)
        ensures
            p == *self,
    {
        HoverPopover { symbol_range: copy_range(&self.symbol_range) }
    }
}

impl Clone for InlineCompletionItem {
    fn clone(&self) -> (c: Self)
        ensures
            c == *self,
    {
        InlineCompletionItem { insert_text: self.insert_text.clone() }
    }
}

impl Clone for InlineCompletion {
    fn clone(&self) -> (c: Self)
        ensures
            c == *self,
    {
        let item = match &self.item {
            Some(i) => Some(i.clone()),
            None => None,
        };
        let range = match &self.range {
            Some(r) => Some(copy_range(r)),
            None => None,
        };
        InlineCompletion { item, range }
    }
}

/// The completion or code-action context menu of an input.
#[derive(Clone, Copy, Debug, PartialEq, Eq, Structural)]
pub enum ContextMenu {
    /// No menu is open.
    Closed,
}

} // verus!
