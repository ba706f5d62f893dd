use ui::editor::{ContextMenu, HoverPopover, InlineCompletion, InlineCompletionItem, Lsp};
use ui::input_echo::{echo_text, shown_text, shows_hint};
use ui::position::Position;
use ui::theme::{ocean_sunset, ocean_sunset_palette, ThemeMode};

#[test]
fn position_new_and_default() {
    let p = Position::new(3, 7);
    assert_eq!((p.line, p.character), (3, 7));
    assert_eq!(Position::default(), Position::new(0, 0));
}

#[test]
fn positions_order_by_line_then_column() {
    assert!(Position::new(1, 9) < Position::new(2, 0));
    assert!(Position::new(2, 1) < Position::new(2, 3));
    assert!(Position::new(2, 3) > Position::new(2, 1));
    assert!(Position::new(4, 4) <= Position::new(4, 4));
    assert_eq!(Position::new(5, 0).partial_cmp(&Position::new(4, 9)), Some(std::cmp::Ordering::Greater));
    assert_eq!(Position::new(5, 0).cmp(&Position::new(4, 9)), std::cmp::Ordering::Greater);
    let mut v = vec![Position::new(2, 0), Position::new(0, 5), Position::new(0, 1)];
    v.sort();
    assert_eq!(v, vec![Position::new(0, 1), Position::new(0, 5), Position::new(2, 0)]);
}

#[test]
fn lsp_default_is_empty_and_reset_keeps_it() {
    let mut lsp = Lsp::default();
    assert!(lsp.code_action_providers.is_empty());
    assert!(lsp.definition_provider.is_none());
    assert!(lsp.completion_provider.is_none());
    lsp.reset();
    assert!(lsp.code_action_providers.is_empty());
    let via_trait: Lsp = Default::default();
    assert!(via_trait.completion_provider.is_none());
}

#[test]
fn editor_placeholders() {
    let hover = HoverPopover::default();
    assert_eq!(hover.symbol_range, 0..0);
    let copy = HoverPopover { symbol_range: 2..5 }.clone();
    assert_eq!(copy.symbol_range, 2..5);
    let none = InlineCompletion::default();
    assert!(none.item.is_none() && none.range.is_none());
    let some = InlineCompletion {
        item: Some(InlineCompletionItem { insert_text: "fn".to_string() }),
        range: Some(1..3),
    }
    .clone();
    assert_eq!(some.item.unwrap().insert_text, "fn");
    assert_eq!(some.range, Some(1..3));
    assert_eq!(ContextMenu::Closed, ContextMenu::Closed);
}

#[test]
fn echo_of_typed_text() {
    assert_eq!(echo_text(""), "");
    assert_eq!(echo_text("hi"), "You typed: hi");
    assert_eq!(shown_text(""), "Waiting for input...");
    assert_eq!(shown_text("You typed: hi"), "You typed: hi");
    assert!(shows_hint(""));
    assert!(!shows_hint("You typed: hi"));
}

#[test]
fn ocean_sunset_rounded_theme() {
    let t = ocean_sunset();
    assert_eq!(t.name, "Ocean Sunset");
    assert_eq!(t.mode, ThemeMode::Dark);
    assert_eq!(t.radius, Some(8));
    assert_eq!(t.colors.len(), 6);
    assert_eq!(t.colors[0], ("background".to_string(), "#0F172A".to_string()));
    assert_eq!(
        t.colors[4],
        ("primary.hover.background".to_string(), "linear-gradient(120deg, #0EA5E9, #8B5CF6)".to_string())
    );
}

#[test]
fn ocean_sunset_palette_theme() {
    let t = ocean_sunset_palette();
    assert_eq!(t.name, "Ocean Sunset");
    assert_eq!(t.radius, None);
    assert_eq!(t.colors.len(), 13);
    assert_eq!(t.colors[3].0, "primary.hover.background");
    assert_eq!(t.colors[3].1, "linear-gradient(150deg, #0EA5E9, #8B5CF6)");
    assert_eq!(t.colors[12], ("ring".to_string(), "#0EA5E9".to_string()));
}
