use ui::label::Label;
use ui::size::Size;

#[test]
fn test_label_builder() {
    let label = Label::new("Hello World").muted().small();

    assert!(label.muted);
    assert_eq!(label.size, Size::Small);
    assert_eq!(label.text, "Hello World");
}

#[test]
fn test_label_default_size() {
    let label = Label::new("Default");
    assert_eq!(label.size, Size::Medium);
    assert!(!label.muted);
}

#[test]
fn test_label_size_methods() {
    assert_eq!(Label::new("xs").xsmall().size, Size::XSmall);
    assert_eq!(Label::new("sm").small().size, Size::Small);
    assert_eq!(Label::new("lg").large().size, Size::Large);
}

#[test]
fn label_text_sizes_follow_the_size() {
    assert_eq!(Label::new("a").xsmall().text_px(), 12);
    assert_eq!(Label::new("a").small().text_px(), 14);
    assert_eq!(Label::new("a").text_px(), 14);
    assert_eq!(Label::new("a").large().text_px(), 16);
}

#[test]
fn label_colour_follows_muted() {
    assert!(!Label::new("a").uses_muted_color());
    assert!(Label::new("a").muted().uses_muted_color());
}

#[test]
fn label_with_size_keeps_text_and_muted() {
    let label = Label::new("keep").muted().with_size(Size::Large);
    assert_eq!(label.text, "keep");
    assert!(label.muted);
    assert_eq!(label.size, Size::Large);
}
