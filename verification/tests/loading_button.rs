use ui::button::{ButtonRounded, ButtonVariant};
use ui::loading_button::LoadingButton;
use ui::size::Size;

#[test]
fn loading_button_test_loading_button_builder() {
    let button = LoadingButton::new("test-loading")
        .label("Submit")
        .primary()
        .loading(true)
        .spinner_text("Submitting...")
        .outline()
        .compact()
        .selected(false)
        .disabled(false)
        .rounded(ButtonRounded::Medium);

    assert_eq!(button.label, Some("Submit".into()));
    assert_eq!(button.variant, ButtonVariant::Primary);
    assert!(button.loading);
    assert_eq!(button.spinner_text, Some("Submitting...".into()));
    assert!(button.outline);
    assert!(button.compact);
    assert!(!button.selected);
    assert!(!button.disabled);
    assert!(matches!(button.rounded, ButtonRounded::Medium));
}

#[test]
fn test_loading_button_not_loading() {
    let button = LoadingButton::new("test-normal").label("Save").danger().loading(false);

    assert_eq!(button.label, Some("Save".into()));
    assert_eq!(button.variant, ButtonVariant::Danger);
    assert!(!button.loading);
    assert!(button.spinner_text.is_none());
}

#[test]
fn test_loading_button_builder() {
    let btn = LoadingButton::new("test-loading")
        .label("Save")
        .primary()
        .danger()
        .outline()
        .large()
        .compact()
        .loading(true)
        .spinner_text("Saving...")
        .disabled(false)
        .selected(false)
        .rounded(ButtonRounded::Medium);

    assert_eq!(btn.label, Some("Save".into()));
    assert_eq!(btn.variant, ButtonVariant::Danger);
    assert!(btn.outline);
    assert_eq!(btn.size, Size::Large);
    assert!(btn.compact);
    assert!(btn.loading);
    assert_eq!(btn.spinner_text, Some("Saving...".into()));
    assert!(!btn.disabled);
    assert!(!btn.selected);
    assert!(matches!(btn.rounded, ButtonRounded::Medium));
}

#[test]
fn test_loading_button_defaults() {
    let btn = LoadingButton::new("default");

    assert!(btn.label.is_none());
    assert!(!btn.loading);
    assert!(btn.spinner_text.is_none());
    assert_eq!(btn.variant, ButtonVariant::Default);
    assert_eq!(btn.size, Size::Medium);
    assert!(!btn.disabled);
    assert!(!btn.selected);
}

#[test]
fn test_loading_button_loading_state_config() {
    let loading = LoadingButton::new("loading").loading(true);
    assert!(loading.loading);

    let not_loading = LoadingButton::new("not-loading").loading(false);
    assert!(!not_loading.loading);
}

#[test]
fn test_loading_button_variant_methods() {
    let primary = LoadingButton::new("primary").primary();
    assert_eq!(primary.variant, ButtonVariant::Primary);

    let danger = LoadingButton::new("danger").danger();
    assert_eq!(danger.variant, ButtonVariant::Danger);
}

#[test]
fn test_loading_button_spinner_text() {
    let btn = LoadingButton::new("spinner").spinner_text("Loading...");
    assert_eq!(btn.spinner_text, Some("Loading...".into()));

    let btn_empty = LoadingButton::new("no-spinner");
    assert!(btn_empty.spinner_text.is_none());
}

#[test]
fn locking_plan_while_loading_hides_label_and_locks() {
    let btn = LoadingButton::new("save").label("Save").spinner_text("Saving...").loading(true);
    let plan = btn.locking_plan();
    assert_eq!(plan.label, None);
    assert!(plan.disabled);
    assert!(!plan.loading);
    assert_eq!(plan.spinner, Some(Size::Small));
    assert_eq!(plan.spinner_text, Some("Saving...".to_string()));
    assert!(!plan.children);
}

#[test]
fn forwarding_plan_while_loading_keeps_enabled_state() {
    let btn = LoadingButton::new("save").label("Save").large().spinner_text("Saving...").loading(true);
    let plan = btn.forwarding_plan();
    assert_eq!(plan.label, None);
    assert!(!plan.disabled);
    assert!(plan.loading);
    assert_eq!(plan.spinner, Some(Size::Large));
    assert_eq!(plan.spinner_text, Some("Saving...".to_string()));
    assert!(plan.children);
}

#[test]
fn idle_plans_show_label_and_agree() {
    let btn = LoadingButton::new("save").label("Save").disabled(true).spinner_text("Saving...").secondary();
    for plan in [btn.locking_plan(), btn.forwarding_plan()] {
        assert_eq!(plan.label, Some("Save".to_string()));
        assert!(plan.disabled);
        assert!(!plan.loading);
        assert_eq!(plan.spinner, None);
        assert_eq!(plan.spinner_text, None);
        assert!(plan.children);
        assert_eq!(plan.variant, ButtonVariant::Secondary);
        assert_eq!(plan.rounded, ButtonRounded::Medium);
    }
}

#[test]
fn builders_keep_other_fields() {
    let btn = LoadingButton::new("x").label("L").selected(true).xsmall().small();
    assert!(btn.is_selected());
    assert_eq!(btn.size, Size::Small);
    assert_eq!(btn.id, "x");
    let btn = btn.with_variant(ButtonVariant::Warning).with_size(Size::Medium).rounded(ButtonRounded::Zero);
    assert_eq!(btn.variant, ButtonVariant::Warning);
    assert_eq!(btn.label, Some("L".to_string()));
    assert_eq!(btn.rounded, ButtonRounded::Zero);
}

#[test]
fn loading_button_is_not_clickable_while_loading() {
    let btn = LoadingButton::new("save").label("Save").loading(true);
    assert!(!btn.locking_plan().clickable());
    assert!(!btn.forwarding_plan().clickable());
    let idle = btn.loading(false);
    assert!(idle.locking_plan().clickable());
    assert!(idle.forwarding_plan().clickable());
    let off = idle.disabled(true);
    assert!(!off.locking_plan().clickable());
    assert!(!off.forwarding_plan().clickable());
}
