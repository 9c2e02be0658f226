use weasel::backend::{supports_theme, theme_candidates};

#[test]
fn preference_preserves_fallback_without_creating_ui() {
    assert!(supports_theme("void"));
    let silent = theme_candidates("void");
    assert_eq!(silent.len(), 1);
    assert_eq!(silent[0].name(), "void");
    assert!(!silent[0].capabilities().preedit);
    for (preferred, expected) in [
        ("ten", ["ten", "eleven", "abc"]),
        ("eleven", ["eleven", "ten", "abc"]),
        ("abc", ["abc", "eleven", "ten"]),
        ("unknown", ["eleven", "ten", "abc"]),
    ] {
        let names: Vec<_> = theme_candidates(preferred)
            .iter()
            .map(|theme| theme.name())
            .collect();
        assert_eq!(names, expected);
        assert_eq!(supports_theme(preferred), preferred != "unknown");
        for factory in theme_candidates(preferred) {
            assert_eq!(factory.capabilities().preedit, factory.name() == "abc");
        }
    }
}
