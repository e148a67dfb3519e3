use reminder_api::Theme;

#[test]
fn change_theme_swaps_dark_and_light() {
    let mut theme = Theme::Dark;
    theme.change_theme();
    assert_eq!(theme, Theme::Light);
    theme.change_theme();
    assert_eq!(theme, Theme::Dark);
}

#[test]
fn change_theme_twice_gives_the_theme_back() {
    for start in [Theme::Dark, Theme::Light] {
        let mut theme = start;
        theme.change_theme();
        assert_ne!(theme, start);
        theme.change_theme();
        assert_eq!(theme, start);
    }
}

#[test]
fn themes_are_shown_by_name() {
    assert_eq!(Theme::Dark.label(), "Dark Mode");
    assert_eq!(Theme::Light.label(), "Light Mode");
}
