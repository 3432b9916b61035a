use tasker::tasker::Tasker;
use tasker::theme::{CustomTheme, Rgb};

#[test]
fn palette_values() {
    let theme = CustomTheme;
    assert_eq!(theme.background_color(), Rgb { r: 0xFF, g: 0xFF, b: 0xFF });
    assert_eq!(theme.text_color(), Rgb { r: 0, g: 0, b: 0 });
    assert_eq!(theme.accent_color(), Rgb { r: 0x00, g: 0x80, b: 0x80 });
    assert_eq!(theme.hovered_color(), Rgb { r: 0x00, g: 0x99, b: 0x99 });
    assert_eq!(theme.placeholder_color(), Rgb { r: 0x80, g: 0x80, b: 0x80 });
    assert_eq!(theme.value_color(), Rgb { r: 0, g: 0, b: 0 });
    assert_eq!(theme.selection_color(), Rgb { r: 0x00, g: 0x80, b: 0x80 });
    assert_eq!(theme.disabled_color(), Rgb { r: 0x80, g: 0x80, b: 0x80 });
}

#[test]
fn default_theme_is_the_application_theme() {
    let theme = CustomTheme::default();
    let from_state = Tasker::new().theme();
    assert_eq!(theme.accent_color(), from_state.accent_color());
    assert_eq!(theme.background_color(), from_state.background_color());
}
