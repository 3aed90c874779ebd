use eyedropper::color::Color;
use eyedropper::config;

#[test]
fn compiled_in_identity() {
    assert_eq!(config::app_id(), "com.benzler.colors");
    assert_eq!(config::version(), "0.1.0");
    assert_eq!(config::resource_base_path(), "/com/benzler/colors/");
    assert_eq!(config::style_css_path(), "/com/benzler/colors/style.css");
    assert_eq!(config::quit_accel_chord(), "<Control>q");
    assert_eq!(config::author(), "FineFindus");
}

#[test]
fn stylesheet_lives_under_resource_base_path() {
    let base = config::resource_base_path();
    assert!(config::style_css_path().starts_with(base));
}

#[test]
fn default_color_is_transparent_black() {
    let c = Color::default();
    assert_eq!(c, Color { red: 0, green: 0, blue: 0, alpha: 0 });
}
