use eyedropper::about::{build_about_dialog, License};
use eyedropper::lifecycle::{App, LifecycleError};
use eyedropper::state::Phase;

#[test]
fn about_dialog_constant_fields() {
    let mut app = App::new();
    app.startup(true);
    app.activate();
    let dialog = app.show_about_dialog(String::from("translator-credits"));
    assert_eq!(dialog.logo_icon_name, "com.benzler.colors");
    assert_eq!(dialog.license, License::Mpl20);
    assert_eq!(dialog.version, "0.1.0");
    assert_eq!(dialog.transient_for, 1);
    assert!(dialog.modal);
    assert_eq!(dialog.translator_credits, "translator-credits");
    assert_eq!(dialog.authors, vec!["FineFindus"]);
    assert_eq!(dialog.artists, vec!["FineFindus"]);
}

#[test]
fn about_dialog_never_mutates_state() {
    let mut app = App::new();
    app.startup(true);
    app.activate();
    let phase_before = app.phase;
    let window_before = app.window;
    let created_before: u64 = app.windows_created;
    let actions_before = app.actions.clone();
    let accels_before = app.accels.clone();
    let first = app.show_about_dialog(String::from("translator-credits"));
    let second = app.show_about_dialog(String::from("translator-credits"));
    assert_eq!(app.phase, phase_before);
    assert_eq!(app.window, window_before);
    assert_eq!(app.windows_created, created_before);
    assert_eq!(app.actions, actions_before);
    assert_eq!(app.accels, accels_before);
    assert_eq!(first, second);
}

#[test]
fn about_before_startup_rejected() {
    let app = App::new();
    let r = app.try_show_about(String::from("translator-credits"));
    assert_eq!(r.unwrap_err(), LifecycleError::NotStarted);
}

#[test]
fn about_before_activate_is_fatal() {
    let mut app = App::new();
    app.startup(true);
    let r = app.try_show_about(String::from("translator-credits"));
    assert_eq!(r.unwrap_err(), LifecycleError::WindowNotCreated);
    assert_eq!(app.phase, Phase::Started);
}

#[test]
fn about_after_activate_constructs() {
    let mut app = App::new();
    app.startup(true);
    app.activate();
    let dialog = app.try_show_about(String::from("translator-credits")).unwrap();
    assert_eq!(dialog.transient_for, app.main_window());
    assert_eq!(dialog.translator_credits, "translator-credits");
}

#[test]
fn build_about_dialog_passes_credits_through() {
    let dialog = build_about_dialog(7, String::from("credits go here"));
    assert_eq!(dialog.translator_credits, "credits go here");
    assert_eq!(dialog.transient_for, 7);
    assert_eq!(dialog.logo_icon_name, "com.benzler.colors");
    assert_eq!(dialog.version, "0.1.0");
    assert!(dialog.modal);
}
