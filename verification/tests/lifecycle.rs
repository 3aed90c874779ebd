use eyedropper::effects::Effect;
use eyedropper::lifecycle::{ActionName, App, LifecycleError};
use eyedropper::state::Phase;

#[test]
fn new_initial_state() {
    let app = App::new();
    assert_eq!(app.phase, Phase::Uninitialized);
    assert_eq!(app.window, None);
    assert_eq!(app.windows_created, 0);
    assert!(app.actions.is_empty());
    assert!(app.accels.is_empty());
    assert!(!app.icon_set);
    assert!(!app.css_installed);
    assert_eq!(app.config.application_id, "com.benzler.colors");
    assert_eq!(app.config.flags, 0);
    assert_eq!(app.config.resource_base_path, "/com/benzler/colors/");
}

#[test]
fn startup_with_display_effects() {
    let mut app = App::new();
    let effects = app.startup(true);
    assert_eq!(
        effects,
        vec![
            Effect::SetDefaultIcon { icon_name: "com.benzler.colors" },
            Effect::InstallCss { resource_path: "/com/benzler/colors/style.css" },
        ]
    );
    assert_eq!(app.phase, Phase::Started);
    assert!(app.css_installed);
    assert!(app.icon_set);
    assert_eq!(app.actions, vec![ActionName::Quit, ActionName::About]);
}

#[test]
fn startup_headless_skips_css() {
    let mut app = App::new();
    let effects = app.startup(false);
    assert_eq!(effects, vec![Effect::SetDefaultIcon { icon_name: "com.benzler.colors" }]);
    assert_eq!(app.phase, Phase::Started);
    assert!(!app.css_installed);
    assert!(app.icon_set);
    assert_eq!(app.actions, vec![ActionName::Quit, ActionName::About]);
}

#[test]
fn quit_accel_binds_ctrl_q_and_nothing_else() {
    let mut app = App::new();
    app.startup(true);
    assert_eq!(app.accels.len(), 1);
    assert_eq!(app.accels[0].chord, "<Control>q");
    assert_eq!(app.accels[0].action, ActionName::Quit);
    assert_eq!(app.accels[0].action.detailed_name(), "app.quit");
}

#[test]
fn action_names() {
    assert_eq!(ActionName::Quit.name(), "quit");
    assert_eq!(ActionName::About.name(), "about");
    assert_eq!(ActionName::Quit.detailed_name(), "app.quit");
    assert_eq!(ActionName::About.detailed_name(), "app.about");
}

#[test]
fn second_startup_rejected() {
    let mut app = App::new();
    assert!(app.try_startup(true).is_ok());
    assert_eq!(app.try_startup(true), Err(LifecycleError::AlreadyStarted));
    assert_eq!(app.phase, Phase::Started);
}

#[test]
fn activate_before_startup_rejected() {
    let mut app = App::new();
    assert_eq!(app.try_activate(), Err(LifecycleError::NotStarted));
    assert_eq!(app.phase, Phase::Uninitialized);
    assert_eq!(app.windows_created, 0);
}

#[test]
fn single_window_across_activations() {
    let mut app = App::new();
    app.startup(true);
    let first = app.activate();
    assert_eq!(
        first,
        vec![Effect::CreateWindow { id: 1 }, Effect::PresentWindow { id: 1 }]
    );
    assert_eq!(app.window, Some(1));
    assert_eq!(app.windows_created, 1);
    let window_after_first = app.window;
    let second = app.activate();
    assert_eq!(second, vec![Effect::PresentWindow { id: 1 }]);
    assert_eq!(app.window, window_after_first);
    assert_eq!(app.windows_created, 1);
    assert_eq!(app.phase, Phase::Activated);
}

#[test]
fn quit_closes_window_before_loop_exit() {
    let mut app = App::new();
    app.startup(true);
    app.activate();
    let effects = app.quit();
    assert_eq!(effects, vec![Effect::CloseWindow { id: 1 }, Effect::ExitLoop]);
    assert_eq!(app.phase, Phase::Terminated);
    assert_eq!(app.window, Some(1));
}

#[test]
fn quit_before_startup_rejected() {
    let mut app = App::new();
    assert_eq!(app.try_quit(), Err(LifecycleError::NotStarted));
    assert_eq!(app.phase, Phase::Uninitialized);
}

#[test]
fn quit_before_activate_rejected() {
    let mut app = App::new();
    app.startup(true);
    assert_eq!(app.try_quit(), Err(LifecycleError::WindowNotCreated));
    assert_eq!(app.phase, Phase::Started);
}

#[test]
fn calls_after_quit_rejected() {
    let mut app = App::new();
    app.startup(true);
    app.activate();
    app.quit();
    assert_eq!(app.try_activate(), Err(LifecycleError::AlreadyTerminated));
    assert_eq!(app.try_quit(), Err(LifecycleError::AlreadyTerminated));
    assert_eq!(app.try_startup(true), Err(LifecycleError::AlreadyStarted));
    assert_eq!(app.phase, Phase::Terminated);
}

#[test]
fn main_window_returns_singleton_handle() {
    let mut app = App::new();
    app.startup(false);
    app.activate();
    assert_eq!(app.main_window(), 1);
}

#[test]
fn try_activate_presents_existing_window() {
    let mut app = App::new();
    app.startup(true);
    let first = app.try_activate().unwrap();
    assert_eq!(first.len(), 2);
    let second = app.try_activate().unwrap();
    assert_eq!(second, vec![Effect::PresentWindow { id: 1 }]);
    assert_eq!(app.windows_created, 1);
}
