use termini::application::{AppEvent, TerminiApplication};
use termini::settings::SettingsStore;
use termini::window::WindowState;

fn started_app() -> TerminiApplication {
    let mut app = TerminiApplication::new();
    app.startup(true);
    app
}

#[test]
fn startup_registers_actions_and_accels() {
    let mut app = TerminiApplication::new();
    assert!(!app.started);
    app.startup(true);
    assert!(app.started);
    assert!(app.icon_set);
    assert!(app.css_applied);
    assert!(app.quit_action);
    assert!(app.about_action);
    assert!(app.accels_bound);
    assert_eq!(app.events, vec![AppEvent::Started]);
}

#[test]
fn startup_without_display_skips_css() {
    let mut app = TerminiApplication::new();
    app.startup(false);
    assert!(app.started);
    assert!(!app.css_applied);
    assert!(app.quit_action && app.about_action && app.accels_bound);
}

#[test]
fn first_activation_constructs_and_presents_one_window() {
    let mut app = started_app();
    let store = SettingsStore::restored(800, 600, false);
    app.activate(&store);
    assert_eq!(app.constructed, 1);
    let w = app.main_window();
    assert_eq!(w.state, WindowState::Showing);
    assert_eq!(w.times_presented, 1);
    assert_eq!(w.default_size(), (800, 600));
    assert_eq!(
        app.events,
        vec![
            AppEvent::Started,
            AppEvent::WindowConstructed,
            AppEvent::WindowPresented,
        ]
    );
}

#[test]
fn two_activations_construct_only_one_window() {
    // Two activation events in sequence without any window being closed:
    // exactly one construction, and the second activation re-presents the
    // existing window.
    let mut app = started_app();
    let store = SettingsStore::new();
    app.activate(&store);
    app.activate(&store);
    assert_eq!(app.constructed, 1);
    assert_eq!(app.main_window().times_presented, 2);
    assert_eq!(
        app.events,
        vec![
            AppEvent::Started,
            AppEvent::WindowConstructed,
            AppEvent::WindowPresented,
            AppEvent::WindowPresented,
        ]
    );
}

#[test]
fn many_activations_construct_only_one_window() {
    let mut app = started_app();
    let store = SettingsStore::new();
    for _ in 0..10 {
        app.activate(&store);
    }
    assert_eq!(app.constructed, 1);
    assert_eq!(app.main_window().times_presented, 10);
    let constructions = app
        .events
        .iter()
        .filter(|e| **e == AppEvent::WindowConstructed)
        .count();
    assert_eq!(constructions, 1);
}

#[test]
fn quit_runs_close_request_before_terminating() {
    let mut app = started_app();
    let mut store = SettingsStore::new();
    app.activate(&store);
    app.quit(&mut store);

    assert!(app.terminated);
    assert_eq!(app.main_window().state, WindowState::Destroyed);

    // The close request (and thus the geometry write) strictly precedes the
    // termination event.
    let close_at = app
        .events
        .iter()
        .position(|e| *e == AppEvent::WindowCloseRequested)
        .expect("close request event missing");
    let term_at = app
        .events
        .iter()
        .position(|e| *e == AppEvent::Terminated)
        .expect("termination event missing");
    assert!(close_at < term_at);

    // The quit attempted the geometry write: the store holds the geometry.
    assert_eq!(store.window_width(), 0);
    assert_eq!(store.window_height(), 0);
    assert!(!store.is_maximized());
    assert!(store.width.is_some());
    assert!(store.height.is_some());
    assert!(store.maximized.is_some());
}

#[test]
fn quit_proceeds_when_store_is_unavailable() {
    let mut app = started_app();
    let mut store = SettingsStore::new();
    app.activate(&store);
    store.make_unwritable();
    app.quit(&mut store);

    // Persistence failed, yet the window closed and the application
    // terminated all the same.
    assert!(app.terminated);
    assert_eq!(app.main_window().state, WindowState::Destroyed);
    assert!(store.width.is_none());
    assert!(store.height.is_none());
    assert!(store.maximized.is_none());
}

#[test]
fn about_dialog_info_fields() {
    let mut app = started_app();
    let store = SettingsStore::new();
    app.activate(&store);
    let info = app.about_dialog_info();
    assert_eq!(info.program_name, "Termini");
    assert_eq!(info.logo_icon_name, "com.github.aunetx.Termini");
    assert_eq!(info.license, "MIT/X11");
    assert_eq!(info.website, "https://github.com/aunetx/termini/");
    assert_eq!(info.version, "0.1.0");
    assert_eq!(info.author, "Aurelien Hamy");
    assert_eq!(info.artist, "Aurelien Hamy");
    assert!(info.modal);
}
