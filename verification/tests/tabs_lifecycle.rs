use kiosk_panel::app::App;
use kiosk_panel::app::CurrentScreen;
use kiosk_panel::disk::SDHandler;
use kiosk_panel::gpio::Button;
use kiosk_panel::tabs::Effect;
use kiosk_panel::tabs::SdTab;
use kiosk_panel::tabs::SmashscopeTab;
use kiosk_panel::tabs::Tab;
use kiosk_panel::tabs::TabColor;

#[test]
fn opening_launcher_asks_for_one_spawn() {
    let mut app = App::new();
    app.tab_index = 2;
    let eff = app.handle_gpio_event(Button::Select);
    assert_eq!(eff, Effect::Spawn);
    assert_eq!(app.screen, CurrentScreen::Tab);
}

#[test]
fn spawn_failure_degrades_without_error() {
    let mut app = App::new();
    app.tab_index = 2;
    let eff = app.handle_gpio_event(Button::Select);
    assert_eq!(eff, Effect::Spawn);
    // the spawn failed: the tab stays open, with no child handle
    app.note_spawn(None);
    match &app.tabs[2] {
        Tab::Smashscope(t) => {
            assert!(t.state.active);
            assert_eq!(t.dolphin, None);
        },
        _ => panic!("tab 2 is the launcher"),
    }
    // closing in the degraded state owes no termination and is no error
    let eff = app.handle_gpio_event(Button::Back);
    assert_eq!(eff, Effect::Nothing);
    assert_eq!(app.screen, CurrentScreen::Menu);
}

#[test]
fn close_owes_termination_of_the_live_child() {
    let mut app = App::new();
    app.tab_index = 2;
    app.handle_gpio_event(Button::Select);
    app.note_spawn(Some(4711));
    let eff = app.handle_gpio_event(Button::Back);
    assert_eq!(eff, Effect::Kill(4711));
    match &app.tabs[2] {
        Tab::Smashscope(t) => {
            assert!(!t.state.active);
            assert_eq!(t.dolphin, None);
        },
        _ => panic!("tab 2 is the launcher"),
    }
}

#[test]
fn launcher_open_is_idempotent() {
    let mut t = SmashscopeTab::default();
    assert!(t.open());
    t.note_spawn(Some(99));
    // opening an already-open tab asks for no second spawn and keeps the child
    assert!(!t.open());
    assert_eq!(t.dolphin, Some(99));
}

#[test]
fn storage_open_is_idempotent() {
    let mut t = SdTab::default();
    // a fresh open asks for one storage query
    assert!(t.open());
    t.note_storage(Some(SDHandler::from_mount("/media/sd".to_string())), Some("3.0.0".to_string()));
    // opening again without closing asks for no second query and keeps the snapshot
    assert!(!t.open());
    assert_eq!(t.version.as_deref(), Some("3.0.0"));
    assert!(t.sd_card.is_some());
}

#[test]
fn opening_storage_tab_asks_for_one_query() {
    let mut app = App::new();
    let eff = app.handle_gpio_event(Button::Select);
    assert_eq!(eff, Effect::QueryStorage);
    app.note_storage(None, None);
    // a second Select while the tab is open is forwarded, not a reopen
    let eff = app.handle_gpio_event(Button::Select);
    assert_eq!(eff, Effect::Nothing);
}

#[test]
fn storage_snapshot_is_discarded_on_close() {
    let mut app = App::new();
    app.handle_gpio_event(Button::Select);
    app.note_storage(
        Some(SDHandler::from_mount("/media/sd".to_string())),
        Some("2.5.1".to_string()),
    );
    app.handle_gpio_event(Button::Back);
    match &app.tabs[0] {
        Tab::Sd(t) => {
            assert!(!t.state.active);
            assert!(t.sd_card.is_none());
            assert!(t.version.is_none());
        },
        _ => panic!("tab 0 shows storage"),
    }
}

#[test]
fn names_and_colors_of_the_tabs() {
    let app = App::new();
    let names: Vec<String> = app.tabs.iter().map(|t| t.tab_name()).collect();
    assert_eq!(names, vec!["SD Card", "Replays", "Smashscope", "Exit"]);
    let colors: Vec<TabColor> = app.tabs.iter().map(|t| t.tab_color()).collect();
    assert_eq!(
        colors,
        vec![TabColor::Green, TabColor::Fuchsia, TabColor::Indigo, TabColor::Red]
    );
}

#[test]
fn the_spawn_command_is_fixed() {
    let cmd = SmashscopeTab::spawn_command();
    assert_eq!(cmd.program, "dolphin-emu");
    assert_eq!(cmd.args, vec!["-b", "-e", "boot.dol"]);
    assert!(cmd.discard_streams);
}

#[test]
fn metadata_locations_are_fixed() {
    assert_eq!(SDHandler::apps_dir_name(), "apps");
    assert_eq!(SDHandler::meta_file_name(), "meta.xml");
}

#[test]
fn buttons_round_trip_through_their_lines() {
    for b in Button::list() {
        assert_eq!(Button::from_u8(b.pin()), b);
    }
    assert_eq!(Button::from_u8(17), Button::Up);
    assert_eq!(Button::from_u8(22), Button::Down);
    assert_eq!(Button::from_u8(23), Button::Select);
    assert_eq!(Button::from_u8(27), Button::Back);
    // an unknown line degrades to Back
    assert_eq!(Button::from_u8(99), Button::Back);
}
