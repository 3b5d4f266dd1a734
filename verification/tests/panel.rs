use kiosk_panel::app::App;
use kiosk_panel::app::CurrentScreen;
use kiosk_panel::event::AppEvent;
use kiosk_panel::event::Event;
use kiosk_panel::event::EventHandler;
use kiosk_panel::event::KeyCode;
use kiosk_panel::event::KeyPress;
use kiosk_panel::gpio::Button;
use kiosk_panel::tabs::Effect;
use kiosk_panel::tabs::Tab;

fn active_of(tab: &Tab) -> bool {
    match tab {
        Tab::Sd(t) => t.state.active,
        Tab::Replays(t) => t.state.active,
        Tab::Smashscope(t) => t.state.active,
        Tab::Exit(t) => t.state.active,
    }
}

#[test]
fn event_bus_is_fifo() {
    let mut bus = EventHandler::new();
    bus.send_event(Event::Tick);
    bus.send_gpio(Button::Up);
    bus.send(AppEvent::Quit);
    assert_eq!(bus.len(), 3);
    assert_eq!(bus.next(), Some(Event::Tick));
    assert_eq!(bus.next(), Some(Event::Gpio(Button::Up)));
    assert_eq!(bus.next(), Some(Event::App(AppEvent::Quit)));
    assert_eq!(bus.next(), None);
}

#[test]
fn selection_saturates_at_both_ends() {
    let mut app = App::new();
    assert_eq!(app.tab_index, 0);
    app.handle_gpio_event(Button::Up);
    assert_eq!(app.tab_index, 0);
    for _ in 0..10 {
        app.handle_gpio_event(Button::Down);
    }
    assert_eq!(app.tab_index, app.tabs.len() - 1);
    app.handle_gpio_event(Button::Up);
    assert_eq!(app.tab_index, app.tabs.len() - 2);
}

#[test]
fn down_select_back_scenario() {
    // initial state: Menu, selection 0
    let mut app = App::new();
    assert_eq!(app.screen, CurrentScreen::Menu);
    assert_eq!(app.tab_index, 0);
    // Down: selection 1, still Menu
    app.handle_gpio_event(Button::Down);
    assert_eq!(app.tab_index, 1);
    assert_eq!(app.screen, CurrentScreen::Menu);
    // Select: tab 1 opens
    app.handle_gpio_event(Button::Select);
    assert_eq!(app.screen, CurrentScreen::Tab);
    assert!(active_of(&app.tabs[1]));
    // Back: tab 1 closes, back to Menu
    app.handle_gpio_event(Button::Back);
    assert_eq!(app.screen, CurrentScreen::Menu);
    assert!(!active_of(&app.tabs[1]));
}

#[test]
fn exit_tab_select_enqueues_quit_and_halts() {
    let mut app = App::new();
    app.tab_index = 3;
    app.handle_gpio_event(Button::Select);
    assert_eq!(app.screen, CurrentScreen::Tab);
    // the exit tab's override translates Select into an App(Quit) event
    app.handle_gpio_event(Button::Select);
    assert_eq!(app.events.len(), 1);
    // consuming it stops the application
    app.handle_events();
    assert!(!app.running);
    assert_eq!(app.screen, CurrentScreen::Exiting);
}

#[test]
fn quit_halts_from_menu() {
    let mut app = App::new();
    app.events.send(AppEvent::Quit);
    app.handle_events();
    assert!(!app.running);
    assert_eq!(app.screen, CurrentScreen::Exiting);
}

#[test]
fn quit_halts_from_open_tab() {
    let mut app = App::new();
    app.handle_gpio_event(Button::Select);
    assert_eq!(app.screen, CurrentScreen::Tab);
    app.events.send(AppEvent::Quit);
    app.handle_events();
    assert!(!app.running);
    assert_eq!(app.screen, CurrentScreen::Exiting);
}

#[test]
fn no_event_is_processed_after_quit() {
    let mut app = App::new();
    app.events.send(AppEvent::Quit);
    app.events.send_gpio(Button::Down);
    app.handle_events();
    assert!(!app.running);
    // the pending Down stays pending and the state stays put
    let eff = app.handle_events();
    assert_eq!(eff, Effect::Nothing);
    assert_eq!(app.events.len(), 1);
    assert_eq!(app.tab_index, 0);
}

#[test]
fn key_presses_map_to_buttons_and_quit() {
    let mut app = App::new();
    app.handle_key_event(KeyPress { code: KeyCode::Char('a'), ctrl: false });
    app.handle_key_event(KeyPress { code: KeyCode::Char('s'), ctrl: false });
    app.handle_key_event(KeyPress { code: KeyCode::Char('d'), ctrl: false });
    app.handle_key_event(KeyPress { code: KeyCode::Char('f'), ctrl: false });
    assert_eq!(app.events.next(), Some(Event::Gpio(Button::Up)));
    assert_eq!(app.events.next(), Some(Event::Gpio(Button::Down)));
    assert_eq!(app.events.next(), Some(Event::Gpio(Button::Select)));
    assert_eq!(app.events.next(), Some(Event::Gpio(Button::Back)));

    app.handle_key_event(KeyPress { code: KeyCode::Esc, ctrl: false });
    assert_eq!(app.events.next(), Some(Event::App(AppEvent::Quit)));
    app.handle_key_event(KeyPress { code: KeyCode::Char('q'), ctrl: false });
    assert_eq!(app.events.next(), Some(Event::App(AppEvent::Quit)));
    app.handle_key_event(KeyPress { code: KeyCode::Char('c'), ctrl: true });
    assert_eq!(app.events.next(), Some(Event::App(AppEvent::Quit)));

    // unrecognized keys do nothing
    app.handle_key_event(KeyPress { code: KeyCode::Char('c'), ctrl: false });
    app.handle_key_event(KeyPress { code: KeyCode::Char('x'), ctrl: false });
    app.handle_key_event(KeyPress { code: KeyCode::Other, ctrl: false });
    assert_eq!(app.events.next(), None);
}

#[test]
fn tick_changes_nothing() {
    let mut app = App::new();
    app.events.send_event(Event::Tick);
    let eff = app.handle_events();
    assert_eq!(eff, Effect::Nothing);
    assert_eq!(app.screen, CurrentScreen::Menu);
    assert_eq!(app.tab_index, 0);
    assert!(app.running);
    assert_eq!(app.events.len(), 0);
}

#[test]
fn default_matches_new() {
    let app = App::default();
    assert!(app.running);
    assert_eq!(app.screen, CurrentScreen::Menu);
    assert_eq!(app.tab_index, 0);
    assert_eq!(app.tabs.len(), 4);
    assert!(matches!(app.current_tab(), Tab::Sd(_)));
}
