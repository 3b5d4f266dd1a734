//! The control loop's state and its navigation state machine.
//!
//! The application owns the screen mode, the ordered tab list with its
//! selection cursor, the running flag and the event bus. It consumes one
//! event at a time and applies the transition table: on the menu, Up and
//! Down move the selection (saturating, never out of bounds), Select opens
//! the selected tab; on an open tab, Back closes it and every other button
//! is forwarded to the tab's input handler; a quit command halts the loop
//! from any screen. Each transition is pinned down by a relational
//! specification, and the laws at the end of this module are proved from it.

use vstd::prelude::*;

use crate::disk::SDHandler;
use crate::event::AppEvent;
use crate::event::Event;
use crate::event::EventHandler;
use crate::event::KeyCode;
use crate::event::KeyPress;
use crate::gpio::Button;
use crate::tabs::Effect;
use crate::tabs::ExitTab;
use crate::tabs::ReplaysTab;
use crate::tabs::SdTab;
use crate::tabs::SmashscopeTab;
use crate::tabs::Tab;
use crate::tabs::TabState;

verus! {

/// The top-level navigation mode. `Exiting` is terminal: once entered, the
/// run loop winds down after cleanup.
#[derive(Clone, Copy, Debug, PartialEq, Eq, Structural)]
pub enum CurrentScreen {
    Menu,
    Tab,
    Exiting,
}

/// The application state owned by the control loop's thread.
#[derive(Debug)]
pub struct App {
    /// Is the application running?
    pub running: bool,
    pub screen: CurrentScreen,
    pub tabs: Vec<Tab>,
    pub tab_index: usize,
    /// The ordered event bus feeding the loop.
    pub events: EventHandler,
}

/// The events a key press puts on the bus: Esc and `q` (and Ctrl-C) ask to
/// quit, and the `asdf` row emulates the four hardware buttons for
/// development without physical hardware. Every other key does nothing.
pub open spec fn key_pushes(key: KeyPress) -> Seq<Event> {
    match key.code {
        KeyCode::Esc => seq![Event::App(AppEvent::Quit)],
        KeyCode::Char(c) => if c == 'q' {
            seq![Event::App(AppEvent::Quit)]
        } else if (c == 'c' || c == 'C') && key.ctrl {
            seq![Event::App(AppEvent::Quit)]
        } else if c == 'a' {
            seq![Event::Gpio(Button::Up)]
        } else if c == 's' {
            seq![Event::Gpio(Button::Down)]
        } else if c == 'd' {
            seq![Event::Gpio(Button::Select)]
        } else if c == 'f' {
            seq![Event::Gpio(Button::Back)]
        } else {
            Seq::empty()
        },
        KeyCode::Other => Seq::empty(),
    }
}

/// The events a button press puts on the bus: only a button forwarded to an
/// open tab's input handler can enqueue anything.
pub open spec fn gpio_pushes(pre: App, b: Button) -> Seq<Event> {
    if pre.screen == CurrentScreen::Tab && b != Button::Back {
        pre.tabs@[pre.tab_index as int].spec_pushes(b)
    } else {
        Seq::empty()
    }
}

/// The fields a transition never touches stayed equal (the event queue is
/// accounted for separately).
pub open spec fn core_unchanged(pre: App, post: App) -> bool {
    &&& post.running == pre.running
    &&& post.screen == pre.screen
    &&& post.tab_index == pre.tab_index
    &&& post.tabs@ == pre.tabs@
}

/// The navigation state machine's transition table for one button press,
/// over everything but the event queue.
pub open spec fn gpio_fields_rel(pre: App, b: Button, post: App, eff: Effect) -> bool {
    let i = pre.tab_index as int;
    let n = pre.tabs@.len() as int;
    &&& post.running == pre.running
    &&& match pre.screen {
        CurrentScreen::Menu => match b {
            Button::Up => {
                &&& post.screen == CurrentScreen::Menu
                &&& post.tab_index as int == if i > 0 {
                    i - 1
                } else {
                    i
                }
                &&& post.tabs@ == pre.tabs@
                &&& eff == Effect::Nothing
            },
            Button::Down => {
                &&& post.screen == CurrentScreen::Menu
                &&& post.tab_index as int == if i + 1 < n {
                    i + 1
                } else {
                    i
                }
                &&& post.tabs@ == pre.tabs@
                &&& eff == Effect::Nothing
            },
            Button::Select => {
                &&& post.screen == CurrentScreen::Tab
                &&& post.tab_index == pre.tab_index
                &&& post.tabs@ == pre.tabs@.update(i, pre.tabs@[i].spec_opened())
                &&& eff == pre.tabs@[i].spec_open_effect()
            },
            Button::Back => {
                &&& post.screen == CurrentScreen::Menu
                &&& post.tab_index == pre.tab_index
                &&& post.tabs@ == pre.tabs@
                &&& eff == Effect::Nothing
            },
        },
        CurrentScreen::Tab => match b {
            Button::Back => {
                &&& post.screen == CurrentScreen::Menu
                &&& post.tab_index == pre.tab_index
                &&& post.tabs@ == pre.tabs@.update(i, pre.tabs@[i].spec_closed())
                &&& eff == pre.tabs@[i].spec_close_effect()
            },
            _ => {
                &&& post.screen == CurrentScreen::Tab
                &&& post.tab_index == pre.tab_index
                &&& post.tabs@ == pre.tabs@
                &&& eff == Effect::Nothing
            },
        },
        CurrentScreen::Exiting => {
            &&& post.screen == CurrentScreen::Exiting
            &&& post.tab_index == pre.tab_index
            &&& post.tabs@ == pre.tabs@
            &&& eff == Effect::Nothing
        },
    }
}

/// One button press, in full: the transition table plus what lands on the
/// event queue.
pub open spec fn gpio_step_rel(pre: App, b: Button, post: App, eff: Effect) -> bool {
    &&& gpio_fields_rel(pre, b, post, eff)
    &&& post.events@ == pre.events@ + gpio_pushes(pre, b)
}

/// Consuming the oldest pending event: what each event variant does to the
/// state, the queue, and the outside work owed.
pub open spec fn consume_rel(pre: App, post: App, eff: Effect) -> bool
    recommends
        pre.events@.len() > 0,
{
    let e = pre.events@[0];
    let rest = pre.events@.skip(1);
    match e {
        Event::Tick => {
            &&& core_unchanged(pre, post)
            &&& post.events@ == rest
            &&& eff == Effect::Nothing
        },
        Event::Key(k) => {
            &&& core_unchanged(pre, post)
            &&& post.events@ == rest + key_pushes(k)
            &&& eff == Effect::Nothing
        },
        Event::Gpio(b) => {
            &&& gpio_fields_rel(pre, b, post, eff)
            &&& post.events@ == rest + gpio_pushes(pre, b)
        },
        Event::App(a) => match a {
            AppEvent::Quit => {
                &&& !post.running
                &&& post.screen == CurrentScreen::Exiting
                &&& post.tab_index == pre.tab_index
                &&& post.tabs@ == pre.tabs@
                &&& post.events@ == rest
                &&& eff == Effect::Nothing
            },
        },
    }
}

/// One `handle_events` call, as a relation: with the loop running and an
/// event pending, the oldest is consumed; otherwise nothing at all changes.
pub open spec fn handle_step_rel(pre: App, post: App, eff: Effect) -> bool {
    if pre.running && pre.events@.len() > 0 {
        consume_rel(pre, post, eff)
    } else {
        &&& core_unchanged(pre, post)
        &&& post.events@ == pre.events@
        &&& eff == Effect::Nothing
    }
}

impl App {
    /// The selection cursor points into the tab list, and every tab's own
    /// invariant holds.
    pub open spec fn wf(self) -> bool {
        &&& self.tabs@.len() > 0
        &&& (self.tab_index as int) < self.tabs@.len()
        &&& forall|j: int| 0 <= j < self.tabs@.len() ==> self.tabs@[j].wf()
    }

    /// Constructs the startup state: running, on the menu, with the four
    /// tabs in their fixed order, the first selected, and nothing pending.
    pub fn new() -> (r: Self)
        ensures
            r.wf(),
            r.running,
            r.screen == CurrentScreen::Menu,
            r.tab_index == 0,
            r.tabs@.len() == 4,
            r.tabs@[0] == Tab::Sd(
                SdTab { state: TabState { active: false }, sd_card: None, version: None },
            ),
            r.tabs@[1] == Tab::Replays(ReplaysTab { state: TabState { active: false } }),
            r.tabs@[2] == Tab::Smashscope(
                SmashscopeTab { state: TabState { active: false }, dolphin: None },
            ),
            r.tabs@[3] == Tab::Exit(ExitTab { state: TabState { active: false } }),
            r.events@ == Seq::<Event>::empty(),
    {
        let mut tabs: Vec<Tab> = Vec::new();
        tabs.push(Tab::Sd(SdTab { state: TabState { active: false }, sd_card: None, version: None }));
        tabs.push(Tab::Replays(ReplaysTab { state: TabState { active: false } }));
        tabs.push(
            Tab::Smashscope(SmashscopeTab { state: TabState { active: false }, dolphin: None }),
        );
        tabs.push(Tab::Exit(ExitTab { state: TabState { active: false } }));
        App {
            running: true,
            screen: CurrentScreen::Menu,
            tabs,
            tab_index: 0,
            events: EventHandler::new(),
        }
    }

    /// Consumes the oldest pending event and applies it, handing back the
    /// outside work owed. Does nothing once the application has stopped
    /// running — no event is processed past a quit — and nothing when the
    /// queue is empty.
    pub fn handle_events(&mut self) -> (eff: Effect)
        requires
            old(self).wf(),
        ensures
            final(self).wf(),
            handle_step_rel(*old(self), *final(self), eff),
    {
        if !self.running {
            return Effect::Nothing;
        }
        let next = self.events.next();
        match next {
            None => Effect::Nothing,
            Some(e) => match e {
                Event::Tick => {
                    self.tick();
                    Effect::Nothing
                },
                Event::Key(k) => {
                    self.handle_key_event(k);
                    Effect::Nothing
                },
                Event::Gpio(b) => self.handle_gpio_event(b),
                Event::App(a) => match a {
                    AppEvent::Quit => {
                        self.quit();
                        Effect::Nothing
                    },
                },
            },
        }
    }

    /// Applies one terminal key press: recognized keys put their event on
    /// the bus; nothing else changes.
    pub fn handle_key_event(&mut self, key: KeyPress)
        ensures
            core_unchanged(*old(self), *final(self)),
            final(self).events@ == old(self).events@ + key_pushes(key),
    {
        match key.code {
            KeyCode::Esc => self.events.send(AppEvent::Quit),
            KeyCode::Char(c) => {
                if c == 'q' {
                    self.events.send(AppEvent::Quit);
                } else if (c == 'c' || c == 'C') && key.ctrl {
                    self.events.send(AppEvent::Quit);
                } else if c == 'a' {
                    self.events.send_gpio(Button::Up);
                } else if c == 's' {
                    self.events.send_gpio(Button::Down);
                } else if c == 'd' {
                    self.events.send_gpio(Button::Select);
                } else if c == 'f' {
                    self.events.send_gpio(Button::Back);
                }
            },
            KeyCode::Other => {},
        }
        proof {
            assert(self.events@ =~= old(self).events@ + key_pushes(key));
        }
    }

    /// Applies one button press through the navigation state machine.
    pub fn handle_gpio_event(&mut self, button: Button) -> (eff: Effect)
        requires
            old(self).wf(),
        ensures
            final(self).wf(),
            gpio_step_rel(*old(self), button, *final(self), eff),
    {
        let eff = match self.screen {
            CurrentScreen::Menu => match button {
                Button::Up => {
                    self.prev_tab();
                    Effect::Nothing
                },
                Button::Down => {
                    self.next_tab();
                    Effect::Nothing
                },
                Button::Select => {
                    self.screen = CurrentScreen::Tab;
                    let i = self.tab_index;
                    let mut t = self.tabs.remove(i);
                    let eff = t.open();
                    self.tabs.insert(i, t);
                    proof {
                        assert(self.tabs@ =~= old(self).tabs@.update(
                            i as int,
                            old(self).tabs@[i as int].spec_opened(),
                        ));
                    }
                    eff
                },
                Button::Back => Effect::Nothing,
            },
            CurrentScreen::Tab => match button {
                Button::Back => {
                    self.screen = CurrentScreen::Menu;
                    let i = self.tab_index;
                    let mut t = self.tabs.remove(i);
                    let eff = t.close();
                    self.tabs.insert(i, t);
                    proof {
                        assert(self.tabs@ =~= old(self).tabs@.update(
                            i as int,
                            old(self).tabs@[i as int].spec_closed(),
                        ));
                    }
                    eff
                },
                _ => {
                    let i = self.tab_index;
                    let mut t = self.tabs.remove(i);
                    t.handle_gpio_event(button, &mut self.events);
                    self.tabs.insert(i, t);
                    proof {
                        assert(self.tabs@ =~= old(self).tabs@);
                    }
                    Effect::Nothing
                },
            },
            CurrentScreen::Exiting => Effect::Nothing,
        };
        proof {
            assert(self.events@ =~= old(self).events@ + gpio_pushes(*old(self), button));
        }
        eff
    }

    /// The periodic heartbeat; reserved for future animation or polling,
    /// deliberately a no-op today.
    pub fn tick(&self) {
    }

    /// Stops the loop: running becomes false and the screen enters its
    /// terminal mode, from any state.
    pub fn quit(&mut self)
        ensures
            !final(self).running,
            final(self).screen == CurrentScreen::Exiting,
            final(self).tab_index == old(self).tab_index,
            final(self).tabs@ == old(self).tabs@,
            final(self).events@ == old(self).events@,
    {
        self.running = false;
        self.screen = CurrentScreen::Exiting;
    }

    /// Moves the selection to the next tab, saturating at the last.
    pub fn next_tab(&mut self)
        requires
            old(self).wf(),
        ensures
            final(self).wf(),
            final(self).tab_index as int == if old(self).tab_index as int + 1 < old(
                self,
            ).tabs@.len() {
                old(self).tab_index as int + 1
            } else {
                old(self).tab_index as int
            },
            final(self).running == old(self).running,
            final(self).screen == old(self).screen,
            final(self).tabs@ == old(self).tabs@,
            final(self).events@ == old(self).events@,
    {
        let n = self.tabs.len();
        if self.tab_index < n - 1 {
            self.tab_index += 1;
        }
    }

    /// Moves the selection to the previous tab, saturating at the first.
    pub fn prev_tab(&mut self)
        ensures
            final(self).tab_index as int == if old(self).tab_index > 0 {
                old(self).tab_index as int - 1
            } else {
                old(self).tab_index as int
            },
            final(self).running == old(self).running,
            final(self).screen == old(self).screen,
            final(self).tabs@ == old(self).tabs@,
            final(self).events@ == old(self).events@,
    {
        if self.tab_index > 0 {
            self.tab_index -= 1;
        }
    }

    /// The selected tab.
    pub fn current_tab(&self) -> (r: &Tab)
        requires
            self.wf(),
        ensures
            *r == self.tabs@[self.tab_index as int],
    {
        &self.tabs[self.tab_index]
    }

    /// Stores the outcome of the storage query owed after the storage tab
    /// was opened (`Effect::QueryStorage`).
    pub fn note_storage(&mut self, sd_card: Option<SDHandler>, version: Option<String>)
        requires
            old(self).wf(),
            old(self).tabs@[old(self).tab_index as int] matches Tab::Sd(t) && t.state.active,
        ensures
            final(self).wf(),
            final(self).running == old(self).running,
            final(self).screen == old(self).screen,
            final(self).tab_index == old(self).tab_index,
            final(self).events@ == old(self).events@,
            final(self).tabs@ == old(self).tabs@.update(
                old(self).tab_index as int,
                Tab::Sd(
                    (SdTab {
                        state: old(self).tabs@[old(self).tab_index as int]->Sd_0.state,
                        sd_card: sd_card,
                        version: version,
                    }),
                ),
            ),
    {
        let i = self.tab_index;
        let t = self.tabs.remove(i);
        match t {
            Tab::Sd(mut sd) => {
                sd.note_storage(sd_card, version);
                self.tabs.insert(i, Tab::Sd(sd));
            },
            _ => {
                self.tabs.insert(i, t);
            },
        }
        proof {
            assert(self.tabs@ =~= old(self).tabs@.update(
                i as int,
                Tab::Sd(
                    (SdTab {
                        state: old(self).tabs@[i as int]->Sd_0.state,
                        sd_card: sd_card,
                        version: version,
                    }),
                ),
            ));
        }
    }

    /// Stores the outcome of the spawn owed after the launcher tab was
    /// opened (`Effect::Spawn`): the child's identifier, or `None` when the
    /// spawn failed.
    pub fn note_spawn(&mut self, child: Option<u32>)
        requires
            old(self).wf(),
            old(self).tabs@[old(self).tab_index as int] matches Tab::Smashscope(t)
                && t.state.active,
        ensures
            final(self).wf(),
            final(self).running == old(self).running,
            final(self).screen == old(self).screen,
            final(self).tab_index == old(self).tab_index,
            final(self).events@ == old(self).events@,
            final(self).tabs@ == old(self).tabs@.update(
                old(self).tab_index as int,
                Tab::Smashscope(
                    (SmashscopeTab {
                        state: old(self).tabs@[old(self).tab_index as int]->Smashscope_0.state,
                        dolphin: child,
                    }),
                ),
            ),
    {
        let i = self.tab_index;
        let t = self.tabs.remove(i);
        match t {
            Tab::Smashscope(mut sc) => {
                sc.note_spawn(child);
                self.tabs.insert(i, Tab::Smashscope(sc));
            },
            _ => {
                self.tabs.insert(i, t);
            },
        }
        proof {
            assert(self.tabs@ =~= old(self).tabs@.update(
                i as int,
                Tab::Smashscope(
                    (SmashscopeTab {
                        state: old(self).tabs@[i as int]->Smashscope_0.state,
                        dolphin: child,
                    }),
                ),
            ));
        }
    }
}

impl Default for App {
    /// The startup state, as [`App::new`] builds it.
    fn default() -> (r: Self)
        ensures
            r.wf(),
            r.running,
            r.screen == CurrentScreen::Menu,
            r.tab_index == 0,
            r.tabs@.len() == 4,
            r.tabs@[0] == Tab::Sd(
                SdTab { state: TabState { active: false }, sd_card: None, version: None },
            ),
            r.tabs@[1] == Tab::Replays(ReplaysTab { state: TabState { active: false } }),
            r.tabs@[2] == Tab::Smashscope(
                SmashscopeTab { state: TabState { active: false }, dolphin: None },
            ),
            r.tabs@[3] == Tab::Exit(ExitTab { state: TabState { active: false } }),
            r.events@ == Seq::<Event>::empty(),
    {
        App::new()
    }
}

/// A run of button presses: each applied in turn through the full
/// one-button relation.
pub open spec fn gpio_steps_rel(pre: App, buttons: Seq<Button>, post: App) -> bool
    decreases buttons.len(),
{
    if buttons.len() == 0 {
        post == pre
    } else {
        exists|mid: App, eff: Effect|
            gpio_step_rel(pre, buttons[0], mid, eff) && gpio_steps_rel(mid, buttons.skip(1), post)
    }
}

/// One button press keeps the application well-formed: the cursor stays in
/// bounds and every tab's invariant survives its transition.
pub proof fn lemma_gpio_step_preserves_wf(pre: App, b: Button, post: App, eff: Effect)
    requires
        pre.wf(),
        gpio_step_rel(pre, b, post, eff),
    ensures
        post.wf(),
{
    let i = pre.tab_index as int;
    assert forall|j: int| 0 <= j < post.tabs@.len() implies post.tabs@[j].wf() by {
        if post.tabs@ == pre.tabs@.update(i, pre.tabs@[i].spec_opened()) {
            if j != i {
                assert(post.tabs@[j] == pre.tabs@[j]);
            }
        }
        if post.tabs@ == pre.tabs@.update(i, pre.tabs@[i].spec_closed()) {
            if j != i {
                assert(post.tabs@[j] == pre.tabs@[j]);
            }
        }
    }
}

/// For every sequence of button presses from a well-formed state, the
/// selection cursor stays within the tab list: `0 <= tab_index < tabs.len()`.
pub proof fn lemma_selection_stays_in_bounds(pre: App, buttons: Seq<Button>, post: App)
    requires
        pre.wf(),
        gpio_steps_rel(pre, buttons, post),
    ensures
        post.wf(),
        0 <= post.tab_index,
        (post.tab_index as int) < post.tabs@.len(),
    decreases buttons.len(),
{
    if buttons.len() > 0 {
        let (mid, eff): (App, Effect) = choose|mid: App, eff: Effect|
            gpio_step_rel(pre, buttons[0], mid, eff) && gpio_steps_rel(mid, buttons.skip(1), post);
        lemma_gpio_step_preserves_wf(pre, buttons[0], mid, eff);
        lemma_selection_stays_in_bounds(mid, buttons.skip(1), post);
    }
}

/// From the menu, Select then Back lands back on the menu with the selected
/// tab closed again and, for the process-launcher tab, no live child handle.
pub proof fn lemma_select_then_back(pre: App, mid: App, post: App, e1: Effect, e2: Effect)
    requires
        pre.wf(),
        pre.screen == CurrentScreen::Menu,
        gpio_step_rel(pre, Button::Select, mid, e1),
        gpio_step_rel(mid, Button::Back, post, e2),
    ensures
        post.screen == CurrentScreen::Menu,
        !post.tabs@[pre.tab_index as int].spec_active(),
        post.tabs@[pre.tab_index as int].spec_child() is None,
{
}

/// Any number of `handle_events` calls in a row, as the run loop makes
/// them.
pub open spec fn handle_steps_rel(pre: App, n: nat, post: App) -> bool
    decreases n,
{
    if n == 0 {
        post == pre
    } else {
        exists|mid: App, eff: Effect|
            handle_step_rel(pre, mid, eff) && handle_steps_rel(mid, (n - 1) as nat, post)
    }
}

/// Once the running flag is clear, the halt is permanent: however many more
/// times the loop calls `handle_events`, no event is consumed, nothing is
/// owed, and every field and the queue stand exactly as they were.
pub proof fn lemma_halt_is_permanent(pre: App, n: nat, post: App)
    requires
        !pre.running,
        handle_steps_rel(pre, n, post),
    ensures
        !post.running,
        core_unchanged(pre, post),
        post.events@ == pre.events@,
    decreases n,
{
    if n > 0 {
        let (mid, eff): (App, Effect) = choose|mid: App, eff: Effect|
            handle_step_rel(pre, mid, eff) && handle_steps_rel(mid, (n - 1) as nat, post);
        lemma_halt_is_permanent(mid, (n - 1) as nat, post);
    }
}

/// A quit command halts the application from any screen: consuming
/// `App(Quit)` clears the running flag and enters the terminal screen. Once
/// the flag is clear, `handle_events` processes nothing further, by its
/// contract and by `lemma_halt_is_permanent`.
pub proof fn lemma_quit_halts(pre: App, post: App, eff: Effect)
    requires
        pre.events@.len() > 0,
        pre.events@[0] == Event::App(AppEvent::Quit),
        consume_rel(pre, post, eff),
    ensures
        !post.running,
        post.screen == CurrentScreen::Exiting,
        post.tabs@ == pre.tabs@,
{
}

} // verus!
