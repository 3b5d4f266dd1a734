//! The tabs: selectable, stateful feature units with an open/close lifecycle
//! and an input handler, dispatched over a closed set of variants.
//!
//! Opening or closing a tab may call for outside work — querying storage, or
//! spawning and terminating the emulator process. A tab never performs that
//! work itself: its lifecycle operations return an [`Effect`] naming the work
//! owed, the I/O layer performs it, and hands the outcome back through
//! [`SdTab::note_storage`] or [`SmashscopeTab::note_spawn`]. Every decision —
//! when to query, when to spawn, what to do with the outcome — is made here.

use vstd::prelude::*;

use crate::disk::SDHandler;
use crate::event::AppEvent;
use crate::event::Event;
use crate::event::EventHandler;
use crate::gpio::Button;

verus! {

/// The lifecycle flag every tab carries: whether the tab is currently open.
#[derive(Clone, Copy, Debug, PartialEq, Eq, Structural)]
pub struct TabState {
    pub active: bool,
}

impl Default for TabState {
    /// A tab starts closed.
    fn default() -> (r: Self)
        ensures
            !r.active,
    {
        TabState { active: false }
    }
}

/// The color a tab is painted with; the renderer maps each to its palette.
#[derive(Clone, Copy, Debug, PartialEq, Eq, Structural)]
pub enum TabColor {
    Green,
    Fuchsia,
    Indigo,
    Red,
}

/// Outside work a lifecycle transition asks the I/O layer to perform.
/// `Nothing` means the transition is complete by itself.
#[derive(Clone, Copy, Debug, PartialEq, Eq, Structural)]
pub enum Effect {
    /// No outside work owed.
    Nothing,
    /// Query the storage provider and report back with [`SdTab::note_storage`].
    QueryStorage,
    /// Spawn the emulator and report back with [`SmashscopeTab::note_spawn`].
    Spawn,
    /// Force-terminate the child process with this identifier.
    Kill(u32),
}

/// The storage-status tab: shows whether a medium is mounted and which
/// Slippi Nintendont version it carries, as a snapshot taken when opened.
#[derive(Debug, Default)]
pub struct SdTab {
    pub state: TabState,
    pub sd_card: Option<SDHandler>,
    pub version: Option<String>,
}

impl SdTab {
    /// A closed storage tab holds no snapshot.
    pub open spec fn wf(self) -> bool {
        !self.state.active ==> self.sd_card is None && self.version is None
    }

    /// Opens the tab. A fresh open asks for one storage query; opening an
    /// already-open tab changes nothing and queries nothing.
    pub fn open(&mut self) -> (query: bool)
        ensures
            query == !old(self).state.active,
            final(self).state.active,
            final(self).sd_card == old(self).sd_card,
            final(self).version == old(self).version,
    {
        if self.state.active {
            return false;
        }
        self.state.active = true;
        true
    }

    /// Stores the outcome of the storage query made for this activation.
    pub fn note_storage(&mut self, sd_card: Option<SDHandler>, version: Option<String>)
        requires
            old(self).state.active,
        ensures
            final(self).state == old(self).state,
            final(self).sd_card == sd_card,
            final(self).version == version,
    {
        self.sd_card = sd_card;
        self.version = version;
    }

    /// Closes the tab and discards the snapshot, so the next open queries
    /// afresh: the medium may have been swapped meanwhile.
    pub fn close(&mut self)
        ensures
            !final(self).state.active,
            final(self).sd_card is None,
            final(self).version is None,
            final(self).wf(),
    {
        self.state.active = false;
        self.sd_card = None;
        self.version = None;
    }

    /// Read-only view of the lifecycle flag.
    pub fn tab_state(&self) -> (r: &TabState)
        ensures
            *r == self.state,
    {
        &self.state
    }

    /// Mutable access to the lifecycle flag.
    pub fn tab_state_mut(&mut self) -> (r: &mut TabState)
        ensures
            *r == old(self).state,
            final(self).state == *final(r),
            final(self).sd_card == old(self).sd_card,
            final(self).version == old(self).version,
    {
        &mut self.state
    }

    /// The tab's title.
    pub fn tab_name(&self) -> (r: String)
        ensures
            r@ == "SD Card"@,
    {
        "SD Card".to_owned()
    }

    /// The tab's color.
    pub fn tab_color(&self) -> (r: TabColor)
        ensures
            r == TabColor::Green,
    {
        TabColor::Green
    }
}

/// The replay-browser tab, a stub with the default lifecycle.
#[derive(Clone, Copy, Debug, Default, PartialEq, Eq, Structural)]
pub struct ReplaysTab {
    pub state: TabState,
}

impl ReplaysTab {
    /// Opens the tab.
    pub fn open(&mut self)
        ensures
            final(self).state.active,
    {
        self.state.active = true;
    }

    /// Closes the tab.
    pub fn close(&mut self)
        ensures
            !final(self).state.active,
    {
        self.state.active = false;
    }

    /// Read-only view of the lifecycle flag.
    pub fn tab_state(&self) -> (r: &TabState)
        ensures
            *r == self.state,
    {
        &self.state
    }

    /// Mutable access to the lifecycle flag.
    pub fn tab_state_mut(&mut self) -> (r: &mut TabState)
        ensures
            *r == old(self).state,
            final(self).state == *final(r),
    {
        &mut self.state
    }

    /// The tab's title.
    pub fn tab_name(&self) -> (r: String)
        ensures
            r@ == "Replays"@,
    {
        "Replays".to_owned()
    }

    /// The tab's color.
    pub fn tab_color(&self) -> (r: TabColor)
        ensures
            r == TabColor::Fuchsia,
    {
        TabColor::Fuchsia
    }
}

/// The command line a spawn runs: the program, its arguments in order, and
/// whether the child's standard output and error are discarded.
#[derive(Debug)]
pub struct SpawnCommand {
    pub program: String,
    pub args: Vec<String>,
    pub discard_streams: bool,
}

/// The process-launcher tab: opening it spawns the emulator, closing it
/// force-terminates the child. The child identifier is present exactly while
/// the tab is open and the spawn succeeded; an open tab without one is the
/// deliberate degraded state after a failed spawn.
#[derive(Clone, Copy, Debug, Default, PartialEq, Eq, Structural)]
pub struct SmashscopeTab {
    pub state: TabState,
    pub dolphin: Option<u32>,
}

impl SmashscopeTab {
    /// A closed launcher tab holds no child.
    pub open spec fn wf(self) -> bool {
        self.dolphin is Some ==> self.state.active
    }

    /// Opens the tab. A fresh open asks for one spawn; opening an
    /// already-open tab changes nothing and spawns nothing.
    pub fn open(&mut self) -> (spawn: bool)
        ensures
            spawn == !old(self).state.active,
            final(self).state.active,
            final(self).dolphin == old(self).dolphin,
    {
        if self.state.active {
            return false;
        }
        self.state.active = true;
        true
    }

    /// The exact spawn that `Effect::Spawn` owes: `dolphin-emu -b -e
    /// boot.dol`, with both standard streams discarded. The I/O layer runs
    /// precisely this command and nothing else.
    pub fn spawn_command() -> (r: SpawnCommand)
        ensures
            r.program@ == "dolphin-emu"@,
            r.args@.len() == 3,
            r.args@[0]@ == "-b"@,
            r.args@[1]@ == "-e"@,
            r.args@[2]@ == "boot.dol"@,
            r.discard_streams,
    {
        let mut args: Vec<String> = Vec::new();
        args.push("-b".to_owned());
        args.push("-e".to_owned());
        args.push("boot.dol".to_owned());
        SpawnCommand { program: "dolphin-emu".to_owned(), args, discard_streams: true }
    }

    /// Records the spawn outcome: the child's identifier, or `None` when the
    /// spawn failed. A failed spawn leaves the tab open with no child — a
    /// degraded state the renderer shows, never an error.
    pub fn note_spawn(&mut self, child: Option<u32>)
        requires
            old(self).state.active,
        ensures
            final(self).state == old(self).state,
            final(self).dolphin == child,
            final(self).wf(),
    {
        self.dolphin = child;
    }

    /// Closes the tab. Whatever child was live is handed back so the caller
    /// terminates it; this runs on every path that clears the active flag.
    /// Closing with no child (after a failed spawn) hands back nothing and
    /// is not an error.
    pub fn close(&mut self) -> (kill: Option<u32>)
        ensures
            !final(self).state.active,
            final(self).dolphin is None,
            kill == old(self).dolphin,
            final(self).wf(),
    {
        self.state.active = false;
        let kill = self.dolphin;
        self.dolphin = None;
        kill
    }

    /// Read-only view of the lifecycle flag.
    pub fn tab_state(&self) -> (r: &TabState)
        ensures
            *r == self.state,
    {
        &self.state
    }

    /// Mutable access to the lifecycle flag.
    pub fn tab_state_mut(&mut self) -> (r: &mut TabState)
        ensures
            *r == old(self).state,
            final(self).state == *final(r),
            final(self).dolphin == old(self).dolphin,
    {
        &mut self.state
    }

    /// The tab's title.
    pub fn tab_name(&self) -> (r: String)
        ensures
            r@ == "Smashscope"@,
    {
        "Smashscope".to_owned()
    }

    /// The tab's color.
    pub fn tab_color(&self) -> (r: TabColor)
        ensures
            r == TabColor::Indigo,
    {
        TabColor::Indigo
    }
}

/// The exit-confirmation tab: selecting it again asks the application to
/// quit, by putting an `App(Quit)` event on the bus.
#[derive(Clone, Copy, Debug, Default, PartialEq, Eq, Structural)]
pub struct ExitTab {
    pub state: TabState,
}

impl ExitTab {
    /// Opens the tab.
    pub fn open(&mut self)
        ensures
            final(self).state.active,
    {
        self.state.active = true;
    }

    /// Closes the tab.
    pub fn close(&mut self)
        ensures
            !final(self).state.active,
    {
        self.state.active = false;
    }

    /// Translates `Select` into a quit command on the event bus; every other
    /// button is ignored. The tab itself never changes.
    pub fn handle_gpio_event(&mut self, button: Button, events: &mut EventHandler)
        ensures
            *final(self) == *old(self),
            button == Button::Select ==> final(events)@ == old(events)@.push(
                Event::App(AppEvent::Quit),
            ),
            button != Button::Select ==> final(events)@ == old(events)@,
    {
        match button {
            Button::Select => events.send(AppEvent::Quit),
            _ => {},
        }
    }

    /// Read-only view of the lifecycle flag.
    pub fn tab_state(&self) -> (r: &TabState)
        ensures
            *r == self.state,
    {
        &self.state
    }

    /// Mutable access to the lifecycle flag.
    pub fn tab_state_mut(&mut self) -> (r: &mut TabState)
        ensures
            *r == old(self).state,
            final(self).state == *final(r),
    {
        &mut self.state
    }

    /// The tab's title.
    pub fn tab_name(&self) -> (r: String)
        ensures
            r@ == "Exit"@,
    {
        "Exit".to_owned()
    }

    /// The tab's color.
    pub fn tab_color(&self) -> (r: TabColor)
        ensures
            r == TabColor::Red,
    {
        TabColor::Red
    }
}

/// One tab of the panel: the closed set of variants the control loop
/// dispatches over.
#[derive(Debug)]
pub enum Tab {
    Sd(SdTab),
    Replays(ReplaysTab),
    Smashscope(SmashscopeTab),
    Exit(ExitTab),
}

impl Tab {
    /// Every variant's internal invariant.
    pub open spec fn wf(self) -> bool {
        match self {
            Tab::Sd(t) => t.wf(),
            Tab::Smashscope(t) => t.wf(),
            _ => true,
        }
    }

    /// Whether the tab is open.
    pub open spec fn spec_active(self) -> bool {
        match self {
            Tab::Sd(t) => t.state.active,
            Tab::Replays(t) => t.state.active,
            Tab::Smashscope(t) => t.state.active,
            Tab::Exit(t) => t.state.active,
        }
    }

    /// The child identifier the tab holds, for the launcher variant.
    pub open spec fn spec_child(self) -> Option<u32> {
        match self {
            Tab::Smashscope(t) => t.dolphin,
            _ => None,
        }
    }

    /// The tab after `open`: the active flag raised, everything else kept.
    pub open spec fn spec_opened(self) -> Tab {
        match self {
            Tab::Sd(t) => Tab::Sd(SdTab { state: TabState { active: true }, ..t }),
            Tab::Replays(t) => Tab::Replays(ReplaysTab { state: TabState { active: true } }),
            Tab::Smashscope(t) => Tab::Smashscope(
                SmashscopeTab { state: TabState { active: true }, ..t },
            ),
            Tab::Exit(t) => Tab::Exit(ExitTab { state: TabState { active: true } }),
        }
    }

    /// The outside work a fresh open asks for; an already-open tab, and the
    /// variants without collaborators, ask for nothing.
    pub open spec fn spec_open_effect(self) -> Effect {
        if self.spec_active() {
            Effect::Nothing
        } else {
            match self {
                Tab::Sd(_) => Effect::QueryStorage,
                Tab::Smashscope(_) => Effect::Spawn,
                _ => Effect::Nothing,
            }
        }
    }

    /// The tab after `close`: closed, with every snapshot and child handle
    /// discarded.
    pub open spec fn spec_closed(self) -> Tab {
        match self {
            Tab::Sd(_) => Tab::Sd(
                SdTab { state: TabState { active: false }, sd_card: None, version: None },
            ),
            Tab::Replays(_) => Tab::Replays(ReplaysTab { state: TabState { active: false } }),
            Tab::Smashscope(_) => Tab::Smashscope(
                SmashscopeTab { state: TabState { active: false }, dolphin: None },
            ),
            Tab::Exit(_) => Tab::Exit(ExitTab { state: TabState { active: false } }),
        }
    }

    /// The outside work a close asks for: terminating whatever child was
    /// live, and otherwise nothing.
    pub open spec fn spec_close_effect(self) -> Effect {
        match self.spec_child() {
            Some(id) => Effect::Kill(id),
            None => Effect::Nothing,
        }
    }

    /// The events a tab's input handler puts on the bus for a button: only
    /// the exit tab answers, translating `Select` into a quit command.
    pub open spec fn spec_pushes(self, button: Button) -> Seq<Event> {
        match self {
            Tab::Exit(_) => if button == Button::Select {
                seq![Event::App(AppEvent::Quit)]
            } else {
                Seq::empty()
            },
            _ => Seq::empty(),
        }
    }

    /// Whether the tab is open.
    pub fn is_active(&self) -> (r: bool)
        ensures
            r == self.spec_active(),
    {
        match self {
            Tab::Sd(t) => t.state.active,
            Tab::Replays(t) => t.state.active,
            Tab::Smashscope(t) => t.state.active,
            Tab::Exit(t) => t.state.active,
        }
    }

    /// Opens the tab and names the outside work owed for it.
    pub fn open(&mut self) -> (eff: Effect)
        ensures
            *final(self) == old(self).spec_opened(),
            eff == old(self).spec_open_effect(),
    {
        match self {
            Tab::Sd(t) => {
                let query = t.open();
                if query {
                    Effect::QueryStorage
                } else {
                    Effect::Nothing
                }
            },
            Tab::Replays(t) => {
                t.open();
                Effect::Nothing
            },
            Tab::Smashscope(t) => {
                let spawn = t.open();
                if spawn {
                    Effect::Spawn
                } else {
                    Effect::Nothing
                }
            },
            Tab::Exit(t) => {
                t.open();
                Effect::Nothing
            },
        }
    }

    /// Closes the tab and names the outside work owed for it.
    pub fn close(&mut self) -> (eff: Effect)
        ensures
            *final(self) == old(self).spec_closed(),
            eff == old(self).spec_close_effect(),
    {
        match self {
            Tab::Sd(t) => {
                t.close();
                Effect::Nothing
            },
            Tab::Replays(t) => {
                t.close();
                Effect::Nothing
            },
            Tab::Smashscope(t) => {
                let kill = t.close();
                match kill {
                    Some(id) => Effect::Kill(id),
                    None => Effect::Nothing,
                }
            },
            Tab::Exit(t) => {
                t.close();
                Effect::Nothing
            },
        }
    }

    /// Forwards a button to the tab's input handler. No variant mutates
    /// itself; the exit tab may put a quit command on the bus.
    pub fn handle_gpio_event(&mut self, button: Button, events: &mut EventHandler)
        ensures
            *final(self) == *old(self),
            final(events)@ == old(events)@ + old(self).spec_pushes(button),
    {
        match self {
            Tab::Exit(t) => {
                t.handle_gpio_event(button, events);
            },
            _ => {},
        }
        proof {
            assert(events@ =~= old(events)@ + old(self).spec_pushes(button));
        }
    }

    /// The tab's title.
    pub fn tab_name(&self) -> (r: String)
        ensures
            r@ == self.spec_name(),
    {
        match self {
            Tab::Sd(t) => t.tab_name(),
            Tab::Replays(t) => t.tab_name(),
            Tab::Smashscope(t) => t.tab_name(),
            Tab::Exit(t) => t.tab_name(),
        }
    }

    /// Each variant's title.
    pub open spec fn spec_name(self) -> Seq<char> {
        match self {
            Tab::Sd(_) => "SD Card"@,
            Tab::Replays(_) => "Replays"@,
            Tab::Smashscope(_) => "Smashscope"@,
            Tab::Exit(_) => "Exit"@,
        }
    }

    /// The tab's color.
    pub fn tab_color(&self) -> (r: TabColor)
        ensures
            r == self.spec_color(),
    {
        match self {
            Tab::Sd(t) => t.tab_color(),
            Tab::Replays(t) => t.tab_color(),
            Tab::Smashscope(t) => t.tab_color(),
            Tab::Exit(t) => t.tab_color(),
        }
    }

    /// Each variant's color.
    pub open spec fn spec_color(self) -> TabColor {
        match self {
            Tab::Sd(_) => TabColor::Green,
            Tab::Replays(_) => TabColor::Fuchsia,
            Tab::Smashscope(_) => TabColor::Indigo,
            Tab::Exit(_) => TabColor::Red,
        }
    }
}

/// Opening a tab that is already open owes no outside work: in particular,
/// an open storage tab is not queried again, and an open launcher tab does
/// not spawn a second child.
pub proof fn lemma_reopen_owes_nothing(t: Tab)
    ensures
        t.spec_opened().spec_open_effect() == Effect::Nothing,
{
}

/// Closing a tab that holds no child — the launcher after a failed spawn,
/// or any other variant — owes no termination.
pub proof fn lemma_close_without_child_kills_nothing(t: Tab)
    requires
        t.spec_child() is None,
    ensures
        t.spec_close_effect() == Effect::Nothing,
{
}

} // verus!
