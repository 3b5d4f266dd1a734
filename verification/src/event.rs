//! The event bus: every input source of the panel is merged into one ordered
//! stream of `Event` values, consumed one at a time by the control loop.
//!
//! The bus is a strict first-in first-out queue: `send` and its variants push
//! to the back, `next` pops from the front, and nothing is ever reordered,
//! coalesced or dropped. The concurrent plumbing that feeds the queue from
//! other threads lives outside the library; the queue itself is the single
//! ordered stream the control loop sees.

use vstd::prelude::*;

verus! {

use crate::gpio::Button;

/// A key press read from the terminal, reduced to the parts the control
/// loop interprets: which key, and whether Control was held.
#[derive(Clone, Copy, Debug, PartialEq, Eq, Structural)]
pub struct KeyPress {
    pub code: KeyCode,
    pub ctrl: bool,
}

/// The terminal keys the panel distinguishes. Every other key arrives as
/// `Other` and produces no state change.
#[derive(Clone, Copy, Debug, PartialEq, Eq, Structural)]
pub enum KeyCode {
    Esc,
    Char(char),
    Other,
}

/// An internally generated directive, produced by the control loop or by a
/// tab's input handler rather than by an input device.
#[derive(Clone, Copy, Debug, PartialEq, Eq, Structural)]
pub enum AppEvent {
    Quit,
}

/// One message on the event bus. Each variant has exactly one producer:
/// the ticker, the terminal reader, the hardware monitor, or the
/// application itself.
#[derive(Clone, Copy, Debug, PartialEq, Eq, Structural)]
pub enum Event {
    /// Periodic heartbeat; reserved for animation or polling, currently a no-op.
    Tick,
    /// A key press from the terminal (the development stand-in for hardware).
    Key(KeyPress),
    /// A debounced physical button press.
    Gpio(Button),
    /// An internally generated command.
    App(AppEvent),
}

/// The ordered multi-producer, single-consumer event queue.
#[derive(Debug)]
pub struct EventHandler {
    queue: std::collections::VecDeque<Event>,
}

impl EventHandler {
    /// The pending events, oldest first.
    pub closed spec fn view(&self) -> Seq<Event> {
        self.queue@
    }

    /// A fresh bus with nothing pending.
    pub fn new() -> (r: Self)
        ensures
            r@ == Seq::<Event>::empty(),
    {
        EventHandler { queue: std::collections::VecDeque::new() }
    }

    /// Enqueues an arbitrary event at the back of the queue.
    pub fn send_event(&mut self, event: Event)
        ensures
            final(self)@ == old(self)@.push(event),
    {
        self.queue.push_back(event);
    }

    /// Enqueues an application command.
    pub fn send(&mut self, app_event: AppEvent)
        ensures
            final(self)@ == old(self)@.push(Event::App(app_event)),
    {
        self.send_event(Event::App(app_event));
    }

    /// Enqueues a button press, as the hardware monitor does.
    pub fn send_gpio(&mut self, button: Button)
        ensures
            final(self)@ == old(self)@.push(Event::Gpio(button)),
    {
        self.send_event(Event::Gpio(button));
    }

    /// Pops the oldest pending event, or `None` when the queue is empty.
    /// Events leave the queue in exactly the order they entered it.
    pub fn next(&mut self) -> (r: Option<Event>)
        ensures
            old(self)@.len() == 0 ==> r is None && final(self)@ == old(self)@,
            old(self)@.len() > 0 ==> r == Some(old(self)@[0]) && final(self)@ == old(self)@.skip(1),
    {
        let r = self.queue.pop_front();
        proof {
            if old(self)@.len() > 0 {
                assert(self@ =~= old(self)@.skip(1));
            }
        }
        r
    }

    /// How many events are pending.
    pub fn len(&self) -> (n: usize)
        ensures
            n == self@.len(),
    {
        self.queue.len()
    }
}

} // verus!
