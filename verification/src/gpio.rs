//! Hardware button input: the mapping between physical interrupt lines and
//! logical `Button` symbols, and the handle the hardware monitor thread uses
//! to push button presses onto the event bus.
//!
//! The monitor thread itself (interrupt registration, debouncing, the
//! bounded-timeout polling loop) runs outside the library; it resolves each
//! qualifying edge to a line number, maps it through [`Button::from_u8`] and
//! sends the result with [`GpioHandler::send`].

use vstd::prelude::*;

verus! {

/// A logical, debounced button press, decoupled from raw line identity.
#[derive(Clone, Copy, Debug, PartialEq, Eq, Structural)]
pub enum Button {
    Up,
    Down,
    Select,
    Back,
}

impl Button {
    /// The physical input line this button is wired to.
    pub fn pin(&self) -> (n: u8)
        ensures
            n == self.spec_pin(),
    {
        match self {
            Button::Up => 17,
            Button::Down => 22,
            Button::Select => 23,
            Button::Back => 27,
        }
    }

    /// The line number of each button.
    pub open spec fn spec_pin(&self) -> u8 {
        match self {
            Button::Up => 17,
            Button::Down => 22,
            Button::Select => 23,
            Button::Back => 27,
        }
    }

    /// Resolves a physical line number back to its button. Every number that
    /// is no button's line resolves to `Back`, so the mapping is total.
    pub fn from_u8(n: u8) -> (b: Self)
        ensures
            b == Self::spec_from_u8(n),
    {
        match n {
            17 => Button::Up,
            22 => Button::Down,
            23 => Button::Select,
            _ => Button::Back,
        }
    }

    /// The line-to-button mapping, the inverse of `spec_pin` on real lines.
    pub open spec fn spec_from_u8(n: u8) -> Button {
        if n == 17 {
            Button::Up
        } else if n == 22 {
            Button::Down
        } else if n == 23 {
            Button::Select
        } else {
            Button::Back
        }
    }

    /// Every button, in the order the monitor registers their lines.
    pub fn list() -> (r: Vec<Self>)
        ensures
            r@ == seq![Button::Up, Button::Down, Button::Select, Button::Back],
    {
        let mut r: Vec<Button> = Vec::new();
        r.push(Button::Up);
        r.push(Button::Down);
        r.push(Button::Select);
        r.push(Button::Back);
        proof {
            assert(r@ =~= seq![Button::Up, Button::Down, Button::Select, Button::Back]);
        }
        r
    }

    /// Round trip: mapping a button's own line back through `spec_from_u8`
    /// yields the same button, for every button.
    pub proof fn lemma_pin_round_trip(b: Button)
        ensures
            Self::spec_from_u8(b.spec_pin()) == b,
    {
    }
}

#[verifier::external_type_specification]
#[verifier::external_body]
#[verifier::reject_recursive_types(T)]
pub struct ExSender<T>(std::sync::mpsc::Sender<T>);

/// The hardware monitor's handle on the event bus: a clonable channel sender
/// feeding the control loop's thread.
#[derive(Debug)]
pub struct GpioHandler {
    sender: std::sync::mpsc::Sender<crate::event::Event>,
}

impl GpioHandler {
    /// Wraps a channel sender for the monitor thread's use.
    pub fn new(sender: std::sync::mpsc::Sender<crate::event::Event>) -> Self {
        GpioHandler { sender }
    }

    /// Pushes one event onto the channel. A send failure means the receiver
    /// is gone and the process is shutting down, so it is deliberately
    /// swallowed: no user-intent event is dropped while the loop still runs.
    pub fn send(&self, event: crate::event::Event) {
        send_on_channel(&self.sender, event);
    }
}

/// Relies on `std::sync::mpsc::Sender::send`: queues the value for the
/// receiver, in send order, failing only when the receiver has disconnected.
/// The result is discarded because a severed bus means imminent shutdown.
#[verifier::external_body]
fn send_on_channel(sender: &std::sync::mpsc::Sender<crate::event::Event>, event: crate::event::Event) {
    let _ = sender.send(event);
}

} // verus!
