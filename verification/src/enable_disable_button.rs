//! A button that switches something on and off by turns.

use vstd::prelude::*;

verus! {

/// What a press of the button asks for.
#[derive(Clone, Copy, Debug, PartialEq, Eq, Structural)]
pub enum Toggle {
    /// Switch the thing on.
    Enable,
    /// Switch the thing off.
    Disable,
}

/// What a toggle button holds, as mathematical values.
pub struct ToggleState {
    /// The name of the thing that the button switches.
    pub name: Seq<char>,
    /// Whether the thing is switched on.
    pub enabled: bool,
}

/// The outcome of one press.
#[derive(Debug, PartialEq, Eq)]
pub struct Press {
    /// The text that the button shows from now on.
    pub label: String,
    /// What is asked of the thing.
    pub event: Toggle,
}

/// The text written for a state: the word for the press that this state
/// answers with, a space and the name.
pub open spec fn label_text(enabled: bool, name: Seq<char>) -> Seq<char> {
    (if enabled {
        "Disable"@
    } else {
        "Enable"@
    }) + " "@ + name
}

/// What a press asks for in a state: to switch off what is on, and on what
/// is off.
pub open spec fn press_event(enabled: bool) -> Toggle {
    if enabled {
        Toggle::Disable
    } else {
        Toggle::Enable
    }
}

/// A button that switches a named thing on and off.
#[derive(Debug, PartialEq, Eq)]
pub struct ToggleButton {
    name: String,
    enabled: bool,
}

impl View for ToggleButton {
    type V = ToggleState;

    closed spec fn view(&self) -> ToggleState {
        ToggleState { name: self.name@, enabled: self.enabled }
    }
}

impl ToggleButton {
    /// A button for the thing called `name`, which starts switched off.
    pub fn new(name: String) -> (r: ToggleButton)
        ensures
            r@.name == name@,
            !r@.enabled,
    {
        ToggleButton { name, enabled: false }
    }

    /// The name of the thing that the button switches.
    pub fn name(&self) -> (r: &str)
        ensures
            r@ == self@.name,
    {
        self.name.as_str()
    }

    /// Whether the thing is switched on.
    pub fn enabled(&self) -> (r: bool)
        ensures
            r == self@.enabled,
    {
        self.enabled
    }

    /// The text written for the state the button is in.
    pub fn label(&self) -> (r: String)
        ensures
            r@ == label_text(self@.enabled, self@.name),
    {
        let mut text = String::new();
        if self.enabled {
            text.append("Disable");
        } else {
            text.append("Enable");
        }
        text.append(" ");
        text.append(self.name.as_str());
        assert(text@ =~= label_text(self@.enabled, self@.name));
        text
    }

    /// One press of the button. The text and the request are those of the
    /// state that the press found, and the state is the other one
    /// afterwards: a press on a thing that is off writes "Enable" before
    /// its name, asks to switch it on, and leaves it on.
    pub fn press(&mut self) -> (r: Press)
        ensures
            r.label@ == label_text(old(self)@.enabled, old(self)@.name),
            r.event == press_event(old(self)@.enabled),
            final(self)@.enabled == !old(self)@.enabled,
            final(self)@.name == old(self)@.name,
    {
        let label = self.label();
        let event = if self.enabled {
            Toggle::Disable
        } else {
            Toggle::Enable
        };
        self.enabled = !self.enabled;
        Press { label, event }
    }
}

/// A request to make a toggle button for a named thing, with what is to
/// be sent to switch the thing on and to switch it off.
#[derive(Debug)]
pub struct MakeToggleButton<E, D> {
    name: String,
    enable: E,
    disable: D,
}

impl<E, D> MakeToggleButton<E, D> {
    /// A request for a button called `name` that sends `enable` and
    /// `disable` by turns.
    pub fn new(name: String, enable: E, disable: D) -> (r: MakeToggleButton<E, D>)
        ensures
            r.name() == name@,
            r.enable() == enable,
            r.disable() == disable,
    {
        MakeToggleButton { name, enable, disable }
    }

    /// The name asked for.
    pub closed spec fn name(self) -> Seq<char> {
        self.name@
    }

    /// What is sent to switch the thing on.
    pub closed spec fn enable(self) -> E {
        self.enable
    }

    /// What is sent to switch the thing off.
    pub closed spec fn disable(self) -> D {
        self.disable
    }

    /// Makes the button: it has the name asked for and starts switched
    /// off. With it come what a press sends to switch the thing on, and
    /// what it sends to switch it off.
    pub fn make_toggle_button(self) -> (r: (ToggleButton, E, D))
        ensures
            r.0@.name == self.name(),
            !r.0@.enabled,
            r.1 == self.enable(),
            r.2 == self.disable(),
    {
        (ToggleButton::new(self.name), self.enable, self.disable)
    }
}

} // verus!
