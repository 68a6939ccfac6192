use vstd::prelude::*;

verus! {

/// A key that can take part in a chord.
#[derive(Clone, Copy, Debug, PartialEq, Eq, Structural)]
pub enum Key {
    Alt,
    Oem3,
}

/// What is done with a key: pushed down, or let go.
#[derive(Clone, Copy, Debug, PartialEq, Eq, Structural)]
pub enum Action {
    Press,
    Release,
}

/// One synthetic keyboard event: an action applied to a key.
#[derive(Clone, Copy, Debug, PartialEq, Eq, Structural)]
pub struct KeyEvent {
    pub key: Key,
    pub action: Action,
}

/// Builds the event sequence for the Alt+Oem3 chord: both keys pressed
/// in order, then both released in the same order.
pub fn power_chord() -> (r: Vec<KeyEvent>)
    ensures
        r@.len() == 4,
        r@[0] == (KeyEvent { key: Key::Alt, action: Action::Press }),
        r@[1] == (KeyEvent { key: Key::Oem3, action: Action::Press }),
        r@[2] == (KeyEvent { key: Key::Alt, action: Action::Release }),
        r@[3] == (KeyEvent { key: Key::Oem3, action: Action::Release }),
{
    let mut inputs: Vec<KeyEvent> = Vec::new();
    inputs.push(KeyEvent { key: Key::Alt, action: Action::Press });
    inputs.push(KeyEvent { key: Key::Oem3, action: Action::Press });
    inputs.push(KeyEvent { key: Key::Alt, action: Action::Release });
    inputs.push(KeyEvent { key: Key::Oem3, action: Action::Release });
    inputs
}

} // verus!
