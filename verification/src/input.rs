//! Input events and the held-key state they toggle.
//!
//! Events are a closed, typed set: the quit signal, key presses and releases
//! of the fixed keyboard mapping, and an explicit variant for everything the
//! core ignores. Key-down sets a flag, key-up clears it; setting an already
//! set flag is a no-op, so the input state is a plain set of booleans.

use vstd::prelude::*;

verus! {

/// The fixed keyboard mapping: W/A/S/D move, Q/E turn, P pauses, Space
/// single-steps, Escape quits. `Other` stands for every unmapped key.
#[derive(Clone, Copy, PartialEq, Eq, Structural, Debug)]
pub enum Key {
    Escape,
    P,
    Space,
    W,
    A,
    S,
    D,
    Q,
    E,
    Other,
}

/// One input event as the core sees it; the windowing backend translates its
/// own event type into this one. `Other` covers every event the core ignores.
#[derive(Clone, Copy, PartialEq, Eq, Structural, Debug)]
pub enum Event {
    Quit,
    KeyDown(Key),
    KeyUp(Key),
    Other,
}

/// Which movement and turn actions are currently held.
#[derive(Clone, Copy, PartialEq, Eq, Structural, Debug)]
pub struct Input {
    pub move_forward: bool,
    pub move_back: bool,
    pub move_left: bool,
    pub move_right: bool,
    pub turn_left: bool,
    pub turn_right: bool,
}

/// The state with nothing held.
pub open spec fn input_none() -> Input {
    Input {
        move_forward: false,
        move_back: false,
        move_left: false,
        move_right: false,
        turn_left: false,
        turn_right: false,
    }
}

/// No action at all is held.
pub open spec fn no_input_held(i: Input) -> bool {
    &&& !i.move_forward
    &&& !i.move_back
    &&& !i.move_left
    &&& !i.move_right
    &&& !i.turn_left
    &&& !i.turn_right
}

/// The effect of pressing `k`: movement and turn keys set their flag, every
/// other key leaves the input untouched.
pub open spec fn key_down(i: Input, k: Key) -> Input {
    match k {
        Key::W => Input { move_forward: true, ..i },
        Key::A => Input { move_left: true, ..i },
        Key::S => Input { move_back: true, ..i },
        Key::D => Input { move_right: true, ..i },
        Key::Q => Input { turn_right: true, ..i },
        Key::E => Input { turn_left: true, ..i },
        _ => i,
    }
}

/// The effect of releasing `k`: movement and turn keys clear their flag,
/// every other key leaves the input untouched.
pub open spec fn key_up(i: Input, k: Key) -> Input {
    match k {
        Key::W => Input { move_forward: false, ..i },
        Key::A => Input { move_left: false, ..i },
        Key::S => Input { move_back: false, ..i },
        Key::D => Input { move_right: false, ..i },
        Key::Q => Input { turn_right: false, ..i },
        Key::E => Input { turn_left: false, ..i },
        _ => i,
    }
}

/// The effect of one event on the held-key state; the quit signal and
/// unrecognized events change nothing here.
pub open spec fn apply_event_input(i: Input, e: Event) -> Input {
    match e {
        Event::KeyDown(k) => key_down(i, k),
        Event::KeyUp(k) => key_up(i, k),
        _ => i,
    }
}

/// Held flags are an idempotent set: pressing an already held key, or
/// releasing an already released one, changes nothing.
pub proof fn lemma_key_toggle_idempotent(i: Input, k: Key)
    ensures
        key_down(key_down(i, k), k) == key_down(i, k),
        key_up(key_up(i, k), k) == key_up(i, k),
{
}

impl Input {
    /// The initial input state: nothing held.
    pub fn new() -> (i: Input)
        ensures
            i == input_none(),
    {
        Input {
            move_forward: false,
            move_back: false,
            move_left: false,
            move_right: false,
            turn_left: false,
            turn_right: false,
        }
    }
}

} // verus!
