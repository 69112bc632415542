//! The keys of the keyboard as the game tells them apart, and the set of those that are
//! held down.

use std::collections::HashSet;
use vstd::prelude::*;

verus! {

broadcast use vstd::std_specs::hash::group_hash_axioms;

/// How far one held key moves the player in one frame, in pixels.
pub const STEP: i32 = 5;

/// A key of the keyboard, as far as the game tells keys apart.
#[derive(Clone, Copy, PartialEq, Eq, Debug, Structural)]
pub enum Key {
    ArrowLeft,
    ArrowRight,
    KeyA,
    KeyD,
    /// Any key that does not steer the player.
    Other,
}

/// Whether a key went down or came up.
#[derive(Clone, Copy, PartialEq, Eq, Debug, Structural)]
pub enum KeyState {
    Pressed,
    Released,
}

/// The number under which a key is kept in the set of held keys. No two keys share one.
pub open spec fn code_of(key: Key) -> u8 {
    match key {
        Key::ArrowLeft => 0,
        Key::ArrowRight => 1,
        Key::KeyA => 2,
        Key::KeyD => 3,
        Key::Other => 4,
    }
}

/// The horizontal move that a set of held keys asks for in one frame: one step to the
/// right for each of the right arrow and `D`, one step to the left for each of the left
/// arrow and `A`.
pub open spec fn steering_of(pressed: Set<Key>) -> int {
    (if pressed.contains(Key::ArrowRight) { STEP as int } else { 0 })
    + (if pressed.contains(Key::KeyD) { STEP as int } else { 0 })
    - (if pressed.contains(Key::ArrowLeft) { STEP as int } else { 0 })
    - (if pressed.contains(Key::KeyA) { STEP as int } else { 0 })
}

/// What a key event makes of a set of held keys: a key that went down is in the set, a
/// key that came up is not.
pub open spec fn after_key(pressed: Set<Key>, key: Key, state: KeyState) -> Set<Key> {
    match state {
        KeyState::Pressed => pressed.insert(key),
        KeyState::Released => pressed.remove(key),
    }
}

/// A key event changes whether its own key is held, and nothing about any other key: the
/// key is held after it went down and not held after it came up.
pub proof fn lemma_key_event_changes_one_key(
    pressed: Set<Key>,
    key: Key,
    state: KeyState,
    other: Key,
)
    requires
        other != key,
    ensures
        after_key(pressed, key, state).contains(other) == pressed.contains(other),
        after_key(pressed, key, state).contains(key) == (state == KeyState::Pressed),
{
}

/// Whatever keys are held, the move of one frame is at most two steps either way.
pub proof fn lemma_steering_is_bounded(pressed: Set<Key>)
    ensures
        -2 * STEP <= steering_of(pressed) <= 2 * STEP,
{
}

/// The keys that are held down, kept as a hash set of their numbers.
pub struct PressedKeys {
    codes: HashSet<u8>,
}

impl View for PressedKeys {
    type V = Set<Key>;

    closed spec fn view(&self) -> Set<Key> {
        Set::new(|key: Key| self.codes@.contains(code_of(key)))
    }
}

/// The number under which `key` is kept.
fn code(key: Key) -> (code: u8)
    ensures
        code == code_of(key),
{
    match key {
        Key::ArrowLeft => 0,
        Key::ArrowRight => 1,
        Key::KeyA => 2,
        Key::KeyD => 3,
        Key::Other => 4,
    }
}

impl PressedKeys {
    /// No key is held.
    pub fn new() -> (keys: PressedKeys)
        ensures
            keys@ == Set::<Key>::empty(),
    {
        let keys = PressedKeys { codes: HashSet::new() };
        assert(keys@ =~= Set::<Key>::empty());
        keys
    }

    /// Whether `key` is held.
    pub fn contains(&self, key: Key) -> (held: bool)
        ensures
            held == self@.contains(key),
    {
        let number: u8 = code(key);
        self.codes.contains(&number)
    }

    /// Records that `key` went down.
    pub fn insert(&mut self, key: Key)
        ensures
            final(self)@ == after_key(old(self)@, key, KeyState::Pressed),
    {
        self.codes.insert(code(key));
        assert(self@ =~= after_key(old(self)@, key, KeyState::Pressed));
    }

    /// Records that `key` came up.
    pub fn remove(&mut self, key: Key)
        ensures
            final(self)@ == after_key(old(self)@, key, KeyState::Released),
    {
        let number: u8 = code(key);
        self.codes.remove(&number);
        assert(self@ =~= after_key(old(self)@, key, KeyState::Released));
    }

    /// The horizontal move that the held keys ask for in one frame.
    pub fn steering(&self) -> (dx: i32)
        ensures
            dx == steering_of(self@),
    {
        let mut dx: i32 = 0;
        if self.contains(Key::ArrowLeft) {
            dx = dx - STEP;
        }
        if self.contains(Key::KeyA) {
            dx = dx - STEP;
        }
        if self.contains(Key::ArrowRight) {
            dx = dx + STEP;
        }
        if self.contains(Key::KeyD) {
            dx = dx + STEP;
        }
        dx
    }
}

} // verus!
