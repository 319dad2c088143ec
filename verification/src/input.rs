//! Keyboard state: which keys are held, as told by press and release events.

use std::collections::HashMap;
use vstd::prelude::*;

verus! {

broadcast use vstd::std_specs::hash::group_hash_axioms;

// Key codes of the windowing system, for the keys that the viewer binds.
pub const KEY_SPACE: i32 = 32;
pub const KEY_A: i32 = 65;
pub const KEY_D: i32 = 68;
pub const KEY_S: i32 = 83;
pub const KEY_W: i32 = 87;
pub const KEY_ESCAPE: i32 = 256;
pub const KEY_LEFT_CONTROL: i32 = 341;

/// A logical key, identified by the key code of the windowing system.
#[derive(Clone, Copy, Debug, PartialEq, Eq, Structural)]
pub struct Key {
    pub code: i32,
}

/// What happened to a key.
#[derive(Clone, Copy, Debug, PartialEq, Eq, Structural)]
pub enum Action {
    Release,
    Press,
    Repeat,
}

/// A window event, reduced to what the keyboard state reads of it.
#[derive(Clone, Copy, Debug, PartialEq, Eq, Structural)]
pub enum WindowEvent {
    Key(Key, Action),
    Other,
}

/// Whether `key` is held in `state`. A key that was never seen is not held.
pub open spec fn key_down(state: Map<i32, bool>, key: Key) -> bool {
    state.contains_key(key.code) && state[key.code]
}

/// The state after one event: a press marks the key held, a release marks it
/// free, and every other event leaves the state as it was.
pub open spec fn apply_event(state: Map<i32, bool>, event: WindowEvent) -> Map<i32, bool> {
    match event {
        WindowEvent::Key(key, Action::Press) => state.insert(key.code, true),
        WindowEvent::Key(key, Action::Release) => state.insert(key.code, false),
        _ => state,
    }
}

/// The state after a queue of events, applied oldest first.
pub open spec fn apply_events(state: Map<i32, bool>, events: Seq<WindowEvent>) -> Map<i32, bool>
    decreases events.len(),
{
    if events.len() == 0 {
        state
    } else {
        apply_event(apply_events(state, events.drop_last()), events.last())
    }
}

/// The keyboard as the render loop sees it: for every key code that was
/// pressed or released so far, whether the key is held now.
pub struct Input {
    pub key_state: HashMap<i32, bool>,
}

impl View for Input {
    type V = Map<i32, bool>;

    open spec fn view(&self) -> Map<i32, bool> {
        self.key_state@
    }
}

impl Key {
    pub fn new(code: i32) -> (key: Key)
        ensures
            key.code == code,
    {
        Key { code }
    }
}

impl Input {
    pub fn new() -> (input: Input)
        ensures
            input@ == Map::<i32, bool>::empty(),
    {
        Input { key_state: HashMap::new() }
    }

    /// Overwrites the state of one key.
    pub fn set(&mut self, key: Key, pressed: bool)
        ensures
            final(self)@ == old(self)@.insert(key.code, pressed),
    {
        self.key_state.insert(key.code, pressed);
    }

    /// Applies one event.
    pub fn handle_event(&mut self, event: WindowEvent)
        ensures
            final(self)@ == apply_event(old(self)@, event),
    {
        match event {
            WindowEvent::Key(key, action) => {
                match action {
                    Action::Press => {
                        self.set(key, true);
                    },
                    Action::Release => {
                        self.set(key, false);
                    },
                    Action::Repeat => {},
                }
            },
            WindowEvent::Other => {},
        }
    }

    /// Applies a queue of events, oldest first.
    pub fn handle_window_events(&mut self, events: &Vec<WindowEvent>)
        ensures
            final(self)@ == apply_events(old(self)@, events@),
    {
        let mut i: usize = 0;
        while i < events.len()
            invariant
                i <= events.len(),
                self@ == apply_events(old(self)@, events@.take(i as int)),
            decreases events.len() - i,
        {
            proof {
                assert(events@.take(i + 1).drop_last() =~= events@.take(i as int));
            }
            self.handle_event(events[i]);
            i += 1;
        }
        proof {
            assert(events@.take(i as int) =~= events@);
        }
    }

    pub fn is_key_down(&self, key: Key) -> (down: bool)
        ensures
            down == key_down(self@, key),
    {
        match self.key_state.get(&key.code) {
            Some(pressed) => *pressed,
            None => false,
        }
    }
}

/// Whether `event` presses or releases `key`.
pub open spec fn changes_key(event: WindowEvent, key: Key) -> bool {
    event == WindowEvent::Key(key, Action::Press) || event == WindowEvent::Key(key, Action::Release)
}

/// A key is free before any event, held right after a press and free right
/// after the release that follows; repeats and other events change nothing,
/// and an event on one key leaves every other key as it was.
pub proof fn lemma_key_follows_press_and_release(
    state: Map<i32, bool>,
    key: Key,
    other: Key,
    action: Action,
)
    ensures
        !key_down(Map::<i32, bool>::empty(), key),
        key_down(apply_event(state, WindowEvent::Key(key, Action::Press)), key),
        !key_down(apply_event(state, WindowEvent::Key(key, Action::Release)), key),
        !key_down(
            apply_event(
                apply_event(state, WindowEvent::Key(key, Action::Press)),
                WindowEvent::Key(key, Action::Release),
            ),
            key,
        ),
        apply_event(state, WindowEvent::Key(key, Action::Repeat)) == state,
        apply_event(state, WindowEvent::Other) == state,
        other != key ==> key_down(apply_event(state, WindowEvent::Key(other, action)), key)
            == key_down(state, key),
{
}

/// Over a whole queue the last press or release of a key decides: the key is
/// held afterwards exactly if that event was a press. Where the queue holds
/// no press or release of the key, the key stays as it was.
pub proof fn lemma_last_change_decides(state: Map<i32, bool>, events: Seq<WindowEvent>, key: Key)
    ensures
        (forall|i: int| 0 <= i < events.len() ==> !changes_key(#[trigger] events[i], key))
            ==> key_down(apply_events(state, events), key) == key_down(state, key),
        forall|i: int|
            0 <= i < events.len() && changes_key(#[trigger] events[i], key) && (forall|j: int|
                i < j < events.len() ==> !changes_key(#[trigger] events[j], key)) ==> key_down(
                apply_events(state, events),
                key,
            ) == (events[i] == WindowEvent::Key(key, Action::Press)),
    decreases events.len(),
{
    if events.len() > 0 {
        let front = events.drop_last();
        lemma_last_change_decides(state, front, key);
        assert(forall|i: int| 0 <= i < front.len() ==> front[i] == events[i]);
        if !changes_key(events.last(), key) {
            assert(key_down(apply_events(state, events), key) == key_down(
                apply_events(state, front),
                key,
            ));
            assert forall|i: int|
                0 <= i < events.len() && changes_key(#[trigger] events[i], key) && (forall|j: int|
                    i < j < events.len() ==> !changes_key(#[trigger] events[j], key)) implies key_down(
                apply_events(state, events),
                key,
            ) == (events[i] == WindowEvent::Key(key, Action::Press)) by {
                assert(i < front.len());
                assert(changes_key(front[i], key));
                assert forall|j: int| i < j < front.len() implies !changes_key(
                    #[trigger] front[j],
                    key,
                ) by {
                    assert(front[j] == events[j]);
                }
            }
        } else {
            assert(changes_key(events[events.len() - 1], key));
        }
    }
}

/// Writing the same state of a key twice is the same as writing it once.
pub proof fn lemma_set_is_idempotent(state: Map<i32, bool>, key: Key, pressed: bool)
    ensures
        state.insert(key.code, pressed).insert(key.code, pressed) == state.insert(
            key.code,
            pressed,
        ),
{
    assert(state.insert(key.code, pressed).insert(key.code, pressed) =~= state.insert(
        key.code,
        pressed,
    ));
}

} // verus!
