//! Media keys and the debouncer that turns raw key events into actions.
//!
//! The debouncer remembers one key: the one it saw last, and whether that key
//! is down. Events that the kernel repeats while a key is held are passed
//! over. While the remembered key is down, further reports that it is pressed,
//! and its release, pass without an action. Every other event makes its key
//! the remembered one and, if that key is a media key, gives the key's action.
//! Keys that overlap are therefore not told apart: an event of a second key
//! takes the first key's place, and the first key's release then counts as an
//! event of a new key.

use vstd::prelude::*;

verus! {

/// The event type that marks an event of a key.
pub const KEY_EVENT: u16 = 1;

/// The value of an event that reports a key released.
pub const RELEASED: i32 = 0;

/// The value of an event that reports a key pressed.
pub const PRESSED: i32 = 1;

/// The value of an event that the kernel repeats while a key is held.
pub const REPEATED: i32 = 2;

/// What a media key asks for.
#[derive(Clone, Copy, Debug, PartialEq, Eq, Structural)]
pub enum Action {
    Mute,
    VolumeUp,
    VolumeDown,
    NextTrack,
    PreviousTrack,
    PlayPause,
    Stop,
}

/// An input event as the device delivers it.
#[derive(Clone, Copy, Debug, PartialEq, Eq, Structural)]
pub struct RawEvent {
    /// The event type; [`KEY_EVENT`] for events of keys.
    pub kind: u16,
    /// Which key.
    pub code: u16,
    /// [`RELEASED`], [`PRESSED`] or [`REPEATED`].
    pub value: i32,
}

/// The debouncer's memory: the key seen last, and whether it is down.
#[derive(Clone, Copy, Debug, PartialEq, Eq, Structural)]
pub struct KeyState {
    pub last_code: u16,
    pub is_down: bool,
}

/// The kernel's event codes of the seven media keys.
#[derive(Clone, Copy, Debug, PartialEq, Eq, Structural)]
pub struct KeyCodes {
    pub mute: u16,
    pub volume_up: u16,
    pub volume_down: u16,
    pub next_track: u16,
    pub previous_track: u16,
    pub play_pause: u16,
    pub stop: u16,
}

/// The codes of the seven media keys as the numbers that the kernel sends.
pub open spec fn media_key_codes() -> KeyCodes {
    KeyCodes {
        mute: 113,
        volume_up: 115,
        volume_down: 114,
        next_track: 163,
        previous_track: 165,
        play_pause: 164,
        stop: 166,
    }
}

/// Reads the seven key constants that `evdev` exports (`KEY_MUTE`,
/// `KEY_VOLUMEUP`, `KEY_VOLUMEDOWN`, `KEY_NEXTSONG`, `KEY_PREVIOUSSONG`,
/// `KEY_PLAYPAUSE`, `KEY_STOPCD`) as 16-bit codes. Trusted: the numbers that
/// `evdev` gives these variants of its `Key` are those of
/// [`media_key_codes`].
#[verifier::external_body]
fn evdev_key_codes() -> (codes: KeyCodes)
    ensures
        codes == media_key_codes(),
{
    KeyCodes {
        mute: evdev::KEY_MUTE as u16,
        volume_up: evdev::KEY_VOLUMEUP as u16,
        volume_down: evdev::KEY_VOLUMEDOWN as u16,
        next_track: evdev::KEY_NEXTSONG as u16,
        previous_track: evdev::KEY_PREVIOUSSONG as u16,
        play_pause: evdev::KEY_PLAYPAUSE as u16,
        stop: evdev::KEY_STOPCD as u16,
    }
}

/// The fixed lookup from a key code to the action it stands for; the code of
/// any other key stands for none.
pub open spec fn action_of(code: u16) -> Option<Action> {
    let codes = media_key_codes();
    if code == codes.mute {
        Some(Action::Mute)
    } else if code == codes.volume_up {
        Some(Action::VolumeUp)
    } else if code == codes.volume_down {
        Some(Action::VolumeDown)
    } else if code == codes.next_track {
        Some(Action::NextTrack)
    } else if code == codes.previous_track {
        Some(Action::PreviousTrack)
    } else if code == codes.play_pause {
        Some(Action::PlayPause)
    } else if code == codes.stop {
        Some(Action::Stop)
    } else {
        None
    }
}

/// Whether `state` remembers `code` as the key that is down.
pub open spec fn holds(state: KeyState, code: u16) -> bool {
    state.is_down && state.last_code == code
}

/// Whether an event of key `code` with `value` passes without a trace in the
/// memory and without an action: a repeat by the kernel, of whatever key, and
/// a press of the key that is held.
pub open spec fn passed_over(state: KeyState, code: u16, value: i32) -> bool {
    value == REPEATED || (holds(state, code) && value == PRESSED)
}

/// The debouncer's memory after an event of key `code` with `value`.
pub open spec fn next_state(state: KeyState, code: u16, value: i32) -> KeyState {
    if passed_over(state, code, value) {
        state
    } else if holds(state, code) && value == RELEASED {
        KeyState { last_code: code, is_down: false }
    } else {
        KeyState { last_code: code, is_down: value == PRESSED }
    }
}

/// The action that an event of key `code` with `value` gives.
pub open spec fn emitted(state: KeyState, code: u16, value: i32) -> Option<Action> {
    if passed_over(state, code, value) || (holds(state, code) && value == RELEASED) {
        None
    } else {
        action_of(code)
    }
}

/// The debouncer's memory after the first `n` of `events`. Events that are
/// not of keys leave it as it is.
pub open spec fn state_upto(state: KeyState, events: Seq<RawEvent>, n: nat) -> KeyState
    decreases n,
{
    if n == 0 {
        state
    } else {
        let before = state_upto(state, events, (n - 1) as nat);
        let event = events[n - 1];
        if event.kind == KEY_EVENT {
            next_state(before, event.code, event.value)
        } else {
            before
        }
    }
}

/// The actions that the first `n` of `events` give, in the order of the
/// events.
pub open spec fn actions_upto(state: KeyState, events: Seq<RawEvent>, n: nat) -> Seq<Action>
    decreases n,
{
    if n == 0 {
        Seq::empty()
    } else {
        let actions = actions_upto(state, events, (n - 1) as nat);
        let before = state_upto(state, events, (n - 1) as nat);
        let event = events[n - 1];
        if event.kind == KEY_EVENT {
            match emitted(before, event.code, event.value) {
                Some(action) => actions.push(action),
                None => actions,
            }
        } else {
            actions
        }
    }
}

/// The debouncer's memory after all of `events`.
pub open spec fn state_after(state: KeyState, events: Seq<RawEvent>) -> KeyState {
    state_upto(state, events, events.len())
}

/// The actions that `events` give, in the order of the events.
pub open spec fn actions_of(state: KeyState, events: Seq<RawEvent>) -> Seq<Action> {
    actions_upto(state, events, events.len())
}

/// The event that reports key `code` with `value`.
pub open spec fn key_event(code: u16, value: i32) -> RawEvent {
    RawEvent { kind: KEY_EVENT, code, value }
}

impl KeyState {
    /// The memory at the start: no key is down.
    pub fn new() -> (state: KeyState)
        ensures
            state == (KeyState { last_code: 0, is_down: false }),
    {
        KeyState { last_code: 0, is_down: false }
    }
}

impl Default for KeyState {
    fn default() -> (state: KeyState)
        ensures
            state == (KeyState { last_code: 0, is_down: false }),
    {
        KeyState::new()
    }
}

/// Looks a key code up among the media keys.
pub fn action_for_code(code: u16) -> (action: Option<Action>)
    ensures
        action == action_of(code),
{
    let codes = evdev_key_codes();
    if code == codes.mute {
        Some(Action::Mute)
    } else if code == codes.volume_up {
        Some(Action::VolumeUp)
    } else if code == codes.volume_down {
        Some(Action::VolumeDown)
    } else if code == codes.next_track {
        Some(Action::NextTrack)
    } else if code == codes.previous_track {
        Some(Action::PreviousTrack)
    } else if code == codes.play_pause {
        Some(Action::PlayPause)
    } else if code == codes.stop {
        Some(Action::Stop)
    } else {
        None
    }
}

/// Takes in one event of key `code` and gives the action to carry out, if
/// any.
///
/// An event that the kernel repeats changes nothing. While `code` is the key
/// held, a press of it changes nothing and its release only marks it up. None
/// of these gives an action. Any other event makes `code` the remembered key,
/// down if the event is a press, and gives the action of `code` if it is a
/// media key.
pub fn process(code: u16, value: i32, state: &mut KeyState) -> (action: Option<Action>)
    ensures
        *final(state) == next_state(*old(state), code, value),
        action == emitted(*old(state), code, value),
        action is Some ==> action_of(code) is Some,
{
    if value == REPEATED {
        return None;
    }
    let held = state.is_down && state.last_code == code;
    if held && value == PRESSED {
        return None;
    }
    if held && value == RELEASED {
        state.is_down = false;
        return None;
    }
    state.last_code = code;
    state.is_down = value == PRESSED;
    action_for_code(code)
}

/// Takes in one raw event: an event of a key goes through [`process`], any
/// other event is passed over and leaves the memory as it is.
pub fn feed(event: RawEvent, state: &mut KeyState) -> (action: Option<Action>)
    ensures
        event.kind == KEY_EVENT ==> *final(state) == next_state(
            *old(state),
            event.code,
            event.value,
        ) && action == emitted(*old(state), event.code, event.value),
        event.kind != KEY_EVENT ==> *final(state) == *old(state) && action is None,
{
    if event.kind != KEY_EVENT {
        return None;
    }
    process(event.code, event.value, state)
}

/// Takes in a batch of raw events and gives the actions to carry out, in the
/// order of the events that gave them.
pub fn drain(events: &Vec<RawEvent>, state: &mut KeyState) -> (actions: Vec<Action>)
    ensures
        actions@ == actions_of(*old(state), events@),
        *final(state) == state_after(*old(state), events@),
{
    let mut actions: Vec<Action> = Vec::new();
    let mut i: usize = 0;
    while i < events.len()
        invariant
            i <= events.len(),
            actions@ == actions_upto(*old(state), events@, i as nat),
            *state == state_upto(*old(state), events@, i as nat),
        decreases events.len() - i,
    {
        match feed(events[i], state) {
            Some(action) => actions.push(action),
            None => {},
        }
        i += 1;
    }
    actions
}

/// What `count` presses of key `code` give where each of them acts: the
/// key's action `count` times over if it is a media key, else nothing.
pub open spec fn repeated_action(code: u16, count: nat) -> Seq<Action> {
    match action_of(code) {
        Some(action) => Seq::new(count, |i: int| action),
        None => Seq::empty(),
    }
}

/// Holding a key acts once: from a memory that does not hold the key, the
/// key's press and any number of further events that tell of it as down,
/// whether as pressed again or as repeated by the kernel, give what the press
/// alone gives: the key's action once if it is a media key, and nothing else.
pub proof fn lemma_held_key_acts_once(state: KeyState, code: u16, events: Seq<RawEvent>)
    requires
        !holds(state, code),
        events.len() > 0,
        events[0] == key_event(code, PRESSED),
        forall|i: int|
            0 < i < events.len() ==> (#[trigger] events[i]) == key_event(code, PRESSED)
                || events[i] == key_event(code, REPEATED),
    ensures
        actions_of(state, events) == repeated_action(code, 1),
        action_of(code) is Some ==> actions_of(state, events).len() == 1,
        action_of(code) is None ==> actions_of(state, events).len() == 0,
        state_after(state, events) == (KeyState { last_code: code, is_down: true }),
{
    lemma_held_upto(state, code, events, events.len());
}

/// [`lemma_held_key_acts_once`] for the first `n` events.
proof fn lemma_held_upto(state: KeyState, code: u16, events: Seq<RawEvent>, n: nat)
    requires
        !holds(state, code),
        0 < n <= events.len(),
        events[0] == key_event(code, PRESSED),
        forall|i: int|
            0 < i < events.len() ==> (#[trigger] events[i]) == key_event(code, PRESSED)
                || events[i] == key_event(code, REPEATED),
    ensures
        actions_upto(state, events, n) == repeated_action(code, 1),
        state_upto(state, events, n) == (KeyState { last_code: code, is_down: true }),
    decreases n,
{
    if n == 1 {
        assert(actions_upto(state, events, 0) == Seq::<Action>::empty());
        assert(state_upto(state, events, 0) == state);
        assert(actions_upto(state, events, 1) =~= repeated_action(code, 1));
    } else {
        lemma_held_upto(state, code, events, (n - 1) as nat);
        assert(events[n - 1] == key_event(code, PRESSED) || events[n - 1] == key_event(
            code,
            REPEATED,
        ));
    }
}

/// Events that the kernel repeats count for nothing: with such an event put
/// in at any place, a sequence of events gives the same actions and leaves
/// the same memory.
pub proof fn lemma_repeats_count_for_nothing(
    state: KeyState,
    events: Seq<RawEvent>,
    at: int,
    code: u16,
)
    requires
        0 <= at <= events.len(),
    ensures
        actions_of(state, events.insert(at, key_event(code, REPEATED))) == actions_of(
            state,
            events,
        ),
        state_after(state, events.insert(at, key_event(code, REPEATED))) == state_after(
            state,
            events,
        ),
{
    lemma_repeat_upto(state, events, at, code, events.len());
}

/// [`lemma_repeats_count_for_nothing`] as far as the first `n` of the events
/// without the repeat.
proof fn lemma_repeat_upto(state: KeyState, events: Seq<RawEvent>, at: int, code: u16, n: nat)
    requires
        0 <= at <= events.len(),
        n <= events.len(),
    ensures
        n < at ==> actions_upto(state, events.insert(at, key_event(code, REPEATED)), n)
            == actions_upto(state, events, n) && state_upto(
            state,
            events.insert(at, key_event(code, REPEATED)),
            n,
        ) == state_upto(state, events, n),
        n >= at ==> actions_upto(state, events.insert(at, key_event(code, REPEATED)), n + 1)
            == actions_upto(state, events, n) && state_upto(
            state,
            events.insert(at, key_event(code, REPEATED)),
            n + 1,
        ) == state_upto(state, events, n),
    decreases n,
{
    let with = events.insert(at, key_event(code, REPEATED));
    if n > 0 {
        lemma_repeat_upto(state, events, at, code, (n - 1) as nat);
        if n < at {
            assert(with[n - 1] == events[n - 1]);
        } else if n == at {
            assert(with[n - 1] == events[n - 1]);
            assert(with[n as int] == key_event(code, REPEATED));
            assert(actions_upto(state, with, n) == actions_upto(state, events, n));
            assert(state_upto(state, with, n) == state_upto(state, events, n));
        } else {
            assert(with[n as int] == events[n - 1]);
        }
    } else {
        if at == 0 {
            assert(with[0] == key_event(code, REPEATED));
            assert(state_upto(state, with, 0) == state);
            assert(actions_upto(state, with, 0) == Seq::<Action>::empty());
        }
    }
}

/// Press, release, press acts twice: from a memory that does not hold the
/// key, these three events give the key's action twice if it is a media key,
/// and nothing else, and leave the key held.
pub proof fn lemma_press_release_press(state: KeyState, code: u16)
    requires
        !holds(state, code),
    ensures
        actions_of(
            state,
            seq![key_event(code, PRESSED), key_event(code, RELEASED), key_event(code, PRESSED)],
        ) == repeated_action(code, 2),
        action_of(code) is Some ==> actions_of(
            state,
            seq![key_event(code, PRESSED), key_event(code, RELEASED), key_event(code, PRESSED)],
        ).len() == 2,
        state_after(
            state,
            seq![key_event(code, PRESSED), key_event(code, RELEASED), key_event(code, PRESSED)],
        ) == (KeyState { last_code: code, is_down: true }),
{
    let events = seq![key_event(code, PRESSED), key_event(code, RELEASED), key_event(code, PRESSED)];
    reveal_with_fuel(actions_upto, 4);
    reveal_with_fuel(state_upto, 4);
    assert(events[0] == key_event(code, PRESSED));
    assert(events[1] == key_event(code, RELEASED));
    assert(events[2] == key_event(code, PRESSED));
    assert(actions_upto(state, events, 3) =~= repeated_action(code, 2));
}

/// Keys that are no media keys give nothing: whatever the memory holds and
/// whatever values the events carry, events of such keys give no action.
pub proof fn lemma_other_keys_give_nothing(state: KeyState, events: Seq<RawEvent>)
    requires
        forall|i: int|
            0 <= i < events.len() && (#[trigger] events[i]).kind == KEY_EVENT ==> action_of(
                events[i].code,
            ) is None,
    ensures
        actions_of(state, events) == Seq::<Action>::empty(),
{
    lemma_nothing_upto(state, events, events.len());
}

/// [`lemma_other_keys_give_nothing`] for the first `n` events.
proof fn lemma_nothing_upto(state: KeyState, events: Seq<RawEvent>, n: nat)
    requires
        n <= events.len(),
        forall|i: int|
            0 <= i < events.len() && (#[trigger] events[i]).kind == KEY_EVENT ==> action_of(
                events[i].code,
            ) is None,
    ensures
        actions_upto(state, events, n) == Seq::<Action>::empty(),
    decreases n,
{
    if n > 0 {
        lemma_nothing_upto(state, events, (n - 1) as nat);
        if events[n - 1].kind == KEY_EVENT {
            assert(action_of(events[n - 1].code) is None);
        }
    }
}

} // verus!
