//! Application state machine: the logical pressed/released state of every
//! physical control, the transition applied per hardware message, and the
//! MIDI messages implied by a state delta.
//!
//! The state space is the set of boolean pressed flags, one per button; the
//! initial state has every button released; one `Message` drives one
//! transition. A button observed going from released to pressed yields a
//! Note On, pressed to released a Note Off; a delta that changes nothing
//! yields nothing.

use vstd::prelude::*;

use crate::midi::MidiMessage;

verus! {

/// MIDI channel every button event is sent on.
pub const BUTTON_CHANNEL: u8 = 0;

/// Velocity of the Note On sent when a button is pressed.
pub const PRESS_VELOCITY: u8 = 127;

/// Velocity of the Note Off sent when a button is released.
pub const RELEASE_VELOCITY: u8 = 0;

/// Identifier of one physical control on the board; a closed set, used only
/// as a lookup key.
#[derive(Clone, Copy, Debug, PartialEq, Eq, Structural)]
pub enum Button {
    One,
    Two,
    Three,
    Four,
}

impl Button {
    /// The MIDI note a button plays.
    pub open spec fn spec_note(self) -> u8 {
        match self {
            Button::One => 60,
            Button::Two => 61,
            Button::Three => 62,
            Button::Four => 63,
        }
    }

    /// The MIDI note a button plays; always in the 7-bit note space.
    pub fn note(self) -> (n: u8)
        ensures
            n == self.spec_note(),
            n < 128,
    {
        match self {
            Button::One => 60,
            Button::Two => 61,
            Button::Three => 62,
            Button::Four => 63,
        }
    }
}

/// One hardware transition, delivered post-debounce by the input collaborator:
/// which button changed and its new pressed state.
#[derive(Clone, Copy, Debug, PartialEq, Eq, Structural)]
pub struct Message {
    pub button: Button,
    pub pressed: bool,
}

/// The pressed flag of every button. Created once at startup with every
/// button released; mutated only by `update`; cloned to snapshot the old
/// state before each mutation so the delta can be computed.
#[derive(Clone, Copy, Debug, PartialEq, Eq, Structural)]
pub struct ApplicationState {
    pub button1: bool,
    pub button2: bool,
    pub button3: bool,
    pub button4: bool,
}

/// The state a message moves a state to: the named button's flag becomes the
/// message's pressed state, every other flag is untouched.
pub open spec fn spec_update(s: ApplicationState, m: Message) -> ApplicationState {
    match m.button {
        Button::One => ApplicationState { button1: m.pressed, ..s },
        Button::Two => ApplicationState { button2: m.pressed, ..s },
        Button::Three => ApplicationState { button3: m.pressed, ..s },
        Button::Four => ApplicationState { button4: m.pressed, ..s },
    }
}

/// The Note On a freshly pressed button emits.
pub open spec fn note_on_message(b: Button) -> MidiMessage {
    MidiMessage::NoteOn { channel: BUTTON_CHANNEL, note: b.spec_note(), velocity: PRESS_VELOCITY }
}

/// The Note Off a freshly released button emits.
pub open spec fn note_off_message(b: Button) -> MidiMessage {
    MidiMessage::NoteOff {
        channel: BUTTON_CHANNEL,
        note: b.spec_note(),
        velocity: RELEASE_VELOCITY,
    }
}

/// The MIDI messages one button's observed transition implies: a Note On for
/// released-to-pressed, a Note Off for pressed-to-released, nothing when the
/// flag did not change.
pub open spec fn spec_button_events(
    old_state: ApplicationState,
    new_state: ApplicationState,
    b: Button,
) -> Seq<MidiMessage> {
    if !old_state.pressed(b) && new_state.pressed(b) {
        seq![note_on_message(b)]
    } else if old_state.pressed(b) && !new_state.pressed(b) {
        seq![note_off_message(b)]
    } else {
        Seq::<MidiMessage>::empty()
    }
}

/// The MIDI messages a state delta implies, button by button in fixed order.
pub open spec fn spec_midi_events(
    old_state: ApplicationState,
    new_state: ApplicationState,
) -> Seq<MidiMessage> {
    spec_button_events(old_state, new_state, Button::One) + spec_button_events(
        old_state,
        new_state,
        Button::Two,
    ) + spec_button_events(old_state, new_state, Button::Three) + spec_button_events(
        old_state,
        new_state,
        Button::Four,
    )
}

impl ApplicationState {
    /// The pressed flag of one button.
    pub open spec fn pressed(self, b: Button) -> bool {
        match b {
            Button::One => self.button1,
            Button::Two => self.button2,
            Button::Three => self.button3,
            Button::Four => self.button4,
        }
    }

    /// The startup state: every button released.
    pub fn init() -> (s: ApplicationState)
        ensures
            forall|b: Button| !s.pressed(b),
            s == (ApplicationState { button1: false, button2: false, button3: false, button4: false }),
    {
        ApplicationState { button1: false, button2: false, button3: false, button4: false }
    }

    /// Reads the pressed flag of one button.
    pub fn is_pressed(&self, b: Button) -> (r: bool)
        ensures
            r == self.pressed(b),
    {
        match b {
            Button::One => self.button1,
            Button::Two => self.button2,
            Button::Three => self.button3,
            Button::Four => self.button4,
        }
    }

    /// Applies the transition a message describes, in place: the named
    /// button's flag becomes the message's new state and no other flag moves.
    pub fn update(&mut self, message: Message)
        ensures
            *final(self) == spec_update(*old(self), message),
            final(self).pressed(message.button) == message.pressed,
            forall|c: Button| c != message.button ==> final(self).pressed(c) == old(self).pressed(
                c,
            ),
    {
        match message.button {
            Button::One => self.button1 = message.pressed,
            Button::Two => self.button2 = message.pressed,
            Button::Three => self.button3 = message.pressed,
            Button::Four => self.button4 = message.pressed,
        }
    }
}

/// Appends to `events` the messages one button's observed transition implies.
fn push_button_event(
    events: &mut Vec<MidiMessage>,
    old_state: &ApplicationState,
    new_state: &ApplicationState,
    b: Button,
)
    ensures
        final(events)@ == old(events)@ + spec_button_events(*old_state, *new_state, b),
{
    let was = old_state.is_pressed(b);
    let now = new_state.is_pressed(b);
    if !was && now {
        events.push(
            MidiMessage::NoteOn { channel: BUTTON_CHANNEL, note: b.note(), velocity: PRESS_VELOCITY },
        );
    } else if was && !now {
        events.push(
            MidiMessage::NoteOff {
                channel: BUTTON_CHANNEL,
                note: b.note(),
                velocity: RELEASE_VELOCITY,
            },
        );
    }
    proof {
        assert(events@ =~= old(events)@ + spec_button_events(*old_state, *new_state, b));
    }
}

/// Compares two state snapshots button by button and returns the MIDI
/// messages representing exactly the observed transitions, in fixed button
/// order. The sequence is finite and computed eagerly from the fixed-size
/// comparison; consuming only a prefix is safe.
pub fn midi_events(old_state: &ApplicationState, new_state: &ApplicationState) -> (events: Vec<
    MidiMessage,
>)
    ensures
        events@ == spec_midi_events(*old_state, *new_state),
        forall|i: int| 0 <= i < events@.len() ==> (#[trigger] events@[i]).wf(),
{
    let mut events: Vec<MidiMessage> = Vec::new();
    push_button_event(&mut events, old_state, new_state, Button::One);
    push_button_event(&mut events, old_state, new_state, Button::Two);
    push_button_event(&mut events, old_state, new_state, Button::Three);
    push_button_event(&mut events, old_state, new_state, Button::Four);
    proof {
        assert(events@ =~= spec_midi_events(*old_state, *new_state));
        lemma_midi_events_wf(*old_state, *new_state);
    }
    events
}

/// Every message a state delta implies is a well-formed MIDI message.
pub proof fn lemma_midi_events_wf(old_state: ApplicationState, new_state: ApplicationState)
    ensures
        forall|i: int|
            0 <= i < spec_midi_events(old_state, new_state).len() ==> (
            #[trigger] spec_midi_events(old_state, new_state)[i]).wf(),
{
}

/// A transition in which exactly one button flips from released to pressed
/// implies exactly one Note On, for that button, and nothing else.
pub proof fn lemma_single_press_yields_note_on(
    old_state: ApplicationState,
    new_state: ApplicationState,
    b: Button,
)
    requires
        !old_state.pressed(b),
        new_state.pressed(b),
        forall|c: Button| c != b ==> old_state.pressed(c) == new_state.pressed(c),
    ensures
        spec_midi_events(old_state, new_state) == seq![note_on_message(b)],
{
    assert(forall|c: Button| c != b ==> spec_button_events(old_state, new_state, c)
        =~= Seq::<MidiMessage>::empty());
    assert(spec_midi_events(old_state, new_state) =~= seq![note_on_message(b)]);
}

/// A transition in which exactly one button flips from pressed to released
/// implies exactly one Note Off, for that button, and nothing else.
pub proof fn lemma_single_release_yields_note_off(
    old_state: ApplicationState,
    new_state: ApplicationState,
    b: Button,
)
    requires
        old_state.pressed(b),
        !new_state.pressed(b),
        forall|c: Button| c != b ==> old_state.pressed(c) == new_state.pressed(c),
    ensures
        spec_midi_events(old_state, new_state) == seq![note_off_message(b)],
{
    assert(forall|c: Button| c != b ==> spec_button_events(old_state, new_state, c)
        =~= Seq::<MidiMessage>::empty());
    assert(spec_midi_events(old_state, new_state) =~= seq![note_off_message(b)]);
}

/// Idempotence: a message that reasserts the state a button already has
/// leaves the state unchanged, and the delta implies no MIDI message at all.
pub proof fn lemma_reassert_yields_no_events(s: ApplicationState, m: Message)
    requires
        s.pressed(m.button) == m.pressed,
    ensures
        spec_update(s, m) == s,
        spec_midi_events(s, spec_update(s, m)) == Seq::<MidiMessage>::empty(),
{
    assert(spec_midi_events(s, spec_update(s, m)) =~= Seq::<MidiMessage>::empty());
}

} // verus!
