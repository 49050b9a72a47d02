//! PS/2 keyboard decoding: the scancodes that the keyboard controller hands
//! to IRQ1 become keys, through pc_keyboard's decoder for scancode set 1
//! and the US 104-key layout, with Ctrl+letter left as the letter.
//!
//! pc_keyboard's decoder is deterministic: what it gives for a scancode is
//! a function of the scancodes it was fed before, from its start state.
//! The decoder keeps a record of them, and what it gives is stated over
//! that record.
use pc_keyboard::layouts::Us104Key;
use pc_keyboard::{DecodedKey, HandleControl, KeyCode, KeyEvent, Keyboard, ScancodeSet1};
use vstd::prelude::*;

verus! {

/// pc_keyboard's key code, opaque here.
#[verifier::external_type_specification]
#[verifier::external_body]
pub struct ExKeyCode(KeyCode);

/// What happened to a key, as a key event reports it.
#[derive(Debug, Clone, Copy, PartialEq, Eq, Structural)]
pub enum KeyAction {
    /// The key has just been released.
    Up,
    /// The key has just been pressed.
    Down,
    /// The key was pressed and released at once.
    SingleShot,
}

/// A key event: which key, and what happened to it.
pub struct KeyStroke {
    pub code: KeyCode,
    pub action: KeyAction,
}

/// A decoded key: a character, or a key that has none (a modifier, a
/// function key, an arrow).
#[derive(Debug, Clone, Copy)]
pub enum Key {
    Unicode(char),
    Raw(KeyCode),
}

/// pc_keyboard's `Keyboard` for the US 104-key layout and scancode set 1,
/// with Ctrl+letter left as the letter.  Its state (a scancode sequence
/// under way, the modifiers held down) lives inside pc_keyboard's type,
/// which the verifier cannot be told of: its bounds name traits of
/// pc_keyboard.  So the struct is opaque, and what it holds is named by
/// the record of what it was fed.
#[verifier::external_body]
pub struct RawDecoder {
    kb: Keyboard<Us104Key, ScancodeSet1>,
}

/// The scancodes fed to the decoder `d` since it was made, oldest first.
pub uninterp spec fn scancodes_fed(d: RawDecoder) -> Seq<u8>;

/// The key events handed to the layout of the decoder `d` since it was
/// made, oldest first.
pub uninterp spec fn events_processed(d: RawDecoder) -> Seq<KeyStroke>;

/// The key event that pc_keyboard's scancode set 1, fed `bytes` in order
/// from its start state, yields on the last of them: none while a
/// sequence is under way or for a scancode the set does not know.
pub uninterp spec fn set1_event(bytes: Seq<u8>) -> Option<KeyStroke>;

/// The key that pc_keyboard's US 104-key layout (Ctrl ignored), handed
/// `events` in order from its start state, gives for the last of them.
pub uninterp spec fn us104_key(events: Seq<KeyStroke>) -> Option<Key>;

impl RawDecoder {
    /// pc_keyboard's `Keyboard::new` with scancode set 1, the US 104-key
    /// layout and `HandleControl::Ignore`: a decoder in its start state,
    /// fed nothing yet.
    #[verifier::external_body]
    pub fn new() -> (d: Self)
        ensures
            scancodes_fed(d) == Seq::<u8>::empty(),
            events_processed(d) == Seq::<KeyStroke>::empty(),
    {
        RawDecoder { kb: Keyboard::new(ScancodeSet1::new(), Us104Key, HandleControl::Ignore) }
    }

    /// pc_keyboard's `Keyboard::add_byte` with scancode set 1: the scancode
    /// advances the set's state machine, which yields a key event once a
    /// whole sequence has come in; an unknown scancode is an error,
    /// reported as no event.  The event is the set's answer to all the
    /// scancodes fed so far; what the set's source shows for every state is
    /// stated too: a make code (below 0x80) gives a key press, a break code
    /// (0x80 and above) a key release.
    #[verifier::external_body]
    fn add_byte(&mut self, scancode: u8) -> (ev: Option<KeyStroke>)
        ensures
            scancodes_fed(*final(self)) == scancodes_fed(*old(self)).push(scancode),
            events_processed(*final(self)) == events_processed(*old(self)),
            ev == set1_event(scancodes_fed(*final(self))),
            ev matches Some(e) ==> (scancode < 0x80 ==> e.action == KeyAction::Down) && (scancode
                >= 0x80 ==> e.action == KeyAction::Up),
    {
        match self.kb.add_byte(scancode) {
            Ok(Some(e)) => {
                let action = match e.state {
                    pc_keyboard::KeyState::Up => KeyAction::Up,
                    pc_keyboard::KeyState::Down => KeyAction::Down,
                    pc_keyboard::KeyState::SingleShot => KeyAction::SingleShot,
                };
                Some(KeyStroke { code: e.code, action })
            },
            Ok(None) | Err(_) => None,
        }
    }

    /// pc_keyboard's `Keyboard::process_keyevent`: the event updates the
    /// modifiers and, for a key press, gives the key through the layout.
    /// The key is the layout's answer to all the events handed to it so
    /// far; what the source shows for every state is stated too: a key
    /// press gives a key, any other event none.
    #[verifier::external_body]
    fn process_keyevent(&mut self, ev: KeyStroke) -> (k: Option<Key>)
        ensures
            events_processed(*final(self)) == events_processed(*old(self)).push(ev),
            scancodes_fed(*final(self)) == scancodes_fed(*old(self)),
            k == us104_key(events_processed(*final(self))),
            k is Some <==> ev.action == KeyAction::Down,
    {
        let state = match ev.action {
            KeyAction::Up => pc_keyboard::KeyState::Up,
            KeyAction::Down => pc_keyboard::KeyState::Down,
            KeyAction::SingleShot => pc_keyboard::KeyState::SingleShot,
        };
        match self.kb.process_keyevent(KeyEvent::new(ev.code, state)) {
            Some(DecodedKey::Unicode(c)) => Some(Key::Unicode(c)),
            Some(DecodedKey::RawKey(code)) => Some(Key::Raw(code)),
            None => None,
        }
    }
}

/// The key events that scancode set 1 yields while it is fed `bytes`, in
/// order.
pub open spec fn events_of(bytes: Seq<u8>) -> Seq<KeyStroke>
    decreases bytes.len(),
{
    if bytes.len() == 0 {
        Seq::empty()
    } else {
        match set1_event(bytes) {
            Some(e) => events_of(bytes.drop_last()).push(e),
            None => events_of(bytes.drop_last()),
        }
    }
}

/// The key that the last of `bytes` gives when the decoder has been fed
/// `bytes` from its start: none unless it completes a key event, else the
/// layout's key for that event, after all the events before it.
pub open spec fn key_for(bytes: Seq<u8>) -> Option<Key> {
    match set1_event(bytes) {
        Some(_) => us104_key(events_of(bytes)),
        None => None,
    }
}

/// The keyboard decoder: every key event that the scancodes yield goes on
/// to the layout.
pub struct KeyDecoder {
    raw: RawDecoder,
}

impl KeyDecoder {
    /// The layout has been handed exactly the events the scancodes fed so
    /// far have yielded.
    #[verifier::type_invariant]
    spec fn in_step(self) -> bool {
        events_processed(self.raw) == events_of(scancodes_fed(self.raw))
    }

    /// The scancodes fed so far, oldest first.
    pub closed spec fn fed(&self) -> Seq<u8> {
        scancodes_fed(self.raw)
    }

    /// A decoder with no scancode sequence under way and no modifier held.
    pub fn new() -> (d: Self)
        ensures
            d.fed() == Seq::<u8>::empty(),
    {
        KeyDecoder { raw: RawDecoder::new() }
    }

    /// Feed one scancode read from the PS/2 data port: the key it completes,
    /// if it completes one, after all the scancodes fed before.  A break
    /// code (a key released) never gives a key.
    pub fn feed(&mut self, scancode: u8) -> (k: Option<Key>)
        ensures
            final(self).fed() == old(self).fed().push(scancode),
            k == key_for(final(self).fed()),
            scancode >= 0x80 ==> k is None,
    {
        proof {
            use_type_invariant(&*self);
        }
        let mut raw = RawDecoder::new();
        std::mem::swap(&mut raw, &mut self.raw);
        let ghost before = scancodes_fed(raw);
        let k = match raw.add_byte(scancode) {
            Some(ev) => raw.process_keyevent(ev),
            None => None,
        };
        proof {
            let now = scancodes_fed(raw);
            assert(now.drop_last() =~= before);
        }
        self.raw = raw;
        k
    }
}

} // verus!
