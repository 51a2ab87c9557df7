use vstd::prelude::*;

verus! {

/// One of the 16 logical keys of the hexadecimal keypad.
#[derive(Clone, Copy, PartialEq, Eq, Structural, Debug)]
pub enum ChipKey {
    Key0,
    Key1,
    Key2,
    Key3,
    Key4,
    Key5,
    Key6,
    Key7,
    Key8,
    Key9,
    KeyA,
    KeyB,
    KeyC,
    KeyD,
    KeyE,
    KeyF,
}

impl ChipKey {
    /// The 4-bit key code of this key.
    pub open spec fn spec_code(self) -> u8 {
        match self {
            ChipKey::Key0 => 0x00,
            ChipKey::Key1 => 0x01,
            ChipKey::Key2 => 0x02,
            ChipKey::Key3 => 0x03,
            ChipKey::Key4 => 0x04,
            ChipKey::Key5 => 0x05,
            ChipKey::Key6 => 0x06,
            ChipKey::Key7 => 0x07,
            ChipKey::Key8 => 0x08,
            ChipKey::Key9 => 0x09,
            ChipKey::KeyA => 0x0A,
            ChipKey::KeyB => 0x0B,
            ChipKey::KeyC => 0x0C,
            ChipKey::KeyD => 0x0D,
            ChipKey::KeyE => 0x0E,
            ChipKey::KeyF => 0x0F,
        }
    }

    /// Return the 4-bit key code of this key.
    #[verifier::when_used_as_spec(spec_code)]
    pub fn code(self) -> (r: u8)
        ensures
            r == self.spec_code(),
            r < 16,
    {
        match self {
            ChipKey::Key0 => 0x00,
            ChipKey::Key1 => 0x01,
            ChipKey::Key2 => 0x02,
            ChipKey::Key3 => 0x03,
            ChipKey::Key4 => 0x04,
            ChipKey::Key5 => 0x05,
            ChipKey::Key6 => 0x06,
            ChipKey::Key7 => 0x07,
            ChipKey::Key8 => 0x08,
            ChipKey::Key9 => 0x09,
            ChipKey::KeyA => 0x0A,
            ChipKey::KeyB => 0x0B,
            ChipKey::KeyC => 0x0C,
            ChipKey::KeyD => 0x0D,
            ChipKey::KeyE => 0x0E,
            ChipKey::KeyF => 0x0F,
        }
    }

    /// The key that a given keyboard character selects, following the
    /// classic 4x4 layout on the left side of a QWERTY keyboard.
    pub open spec fn spec_for_char(c: char) -> Option<ChipKey> {
        match c {
            '1' => Some(ChipKey::Key1),
            '2' => Some(ChipKey::Key2),
            '3' => Some(ChipKey::Key3),
            '4' => Some(ChipKey::KeyC),
            'q' => Some(ChipKey::Key4),
            'w' => Some(ChipKey::Key5),
            'e' => Some(ChipKey::Key6),
            'r' => Some(ChipKey::KeyD),
            'a' => Some(ChipKey::Key7),
            's' => Some(ChipKey::Key8),
            'd' => Some(ChipKey::Key9),
            'f' => Some(ChipKey::KeyE),
            'z' => Some(ChipKey::KeyA),
            'x' => Some(ChipKey::Key0),
            'c' => Some(ChipKey::KeyB),
            'v' => Some(ChipKey::KeyF),
            _ => None,
        }
    }

    /// Map a keyboard character to the logical key it selects, if any.
    pub fn for_char(c: char) -> (r: Option<ChipKey>)
        ensures
            r == ChipKey::spec_for_char(c),
    {
        match c {
            '1' => Some(ChipKey::Key1),
            '2' => Some(ChipKey::Key2),
            '3' => Some(ChipKey::Key3),
            '4' => Some(ChipKey::KeyC),
            'q' => Some(ChipKey::Key4),
            'w' => Some(ChipKey::Key5),
            'e' => Some(ChipKey::Key6),
            'r' => Some(ChipKey::KeyD),
            'a' => Some(ChipKey::Key7),
            's' => Some(ChipKey::Key8),
            'd' => Some(ChipKey::Key9),
            'f' => Some(ChipKey::KeyE),
            'z' => Some(ChipKey::KeyA),
            'x' => Some(ChipKey::Key0),
            'c' => Some(ChipKey::KeyB),
            'v' => Some(ChipKey::KeyF),
            _ => None,
        }
    }
}

/// The code of an optionally held key.
pub open spec fn key_code_of(key: Option<ChipKey>) -> Option<u8> {
    match key {
        Some(k) => Some(k.spec_code()),
        None => None,
    }
}

/// Keypad state fed by keyboard events: it remembers the single key that is
/// currently held, if any.
#[derive(Default)]
pub struct SdlKeypad {
    key: Option<ChipKey>,
}

impl SdlKeypad {
    /// The key currently held, if any.
    pub closed spec fn spec_key(&self) -> Option<ChipKey> {
        self.key
    }

    /// Create a keypad with no key held.
    pub fn new() -> (r: SdlKeypad)
        ensures
            r.spec_key() is None,
    {
        SdlKeypad { key: None }
    }

    /// Return the current key pressed variable.
    pub fn get_key(&self) -> (r: Option<ChipKey>)
        ensures
            r == self.spec_key(),
    {
        self.key
    }

    /// Process one keyboard event, given as the pressed character and whether
    /// it went down or up. A key-down of a mapped character latches its key; a
    /// key-up of a mapped character clears the latch. Return true if the event
    /// was recognized as a keypad event.
    pub fn process_key_event(&mut self, c: char, down: bool) -> (processed: bool)
        ensures
            processed == (ChipKey::spec_for_char(c) is Some),
            final(self).spec_key() == (if processed {
                if down {
                    ChipKey::spec_for_char(c)
                } else {
                    None::<ChipKey>
                }
            } else {
                old(self).spec_key()
            }),
    {
        match ChipKey::for_char(c) {
            Some(key) => {
                if down {
                    self.key = Some(key);
                } else {
                    self.key = None;
                }
                true
            },
            None => false,
        }
    }
}

} // verus!
