//! The sixteen-key keypad: one pressed flag per key.

use vstd::prelude::*;

verus! {

/// Symbolic index of one of the sixteen keypad keys.
#[derive(Debug, Clone, Copy, PartialEq, Eq, Structural)]
pub enum Key {
    Key0,
    Key1,
    Key2,
    Key3,
    Key4,
    Key5,
    Key6,
    Key7,
    Key8,
    Key9,
    KeyA,
    KeyB,
    KeyC,
    KeyD,
    KeyE,
    KeyF,
}

impl Key {
    /// Position of this key in the bank, 0 through 15.
    pub open spec fn idx(self) -> int {
        match self {
            Key::Key0 => 0,
            Key::Key1 => 1,
            Key::Key2 => 2,
            Key::Key3 => 3,
            Key::Key4 => 4,
            Key::Key5 => 5,
            Key::Key6 => 6,
            Key::Key7 => 7,
            Key::Key8 => 8,
            Key::Key9 => 9,
            Key::KeyA => 10,
            Key::KeyB => 11,
            Key::KeyC => 12,
            Key::KeyD => 13,
            Key::KeyE => 14,
            Key::KeyF => 15,
        }
    }

    /// The key whose bank position is `n % 16`.
    pub open spec fn spec_from_nibble(n: u8) -> Key {
        let v = n % 16;
        if v == 0 {
            Key::Key0
        } else if v == 1 {
            Key::Key1
        } else if v == 2 {
            Key::Key2
        } else if v == 3 {
            Key::Key3
        } else if v == 4 {
            Key::Key4
        } else if v == 5 {
            Key::Key5
        } else if v == 6 {
            Key::Key6
        } else if v == 7 {
            Key::Key7
        } else if v == 8 {
            Key::Key8
        } else if v == 9 {
            Key::Key9
        } else if v == 10 {
            Key::KeyA
        } else if v == 11 {
            Key::KeyB
        } else if v == 12 {
            Key::KeyC
        } else if v == 13 {
            Key::KeyD
        } else if v == 14 {
            Key::KeyE
        } else {
            Key::KeyF
        }
    }

    /// Position of this key in the bank.
    pub fn index(self) -> (i: usize)
        ensures
            i == self.idx(),
            i < 16,
    {
        match self {
            Key::Key0 => 0,
            Key::Key1 => 1,
            Key::Key2 => 2,
            Key::Key3 => 3,
            Key::Key4 => 4,
            Key::Key5 => 5,
            Key::Key6 => 6,
            Key::Key7 => 7,
            Key::Key8 => 8,
            Key::Key9 => 9,
            Key::KeyA => 10,
            Key::KeyB => 11,
            Key::KeyC => 12,
            Key::KeyD => 13,
            Key::KeyE => 14,
            Key::KeyF => 15,
        }
    }

    /// Selects the key named by the low four bits of `n`.
    pub fn from_nibble(n: u8) -> (k: Key)
        ensures
            k == Key::spec_from_nibble(n),
    {
        match n % 16 {
            0 => Key::Key0,
            1 => Key::Key1,
            2 => Key::Key2,
            3 => Key::Key3,
            4 => Key::Key4,
            5 => Key::Key5,
            6 => Key::Key6,
            7 => Key::Key7,
            8 => Key::Key8,
            9 => Key::Key9,
            10 => Key::KeyA,
            11 => Key::KeyB,
            12 => Key::KeyC,
            13 => Key::KeyD,
            14 => Key::KeyE,
            _ => Key::KeyF,
        }
    }
}

/// The lowest-indexed pressed key at position `i` or later, or none.
pub open spec fn spec_first_pressed_from(keys: Seq<bool>, i: int) -> Option<u8>
    decreases 16 - i,
{
    if i < 0 || i >= 16 {
        None
    } else if keys[i] {
        Some(i as u8)
    } else {
        spec_first_pressed_from(keys, i + 1)
    }
}

/// The lowest-indexed pressed key, or none.
pub open spec fn spec_first_pressed(keys: Seq<bool>) -> Option<u8> {
    spec_first_pressed_from(keys, 0)
}

/// If no key is pressed, no lowest pressed key exists.
pub proof fn lemma_first_pressed_none(keys: Seq<bool>)
    requires
        keys.len() == 16,
        forall|i: int| 0 <= i < 16 ==> !keys[i],
    ensures
        spec_first_pressed(keys) == Option::<u8>::None,
{
    lemma_first_pressed_none_from(keys, 0);
}

proof fn lemma_first_pressed_none_from(keys: Seq<bool>, i: int)
    requires
        keys.len() == 16,
        forall|j: int| 0 <= j < 16 ==> !keys[j],
        0 <= i,
    ensures
        spec_first_pressed_from(keys, i) == Option::<u8>::None,
    decreases 16 - i,
{
    if i < 16 {
        lemma_first_pressed_none_from(keys, i + 1);
    }
}

/// The reported key is pressed, and no lower-indexed key is.
pub proof fn lemma_first_pressed_lowest(keys: Seq<bool>, k: u8)
    requires
        keys.len() == 16,
        spec_first_pressed(keys) == Some(k),
    ensures
        k < 16,
        keys[k as int],
        forall|i: int| 0 <= i < k ==> !keys[i],
{
    lemma_first_pressed_lowest_from(keys, 0, k);
}

proof fn lemma_first_pressed_lowest_from(keys: Seq<bool>, i: int, k: u8)
    requires
        keys.len() == 16,
        0 <= i,
        spec_first_pressed_from(keys, i) == Some(k),
    ensures
        i <= k < 16,
        keys[k as int],
        forall|j: int| i <= j < k ==> !keys[j],
    decreases 16 - i,
{
    if i < 16 && !keys[i] {
        lemma_first_pressed_lowest_from(keys, i + 1, k);
    }
}

/// The bank of sixteen key-pressed flags, addressed by [`Key`].
#[derive(Debug, Clone)]
pub struct KeyBank {
    keys: Vec<bool>,
}

impl View for KeyBank {
    type V = Seq<bool>;

    closed spec fn view(&self) -> Seq<bool> {
        self.keys@
    }
}

impl KeyBank {
    /// A well-formed bank holds exactly sixteen flags.
    pub open spec fn wf(self) -> bool {
        self@.len() == 16
    }

    /// A fresh bank with every key released.
    pub fn new() -> (k: KeyBank)
        ensures
            k.wf(),
            k@.len() == 16,
            forall|i: int| 0 <= i < 16 ==> !k@[i],
    {
        let mut keys: Vec<bool> = Vec::new();
        let mut i: usize = 0;
        while i < 16
            invariant
                keys@.len() == i,
                i <= 16,
                forall|j: int| 0 <= j < i ==> !keys@[j],
            decreases 16 - i,
        {
            keys.push(false);
            i = i + 1;
        }
        KeyBank { keys }
    }

    /// Reads whether `key` is pressed.
    pub fn get_value(&self, key: Key) -> (v: bool)
        requires
            self.wf(),
        ensures
            v == self@[key.idx()],
    {
        let i = key.index();
        self.keys[i]
    }

    /// Marks `key` pressed or released.
    pub fn set_value(&mut self, key: Key, val: bool)
        requires
            old(self).wf(),
        ensures
            final(self).wf(),
            final(self)@ == old(self)@.update(key.idx(), val),
    {
        let i = key.index();
        self.keys.set(i, val);
    }

    /// The lowest-indexed pressed key, or none.
    pub fn get_key_pressed(&self) -> (r: Option<u8>)
        requires
            self.wf(),
        ensures
            r == spec_first_pressed(self@),
    {
        let mut i: usize = 0;
        while i < 16
            invariant
                self.wf(),
                i <= 16,
                spec_first_pressed(self@) == spec_first_pressed_from(self@, i as int),
            decreases 16 - i,
        {
            if self.keys[i] {
                return Some(i as u8);
            }
            i = i + 1;
        }
        None
    }
}

} // verus!
