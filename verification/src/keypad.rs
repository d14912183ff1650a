//! The sixteen keys, their states, and the detection of a released key
//! between two snapshots of the keypad.

use vstd::prelude::*;

verus! {

/// The number of keys on the keypad.
pub const NUM_KEYS: usize = 16;

/// A key on the sixteen-key hexadecimal keypad.
#[derive(Debug, PartialEq, Eq, Clone, Copy, Structural)]
pub enum Chip8Key {
    /// The '0' key
    Zero,
    /// The '1' key
    One,
    /// The '2' key
    Two,
    /// The '3' key
    Three,
    /// The '4' key
    Four,
    /// The '5' key
    Five,
    /// The '6' key
    Six,
    /// The '7' key
    Seven,
    /// The '8' key
    Eight,
    /// The '9' key
    Nine,
    /// The 'A' key
    A,
    /// The 'B' key
    B,
    /// The 'C' key
    C,
    /// The 'D' key
    D,
    /// The 'E' key
    E,
    /// The 'F' key
    F,
}

impl Chip8Key {
    /// The position of the key in a keypad snapshot: the hexadecimal digit
    /// printed on it.
    pub open spec fn index(self) -> int {
        match self {
            Chip8Key::Zero => 0,
            Chip8Key::One => 1,
            Chip8Key::Two => 2,
            Chip8Key::Three => 3,
            Chip8Key::Four => 4,
            Chip8Key::Five => 5,
            Chip8Key::Six => 6,
            Chip8Key::Seven => 7,
            Chip8Key::Eight => 8,
            Chip8Key::Nine => 9,
            Chip8Key::A => 10,
            Chip8Key::B => 11,
            Chip8Key::C => 12,
            Chip8Key::D => 13,
            Chip8Key::E => 14,
            Chip8Key::F => 15,
        }
    }

    /// Gets the index of the key in the keypad.
    pub fn key_index(&self) -> (i: usize)
        ensures
            i == self.index(),
            i < NUM_KEYS,
    {
        match self {
            Chip8Key::Zero => 0,
            Chip8Key::One => 1,
            Chip8Key::Two => 2,
            Chip8Key::Three => 3,
            Chip8Key::Four => 4,
            Chip8Key::Five => 5,
            Chip8Key::Six => 6,
            Chip8Key::Seven => 7,
            Chip8Key::Eight => 8,
            Chip8Key::Nine => 9,
            Chip8Key::A => 10,
            Chip8Key::B => 11,
            Chip8Key::C => 12,
            Chip8Key::D => 13,
            Chip8Key::E => 14,
            Chip8Key::F => 15,
        }
    }
}

/// The state of a key: up or down.
#[derive(Debug, PartialEq, Eq, Clone, Copy, Structural)]
pub enum KeyState {
    /// The key is up, i.e. not pressed.
    Up,
    /// The key is down, i.e. pressed.
    Down,
}

/// Whether key `k` was down in the `previous` snapshot and is up in the
/// `current` one.
pub open spec fn released(current: Seq<KeyState>, previous: Seq<KeyState>, k: int) -> bool {
    current[k] == KeyState::Up && previous[k] == KeyState::Down
}

/// Whether `k` is the lowest-numbered key that was released between the two
/// snapshots.
pub open spec fn is_first_released(
    current: Seq<KeyState>,
    previous: Seq<KeyState>,
    k: int,
) -> bool {
    &&& 0 <= k < NUM_KEYS
    &&& released(current, previous, k)
    &&& forall|j: int| 0 <= j < k ==> !released(current, previous, j)
}

/// The lowest-numbered key released between the two snapshots, if any key
/// was.
pub open spec fn first_released(current: Seq<KeyState>, previous: Seq<KeyState>) -> Option<u8> {
    if exists|k: int| is_first_released(current, previous, k) {
        Some((choose|k: int| is_first_released(current, previous, k)) as u8)
    } else {
        None
    }
}

/// Finds the lowest-numbered key that went from down to up between the two
/// snapshots.
pub fn find_released_key(
    current: &[KeyState; NUM_KEYS],
    previous: &[KeyState; NUM_KEYS],
) -> (key: Option<u8>)
    ensures
        key == first_released(current@, previous@),
        key matches Some(k) ==> is_first_released(current@, previous@, k as int),
        key is None ==> forall|k: int| 0 <= k < NUM_KEYS ==> !released(current@, previous@, k),
{
    let mut i: usize = 0;
    while i < NUM_KEYS
        invariant
            i <= NUM_KEYS,
            forall|j: int| 0 <= j < i ==> !released(current@, previous@, j),
        decreases NUM_KEYS - i,
    {
        if current[i] == KeyState::Up && previous[i] == KeyState::Down {
            assert(is_first_released(current@, previous@, i as int));
            return Some(i as u8);
        }
        i = i + 1;
    }
    None
}

} // verus!
