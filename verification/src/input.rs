//! The keypad as the machine sees it: the host's key events, the skips on a
//! key's state, and the instruction that waits for a key to be released.

use vstd::prelude::*;

use crate::entropy::EntropySource;
use crate::fault::Fault;
use crate::keypad::{find_released_key, first_released, Chip8Key, KeyState, NUM_KEYS};
use crate::state::{ends_as, Chip8, MachineState};

verus! {

impl MachineState {
    /// The key is down in the current snapshot.
    pub open spec fn key_down(self, key: Chip8Key) -> MachineState {
        MachineState { keypad: self.keypad.update(key.index(), KeyState::Down), ..self }
    }

    /// The key is up in the current snapshot.
    pub open spec fn key_up(self, key: Chip8Key) -> MachineState {
        MachineState { keypad: self.keypad.update(key.index(), KeyState::Up), ..self }
    }

    /// The state of the key in the current snapshot.
    pub open spec fn key_state(self, key: Chip8Key) -> KeyState {
        self.keypad[key.index()]
    }

    /// The next instruction is skipped if the key whose index is Vx is down.
    /// A value of Vx that is no key index is a fault.
    pub open spec fn skip_if_key_down(self, x: u8) -> Result<MachineState, Fault> {
        if self.vx(x) >= NUM_KEYS {
            Err(Fault::KeyOutOfRange)
        } else {
            Ok(self.skip_if(self.keypad[self.vx(x) as int] == KeyState::Down))
        }
    }

    /// The next instruction is skipped if the key whose index is Vx is up.
    /// A value of Vx that is no key index is a fault.
    pub open spec fn skip_if_key_up(self, x: u8) -> Result<MachineState, Fault> {
        if self.vx(x) >= NUM_KEYS {
            Err(Fault::KeyOutOfRange)
        } else {
            Ok(self.skip_if(self.keypad[self.vx(x) as int] == KeyState::Up))
        }
    }

    /// One round of waiting for a key. The current snapshot is compared with
    /// the one remembered from the round before, and is then remembered in
    /// its place. If a key was down then and is up now, the lowest such key
    /// goes into Vx. If none was, the program counter moves back by 2,
    /// modulo 65536, so that the instruction runs again.
    pub open spec fn put_key_into_vx(self, x: u8) -> MachineState {
        let remembered = MachineState { previous_keypad: self.keypad, ..self };
        match first_released(self.keypad, self.previous_keypad) {
            Some(key) => remembered.with_register(x, key),
            None => remembered.with_program_counter(
                ((self.program_counter - 2) % 0x10000) as u16,
            ),
        }
    }
}

impl<R: EntropySource> Chip8<R> {
    /// Flags the key as down.
    pub fn key_down(&mut self, key: Chip8Key)
        ensures
            final(self)@ == old(self)@.key_down(key),
            final(self)@.key_state(key) == KeyState::Down,
            final(self).rng == old(self).rng,
            old(self).wf() ==> final(self).wf(),
    {
        self.keypad_state[key.key_index()] = KeyState::Down;
    }

    /// Flags the key as up.
    pub fn key_up(&mut self, key: Chip8Key)
        ensures
            final(self)@ == old(self)@.key_up(key),
            final(self)@.key_state(key) == KeyState::Up,
            final(self).rng == old(self).rng,
            old(self).wf() ==> final(self).wf(),
    {
        self.keypad_state[key.key_index()] = KeyState::Up;
    }

    /// Gets the current state of the key.
    pub fn key_state(&self, key: Chip8Key) -> (state: KeyState)
        ensures
            state == self@.key_state(key),
    {
        self.keypad_state[key.key_index()]
    }

    /// Skips the next instruction if the key whose index is held in Vx is
    /// down. Fails with `KeyOutOfRange`, changing nothing, if Vx is 16 or
    /// more.
    pub fn skip_if_key_down(&mut self, x: u8) -> (result: Result<(), Fault>)
        requires
            x < 16,
        ensures
            ends_as(old(self)@.skip_if_key_down(x), old(self)@, result, final(self)@),
            final(self).rng == old(self).rng,
            old(self).wf() ==> final(self).wf(),
    {
        let key_index: usize = self.variable_registers[x as usize] as usize;
        if key_index >= NUM_KEYS {
            return Err(Fault::KeyOutOfRange);
        }
        if self.keypad_state[key_index] == KeyState::Down {
            self.program_counter = self.program_counter.wrapping_add(2);
        }
        Ok(())
    }

    /// Skips the next instruction if the key whose index is held in Vx is
    /// up. Fails with `KeyOutOfRange`, changing nothing, if Vx is 16 or more.
    pub fn skip_if_key_up(&mut self, x: u8) -> (result: Result<(), Fault>)
        requires
            x < 16,
        ensures
            ends_as(old(self)@.skip_if_key_up(x), old(self)@, result, final(self)@),
            final(self).rng == old(self).rng,
            old(self).wf() ==> final(self).wf(),
    {
        let key_index: usize = self.variable_registers[x as usize] as usize;
        if key_index >= NUM_KEYS {
            return Err(Fault::KeyOutOfRange);
        }
        if self.keypad_state[key_index] == KeyState::Up {
            self.program_counter = self.program_counter.wrapping_add(2);
        }
        Ok(())
    }

    /// If a key has gone from down to up since the last round of waiting,
    /// puts the lowest such key into Vx; otherwise moves the program counter
    /// back by 2. Either way the current keypad snapshot is remembered for
    /// the next round.
    pub fn put_key_into_vx(&mut self, x: u8)
        requires
            x < 16,
        ensures
            final(self)@ == old(self)@.put_key_into_vx(x),
            final(self).rng == old(self).rng,
            old(self).wf() ==> final(self).wf(),
    {
        let key_option: Option<u8> = find_released_key(
            &self.keypad_state,
            &self.previous_keypad_state,
        );

        if let Some(key_index) = key_option {
            self.previous_keypad_state = self.keypad_state;
            self.variable_registers[x as usize] = key_index;
        } else {
            self.previous_keypad_state = self.keypad_state;
            self.program_counter = self.program_counter.wrapping_sub(2);
        }
    }
}

} // verus!
