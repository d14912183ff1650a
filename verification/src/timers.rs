//! The delay and sound timers.

use vstd::prelude::*;

use crate::entropy::EntropySource;
use crate::state::{Chip8, MachineState};

verus! {

/// A timer one tick later: one less, and 0 if it was 0.
pub open spec fn ticked(timer: u8) -> u8 {
    if timer > 0 {
        (timer - 1) as u8
    } else {
        0
    }
}

impl MachineState {
    /// Both timers tick once.
    pub open spec fn decrement_timers(self) -> MachineState {
        MachineState {
            delay_timer: ticked(self.delay_timer),
            sound_timer: ticked(self.sound_timer),
            ..self
        }
    }

    /// Whether a tone is to be heard: the sound timer is not 0.
    pub open spec fn is_playing_sound(self) -> bool {
        self.sound_timer > 0
    }

    /// Vx becomes the value of the delay timer.
    pub open spec fn set_vx_to_delay_timer(self, x: u8) -> MachineState {
        self.with_register(x, self.delay_timer)
    }

    /// The delay timer becomes Vx.
    pub open spec fn set_delay_timer_to_vx(self, x: u8) -> MachineState {
        MachineState { delay_timer: self.vx(x), ..self }
    }

    /// The sound timer becomes Vx.
    pub open spec fn set_sound_timer_to_vx(self, x: u8) -> MachineState {
        MachineState { sound_timer: self.vx(x), ..self }
    }
}

impl<R: EntropySource> Chip8<R> {
    /// Returns whether the host should be playing a tone.
    pub fn is_playing_sound(&self) -> (playing: bool)
        ensures
            playing == self@.is_playing_sound(),
    {
        self.sound_timer > 0
    }

    /// Decrements the delay and sound timers by 1 each; a timer at 0 stays
    /// at 0.
    pub fn decrement_timers(&mut self)
        ensures
            final(self)@ == old(self)@.decrement_timers(),
            final(self).delay_timer == if old(self).delay_timer == 0 {
                0
            } else {
                old(self).delay_timer - 1
            },
            final(self).sound_timer == if old(self).sound_timer == 0 {
                0
            } else {
                old(self).sound_timer - 1
            },
            final(self).rng == old(self).rng,
            old(self).wf() ==> final(self).wf(),
    {
        if self.delay_timer > 0 {
            self.delay_timer -= 1;
        }
        if self.sound_timer > 0 {
            self.sound_timer -= 1;
        }
    }

    /// Sets Vx to the value of the delay timer.
    pub fn set_vx_to_delay_timer(&mut self, x: u8)
        requires
            x < 16,
        ensures
            final(self)@ == old(self)@.set_vx_to_delay_timer(x),
            final(self).rng == old(self).rng,
            old(self).wf() ==> final(self).wf(),
    {
        self.variable_registers[x as usize] = self.delay_timer;
    }

    /// Sets the delay timer to the value of Vx.
    pub fn set_delay_timer_to_vx(&mut self, x: u8)
        requires
            x < 16,
        ensures
            final(self)@ == old(self)@.set_delay_timer_to_vx(x),
            final(self).rng == old(self).rng,
            old(self).wf() ==> final(self).wf(),
    {
        self.delay_timer = self.variable_registers[x as usize];
    }

    /// Sets the sound timer to the value of Vx.
    pub fn set_sound_timer_to_vx(&mut self, x: u8)
        requires
            x < 16,
        ensures
            final(self)@ == old(self)@.set_sound_timer_to_vx(x),
            final(self).rng == old(self).rng,
            old(self).wf() ==> final(self).wf(),
    {
        self.sound_timer = self.variable_registers[x as usize];
    }
}

} // verus!
