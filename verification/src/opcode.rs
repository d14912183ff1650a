//! Instruction words, their fields, and the instructions they encode.

use vstd::prelude::*;

verus! {

/// A 16-bit instruction word and the fixed-width fields it is made of.
///
/// Written as four hexadecimal digits the word is `f x y n`: `f` is the
/// family, `nn` is the low byte `y n`, and `nnn` the low twelve bits `x y n`.
#[derive(Debug, Clone, Copy, PartialEq, Eq, Structural)]
pub struct OpCode {
    /// The full 16-bit word.
    pub opcode: u16,
}

impl OpCode {
    /// The highest nibble of the word: the instruction family.
    pub open spec fn spec_family(&self) -> u8 {
        (self.opcode / 0x1000) as u8
    }

    /// The second-highest nibble of the word.
    pub open spec fn spec_x(&self) -> u8 {
        ((self.opcode / 0x100) % 0x10) as u8
    }

    /// The third-highest nibble of the word.
    pub open spec fn spec_y(&self) -> u8 {
        ((self.opcode / 0x10) % 0x10) as u8
    }

    /// The lowest nibble of the word.
    pub open spec fn spec_n(&self) -> u8 {
        (self.opcode % 0x10) as u8
    }

    /// The low byte of the word.
    pub open spec fn spec_nn(&self) -> u8 {
        (self.opcode % 0x100) as u8
    }

    /// The low twelve bits of the word.
    pub open spec fn spec_nnn(&self) -> u16 {
        (self.opcode % 0x1000) as u16
    }

    /// Creates an opcode from a 16-bit word.
    pub fn new(opcode: u16) -> (op: Self)
        ensures
            op.opcode == opcode,
    {
        Self { opcode }
    }

    /// The highest nibble of the word: the instruction family.
    #[verifier::when_used_as_spec(spec_family)]
    pub fn family(&self) -> (family: u8)
        ensures
            family == self.spec_family(),
            family < 16,
    {
        let word: u16 = self.opcode;
        assert(word >> 12 == word / 0x1000) by (bit_vector);
        (self.opcode >> 12) as u8
    }

    /// The second-highest nibble of the word.
    #[verifier::when_used_as_spec(spec_x)]
    pub fn x(&self) -> (x: u8)
        ensures
            x == self.spec_x(),
            x < 16,
    {
        let word: u16 = self.opcode;
        assert((word & 0x0F00) >> 8 == (word / 0x100) % 0x10) by (bit_vector);
        ((self.opcode & 0x0F00) >> 8) as u8
    }

    /// The third-highest nibble of the word.
    #[verifier::when_used_as_spec(spec_y)]
    pub fn y(&self) -> (y: u8)
        ensures
            y == self.spec_y(),
            y < 16,
    {
        let word: u16 = self.opcode;
        assert((word & 0x00F0) >> 4 == (word / 0x10) % 0x10) by (bit_vector);
        ((self.opcode & 0x00F0) >> 4) as u8
    }

    /// The lowest nibble of the word.
    #[verifier::when_used_as_spec(spec_n)]
    pub fn n(&self) -> (n: u8)
        ensures
            n == self.spec_n(),
            n < 16,
    {
        let word: u16 = self.opcode;
        assert(word & 0x000F == word % 0x10) by (bit_vector);
        (self.opcode & 0x000F) as u8
    }

    /// The low byte of the word.
    #[verifier::when_used_as_spec(spec_nn)]
    pub fn nn(&self) -> (nn: u8)
        ensures
            nn == self.spec_nn(),
    {
        let word: u16 = self.opcode;
        assert(word & 0x00FF == word % 0x100) by (bit_vector);
        (self.opcode & 0x00FF) as u8
    }

    /// The low twelve bits of the word.
    #[verifier::when_used_as_spec(spec_nnn)]
    pub fn nnn(&self) -> (nnn: u16)
        ensures
            nnn == self.spec_nnn(),
            nnn < 0x1000,
    {
        let word: u16 = self.opcode;
        assert(word & 0x0FFF == word % 0x1000) by (bit_vector);
        self.opcode & 0x0FFF
    }

    /// The instruction that the word encodes, if it encodes one.
    ///
    /// Families 1 to 7, 9 and A to D are told by the family nibble alone.
    /// In family 0 only the words `00E0` and `00EE` are instructions; family
    /// 8 is told further by its lowest nibble, families E and F by their low
    /// byte.
    pub open spec fn spec_decode(&self) -> Option<Instruction> {
        let family = self.spec_family();
        let x = self.spec_x();
        let y = self.spec_y();
        let n = self.spec_n();
        let nn = self.spec_nn();
        let nnn = self.spec_nnn();
        if family == 0x0 {
            if self.opcode == 0x00E0 {
                Some(Instruction::ClearScreen)
            } else if self.opcode == 0x00EE {
                Some(Instruction::ReturnFromSubroutine)
            } else {
                None
            }
        } else if family == 0x1 {
            Some(Instruction::Jump { nnn })
        } else if family == 0x2 {
            Some(Instruction::CallSubroutine { nnn })
        } else if family == 0x3 {
            Some(Instruction::SkipIfVxEqualsNn { x, nn })
        } else if family == 0x4 {
            Some(Instruction::SkipIfVxNotEqualsNn { x, nn })
        } else if family == 0x5 {
            Some(Instruction::SkipIfVxEqualsVy { x, y })
        } else if family == 0x6 {
            Some(Instruction::SetRegister { x, nn })
        } else if family == 0x7 {
            Some(Instruction::AddToRegister { x, nn })
        } else if family == 0x8 {
            if n == 0x0 {
                Some(Instruction::SetVxToVy { x, y })
            } else if n == 0x1 {
                Some(Instruction::OrVxWithVy { x, y })
            } else if n == 0x2 {
                Some(Instruction::AndVxWithVy { x, y })
            } else if n == 0x3 {
                Some(Instruction::XorVxWithVy { x, y })
            } else if n == 0x4 {
                Some(Instruction::AddVyToVx { x, y })
            } else if n == 0x5 {
                Some(Instruction::SubtractVyFromVx { x, y })
            } else if n == 0x6 {
                Some(Instruction::ShiftRight { x, y })
            } else if n == 0x7 {
                Some(Instruction::SubtractVxFromVy { x, y })
            } else if n == 0xE {
                Some(Instruction::ShiftLeft { x, y })
            } else {
                None
            }
        } else if family == 0x9 {
            Some(Instruction::SkipIfVxNotEqualsVy { x, y })
        } else if family == 0xA {
            Some(Instruction::SetIndexRegister { nnn })
        } else if family == 0xB {
            Some(Instruction::JumpWithOffset { nnn })
        } else if family == 0xC {
            Some(Instruction::Randomize { x, nn })
        } else if family == 0xD {
            Some(Instruction::Draw { x, y, n })
        } else if family == 0xE {
            if nn == 0x9E {
                Some(Instruction::SkipIfKeyDown { x })
            } else if nn == 0xA1 {
                Some(Instruction::SkipIfKeyUp { x })
            } else {
                None
            }
        } else {
            if nn == 0x07 {
                Some(Instruction::SetVxToDelayTimer { x })
            } else if nn == 0x0A {
                Some(Instruction::WaitForKey { x })
            } else if nn == 0x15 {
                Some(Instruction::SetDelayTimer { x })
            } else if nn == 0x18 {
                Some(Instruction::SetSoundTimer { x })
            } else if nn == 0x1E {
                Some(Instruction::AddVxToIndex { x })
            } else if nn == 0x29 {
                Some(Instruction::PointIndexAtFontCharacter { x })
            } else if nn == 0x33 {
                Some(Instruction::StoreDecimalDigits { x })
            } else if nn == 0x55 {
                Some(Instruction::StoreRegisters { x })
            } else if nn == 0x65 {
                Some(Instruction::LoadRegisters { x })
            } else {
                None
            }
        }
    }

    /// Decodes the word into the instruction it encodes; `None` when it
    /// encodes none.
    #[verifier::when_used_as_spec(spec_decode)]
    pub fn decode(&self) -> (instruction: Option<Instruction>)
        ensures
            instruction == self.spec_decode(),
            instruction matches Some(i) ==> i.wf(),
    {
        let x: u8 = self.x();
        let y: u8 = self.y();
        let n: u8 = self.n();
        let nn: u8 = self.nn();
        let nnn: u16 = self.nnn();
        match self.family() {
            0x0 => match self.opcode {
                0x00E0 => Some(Instruction::ClearScreen),
                0x00EE => Some(Instruction::ReturnFromSubroutine),
                _ => None,
            },
            0x1 => Some(Instruction::Jump { nnn }),
            0x2 => Some(Instruction::CallSubroutine { nnn }),
            0x3 => Some(Instruction::SkipIfVxEqualsNn { x, nn }),
            0x4 => Some(Instruction::SkipIfVxNotEqualsNn { x, nn }),
            0x5 => Some(Instruction::SkipIfVxEqualsVy { x, y }),
            0x6 => Some(Instruction::SetRegister { x, nn }),
            0x7 => Some(Instruction::AddToRegister { x, nn }),
            0x8 => match n {
                0x0 => Some(Instruction::SetVxToVy { x, y }),
                0x1 => Some(Instruction::OrVxWithVy { x, y }),
                0x2 => Some(Instruction::AndVxWithVy { x, y }),
                0x3 => Some(Instruction::XorVxWithVy { x, y }),
                0x4 => Some(Instruction::AddVyToVx { x, y }),
                0x5 => Some(Instruction::SubtractVyFromVx { x, y }),
                0x6 => Some(Instruction::ShiftRight { x, y }),
                0x7 => Some(Instruction::SubtractVxFromVy { x, y }),
                0xE => Some(Instruction::ShiftLeft { x, y }),
                _ => None,
            },
            0x9 => Some(Instruction::SkipIfVxNotEqualsVy { x, y }),
            0xA => Some(Instruction::SetIndexRegister { nnn }),
            0xB => Some(Instruction::JumpWithOffset { nnn }),
            0xC => Some(Instruction::Randomize { x, nn }),
            0xD => Some(Instruction::Draw { x, y, n }),
            0xE => match nn {
                0x9E => Some(Instruction::SkipIfKeyDown { x }),
                0xA1 => Some(Instruction::SkipIfKeyUp { x }),
                _ => None,
            },
            _ => match nn {
                0x07 => Some(Instruction::SetVxToDelayTimer { x }),
                0x0A => Some(Instruction::WaitForKey { x }),
                0x15 => Some(Instruction::SetDelayTimer { x }),
                0x18 => Some(Instruction::SetSoundTimer { x }),
                0x1E => Some(Instruction::AddVxToIndex { x }),
                0x29 => Some(Instruction::PointIndexAtFontCharacter { x }),
                0x33 => Some(Instruction::StoreDecimalDigits { x }),
                0x55 => Some(Instruction::StoreRegisters { x }),
                0x65 => Some(Instruction::LoadRegisters { x }),
                _ => None,
            },
        }
    }
}

/// The operations of the machine, with the fields of the word that each
/// one uses. `x` and `y` name variable registers.
#[derive(Debug, Clone, Copy, PartialEq, Eq, Structural)]
pub enum Instruction {
    /// `00E0`: clear the frame buffer.
    ClearScreen,
    /// `00EE`: return from a subroutine.
    ReturnFromSubroutine,
    /// `1nnn`: jump to `nnn`.
    Jump { nnn: u16 },
    /// `2nnn`: call the subroutine at `nnn`.
    CallSubroutine { nnn: u16 },
    /// `3xnn`: skip the next instruction if Vx equals `nn`.
    SkipIfVxEqualsNn { x: u8, nn: u8 },
    /// `4xnn`: skip the next instruction if Vx differs from `nn`.
    SkipIfVxNotEqualsNn { x: u8, nn: u8 },
    /// `5xy_`: skip the next instruction if Vx equals Vy.
    SkipIfVxEqualsVy { x: u8, y: u8 },
    /// `6xnn`: set Vx to `nn`.
    SetRegister { x: u8, nn: u8 },
    /// `7xnn`: add `nn` to Vx.
    AddToRegister { x: u8, nn: u8 },
    /// `8xy0`: set Vx to Vy.
    SetVxToVy { x: u8, y: u8 },
    /// `8xy1`: set Vx to Vx OR Vy.
    OrVxWithVy { x: u8, y: u8 },
    /// `8xy2`: set Vx to Vx AND Vy.
    AndVxWithVy { x: u8, y: u8 },
    /// `8xy3`: set Vx to Vx XOR Vy.
    XorVxWithVy { x: u8, y: u8 },
    /// `8xy4`: add Vy to Vx, with carry in VF.
    AddVyToVx { x: u8, y: u8 },
    /// `8xy5`: subtract Vy from Vx, with "no borrow" in VF.
    SubtractVyFromVx { x: u8, y: u8 },
    /// `8xy6`: shift right by one bit, with the bit shifted out in VF.
    ShiftRight { x: u8, y: u8 },
    /// `8xy7`: set Vx to Vy minus Vx, with "no borrow" in VF.
    SubtractVxFromVy { x: u8, y: u8 },
    /// `8xyE`: shift left by one bit, with the bit shifted out in VF.
    ShiftLeft { x: u8, y: u8 },
    /// `9xy_`: skip the next instruction if Vx differs from Vy.
    SkipIfVxNotEqualsVy { x: u8, y: u8 },
    /// `Annn`: set the index register to `nnn`.
    SetIndexRegister { nnn: u16 },
    /// `Bnnn`: jump to `nnn` plus a register.
    JumpWithOffset { nnn: u16 },
    /// `Cxnn`: set Vx to a random byte AND `nn`.
    Randomize { x: u8, nn: u8 },
    /// `Dxyn`: draw an `n`-row sprite at (Vx, Vy).
    Draw { x: u8, y: u8, n: u8 },
    /// `Ex9E`: skip the next instruction if the key named by Vx is down.
    SkipIfKeyDown { x: u8 },
    /// `ExA1`: skip the next instruction if the key named by Vx is up.
    SkipIfKeyUp { x: u8 },
    /// `Fx07`: set Vx to the delay timer.
    SetVxToDelayTimer { x: u8 },
    /// `Fx0A`: wait until a key is released and put its index into Vx.
    WaitForKey { x: u8 },
    /// `Fx15`: set the delay timer to Vx.
    SetDelayTimer { x: u8 },
    /// `Fx18`: set the sound timer to Vx.
    SetSoundTimer { x: u8 },
    /// `Fx1E`: add Vx to the index register.
    AddVxToIndex { x: u8 },
    /// `Fx29`: point the index register at the glyph for the low nibble of Vx.
    PointIndexAtFontCharacter { x: u8 },
    /// `Fx33`: store the three decimal digits of Vx at the index register.
    StoreDecimalDigits { x: u8 },
    /// `Fx55`: store V0 to Vx at the index register.
    StoreRegisters { x: u8 },
    /// `Fx65`: load V0 to Vx from the index register.
    LoadRegisters { x: u8 },
}

impl Instruction {
    /// Every register index and every nibble is below sixteen, and every
    /// address below 4096.
    pub open spec fn wf(self) -> bool {
        match self {
            Instruction::ClearScreen | Instruction::ReturnFromSubroutine => true,
            Instruction::Jump { nnn }
            | Instruction::CallSubroutine { nnn }
            | Instruction::SetIndexRegister { nnn }
            | Instruction::JumpWithOffset { nnn } => nnn < 0x1000,
            Instruction::SkipIfVxEqualsNn { x, nn }
            | Instruction::SkipIfVxNotEqualsNn { x, nn }
            | Instruction::SetRegister { x, nn }
            | Instruction::AddToRegister { x, nn }
            | Instruction::Randomize { x, nn } => x < 16,
            Instruction::SkipIfVxEqualsVy { x, y }
            | Instruction::SetVxToVy { x, y }
            | Instruction::OrVxWithVy { x, y }
            | Instruction::AndVxWithVy { x, y }
            | Instruction::XorVxWithVy { x, y }
            | Instruction::AddVyToVx { x, y }
            | Instruction::SubtractVyFromVx { x, y }
            | Instruction::ShiftRight { x, y }
            | Instruction::SubtractVxFromVy { x, y }
            | Instruction::ShiftLeft { x, y }
            | Instruction::SkipIfVxNotEqualsVy { x, y } => x < 16 && y < 16,
            Instruction::Draw { x, y, n } => x < 16 && y < 16 && n < 16,
            Instruction::SkipIfKeyDown { x }
            | Instruction::SkipIfKeyUp { x }
            | Instruction::SetVxToDelayTimer { x }
            | Instruction::WaitForKey { x }
            | Instruction::SetDelayTimer { x }
            | Instruction::SetSoundTimer { x }
            | Instruction::AddVxToIndex { x }
            | Instruction::PointIndexAtFontCharacter { x }
            | Instruction::StoreDecimalDigits { x }
            | Instruction::StoreRegisters { x }
            | Instruction::LoadRegisters { x } => x < 16,
        }
    }
}

/// Every instruction that a word decodes to is well formed: its register
/// indices and nibbles are below sixteen and its address below 4096.
pub proof fn lemma_decoded_is_wf(op: OpCode)
    ensures
        op.spec_decode() matches Some(instruction) ==> instruction.wf(),
{
}

/// The fields of a word put it together again: the word is
/// `family·4096 + x·256 + y·16 + n`, its low byte is `y·16 + n`, and its low
/// twelve bits are `x·256 + nn`.
pub proof fn lemma_fields_compose(op: OpCode)
    ensures
        op.opcode == op.spec_family() * 0x1000 + op.spec_x() * 0x100 + op.spec_y() * 0x10
            + op.spec_n(),
        op.spec_nn() == op.spec_y() * 0x10 + op.spec_n(),
        op.spec_nnn() == op.spec_x() * 0x100 + op.spec_nn(),
{
    let word: u16 = op.opcode;
    assert(word == (word / 0x1000) * 0x1000 + ((word / 0x100) % 0x10) * 0x100 + ((word / 0x10)
        % 0x10) * 0x10 + word % 0x10) by (bit_vector);
    assert(word % 0x100 == ((word / 0x10) % 0x10) * 0x10 + word % 0x10) by (bit_vector);
    assert(word % 0x1000 == ((word / 0x100) % 0x10) * 0x100 + word % 0x100) by (bit_vector);
}

} // verus!
