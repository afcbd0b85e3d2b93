//! The instruction set and the decoder.

use vstd::prelude::*;

verus! {

/// One decoded instruction. `x` and `y` name registers, `value` is an
/// immediate byte and `address` a 12-bit address.
#[derive(Clone, Copy, PartialEq, Eq, Structural, Debug)]
pub enum Instruction {
    /// `00E0`: clear the active frame buffer.
    ClearScreen,
    /// `00EE`: return from a subroutine.
    Return,
    /// `00FE`: switch to the low-resolution display.
    SetLowRes,
    /// `00FF`: switch to the high-resolution display.
    SetHighRes,
    /// `00FB`: scroll the active frame buffer four pixels right.
    ScrollRight,
    /// `00FC`: scroll the active frame buffer four pixels left.
    ScrollLeft,
    /// `00Cn`: scroll the active frame buffer `rows` pixels down.
    ScrollDown { rows: u8 },
    /// `1nnn`: jump to `address`.
    Jump { address: u16 },
    /// `2nnn`: call the subroutine at `address`.
    Call { address: u16 },
    /// `3xkk`: skip the next instruction if `Vx == value`.
    SkipIfEqual { x: u8, value: u8 },
    /// `4xkk`: skip the next instruction if `Vx != value`.
    SkipIfNotEqual { x: u8, value: u8 },
    /// `5xy0`: skip the next instruction if `Vx == Vy`.
    SkipIfRegistersEqual { x: u8, y: u8 },
    /// `6xkk`: `Vx = value`.
    Load { x: u8, value: u8 },
    /// `7xkk`: `Vx = Vx + value`, wrapping, flags untouched.
    AddValue { x: u8, value: u8 },
    /// `8xy0`: `Vx = Vy`.
    Copy { x: u8, y: u8 },
    /// `8xy1`: `Vx = Vx | Vy`, then `VF = 0`.
    Or { x: u8, y: u8 },
    /// `8xy2`: `Vx = Vx & Vy`, then `VF = 0`.
    And { x: u8, y: u8 },
    /// `8xy3`: `Vx = Vx ^ Vy`, then `VF = 0`.
    Xor { x: u8, y: u8 },
    /// `8xy4`: `Vx = Vx + Vy`, wrapping; `VF` is the carry.
    Add { x: u8, y: u8 },
    /// `8xy5`: `Vx = Vx - Vy`, wrapping; `VF` is 1 unless a borrow occurred.
    Subtract { x: u8, y: u8 },
    /// `8xy6`: `VF` is the low bit of `Vx`, `Vx` is shifted right by one.
    ShiftRight { x: u8 },
    /// `8xy7`: `Vx = Vy - Vx`, wrapping; `VF` is 1 unless a borrow occurred.
    SubtractFrom { x: u8, y: u8 },
    /// `8xyE`: `VF` is the high bit of `Vx`, `Vx` is shifted left by one.
    ShiftLeft { x: u8 },
    /// `9xy0`: skip the next instruction if `Vx != Vy`.
    SkipIfRegistersDiffer { x: u8, y: u8 },
    /// `Annn`: `I = address`.
    LoadIndex { address: u16 },
    /// `Bnnn`: jump to `V0 + address`.
    JumpOffset { address: u16 },
    /// `Cxkk`: `Vx` = a random byte `& mask`.
    Random { x: u8, mask: u8 },
    /// `Dxyn`: draw the sprite at `I` at position `(Vx, Vy)`.
    Draw { x: u8, y: u8, height: u8 },
    /// `Ex9E`: skip the next instruction if key `Vx` is down.
    SkipIfKeyDown { x: u8 },
    /// `ExA1`: skip the next instruction if key `Vx` is up.
    SkipIfKeyUp { x: u8 },
    /// `Fx07`: `Vx` = delay timer.
    ReadDelay { x: u8 },
    /// `Fx0A`: wait until a key is released and store it in `Vx`.
    WaitKey { x: u8 },
    /// `Fx15`: delay timer = `Vx`.
    SetDelay { x: u8 },
    /// `Fx18`: sound timer = `Vx`.
    SetSound { x: u8 },
    /// `Fx1E`: `I = I + Vx`, wrapping, flags untouched.
    AddToIndex { x: u8 },
    /// `Fx29`: `I` = address of the small glyph for the low digit of `Vx`.
    SmallGlyph { x: u8 },
    /// `Fx30`: `I` = address of the large glyph for the low digit of `Vx`.
    LargeGlyph { x: u8 },
    /// `Fx33`: store the three decimal digits of `Vx` at `I`, `I+1`, `I+2`.
    StoreDecimal { x: u8 },
    /// `Fx55`: store `V0..=Vx` to memory from `I` on.
    StoreRegisters { x: u8 },
    /// `Fx65`: load `V0..=Vx` from memory from `I` on.
    LoadRegisters { x: u8 },
    /// Any other opcode: reported, and otherwise without effect.
    Unknown { opcode: u16 },
}

impl Instruction {
    /// Register numbers and nibbles are below 16, addresses below 4096.
    pub open spec fn wf(self) -> bool {
        match self {
            Instruction::ScrollDown { rows } => rows < 16,
            Instruction::Jump { address } => address < 4096,
            Instruction::Call { address } => address < 4096,
            Instruction::SkipIfEqual { x, value } => x < 16,
            Instruction::SkipIfNotEqual { x, value } => x < 16,
            Instruction::SkipIfRegistersEqual { x, y } => x < 16 && y < 16,
            Instruction::Load { x, value } => x < 16,
            Instruction::AddValue { x, value } => x < 16,
            Instruction::Copy { x, y } => x < 16 && y < 16,
            Instruction::Or { x, y } => x < 16 && y < 16,
            Instruction::And { x, y } => x < 16 && y < 16,
            Instruction::Xor { x, y } => x < 16 && y < 16,
            Instruction::Add { x, y } => x < 16 && y < 16,
            Instruction::Subtract { x, y } => x < 16 && y < 16,
            Instruction::ShiftRight { x } => x < 16,
            Instruction::SubtractFrom { x, y } => x < 16 && y < 16,
            Instruction::ShiftLeft { x } => x < 16,
            Instruction::SkipIfRegistersDiffer { x, y } => x < 16 && y < 16,
            Instruction::LoadIndex { address } => address < 4096,
            Instruction::JumpOffset { address } => address < 4096,
            Instruction::Random { x, mask } => x < 16,
            Instruction::Draw { x, y, height } => x < 16 && y < 16 && height < 16,
            Instruction::SkipIfKeyDown { x } => x < 16,
            Instruction::SkipIfKeyUp { x } => x < 16,
            Instruction::ReadDelay { x } => x < 16,
            Instruction::WaitKey { x } => x < 16,
            Instruction::SetDelay { x } => x < 16,
            Instruction::SetSound { x } => x < 16,
            Instruction::AddToIndex { x } => x < 16,
            Instruction::SmallGlyph { x } => x < 16,
            Instruction::LargeGlyph { x } => x < 16,
            Instruction::StoreDecimal { x } => x < 16,
            Instruction::StoreRegisters { x } => x < 16,
            Instruction::LoadRegisters { x } => x < 16,
            _ => true,
        }
    }
}

/// The part of the machine that an instruction works on.
#[derive(Clone, Copy, PartialEq, Eq, Structural, Debug)]
pub enum Category {
    /// Clearing, scrolling, switching and drawing.
    Display,
    /// Jumps, calls, skips and the key wait.
    Flow,
    /// Loading and computing a register.
    Arithmetic,
    /// Timers, the index register and memory.
    Transfer,
    /// No instruction.
    Unknown,
}

impl Instruction {
    /// The category of the instruction.
    pub open spec fn spec_category(self) -> Category {
        match self {
            Instruction::ClearScreen
            | Instruction::SetLowRes
            | Instruction::SetHighRes
            | Instruction::ScrollRight
            | Instruction::ScrollLeft
            | Instruction::ScrollDown { .. }
            | Instruction::Draw { .. } => Category::Display,
            Instruction::Return
            | Instruction::Jump { .. }
            | Instruction::Call { .. }
            | Instruction::SkipIfEqual { .. }
            | Instruction::SkipIfNotEqual { .. }
            | Instruction::SkipIfRegistersEqual { .. }
            | Instruction::SkipIfRegistersDiffer { .. }
            | Instruction::JumpOffset { .. }
            | Instruction::SkipIfKeyDown { .. }
            | Instruction::SkipIfKeyUp { .. }
            | Instruction::WaitKey { .. } => Category::Flow,
            Instruction::Load { .. }
            | Instruction::AddValue { .. }
            | Instruction::Copy { .. }
            | Instruction::Or { .. }
            | Instruction::And { .. }
            | Instruction::Xor { .. }
            | Instruction::Add { .. }
            | Instruction::Subtract { .. }
            | Instruction::ShiftRight { .. }
            | Instruction::SubtractFrom { .. }
            | Instruction::ShiftLeft { .. }
            | Instruction::Random { .. } => Category::Arithmetic,
            Instruction::LoadIndex { .. }
            | Instruction::ReadDelay { .. }
            | Instruction::SetDelay { .. }
            | Instruction::SetSound { .. }
            | Instruction::AddToIndex { .. }
            | Instruction::SmallGlyph { .. }
            | Instruction::LargeGlyph { .. }
            | Instruction::StoreDecimal { .. }
            | Instruction::StoreRegisters { .. }
            | Instruction::LoadRegisters { .. } => Category::Transfer,
            Instruction::Unknown { .. } => Category::Unknown,
        }
    }

    /// The category of the instruction.
    #[verifier::when_used_as_spec(spec_category)]
    pub fn category(self) -> (category: Category)
        ensures
            category == self.spec_category(),
    {
        match self {
            Instruction::ClearScreen
            | Instruction::SetLowRes
            | Instruction::SetHighRes
            | Instruction::ScrollRight
            | Instruction::ScrollLeft
            | Instruction::ScrollDown { .. }
            | Instruction::Draw { .. } => Category::Display,
            Instruction::Return
            | Instruction::Jump { .. }
            | Instruction::Call { .. }
            | Instruction::SkipIfEqual { .. }
            | Instruction::SkipIfNotEqual { .. }
            | Instruction::SkipIfRegistersEqual { .. }
            | Instruction::SkipIfRegistersDiffer { .. }
            | Instruction::JumpOffset { .. }
            | Instruction::SkipIfKeyDown { .. }
            | Instruction::SkipIfKeyUp { .. }
            | Instruction::WaitKey { .. } => Category::Flow,
            Instruction::Load { .. }
            | Instruction::AddValue { .. }
            | Instruction::Copy { .. }
            | Instruction::Or { .. }
            | Instruction::And { .. }
            | Instruction::Xor { .. }
            | Instruction::Add { .. }
            | Instruction::Subtract { .. }
            | Instruction::ShiftRight { .. }
            | Instruction::SubtractFrom { .. }
            | Instruction::ShiftLeft { .. }
            | Instruction::Random { .. } => Category::Arithmetic,
            Instruction::LoadIndex { .. }
            | Instruction::ReadDelay { .. }
            | Instruction::SetDelay { .. }
            | Instruction::SetSound { .. }
            | Instruction::AddToIndex { .. }
            | Instruction::SmallGlyph { .. }
            | Instruction::LargeGlyph { .. }
            | Instruction::StoreDecimal { .. }
            | Instruction::StoreRegisters { .. }
            | Instruction::LoadRegisters { .. } => Category::Transfer,
            Instruction::Unknown { .. } => Category::Unknown,
        }
    }
}

/// Hexadecimal digit `position` of `opcode`, with digit 0 the lowest.
pub open spec fn nibble(opcode: u16, position: nat) -> u8 {
    if position == 0 {
        (opcode % 16) as u8
    } else if position == 1 {
        ((opcode / 0x10) % 16) as u8
    } else if position == 2 {
        ((opcode / 0x100) % 16) as u8
    } else {
        ((opcode / 0x1000) % 16) as u8
    }
}

/// The instruction that `opcode` stands for. The highest digit selects the
/// family; within a family the lowest digit or the low byte selects the
/// instruction.
pub open spec fn decoded(opcode: u16) -> Instruction {
    let family = nibble(opcode, 3);
    let x = nibble(opcode, 2);
    let y = nibble(opcode, 1);
    let low = nibble(opcode, 0);
    let value = (opcode % 0x100) as u8;
    let address = (opcode % 0x1000) as u16;
    let unknown = Instruction::Unknown { opcode };
    if family == 0x0 {
        if opcode == 0x00E0 {
            Instruction::ClearScreen
        } else if opcode == 0x00EE {
            Instruction::Return
        } else if opcode == 0x00FE {
            Instruction::SetLowRes
        } else if opcode == 0x00FF {
            Instruction::SetHighRes
        } else if opcode == 0x00FB {
            Instruction::ScrollRight
        } else if opcode == 0x00FC {
            Instruction::ScrollLeft
        } else if opcode / 0x10 == 0x00C {
            Instruction::ScrollDown { rows: low }
        } else {
            unknown
        }
    } else if family == 0x1 {
        Instruction::Jump { address }
    } else if family == 0x2 {
        Instruction::Call { address }
    } else if family == 0x3 {
        Instruction::SkipIfEqual { x, value }
    } else if family == 0x4 {
        Instruction::SkipIfNotEqual { x, value }
    } else if family == 0x5 {
        if low == 0 {
            Instruction::SkipIfRegistersEqual { x, y }
        } else {
            unknown
        }
    } else if family == 0x6 {
        Instruction::Load { x, value }
    } else if family == 0x7 {
        Instruction::AddValue { x, value }
    } else if family == 0x8 {
        if low == 0x0 {
            Instruction::Copy { x, y }
        } else if low == 0x1 {
            Instruction::Or { x, y }
        } else if low == 0x2 {
            Instruction::And { x, y }
        } else if low == 0x3 {
            Instruction::Xor { x, y }
        } else if low == 0x4 {
            Instruction::Add { x, y }
        } else if low == 0x5 {
            Instruction::Subtract { x, y }
        } else if low == 0x6 {
            Instruction::ShiftRight { x }
        } else if low == 0x7 {
            Instruction::SubtractFrom { x, y }
        } else if low == 0xE {
            Instruction::ShiftLeft { x }
        } else {
            unknown
        }
    } else if family == 0x9 {
        if low == 0 {
            Instruction::SkipIfRegistersDiffer { x, y }
        } else {
            unknown
        }
    } else if family == 0xA {
        Instruction::LoadIndex { address }
    } else if family == 0xB {
        Instruction::JumpOffset { address }
    } else if family == 0xC {
        Instruction::Random { x, mask: value }
    } else if family == 0xD {
        Instruction::Draw { x, y, height: low }
    } else if family == 0xE {
        if value == 0x9E {
            Instruction::SkipIfKeyDown { x }
        } else if value == 0xA1 {
            Instruction::SkipIfKeyUp { x }
        } else {
            unknown
        }
    } else {
        if value == 0x07 {
            Instruction::ReadDelay { x }
        } else if value == 0x0A {
            Instruction::WaitKey { x }
        } else if value == 0x15 {
            Instruction::SetDelay { x }
        } else if value == 0x18 {
            Instruction::SetSound { x }
        } else if value == 0x1E {
            Instruction::AddToIndex { x }
        } else if value == 0x29 {
            Instruction::SmallGlyph { x }
        } else if value == 0x30 {
            Instruction::LargeGlyph { x }
        } else if value == 0x33 {
            Instruction::StoreDecimal { x }
        } else if value == 0x55 {
            Instruction::StoreRegisters { x }
        } else if value == 0x65 {
            Instruction::LoadRegisters { x }
        } else {
            unknown
        }
    }
}

/// Every opcode decodes to a well-formed instruction.
pub proof fn law_decoded_is_well_formed(opcode: u16)
    ensures
        decoded(opcode).wf(),
{
}

proof fn digits_of_shift(x: u8, y: u8, low: u16)
    by (bit_vector)
    requires
        x < 16,
        y < 16,
        low < 16,
    ensures
        ((0x8000u16 + (x as u16) * 0x100 + (y as u16) * 0x10 + low) / 0x1000) % 16 == 8,
        ((0x8000u16 + (x as u16) * 0x100 + (y as u16) * 0x10 + low) / 0x100) % 16 == x as u16,
        ((0x8000u16 + (x as u16) * 0x100 + (y as u16) * 0x10 + low) / 0x10) % 16 == y as u16,
        (0x8000u16 + (x as u16) * 0x100 + (y as u16) * 0x10 + low) % 16 == low,
        0x8000u16 + (x as u16) * 0x100 + (y as u16) * 0x10 + low <= 0x8FFF,
{
}

/// The two shift opcodes name one register: whatever their `y` digit is,
/// `8xy6` and `8xyE` decode to the shift of `Vx`.
pub proof fn law_shifts_take_one_operand(x: u8, y: u8)
    requires
        x < 16,
        y < 16,
    ensures
        decoded((0x8006 + x * 0x100 + y * 0x10) as u16) == (Instruction::ShiftRight { x }),
        decoded((0x800E + x * 0x100 + y * 0x10) as u16) == (Instruction::ShiftLeft { x }),
{
    digits_of_shift(x, y, 0x6);
    digits_of_shift(x, y, 0xE);
}

proof fn fields_of_opcode(opcode: u16)
    by (bit_vector)
    ensures
        (opcode >> 12) == (opcode / 0x1000) % 16,
        ((opcode & 0x0F00) >> 8) == (opcode / 0x100) % 16,
        ((opcode & 0x00F0) >> 4) == (opcode / 0x10) % 16,
        (opcode & 0x000F) == opcode % 16,
        (opcode & 0x00FF) == opcode % 0x100,
        (opcode & 0x0FFF) == opcode % 0x1000,
        (opcode & 0xFFF0) == 0x00C0 <==> opcode / 0x10 == 0x00C,
{
}

/// Decodes one opcode.
pub fn decode(opcode: u16) -> (instruction: Instruction)
    ensures
        instruction == decoded(opcode),
        instruction.wf(),
{
    proof {
        fields_of_opcode(opcode);
    }
    let x: u8 = ((opcode & 0x0F00) >> 8) as u8;
    let y: u8 = ((opcode & 0x00F0) >> 4) as u8;
    let low: u8 = (opcode & 0x000F) as u8;
    let value: u8 = (opcode & 0x00FF) as u8;
    let address: u16 = opcode & 0x0FFF;
    let unknown = Instruction::Unknown { opcode };
    match opcode >> 12 {
        0x0 => match opcode {
            0x00E0 => Instruction::ClearScreen,
            0x00EE => Instruction::Return,
            0x00FE => Instruction::SetLowRes,
            0x00FF => Instruction::SetHighRes,
            0x00FB => Instruction::ScrollRight,
            0x00FC => Instruction::ScrollLeft,
            _ => if opcode & 0xFFF0 == 0x00C0 {
                Instruction::ScrollDown { rows: low }
            } else {
                unknown
            },
        },
        0x1 => Instruction::Jump { address },
        0x2 => Instruction::Call { address },
        0x3 => Instruction::SkipIfEqual { x, value },
        0x4 => Instruction::SkipIfNotEqual { x, value },
        0x5 => match low {
            0x0 => Instruction::SkipIfRegistersEqual { x, y },
            _ => unknown,
        },
        0x6 => Instruction::Load { x, value },
        0x7 => Instruction::AddValue { x, value },
        0x8 => match low {
            0x0 => Instruction::Copy { x, y },
            0x1 => Instruction::Or { x, y },
            0x2 => Instruction::And { x, y },
            0x3 => Instruction::Xor { x, y },
            0x4 => Instruction::Add { x, y },
            0x5 => Instruction::Subtract { x, y },
            0x6 => Instruction::ShiftRight { x },
            0x7 => Instruction::SubtractFrom { x, y },
            0xE => Instruction::ShiftLeft { x },
            _ => unknown,
        },
        0x9 => match low {
            0x0 => Instruction::SkipIfRegistersDiffer { x, y },
            _ => unknown,
        },
        0xA => Instruction::LoadIndex { address },
        0xB => Instruction::JumpOffset { address },
        0xC => Instruction::Random { x, mask: value },
        0xD => Instruction::Draw { x, y, height: low },
        0xE => match value {
            0x9E => Instruction::SkipIfKeyDown { x },
            0xA1 => Instruction::SkipIfKeyUp { x },
            _ => unknown,
        },
        _ => match value {
            0x07 => Instruction::ReadDelay { x },
            0x0A => Instruction::WaitKey { x },
            0x15 => Instruction::SetDelay { x },
            0x18 => Instruction::SetSound { x },
            0x1E => Instruction::AddToIndex { x },
            0x29 => Instruction::SmallGlyph { x },
            0x30 => Instruction::LargeGlyph { x },
            0x33 => Instruction::StoreDecimal { x },
            0x55 => Instruction::StoreRegisters { x },
            0x65 => Instruction::LoadRegisters { x },
            _ => unknown,
        },
    }
}

} // verus!
