//! The instruction cycle.

use vstd::prelude::*;
use crate::chip_core::ChipCore;
use crate::instruction::{decode, decoded, Category, Instruction};
use crate::model::DisplayMode;

verus! {

impl ChipCore {
    /// Carries out one instruction cycle: fetch, decode, execute. An opcode
    /// that stands for no instruction is handed back and has no effect
    /// beyond the fetch. The byte that `Cxkk` uses is drawn from the random
    /// generator, so only its existence is known.
    pub fn execute(&mut self) -> (unknown: Option<u16>)
        ensures
            exists|random: u8| final(self)@ == #[trigger] old(self)@.stepped(random),
            !(decoded(old(self)@.next_opcode()) is Random) ==> final(self)@ == old(self)@.stepped(0),
            unknown == old(self)@.unknown_opcode(),
    {
        let opcode: u16 = self.fetch();
        let instruction: Instruction = decode(opcode);
        let random: u8 = match instruction {
            Instruction::Random { x, mask } => self.draw_random(),
            _ => 0,
        };
        self.perform(instruction, random);
        assert(self@ == old(self)@.stepped(random));
        match instruction {
            Instruction::Unknown { opcode } => Some(opcode),
            _ => None,
        }
    }

    /// Carries out one instruction cycle in which `Cxkk`, if it is the
    /// instruction, uses `random` as its random byte.
    pub fn execute_with(&mut self, random: u8) -> (unknown: Option<u16>)
        ensures
            final(self)@ == old(self)@.stepped(random),
            unknown == old(self)@.unknown_opcode(),
    {
        let opcode: u16 = self.fetch();
        let instruction: Instruction = decode(opcode);
        self.perform(instruction, random);
        match instruction {
            Instruction::Unknown { opcode } => Some(opcode),
            _ => None,
        }
    }

    /// Carries out `instruction`.
    fn perform(&mut self, instruction: Instruction, random: u8)
        requires
            instruction.wf(),
        ensures
            final(self)@ == old(self)@.executed(instruction, random),
    {
        match instruction.category() {
            Category::Display => self.perform_display(instruction),
            Category::Flow => self.perform_flow(instruction),
            Category::Arithmetic => self.perform_arithmetic(instruction, random),
            Category::Transfer => self.perform_transfer(instruction),
            Category::Unknown => {},
        }
    }

    /// Carries out an instruction that changes the display.
    fn perform_display(&mut self, instruction: Instruction)
        requires
            instruction.wf(),
            instruction.spec_category() == Category::Display,
        ensures
            final(self)@ == old(self)@.executed(instruction, 0),
    {
        match instruction {
            Instruction::ClearScreen => self.clear_active(),
            Instruction::SetLowRes => self.switch_to(DisplayMode::LowRes),
            Instruction::SetHighRes => self.switch_to(DisplayMode::HighRes),
            Instruction::ScrollRight => self.scroll_right(),
            Instruction::ScrollLeft => self.scroll_left(),
            Instruction::ScrollDown { rows } => self.scroll_down(rows),
            Instruction::Draw { x, y, height } => self.draw_sprite(x, y, height),
            _ => {},
        }
    }

    /// Carries out an instruction that moves the program counter.
    fn perform_flow(&mut self, instruction: Instruction)
        requires
            instruction.wf(),
            instruction.spec_category() == Category::Flow,
        ensures
            final(self)@ == old(self)@.executed(instruction, 0),
    {
        match instruction {
            Instruction::Return => self.return_from_call(),
            Instruction::Jump { address } => self.jump_to(address),
            Instruction::Call { address } => self.call(address),
            Instruction::SkipIfEqual { x, value } => {
                let equal: bool = self.reg(x) == value;
                self.skip_if(equal);
            },
            Instruction::SkipIfNotEqual { x, value } => {
                let differ: bool = self.reg(x) != value;
                self.skip_if(differ);
            },
            Instruction::SkipIfRegistersEqual { x, y } => {
                let equal: bool = self.reg(x) == self.reg(y);
                self.skip_if(equal);
            },
            Instruction::SkipIfRegistersDiffer { x, y } => {
                let differ: bool = self.reg(x) != self.reg(y);
                self.skip_if(differ);
            },
            Instruction::JumpOffset { address } => {
                let target: u16 = self.reg(0) as u16 + address;
                self.jump_to(target);
            },
            Instruction::SkipIfKeyDown { x } => {
                let down: bool = self.key_is_down(self.reg(x));
                self.skip_if(down);
            },
            Instruction::SkipIfKeyUp { x } => {
                let down: bool = self.key_is_down(self.reg(x));
                self.skip_if(!down);
            },
            Instruction::WaitKey { x } => self.await_key(x),
            _ => {},
        }
    }

    /// Carries out an instruction that computes a register.
    fn perform_arithmetic(&mut self, instruction: Instruction, random: u8)
        requires
            instruction.wf(),
            instruction.spec_category() == Category::Arithmetic,
        ensures
            final(self)@ == old(self)@.executed(instruction, random),
    {
        match instruction {
            Instruction::Load { x, value } => self.set_register(x, value),
            Instruction::AddValue { x, value } => {
                let sum: u8 = self.reg(x).wrapping_add(value);
                self.set_register(x, sum);
            },
            Instruction::Copy { x, y } => {
                let value: u8 = self.reg(y);
                self.set_register(x, value);
            },
            Instruction::Or { x, y } => {
                let value: u8 = self.reg(x) | self.reg(y);
                self.set_register(x, value);
                self.set_flag(false);
            },
            Instruction::And { x, y } => {
                let value: u8 = self.reg(x) & self.reg(y);
                self.set_register(x, value);
                self.set_flag(false);
            },
            Instruction::Xor { x, y } => {
                let value: u8 = self.reg(x) ^ self.reg(y);
                self.set_register(x, value);
                self.set_flag(false);
            },
            Instruction::Add { x, y } => self.add_registers(x, y),
            Instruction::Subtract { x, y } => {
                let minuend: u8 = self.reg(x);
                let subtrahend: u8 = self.reg(y);
                self.subtract(x, minuend, subtrahend);
            },
            Instruction::ShiftRight { x } => {
                let value: u8 = self.reg(x);
                self.set_register(x, value / 2);
                self.set_flag(value % 2 == 1);
            },
            Instruction::SubtractFrom { x, y } => {
                let minuend: u8 = self.reg(y);
                let subtrahend: u8 = self.reg(x);
                self.subtract(x, minuend, subtrahend);
            },
            Instruction::ShiftLeft { x } => {
                let value: u8 = self.reg(x);
                self.set_register(x, ((value as u16 * 2) % 256) as u8);
                self.set_flag(value >= 128);
            },
            Instruction::Random { x, mask } => self.set_register(x, random & mask),
            _ => {},
        }
    }

    /// Carries out an instruction that moves data between registers, timers and memory.
    fn perform_transfer(&mut self, instruction: Instruction)
        requires
            instruction.wf(),
            instruction.spec_category() == Category::Transfer,
        ensures
            final(self)@ == old(self)@.executed(instruction, 0),
    {
        match instruction {
            Instruction::ReadDelay { x } => self.read_delay(x),
            Instruction::SetDelay { x } => self.set_delay(x),
            Instruction::SetSound { x } => self.set_sound(x),
            Instruction::LoadIndex { address } => self.set_index(address),
            Instruction::AddToIndex { x } => self.add_to_index(x),
            Instruction::SmallGlyph { x } => {
                let glyph: u16 = (self.reg(x) % 16) as u16 * 5;
                self.set_index(glyph);
            },
            Instruction::LargeGlyph { x } => {
                let glyph: u16 = 80 + (self.reg(x) % 16) as u16 * 10;
                self.set_index(glyph);
            },
            Instruction::StoreDecimal { x } => self.store_decimal(x),
            Instruction::StoreRegisters { x } => self.store_registers(x),
            Instruction::LoadRegisters { x } => self.load_registers(x),
            _ => {},
        }
    }
}

} // verus!
