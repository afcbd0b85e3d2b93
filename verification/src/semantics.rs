//! What the machine does: one instruction cycle, a key event and a timer
//! tick, each as a function from state to state.

use vstd::prelude::*;
use crate::display::{collides, drawn, scrolled_down, scrolled_left, scrolled_right, sprite_at};
use crate::instruction::{decoded, Instruction};
use crate::model::{blank_grid, DisplayMode, Grid, KeyWait, MachineState};

verus! {

/// Number of rows of a wide sprite, which `Dxy0` draws.
pub const WIDE_SPRITE_ROWS: u8 = 32;

/// Width in pixels of the display in the given mode.
pub open spec fn display_width(mode: DisplayMode) -> int {
    match mode {
        DisplayMode::LowRes => 64,
        DisplayMode::HighRes => 128,
    }
}

/// Height in pixels of the display in the given mode.
pub open spec fn display_height(mode: DisplayMode) -> int {
    match mode {
        DisplayMode::LowRes => 32,
        DisplayMode::HighRes => 64,
    }
}

/// The opcode at address `pc`: two bytes, the first the more significant.
/// Both addresses wrap at the end of memory.
pub open spec fn opcode_at(memory: Seq<u8>, pc: u16) -> u16 {
    (memory[pc as int % 4096] * 256 + memory[(pc + 1) % 4096]) as u16
}

/// The program counter moved back by one instruction, within memory.
pub open spec fn rewound(pc: u16) -> u16 {
    ((pc + 4094) % 4096) as u16
}

impl MachineState {
    /// The value of register `x`.
    pub open spec fn register(self, x: u8) -> u8 {
        self.registers[x as int]
    }

    /// The state with register `x` set to `value`.
    pub open spec fn with_register(self, x: u8, value: u8) -> MachineState {
        MachineState { registers: self.registers.update(x as int, value), ..self }
    }

    /// The state with the flag register `VF` set to 1 or 0.
    pub open spec fn with_flag(self, flag: bool) -> MachineState {
        self.with_register(
            0xF,
            if flag {
                1
            } else {
                0
            },
        )
    }

    /// The state with the program counter at `pc`.
    pub open spec fn with_program_counter(self, pc: u16) -> MachineState {
        MachineState { program_counter: pc, ..self }
    }

    /// The state with the index register at `index`.
    pub open spec fn with_index(self, index: u16) -> MachineState {
        MachineState { index_register: index, ..self }
    }

    /// The state with the program counter moved past the next instruction
    /// if `condition` holds.
    pub open spec fn skipping(self, condition: bool) -> MachineState {
        if condition {
            self.with_program_counter(((self.program_counter + 2) % 0x1_0000) as u16)
        } else {
            self
        }
    }

    /// The state with the active frame buffer replaced by `grid`.
    pub open spec fn with_active_display(self, grid: Grid) -> MachineState {
        match self.display_mode {
            DisplayMode::LowRes => MachineState { low_res: grid, ..self },
            DisplayMode::HighRes => MachineState { high_res: grid, ..self },
        }
    }

    /// The opcode that the next cycle executes.
    pub open spec fn next_opcode(self) -> u16 {
        opcode_at(self.memory, self.program_counter)
    }

    /// The state after the fetch: the program counter has moved to the next
    /// instruction, wrapping at the end of memory.
    pub open spec fn fetched(self) -> MachineState {
        self.with_program_counter(((self.program_counter + 2) % 4096) as u16)
    }

    /// `00EE`: the stack pointer steps back, wrapping, and the program
    /// counter is loaded from the slot it then names.
    pub open spec fn returned(self) -> MachineState {
        let pointer = ((self.stack_pointer + 15) % 16) as u8;
        MachineState {
            stack_pointer: pointer,
            program_counter: self.stack[pointer as int],
            ..self
        }
    }

    /// `2nnn`: the program counter is stored in the slot the stack pointer
    /// names, the pointer steps forward, wrapping, and execution continues
    /// at `address`.
    pub open spec fn called(self, address: u16) -> MachineState {
        MachineState {
            stack: self.stack.update(self.stack_pointer as int, self.program_counter),
            stack_pointer: ((self.stack_pointer + 1) % 16) as u8,
            program_counter: address,
            ..self
        }
    }

    /// `00FE` and `00FF`: entering a mode clears the frame buffer of that
    /// mode; asking for the mode that is already active changes nothing.
    pub open spec fn switched_to(self, mode: DisplayMode) -> MachineState {
        if self.display_mode == mode {
            self
        } else {
            MachineState { display_mode: mode, ..self }.with_active_display(
                blank_grid(display_width(mode), display_height(mode)),
            )
        }
    }

    /// `8xy4`: the sum goes to `Vx`, then the carry to `VF`.
    pub open spec fn added(self, x: u8, y: u8) -> MachineState {
        let sum = self.register(x) + self.register(y);
        self.with_register(x, (sum % 256) as u8).with_flag(sum > 255)
    }

    /// `minuend - subtrahend` goes to `Vx`, wrapping, then `VF` is set to 1
    /// unless the subtraction borrowed.
    pub open spec fn subtracted(self, x: u8, minuend: u8, subtrahend: u8) -> MachineState {
        self.with_register(x, ((minuend - subtrahend) % 256) as u8).with_flag(
            minuend >= subtrahend,
        )
    }

    /// `Dxyn`: the sprite at `I` is drawn on the active frame buffer with its
    /// top left corner at `(Vx, Vy)`, both taken modulo the size of the
    /// display, and `VF` tells whether a set pixel was erased. A height of 0
    /// selects a wide sprite.
    pub open spec fn sprite_drawn(self, x: u8, y: u8, height: u8) -> MachineState {
        let x0 = self.register(x) as int % display_width(self.display_mode);
        let y0 = self.register(y) as int % display_height(self.display_mode);
        let sprite = self.sprite(height);
        let display = self.active_display();
        self.with_active_display(drawn(display, sprite, x0, y0)).with_flag(
            collides(display, sprite, x0, y0),
        )
    }

    /// The sprite that `Dxyn` draws: `height` rows of 8 pixels at `I`, or,
    /// where `height` is 0, a wide sprite of 16 pixels a row.
    pub open spec fn sprite(self, height: u8) -> Grid {
        if height == 0 {
            sprite_at(self.memory, self.index_register, true, WIDE_SPRITE_ROWS as int)
        } else {
            sprite_at(self.memory, self.index_register, false, height as int)
        }
    }

    /// `Fx0A`: an idle machine starts to wait for a release into `Vx` and
    /// repeats the instruction; a waiting machine repeats the instruction; a
    /// machine that has captured a release becomes idle and goes on.
    pub open spec fn key_awaited(self, x: u8) -> MachineState {
        match self.key_wait {
            KeyWait::Idle => MachineState {
                key_wait: KeyWait::AwaitingRelease { destination: x },
                program_counter: rewound(self.program_counter),
                ..self
            },
            KeyWait::AwaitingRelease { destination } => self.with_program_counter(
                rewound(self.program_counter),
            ),
            KeyWait::Captured => MachineState { key_wait: KeyWait::Idle, ..self },
        }
    }

    /// `Fx33`: the hundreds, tens and ones of `Vx` are stored at `I`, `I+1`
    /// and `I+2`, addresses wrapping at the end of memory.
    pub open spec fn decimal_stored(self, x: u8) -> MachineState {
        let value = self.register(x);
        let base = self.index_register;
        MachineState {
            memory: self.memory.update(base as int % 4096, value / 100).update(
                (base + 1) % 4096,
                (value / 10) % 10,
            ).update((base + 2) % 4096, value % 10),
            ..self
        }
    }

    /// `Fx55`: `V0..=Vx` are stored from `I` on, addresses wrapping at the
    /// end of memory; `I` keeps its value.
    pub open spec fn registers_stored(self, x: u8) -> MachineState {
        MachineState {
            memory: Seq::new(
                4096,
                |a: int|
                    {
                        let offset = (a - self.index_register) % 4096;
                        if offset <= x {
                            self.registers[offset]
                        } else {
                            self.memory[a]
                        }
                    },
            ),
            ..self
        }
    }

    /// `Fx65`: `V0..=Vx` are loaded from `I` on, addresses wrapping at the
    /// end of memory; `I` keeps its value.
    pub open spec fn registers_loaded(self, x: u8) -> MachineState {
        MachineState {
            registers: Seq::new(
                16,
                |i: int|
                    if i <= x {
                        self.memory[(self.index_register + i) % 4096]
                    } else {
                        self.registers[i]
                    },
            ),
            ..self
        }
    }

    /// The state after `instruction` was carried out, where `random` is the
    /// byte that `Cxkk` draws.
    pub open spec fn executed(self, instruction: Instruction, random: u8) -> MachineState {
        match instruction {
            Instruction::ClearScreen => self.with_active_display(
                blank_grid(display_width(self.display_mode), display_height(self.display_mode)),
            ),
            Instruction::Return => self.returned(),
            Instruction::SetLowRes => self.switched_to(DisplayMode::LowRes),
            Instruction::SetHighRes => self.switched_to(DisplayMode::HighRes),
            Instruction::ScrollRight => self.with_active_display(
                scrolled_right(self.active_display(), 4),
            ),
            Instruction::ScrollLeft => self.with_active_display(
                scrolled_left(self.active_display(), 4),
            ),
            Instruction::ScrollDown { rows } => self.with_active_display(
                scrolled_down(self.active_display(), rows as int),
            ),
            Instruction::Jump { address } => self.with_program_counter(address),
            Instruction::Call { address } => self.called(address),
            Instruction::SkipIfEqual { x, value } => self.skipping(self.register(x) == value),
            Instruction::SkipIfNotEqual { x, value } => self.skipping(self.register(x) != value),
            Instruction::SkipIfRegistersEqual { x, y } => self.skipping(
                self.register(x) == self.register(y),
            ),
            Instruction::Load { x, value } => self.with_register(x, value),
            Instruction::AddValue { x, value } => self.with_register(
                x,
                ((self.register(x) + value) % 256) as u8,
            ),
            Instruction::Copy { x, y } => self.with_register(x, self.register(y)),
            Instruction::Or { x, y } => self.with_register(
                x,
                self.register(x) | self.register(y),
            ).with_flag(false),
            Instruction::And { x, y } => self.with_register(
                x,
                self.register(x) & self.register(y),
            ).with_flag(false),
            Instruction::Xor { x, y } => self.with_register(
                x,
                self.register(x) ^ self.register(y),
            ).with_flag(false),
            Instruction::Add { x, y } => self.added(x, y),
            Instruction::Subtract { x, y } => self.subtracted(
                x,
                self.register(x),
                self.register(y),
            ),
            Instruction::ShiftRight { x } => self.with_register(x, self.register(x) / 2).with_flag(
                self.register(x) % 2 == 1,
            ),
            Instruction::SubtractFrom { x, y } => self.subtracted(
                x,
                self.register(y),
                self.register(x),
            ),
            Instruction::ShiftLeft { x } => self.with_register(
                x,
                ((self.register(x) * 2) % 256) as u8,
            ).with_flag(self.register(x) >= 128),
            Instruction::SkipIfRegistersDiffer { x, y } => self.skipping(
                self.register(x) != self.register(y),
            ),
            Instruction::LoadIndex { address } => self.with_index(address),
            Instruction::JumpOffset { address } => self.with_program_counter(
                ((self.register(0) + address) % 0x1_0000) as u16,
            ),
            Instruction::Random { x, mask } => self.with_register(x, random & mask),
            Instruction::Draw { x, y, height } => self.sprite_drawn(x, y, height),
            Instruction::SkipIfKeyDown { x } => self.skipping(
                self.key_state[self.register(x) as int % 16],
            ),
            Instruction::SkipIfKeyUp { x } => self.skipping(
                !self.key_state[self.register(x) as int % 16],
            ),
            Instruction::ReadDelay { x } => self.with_register(x, self.delay_timer),
            Instruction::WaitKey { x } => self.key_awaited(x),
            Instruction::SetDelay { x } => MachineState { delay_timer: self.register(x), ..self },
            Instruction::SetSound { x } => MachineState { sound_timer: self.register(x), ..self },
            Instruction::AddToIndex { x } => self.with_index(
                ((self.index_register + self.register(x)) % 0x1_0000) as u16,
            ),
            Instruction::SmallGlyph { x } => self.with_index(
                ((self.register(x) % 16) * 5) as u16,
            ),
            Instruction::LargeGlyph { x } => self.with_index(
                (80 + (self.register(x) % 16) * 10) as u16,
            ),
            Instruction::StoreDecimal { x } => self.decimal_stored(x),
            Instruction::StoreRegisters { x } => self.registers_stored(x),
            Instruction::LoadRegisters { x } => self.registers_loaded(x),
            Instruction::Unknown { opcode } => self,
        }
    }

    /// The state after one whole cycle: fetch, decode, execute.
    pub open spec fn stepped(self, random: u8) -> MachineState {
        self.fetched().executed(decoded(self.next_opcode()), random)
    }

    /// The opcode that the next cycle reports as unknown, if it does.
    pub open spec fn unknown_opcode(self) -> Option<u16> {
        if decoded(self.next_opcode()) is Unknown {
            Some(self.next_opcode())
        } else {
            None
        }
    }

    /// The state after key `key` went down or up. The latch of the key
    /// follows; a release while the machine awaits one is also written to the
    /// destination register and ends the wait for a release.
    pub open spec fn key_changed(self, key: u8, is_down: bool) -> MachineState {
        let latched = MachineState {
            key_state: self.key_state.update(key as int % 16, is_down),
            ..self
        };
        match self.key_wait {
            KeyWait::AwaitingRelease { destination } => if is_down {
                latched
            } else {
                MachineState {
                    key_wait: KeyWait::Captured,
                    ..latched.with_register(destination, key)
                }
            },
            _ => latched,
        }
    }

    /// The state after the host compared the first `count` keys with what
    /// it sees, `pressed`, in ascending order, and sent a key event for each
    /// key whose latch differed.
    pub open spec fn keys_reported(self, pressed: Seq<bool>, count: int) -> MachineState
        decreases count,
    {
        if count <= 0 {
            self
        } else {
            let before = self.keys_reported(pressed, count - 1);
            if before.key_state[count - 1] != pressed[count - 1] {
                before.key_changed((count - 1) as u8, pressed[count - 1])
            } else {
                before
            }
        }
    }

    /// The state after one timer tick: each timer that is not yet zero
    /// counts down by one.
    pub open spec fn ticked(self) -> MachineState {
        MachineState {
            delay_timer: if self.delay_timer > 0 {
                (self.delay_timer - 1) as u8
            } else {
                0
            },
            sound_timer: if self.sound_timer > 0 {
                (self.sound_timer - 1) as u8
            } else {
                0
            },
            ..self
        }
    }
}

} // verus!
