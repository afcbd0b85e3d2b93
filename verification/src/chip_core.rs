//! The machine itself.

use rand::rngs::ThreadRng;
use vstd::prelude::*;
use crate::display::{rendered, scrolled_down, scrolled_left, scrolled_right};
use crate::entropy::{random_byte, thread_generator};
use crate::font::{
    large_font, large_font_table, small_font, small_font_table, LARGE_FONT_BYTES,
    SMALL_FONT_BYTES,
};
use crate::model::{
    blank_grid, loaded, power_on, DisplayMode, KeyWait, MachineState, PROGRAM_START,
    ROM_CAPACITY,
};
use crate::raster::{clear, draw, render, scroll_down, scroll_left, scroll_right, unpack};
use crate::semantics::{display_height, display_width, WIDE_SPRITE_ROWS};

verus! {

/// A CHIP-8 / Super-CHIP machine.
pub struct ChipCore {
    screen_buf: [u64; 32],
    schip_screen_buf: [u128; 64],
    ram: [u8; 4096],
    regs: [u8; 16],
    stack: [u16; 16],
    keys: [bool; 16],
    key_wait: KeyWait,
    sp: u8,
    pc: u16,
    i_reg: u16,
    delay_timer: u8,
    sound_timer: u8,
    display_mode: DisplayMode,
    rng: ThreadRng,
}

impl View for ChipCore {
    type V = MachineState;

    /// The state of the machine. The random generator is no part of it.
    closed spec fn view(&self) -> MachineState {
        MachineState {
            memory: self.ram@,
            registers: self.regs@,
            index_register: self.i_reg,
            program_counter: self.pc,
            stack: self.stack@,
            stack_pointer: self.sp % 16,
            delay_timer: self.delay_timer,
            sound_timer: self.sound_timer,
            key_state: self.keys@,
            key_wait: match self.key_wait {
                KeyWait::AwaitingRelease { destination } => KeyWait::AwaitingRelease {
                    destination: destination % 16,
                },
                other => other,
            },
            display_mode: self.display_mode,
            low_res: unpack(self.screen_buf@),
            high_res: unpack(self.schip_screen_buf@),
        }
    }
}

impl ChipCore {
    /// Width of the low-resolution display in pixels.
    pub const CHIP_SCR_WIDTH: usize = 64;

    /// Width of the high-resolution display in pixels.
    pub const SCHIP_SCR_WIDTH: usize = 128;

    /// Height of the low-resolution display in pixels.
    pub const CHIP_SCR_HEIGHT: usize = 32;

    /// Height of the high-resolution display in pixels.
    pub const SCHIP_SCR_HEIGHT: usize = 64;

    /// Size of the address space in bytes.
    pub const RAM_SIZE: usize = 4096;

    /// Number of pixels of a low-resolution frame.
    pub const CHIP_FRAMEBUFFER_SIZE: usize = 2048;

    /// Number of pixels of a high-resolution frame.
    pub const SCHIP_FRAMEBUFFER_SIZE: usize = 8192;

    /// The state of every machine is well formed.
    pub proof fn lemma_view_wf(&self)
        ensures
            self@.wf(),
    {
    }

    /// A machine in its power-on state.
    pub fn new() -> (chip: ChipCore)
        ensures
            chip@ == power_on(),
    {
        let mut ram: [u8; 4096] = [0u8; 4096];
        let small: [u8; 80] = small_font_table();
        let large: [u8; 100] = large_font_table();
        let mut i: usize = 0;
        while i < SMALL_FONT_BYTES
            invariant
                i <= SMALL_FONT_BYTES,
                small@ == small_font(),
                forall|a: int| 0 <= a < i ==> ram@[a] == small_font()[a],
                forall|a: int| i <= a < 4096 ==> ram@[a] == 0,
            decreases SMALL_FONT_BYTES - i,
        {
            ram[i] = small[i];
            i += 1;
        }
        let mut k: usize = 0;
        while k < LARGE_FONT_BYTES
            invariant
                k <= LARGE_FONT_BYTES,
                large@ == large_font(),
                forall|a: int| 0 <= a < 80 ==> ram@[a] == small_font()[a],
                forall|a: int| 80 <= a < 80 + k ==> ram@[a] == large_font()[a - 80],
                forall|a: int| 80 + k <= a < 4096 ==> ram@[a] == 0,
            decreases LARGE_FONT_BYTES - k,
        {
            ram[SMALL_FONT_BYTES + k] = large[k];
            k += 1;
        }
        let mut low: [u64; 32] = [0u64; 32];
        let mut high: [u128; 64] = [0u128; 64];
        clear(&mut low);
        clear(&mut high);
        let chip = ChipCore {
            screen_buf: low,
            schip_screen_buf: high,
            ram,
            regs: [0u8; 16],
            stack: [0u16; 16],
            keys: [false; 16],
            key_wait: KeyWait::Idle,
            sp: 0,
            pc: 0x200,
            i_reg: 0,
            delay_timer: 0,
            sound_timer: 0,
            display_mode: DisplayMode::LowRes,
            rng: thread_generator(),
        };
        proof {
            assert(chip@ =~~= power_on());
        }
        chip
    }

    /// Resets the machine to its power-on state and copies `rom` to memory
    /// from address `0x200` on; a `rom` of more than 3584 bytes is refused
    /// and leaves the machine as it was.
    pub fn load_rom(&mut self, rom: &[u8]) -> (ok: bool)
        ensures
            ok == (rom@.len() <= 3584),
            ok ==> final(self)@ == loaded(rom@),
            !ok ==> *final(self) == *old(self),
    {
        if rom.len() > ROM_CAPACITY {
            return false;
        }
        let mut fresh = ChipCore::new();
        let mut i: usize = 0;
        while i < rom.len()
            invariant
                i <= rom@.len() <= 3584,
                fresh@ == (MachineState { memory: fresh@.memory, ..power_on() }),
                forall|a: int| 0x200 <= a < 0x200 + i ==> fresh@.memory[a] == rom@[a - 0x200],
                forall|a: int|
                    0 <= a < 4096 && !(0x200 <= a < 0x200 + i) ==> fresh@.memory[a]
                        == power_on().memory[a],
            decreases rom@.len() - i,
        {
            fresh.ram[PROGRAM_START + i] = rom[i];
            i += 1;
        }
        proof {
            assert(fresh@ =~~= loaded(rom@));
        }
        *self = fresh;
        true
    }

    /// Writes the low-resolution frame buffer to `buf`, one colour per pixel.
    pub fn render_to_rgb_chip_buffer(&mut self, buf: &mut [u32])
        requires
            old(buf)@.len() >= 2048,
        ensures
            *final(self) == *old(self),
            final(buf)@.len() == old(buf)@.len(),
            final(buf)@.subrange(0, 2048) == rendered(old(self)@.low_res, 64),
            forall|i: int| 2048 <= i < old(buf)@.len() ==> final(buf)@[i] == old(buf)@[i],
    {
        render(&self.screen_buf, buf);
    }

    /// Writes the high-resolution frame buffer to `buf`, one colour per pixel.
    pub fn render_to_rgb_schip_buffer(&mut self, buf: &mut [u32])
        requires
            old(buf)@.len() >= 8192,
        ensures
            *final(self) == *old(self),
            final(buf)@.len() == old(buf)@.len(),
            final(buf)@.subrange(0, 8192) == rendered(old(self)@.high_res, 128),
            forall|i: int| 8192 <= i < old(buf)@.len() ==> final(buf)@[i] == old(buf)@[i],
    {
        render(&self.schip_screen_buf, buf);
    }

    /// Records that key `key` went down (`action`) or up.
    pub fn key_event(&mut self, key: u8, action: bool)
        ensures
            final(self)@ == old(self)@.key_changed(key, action),
    {
        self.keys[(key % 16) as usize] = action;
        if !action {
            match self.key_wait {
                KeyWait::AwaitingRelease { destination } => {
                    self.regs[(destination % 16) as usize] = key;
                    self.key_wait = KeyWait::Captured;
                },
                _ => {},
            }
        }
        proof {
            assert(self@ =~~= old(self)@.key_changed(key, action));
        }
    }

    /// Takes over the state of all sixteen keys as the host sees them: a
    /// key event is raised for each key that changed, in ascending order,
    /// and for no other.
    pub fn update_input(&mut self, pressed: &[bool; 16])
        ensures
            final(self)@ == old(self)@.keys_reported(pressed@, 16),
    {
        let mut key: u8 = 0;
        while key < 16
            invariant
                key <= 16,
                self@ == old(self)@.keys_reported(pressed@, key as int),
            decreases 16 - key,
        {
            let down: bool = pressed[key as usize];
            if self.keys[key as usize] != down {
                self.key_event(key, down);
            }
            key += 1;
        }
    }

    /// The state of the sixteen keys.
    pub fn get_keys(&self) -> (keys: &[bool; 16])
        ensures
            keys@ == self@.key_state,
    {
        &self.keys
    }

    /// Whether the high-resolution display is active.
    pub fn high_res_mode(&self) -> (high: bool)
        ensures
            high == (self@.display_mode == DisplayMode::HighRes),
    {
        match self.display_mode {
            DisplayMode::HighRes => true,
            DisplayMode::LowRes => false,
        }
    }

    /// The sixteen registers `V0` to `VF`.
    pub fn registers(&self) -> (registers: &[u8; 16])
        ensures
            registers@ == self@.registers,
    {
        &self.regs
    }

    /// The whole of memory.
    pub fn memory(&self) -> (memory: &[u8; 4096])
        ensures
            memory@ == self@.memory,
    {
        &self.ram
    }

    /// The sixteen slots of the call stack.
    pub fn stack(&self) -> (stack: &[u16; 16])
        ensures
            stack@ == self@.stack,
    {
        &self.stack
    }

    /// The slot of the call stack that the next call writes.
    pub fn stack_pointer(&self) -> (pointer: u8)
        ensures
            pointer == self@.stack_pointer,
            pointer < 16,
    {
        self.sp % 16
    }

    /// The address of the next instruction.
    pub fn program_counter(&self) -> (pc: u16)
        ensures
            pc == self@.program_counter,
    {
        self.pc
    }

    /// The index register `I`.
    pub fn index_register(&self) -> (index: u16)
        ensures
            index == self@.index_register,
    {
        self.i_reg
    }

    /// The delay timer.
    pub fn delay_timer(&self) -> (timer: u8)
        ensures
            timer == self@.delay_timer,
    {
        self.delay_timer
    }

    /// The sound timer; the host sounds its tone while it is not zero.
    pub fn sound_timer(&self) -> (timer: u8)
        ensures
            timer == self@.sound_timer,
    {
        self.sound_timer
    }

    /// Where the machine stands with the blocking key instruction.
    pub fn key_wait(&self) -> (state: KeyWait)
        ensures
            state == self@.key_wait,
    {
        match self.key_wait {
            KeyWait::AwaitingRelease { destination } => KeyWait::AwaitingRelease {
                destination: destination % 16,
            },
            KeyWait::Idle => KeyWait::Idle,
            KeyWait::Captured => KeyWait::Captured,
        }
    }

    /// Which of the two displays is active.
    pub fn display_mode(&self) -> (mode: DisplayMode)
        ensures
            mode == self@.display_mode,
    {
        self.display_mode
    }

    /// Lets both timers count down by one, unless they are at zero.
    pub fn update_timers(&mut self)
        ensures
            final(self)@ == old(self)@.ticked(),
    {
        if self.delay_timer > 0 {
            self.delay_timer -= 1;
        }
        if self.sound_timer > 0 {
            self.sound_timer -= 1;
        }
    }

    /// Reads the opcode at the program counter and moves the counter on.
    pub(crate) fn fetch(&mut self) -> (opcode: u16)
        ensures
            opcode == old(self)@.next_opcode(),
            final(self)@ == old(self)@.fetched(),
            final(self)@.program_counter < 4096,
    {
        let at: usize = (self.pc % 4096) as usize;
        let high: u8 = self.ram[at];
        let low: u8 = self.ram[(at + 1) % 4096];
        self.pc = ((at + 2) % 4096) as u16;
        (high as u16) * 256 + (low as u16)
    }

    /// Draws a byte from the random generator; the machine's state stays.
    pub(crate) fn draw_random(&mut self) -> (random: u8)
        ensures
            final(self)@ == old(self)@,
    {
        random_byte(&mut self.rng)
    }

    /// Reads register `x`.
    pub(crate) fn reg(&self, x: u8) -> (value: u8)
        requires
            x < 16,
        ensures
            value == self@.register(x),
    {
        self.regs[x as usize]
    }

    /// Whether the key with the low four bits of `key` as its number is down.
    pub(crate) fn key_is_down(&self, key: u8) -> (down: bool)
        ensures
            down == self@.key_state[key as int % 16],
    {
        self.keys[(key % 16) as usize]
    }

    /// Continues at `pc`.
    pub(crate) fn jump_to(&mut self, pc: u16)
        ensures
            final(self)@ == old(self)@.with_program_counter(pc),
    {
        self.pc = pc;
    }

    /// Sets the index register.
    pub(crate) fn set_index(&mut self, index: u16)
        ensures
            final(self)@ == old(self)@.with_index(index),
    {
        self.i_reg = index;
    }

    /// Adds register `x` to the index register, wrapping at 16 bits.
    pub(crate) fn add_to_index(&mut self, x: u8)
        requires
            x < 16,
        ensures
            final(self)@ == old(self)@.with_index(
                ((old(self)@.index_register + old(self)@.register(x)) % 0x1_0000) as u16,
            ),
    {
        self.i_reg = self.i_reg.wrapping_add(self.regs[x as usize] as u16);
    }

    /// Copies the delay timer to register `x`.
    pub(crate) fn read_delay(&mut self, x: u8)
        requires
            x < 16,
        ensures
            final(self)@ == old(self)@.with_register(x, old(self)@.delay_timer),
    {
        self.regs[x as usize] = self.delay_timer;
    }

    /// Copies register `x` to the delay timer.
    pub(crate) fn set_delay(&mut self, x: u8)
        requires
            x < 16,
        ensures
            final(self)@ == (MachineState {
                delay_timer: old(self)@.register(x),
                ..old(self)@
            }),
    {
        self.delay_timer = self.regs[x as usize];
    }

    /// Copies register `x` to the sound timer.
    pub(crate) fn set_sound(&mut self, x: u8)
        requires
            x < 16,
        ensures
            final(self)@ == (MachineState {
                sound_timer: old(self)@.register(x),
                ..old(self)@
            }),
    {
        self.sound_timer = self.regs[x as usize];
    }

    /// Writes register `x`.
    pub(crate) fn set_register(&mut self, x: u8, value: u8)
        requires
            x < 16,
        ensures
            final(self)@ == old(self)@.with_register(x, value),
    {
        self.regs[x as usize] = value;
    }

    /// Writes 1 or 0 to the flag register.
    pub(crate) fn set_flag(&mut self, flag: bool)
        ensures
            final(self)@ == old(self)@.with_flag(flag),
    {
        self.regs[0xF] = if flag {
            1
        } else {
            0
        };
    }

    /// Moves past the next instruction if `condition` holds.
    pub(crate) fn skip_if(&mut self, condition: bool)
        ensures
            final(self)@ == old(self)@.skipping(condition),
    {
        if condition {
            self.pc = self.pc.wrapping_add(2);
        }
    }

    /// Clears the active frame buffer.
    pub(crate) fn clear_active(&mut self)
        ensures
            final(self)@ == old(self)@.with_active_display(
                blank_grid(
                    display_width(old(self)@.display_mode),
                    display_height(old(self)@.display_mode),
                ),
            ),
    {
        match self.display_mode {
            DisplayMode::LowRes => clear(&mut self.screen_buf),
            DisplayMode::HighRes => clear(&mut self.schip_screen_buf),
        }
    }

    /// Enters `mode`, clearing its frame buffer, unless it is active.
    pub(crate) fn switch_to(&mut self, mode: DisplayMode)
        ensures
            final(self)@ == old(self)@.switched_to(mode),
    {
        if self.display_mode != mode {
            self.display_mode = mode;
            self.clear_active();
        }
    }

    /// Scrolls the active frame buffer four pixels right.
    pub(crate) fn scroll_right(&mut self)
        ensures
            final(self)@ == old(self)@.with_active_display(
                scrolled_right(old(self)@.active_display(), 4),
            ),
    {
        match self.display_mode {
            DisplayMode::LowRes => scroll_right(&mut self.screen_buf),
            DisplayMode::HighRes => scroll_right(&mut self.schip_screen_buf),
        }
    }

    /// Scrolls the active frame buffer four pixels left.
    pub(crate) fn scroll_left(&mut self)
        ensures
            final(self)@ == old(self)@.with_active_display(
                scrolled_left(old(self)@.active_display(), 4),
            ),
    {
        match self.display_mode {
            DisplayMode::LowRes => scroll_left(&mut self.screen_buf),
            DisplayMode::HighRes => scroll_left(&mut self.schip_screen_buf),
        }
    }

    /// Scrolls the active frame buffer `rows` pixels down.
    pub(crate) fn scroll_down(&mut self, rows: u8)
        requires
            rows < 16,
        ensures
            final(self)@ == old(self)@.with_active_display(
                scrolled_down(old(self)@.active_display(), rows as int),
            ),
    {
        match self.display_mode {
            DisplayMode::LowRes => scroll_down(
                &mut self.screen_buf,
                rows as usize,
            ),
            DisplayMode::HighRes => scroll_down(
                &mut self.schip_screen_buf,
                rows as usize,
            ),
        }
    }

    /// Pops the return address, without regard to the depth of the stack.
    pub(crate) fn return_from_call(&mut self)
        ensures
            final(self)@ == old(self)@.returned(),
    {
        self.sp = (self.sp % 16 + 15) % 16;
        self.pc = self.stack[self.sp as usize];
    }

    /// Pushes the program counter, without regard to the depth of the
    /// stack, and continues at `address`.
    pub(crate) fn call(&mut self, address: u16)
        ensures
            final(self)@ == old(self)@.called(address),
    {
        self.stack[(self.sp % 16) as usize] = self.pc;
        self.sp = (self.sp % 16 + 1) % 16;
        self.pc = address;
    }

    /// Adds register `y` to register `x` and sets the flag to the carry.
    pub(crate) fn add_registers(&mut self, x: u8, y: u8)
        requires
            x < 16,
            y < 16,
        ensures
            final(self)@ == old(self)@.added(x, y),
    {
        let sum: u16 = self.regs[x as usize] as u16 + self.regs[y as usize] as u16;
        self.regs[x as usize] = (sum % 256) as u8;
        self.set_flag(sum > 255);
    }

    /// Writes the difference to register `x` and clears the flag on a
    /// borrow.
    pub(crate) fn subtract(&mut self, x: u8, minuend: u8, subtrahend: u8)
        requires
            x < 16,
        ensures
            final(self)@ == old(self)@.subtracted(x, minuend, subtrahend),
    {
        self.regs[x as usize] = minuend.wrapping_sub(subtrahend);
        self.set_flag(minuend >= subtrahend);
    }

    /// Draws the sprite at the index register at the position that
    /// registers `x` and `y` give, and sets the flag on a collision.
    pub(crate) fn draw_sprite(&mut self, x: u8, y: u8, height: u8)
        requires
            x < 16,
            y < 16,
            height < 16,
        ensures
            final(self)@ == old(self)@.sprite_drawn(x, y, height),
    {
        let wide: bool = height == 0;
        let rows: usize = if wide {
            WIDE_SPRITE_ROWS as usize
        } else {
            height as usize
        };
        let x_pos: u8 = self.regs[x as usize];
        let y_pos: u8 = self.regs[y as usize];
        let hit: bool = match self.display_mode {
            DisplayMode::LowRes => draw(
                &mut self.screen_buf,
                &self.ram,
                self.i_reg,
                wide,
                rows,
                x_pos % 64,
                y_pos % 32,
            ),
            DisplayMode::HighRes => draw(
                &mut self.schip_screen_buf,
                &self.ram,
                self.i_reg,
                wide,
                rows,
                x_pos % 128,
                y_pos % 64,
            ),
        };
        self.set_flag(hit);
    }

    /// Takes one step of the wait for a key release.
    pub(crate) fn await_key(&mut self, x: u8)
        requires
            x < 16,
        ensures
            final(self)@ == old(self)@.key_awaited(x),
    {
        match self.key_wait {
            KeyWait::Idle => {
                self.key_wait = KeyWait::AwaitingRelease { destination: x };
                self.pc = ((self.pc as u32 + 4094) % 4096) as u16;
            },
            KeyWait::AwaitingRelease { destination } => {
                self.pc = ((self.pc as u32 + 4094) % 4096) as u16;
            },
            KeyWait::Captured => {
                self.key_wait = KeyWait::Idle;
            },
        }
    }

    /// Stores the decimal digits of register `x` at the index register.
    pub(crate) fn store_decimal(&mut self, x: u8)
        requires
            x < 16,
        ensures
            final(self)@ == old(self)@.decimal_stored(x),
    {
        let value: u8 = self.regs[x as usize];
        let base: usize = self.i_reg as usize;
        self.ram[base % 4096] = value / 100;
        self.ram[(base + 1) % 4096] = (value / 10) % 10;
        self.ram[(base + 2) % 4096] = value % 10;
    }

    /// Stores registers 0 to `x` at the index register.
    pub(crate) fn store_registers(&mut self, x: u8)
        requires
            x < 16,
        ensures
            final(self)@ == old(self)@.registers_stored(x),
    {
        let base: usize = self.i_reg as usize;
        let mut i: usize = 0;
        while i <= x as usize
            invariant
                i <= x + 1,
                x < 16,
                base == old(self).i_reg,
                self@ == (MachineState { memory: self@.memory, ..old(self)@ }),
                forall|a: int|
                    0 <= a < 4096 ==> self@.memory[a] == if (a - base) % 4096 < i {
                        old(self)@.registers[(a - base) % 4096]
                    } else {
                        old(self)@.memory[a]
                    },
            decreases x + 1 - i,
        {
            self.ram[(base + i) % 4096] = self.regs[i];
            i += 1;
        }
        proof {
            assert(self@ =~~= old(self)@.registers_stored(x));
        }
    }

    /// Loads registers 0 to `x` from the index register.
    pub(crate) fn load_registers(&mut self, x: u8)
        requires
            x < 16,
        ensures
            final(self)@ == old(self)@.registers_loaded(x),
    {
        let base: usize = self.i_reg as usize;
        let mut i: usize = 0;
        while i <= x as usize
            invariant
                i <= x + 1,
                x < 16,
                base == old(self).i_reg,
                self@ == (MachineState { registers: self@.registers, ..old(self)@ }),
                forall|k: int|
                    0 <= k < 16 ==> self@.registers[k] == if k < i {
                        old(self)@.memory[(base + k) % 4096]
                    } else {
                        old(self)@.registers[k]
                    },
            decreases x + 1 - i,
        {
            self.regs[i] = self.ram[(base + i) % 4096];
            i += 1;
        }
        proof {
            assert(self@ =~~= old(self)@.registers_loaded(x));
        }
    }
}

} // verus!
