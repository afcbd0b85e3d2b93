//! The mathematical model of the machine: what a machine *is*, apart from how
//! its state is stored.

use vstd::prelude::*;
use crate::font::{large_font, small_font};

verus! {

/// Address at which programs are loaded and start.
pub const PROGRAM_START: usize = 0x200;

/// Largest program that fits between `PROGRAM_START` and the end of memory.
pub const ROM_CAPACITY: usize = 3584;

/// Which of the two frame buffers is shown and drawn to.
#[derive(Clone, Copy, PartialEq, Eq, Structural, Debug)]
pub enum DisplayMode {
    LowRes,
    HighRes,
}

/// Where the machine stands with respect to the blocking key instruction.
#[derive(Clone, Copy, PartialEq, Eq, Structural, Debug)]
pub enum KeyWait {
    /// No key instruction is pending.
    Idle,
    /// A key instruction is pending and the next release of any key is
    /// written to register `destination`.
    AwaitingRelease { destination: u8 },
    /// A release was written; the pending instruction completes when it is
    /// next executed.
    Captured,
}

/// A monochrome picture: `grid[y][x]` is the pixel in row `y`, column `x`,
/// with `(0, 0)` at the top left.
pub type Grid = Seq<Seq<bool>>;

/// The whole architectural state of one machine.
#[verifier::ext_equal]
pub struct MachineState {
    pub memory: Seq<u8>,
    pub registers: Seq<u8>,
    pub index_register: u16,
    pub program_counter: u16,
    pub stack: Seq<u16>,
    pub stack_pointer: u8,
    pub delay_timer: u8,
    pub sound_timer: u8,
    pub key_state: Seq<bool>,
    pub key_wait: KeyWait,
    pub display_mode: DisplayMode,
    pub low_res: Grid,
    pub high_res: Grid,
}

/// `grid` has exactly `height` rows of `width` pixels.
pub open spec fn grid_has_size(grid: Grid, width: int, height: int) -> bool {
    &&& grid.len() == height
    &&& forall|y: int| 0 <= y < height ==> (#[trigger] grid[y]).len() == width
}

/// The picture of the given size with no pixel set.
pub open spec fn blank_grid(width: int, height: int) -> Grid {
    Seq::new(height as nat, |y: int| Seq::new(width as nat, |x: int| false))
}

impl MachineState {
    /// Every component has its architectural size and every index is in range.
    pub open spec fn wf(self) -> bool {
        &&& self.memory.len() == 4096
        &&& self.registers.len() == 16
        &&& self.stack.len() == 16
        &&& self.stack_pointer < 16
        &&& self.key_state.len() == 16
        &&& (self.key_wait matches KeyWait::AwaitingRelease { destination } ==> destination < 16)
        &&& grid_has_size(self.low_res, 64, 32)
        &&& grid_has_size(self.high_res, 128, 64)
    }

    /// The frame buffer that `display_mode` selects.
    pub open spec fn active_display(self) -> Grid {
        match self.display_mode {
            DisplayMode::LowRes => self.low_res,
            DisplayMode::HighRes => self.high_res,
        }
    }
}

/// Memory at power-on: the low-resolution font at address 0, the
/// high-resolution font directly behind it, zero everywhere else.
pub open spec fn power_on_memory() -> Seq<u8> {
    Seq::new(
        4096,
        |a: int|
            if a < 80 {
                small_font()[a]
            } else if a < 180 {
                large_font()[a - 80]
            } else {
                0u8
            },
    )
}

/// The state of a machine that was just switched on.
pub open spec fn power_on() -> MachineState {
    MachineState {
        memory: power_on_memory(),
        registers: Seq::new(16, |i: int| 0u8),
        index_register: 0,
        program_counter: 0x200,
        stack: Seq::new(16, |i: int| 0u16),
        stack_pointer: 0,
        delay_timer: 0,
        sound_timer: 0,
        key_state: Seq::new(16, |i: int| false),
        key_wait: KeyWait::Idle,
        display_mode: DisplayMode::LowRes,
        low_res: blank_grid(64, 32),
        high_res: blank_grid(128, 64),
    }
}

/// A machine at power-on with `program` copied to memory from `PROGRAM_START`.
pub open spec fn loaded(program: Seq<u8>) -> MachineState {
    MachineState {
        memory: Seq::new(
            4096,
            |a: int|
                if PROGRAM_START <= a < PROGRAM_START + program.len() {
                    program[a - PROGRAM_START]
                } else {
                    power_on_memory()[a]
                },
        ),
        ..power_on()
    }
}

} // verus!
