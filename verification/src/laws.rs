//! Properties of the machine that follow from its definition.

use vstd::prelude::*;
use crate::display::{collides, drawn, overlap_at, sprite_covers};
use crate::instruction::{decoded, Instruction};
use crate::model::{
    blank_grid, loaded, power_on, power_on_memory, DisplayMode, Grid, KeyWait, MachineState,
};
use crate::semantics::{display_height, display_width, rewound};

verus! {

/// A machine at power-on is well formed.
pub proof fn law_power_on_is_well_formed()
    ensures
        power_on().wf(),
{
}

/// After a fetch the program counter is an address in memory: it wraps
/// from the last two addresses to the first two.
pub proof fn law_fetch_keeps_counter_in_memory(m: MachineState)
    ensures
        m.fetched().program_counter < 4096,
        m.fetched().program_counter == (m.program_counter + 2) % 4096,
        m.program_counter == 4094 ==> m.fetched().program_counter == 0,
        m.program_counter == 4095 ==> m.fetched().program_counter == 1,
{
}

/// An opcode whose first byte is the last byte of memory has its second
/// byte at address 0.
pub proof fn law_fetch_wraps_in_memory(m: MachineState)
    requires
        m.wf(),
        m.program_counter == 4095,
    ensures
        m.next_opcode() == m.memory[4095] * 256 + m.memory[0],
{
}

/// Loading a program leaves nothing of an earlier state: registers, stack,
/// timers, keys, mode and both frame buffers are those of a machine at
/// power-on, and so is memory outside the program.
pub proof fn law_load_is_a_reset(program: Seq<u8>)
    requires
        program.len() <= 3584,
    ensures
        loaded(program).wf(),
        loaded(program) == (MachineState { memory: loaded(program).memory, ..power_on() }),
        forall|i: int| 0 <= i < program.len() ==> loaded(program).memory[0x200 + i] == program[i],
        forall|a: int|
            0 <= a < 0x200 || 0x200 + program.len() <= a < 4096 ==> loaded(program).memory[a]
                == power_on_memory()[a],
{
}

/// One cycle takes a well-formed state to a well-formed state.
pub proof fn law_step_preserves_well_formedness(m: MachineState, random: u8)
    requires
        m.wf(),
    ensures
        m.stepped(random).wf(),
{
    let instruction = decoded(m.next_opcode());
    crate::instruction::law_decoded_is_well_formed(m.next_opcode());
    law_execute_preserves_well_formedness(m.fetched(), instruction, random);
}

/// Carrying out an instruction takes a well-formed state to a well-formed
/// state.
pub proof fn law_execute_preserves_well_formedness(
    m: MachineState,
    instruction: Instruction,
    random: u8,
)
    requires
        m.wf(),
        instruction.wf(),
    ensures
        m.executed(instruction, random).wf(),
{
}

/// A key event and a timer tick take a well-formed state to a well-formed
/// state.
pub proof fn law_events_preserve_well_formedness(m: MachineState, key: u8, is_down: bool)
    requires
        m.wf(),
    ensures
        m.key_changed(key, is_down).wf(),
        m.ticked().wf(),
{
}

/// An opcode that stands for no instruction moves the program counter to
/// the next instruction and changes nothing else.
pub proof fn law_unknown_opcode_only_fetches(m: MachineState, random: u8)
    requires
        decoded(m.next_opcode()) is Unknown,
    ensures
        m.stepped(random) == m.fetched(),
        m.unknown_opcode() == Some(m.next_opcode()),
{
}

/// A return after a call continues behind the call and leaves the stack
/// pointer where it was, also where the pointer wrapped around in between;
/// the depth of the stack is never examined.
pub proof fn law_return_undoes_call(m: MachineState, address: u16)
    requires
        m.wf(),
    ensures
        m.called(address).wf(),
        m.returned().wf(),
        m.called(address).returned() == (MachineState {
            stack: m.stack.update(m.stack_pointer as int, m.program_counter),
            ..m
        }),
        m.stack_pointer == 15 ==> m.called(address).stack_pointer == 0,
        m.stack_pointer == 0 ==> m.returned().stack_pointer == 15,
{
}

/// The random byte matters to `Cxkk` alone.
pub proof fn law_chance_enters_through_one_instruction(m: MachineState, r1: u8, r2: u8)
    requires
        !(decoded(m.next_opcode()) is Random),
    ensures
        m.stepped(r1) == m.stepped(r2),
{
}

/// `00E0` in high resolution clears the high-resolution frame buffer and
/// leaves the low-resolution one as it is.
pub proof fn law_clear_touches_active_buffer_only(m: MachineState, random: u8)
    requires
        m.wf(),
        m.display_mode == DisplayMode::HighRes,
    ensures
        m.executed(Instruction::ClearScreen, random).high_res == blank_grid(128, 64),
        m.executed(Instruction::ClearScreen, random).low_res == m.low_res,
        m.executed(Instruction::ClearScreen, random).display_mode == DisplayMode::HighRes,
{
}

/// Clearing, scrolling and drawing work on the active frame buffer and
/// leave the other one, and the mode, as they are.
pub proof fn law_inactive_buffer_is_untouched(
    m: MachineState,
    instruction: Instruction,
    random: u8,
)
    requires
        m.wf(),
        instruction.wf(),
        instruction is ClearScreen || instruction is ScrollRight || instruction is ScrollLeft
            || instruction is ScrollDown || instruction is Draw,
    ensures
        m.executed(instruction, random).display_mode == m.display_mode,
        m.display_mode == DisplayMode::LowRes ==> m.executed(instruction, random).high_res
            == m.high_res,
        m.display_mode == DisplayMode::HighRes ==> m.executed(instruction, random).low_res
            == m.low_res,
{
}

/// `00FE` in high resolution activates the low-resolution frame buffer
/// and clears it, whatever it held; `00FF` in low resolution does the same
/// for the high-resolution one.
pub proof fn law_mode_switch_clears_entered_buffer(m: MachineState, random: u8)
    requires
        m.wf(),
    ensures
        m.display_mode == DisplayMode::HighRes ==> {
            let after = m.executed(Instruction::SetLowRes, random);
            &&& after.display_mode == DisplayMode::LowRes
            &&& after.low_res == blank_grid(64, 32)
            &&& after.high_res == m.high_res
        },
        m.display_mode == DisplayMode::LowRes ==> {
            let after = m.executed(Instruction::SetHighRes, random);
            &&& after.display_mode == DisplayMode::HighRes
            &&& after.high_res == blank_grid(128, 64)
            &&& after.low_res == m.low_res
        },
        m.display_mode == DisplayMode::LowRes ==> m.executed(Instruction::SetLowRes, random) == m,
        m.display_mode == DisplayMode::HighRes ==> m.executed(Instruction::SetHighRes, random)
            == m,
{
}

/// `8xy1`, `8xy2` and `8xy3` leave `VF` at 0, whatever the operands are
/// and also where `VF` is the destination.
pub proof fn law_logic_resets_flag(m: MachineState, x: u8, y: u8, random: u8)
    requires
        m.wf(),
        x < 16,
        y < 16,
    ensures
        m.executed(Instruction::Or { x, y }, random).registers[0xF] == 0,
        m.executed(Instruction::And { x, y }, random).registers[0xF] == 0,
        m.executed(Instruction::Xor { x, y }, random).registers[0xF] == 0,
{
}

/// `8xy6` halves `Vx` and puts the bit that falls out into `VF`; no other
/// register changes, and the value of `Vy` plays no part.
pub proof fn law_shift_right(m: MachineState, x: u8, random: u8)
    requires
        m.wf(),
        x < 16,
    ensures
        m.executed(Instruction::ShiftRight { x }, random).registers[0xF] == m.registers[x as int]
            % 2,
        x != 0xF ==> m.executed(Instruction::ShiftRight { x }, random).registers[x as int]
            == m.registers[x as int] / 2,
        forall|i: int|
            0 <= i < 16 && i != x && i != 0xF ==> m.executed(
                Instruction::ShiftRight { x },
                random,
            ).registers[i] == m.registers[i],
{
}

/// `8xyE` doubles `Vx`, wrapping, and puts the bit that falls out into
/// `VF`; the value of `Vy` plays no part.
pub proof fn law_shift_left(m: MachineState, x: u8, random: u8)
    requires
        m.wf(),
        x < 16,
    ensures
        m.executed(Instruction::ShiftLeft { x }, random).registers[0xF] == m.registers[x as int]
            / 128,
        x != 0xF ==> m.executed(Instruction::ShiftLeft { x }, random).registers[x as int] == (
        m.registers[x as int] * 2) % 256,
{
}

/// Drawing changes no pixel to the left of or above the sprite's corner,
/// and none that the sprite does not cover: a sprite that reaches past the
/// right or bottom edge is cut off and does not come back on the other side.
pub proof fn law_draw_clips(grid: Grid, sprite: Grid, x0: int, y0: int, x: int, y: int)
    requires
        0 <= y < grid.len(),
        0 <= x < grid[y].len(),
    ensures
        x < x0 || y < y0 ==> drawn(grid, sprite, x0, y0)[y][x] == grid[y][x],
        !sprite_covers(sprite, x0, y0, x, y) ==> drawn(grid, sprite, x0, y0)[y][x] == grid[y][x],
        sprite_covers(sprite, x0, y0, x, y) ==> drawn(grid, sprite, x0, y0)[y][x] == !grid[y][x],
{
}

/// After `Dxyn`, `VF` is 1 if some set pixel of the display lies where the
/// sprite has a set pixel, and 0 if none does; the active frame buffer holds
/// the old picture with the sprite's pixels flipped, and the other one is
/// as before.
pub proof fn law_draw_flags_collision(m: MachineState, x: u8, y: u8, height: u8, random: u8)
    requires
        m.wf(),
        x < 16,
        y < 16,
        height < 16,
    ensures
        ({
            let after = m.executed(Instruction::Draw { x, y, height }, random);
            let x0 = m.registers[x as int] as int % display_width(m.display_mode);
            let y0 = m.registers[y as int] as int % display_height(m.display_mode);
            &&& after.registers[0xF] == if collides(m.active_display(), m.sprite(height), x0, y0) {
                1u8
            } else {
                0u8
            }
            &&& after.active_display() == drawn(m.active_display(), m.sprite(height), x0, y0)
            &&& m.display_mode == DisplayMode::LowRes ==> after.high_res == m.high_res
            &&& m.display_mode == DisplayMode::HighRes ==> after.low_res == m.low_res
        }),
{
}

/// A sprite collides with the picture exactly if one of the picture's set
/// pixels lies where the sprite, placed at `(x0, y0)`, has a set pixel.
pub proof fn law_collision_is_shared_pixel(grid: Grid, sprite: Grid, x0: int, y0: int)
    ensures
        collides(grid, sprite, x0, y0) <==> exists|x: int, y: int|
            0 <= y < grid.len() && 0 <= x < grid[y].len() && grid[y][x] && 0 <= y - y0
                < sprite.len() && 0 <= x - x0 < sprite[y - y0].len() && #[trigger] sprite[y
                - y0][x - x0],
{
    if collides(grid, sprite, x0, y0) {
        let (x, y) = choose|x: int, y: int| #[trigger] overlap_at(grid, sprite, x0, y0, x, y);
        assert(sprite[y - y0][x - x0]);
    }
    if exists|x: int, y: int|
        0 <= y < grid.len() && 0 <= x < grid[y].len() && grid[y][x] && 0 <= y - y0 < sprite.len()
            && 0 <= x - x0 < sprite[y - y0].len() && #[trigger] sprite[y - y0][x - x0] {
        let (x, y) = choose|x: int, y: int|
            0 <= y < grid.len() && 0 <= x < grid[y].len() && grid[y][x] && 0 <= y - y0
                < sprite.len() && 0 <= x - x0 < sprite[y - y0].len() && #[trigger] sprite[y
                - y0][x - x0];
        assert(overlap_at(grid, sprite, x0, y0, x, y));
    }
}

/// Drawing the same sprite twice at the same place restores the picture,
/// and the second draw reports a collision exactly if the sprite has a
/// pixel on the display.
pub proof fn law_draw_twice_restores(grid: Grid, sprite: Grid, x0: int, y0: int)
    ensures
        drawn(drawn(grid, sprite, x0, y0), sprite, x0, y0) == grid,
{
    assert(drawn(drawn(grid, sprite, x0, y0), sprite, x0, y0) =~~= grid);
}

/// Reporting the keys changes nothing but the key latches, the registers
/// and the key wait, and the latches of the keys compared so far are what
/// the host sees.
pub proof fn law_reported_keys_are_latched(m: MachineState, pressed: Seq<bool>, count: int)
    requires
        m.wf(),
        pressed.len() == 16,
        0 <= count <= 16,
    ensures
        m.keys_reported(pressed, count).wf(),
        forall|k: int| 0 <= k < count ==> m.keys_reported(pressed, count).key_state[k] == pressed[k],
        forall|k: int|
            count <= k < 16 ==> m.keys_reported(pressed, count).key_state[k] == m.key_state[k],
        m.keys_reported(pressed, count) == (MachineState {
            key_state: m.keys_reported(pressed, count).key_state,
            registers: m.keys_reported(pressed, count).registers,
            key_wait: m.keys_reported(pressed, count).key_wait,
            ..m
        }),
        pressed == m.key_state ==> m.keys_reported(pressed, count) == m,
    decreases count,
{
    if count > 0 {
        law_reported_keys_are_latched(m, pressed, count - 1);
    }
}

/// A timer at zero stays at zero: a tick never wraps a timer around.
pub proof fn law_timers_stop_at_zero(m: MachineState)
    ensures
        m.delay_timer == 0 ==> m.ticked().delay_timer == 0,
        m.sound_timer == 0 ==> m.ticked().sound_timer == 0,
        m.ticked().delay_timer <= m.delay_timer,
        m.ticked().sound_timer <= m.sound_timer,
        m.delay_timer > 0 ==> m.ticked().delay_timer == m.delay_timer - 1,
        m.sound_timer > 0 ==> m.ticked().sound_timer == m.sound_timer - 1,
{
}

/// Moving back by one instruction undoes the fetch.
proof fn lemma_rewind_undoes_fetch(m: MachineState)
    requires
        m.program_counter < 4096,
    ensures
        rewound(m.fetched().program_counter) == m.program_counter,
{
    if m.program_counter + 2 < 4096 {
        assert(m.fetched().program_counter == m.program_counter + 2);
    } else {
        assert(m.fetched().program_counter == m.program_counter + 2 - 4096);
    }
}

/// A cycle on `Fx0A` is the fetch followed by the key wait.
proof fn lemma_cycle_on_wait_key(m: MachineState, x: u8, random: u8)
    requires
        decoded(m.next_opcode()) == (Instruction::WaitKey { x }),
    ensures
        m.stepped(random) == m.fetched().key_awaited(x),
{
}

/// One cycle on `Fx0A`: an idle machine starts to wait, a waiting machine
/// stays as it is, and a machine that has captured a release becomes idle
/// and moves on to the following instruction.
pub proof fn law_key_wait_cycle(m: MachineState, x: u8, random: u8)
    requires
        m.wf(),
        m.program_counter < 4096,
        decoded(m.next_opcode()) == (Instruction::WaitKey { x }),
    ensures
        m.stepped(random) == (match m.key_wait {
            KeyWait::Idle => MachineState {
                key_wait: KeyWait::AwaitingRelease { destination: x },
                ..m
            },
            KeyWait::AwaitingRelease { destination } => m,
            KeyWait::Captured => MachineState {
                key_wait: KeyWait::Idle,
                program_counter: ((m.program_counter + 2) % 4096) as u16,
                ..m
            },
        }),
{
    lemma_rewind_undoes_fetch(m);
    lemma_cycle_on_wait_key(m, x, random);
}

/// The whole course of `Fx0A` on an idle machine: the first cycle starts
/// the wait and leaves the program counter on the instruction; a key that
/// goes down changes nothing but its latch; its release is written to `Vx`;
/// the next cycle ends the wait and moves on to the following instruction.
pub proof fn law_key_wait_runs_its_course(m: MachineState, x: u8, key: u8, r1: u8, r2: u8)
    requires
        m.wf(),
        m.program_counter < 4096,
        m.key_wait == KeyWait::Idle,
        decoded(m.next_opcode()) == (Instruction::WaitKey { x }),
    ensures
        ({
            let waiting = m.stepped(r1);
            let pressed = waiting.key_changed(key, true);
            let released = pressed.key_changed(key, false);
            let resumed = released.stepped(r2);
            &&& waiting == (MachineState {
                key_wait: KeyWait::AwaitingRelease { destination: x },
                ..m
            })
            &&& waiting.stepped(r2) == waiting
            &&& pressed.stepped(r2) == pressed
            &&& pressed.registers == m.registers
            &&& released.registers == m.registers.update(x as int, key)
            &&& released.key_wait == KeyWait::Captured
            &&& resumed.key_wait == KeyWait::Idle
            &&& resumed.registers == released.registers
            &&& resumed.program_counter == (m.program_counter + 2) % 4096
        }),
{
    crate::instruction::law_decoded_is_well_formed(m.next_opcode());
    let waiting = m.stepped(r1);
    law_key_wait_cycle(m, x, r1);
    let pressed = waiting.key_changed(key, true);
    let released = pressed.key_changed(key, false);
    assert(waiting.next_opcode() == m.next_opcode());
    assert(pressed.next_opcode() == m.next_opcode());
    assert(released.next_opcode() == m.next_opcode());
    law_key_wait_cycle(waiting, x, r2);
    law_key_wait_cycle(pressed, x, r2);
    law_key_wait_cycle(released, x, r2);
}

} // verus!
