//! Properties of the instruction set, stated over the model and proved.
use vstd::prelude::*;

use crate::constants::{
    DISPLAY_SIZE, FLAG_REGISTER, INPUTS_COUNT, MAX_ROM_SIZE, MEMORY_SIZE, STACK_SIZE,
    STARTING_MEMORY_ADDRESS,
};
use crate::instructions::lemma_draw_target;
use crate::machine::{
    collides, execute, first_pressed, load, op_family, op_n, op_nn, op_x, op_y, pc_plus, pixel_bit,
    sprite_pixel, tick_timers, CpuError, MachineState,
};

verus! {

/// Adding with carry (8XY4) leaves `(a + b) mod 256` in VX and sets the
/// flag register to 1 exactly when `a + b` does not fit in eight bits.
pub proof fn add_with_carry(s: MachineState, opcode: u16, random: u8)
    requires
        s.wf(),
        op_family(opcode) == 0x8,
        op_n(opcode) == 0x4,
        op_x(opcode) != FLAG_REGISTER,
    ensures
        ({
            let a = s.v[op_x(opcode)];
            let b = s.v[op_y(opcode)];
            let post = execute(s, opcode, random)->Ok_0;
            &&& execute(s, opcode, random) is Ok
            &&& post.v[op_x(opcode)] == (a + b) % 256
            &&& post.v[FLAG_REGISTER as int] == if a + b >= 256 { 1u8 } else { 0u8 }
        }),
{
}

/// Both subtractions (8XY5: VX - VY, 8XY7: VY - VX) leave the difference
/// wrapped modulo 256 in VX and set the flag register to 1 exactly when the
/// minuend is at least the subtrahend.
pub proof fn subtract_with_borrow(s: MachineState, opcode: u16, random: u8)
    requires
        s.wf(),
        op_family(opcode) == 0x8,
        op_n(opcode) == 0x5 || op_n(opcode) == 0x7,
        op_x(opcode) != FLAG_REGISTER,
    ensures
        ({
            let (m, d) = if op_n(opcode) == 0x5 {
                (s.v[op_x(opcode)], s.v[op_y(opcode)])
            } else {
                (s.v[op_y(opcode)], s.v[op_x(opcode)])
            };
            let post = execute(s, opcode, random)->Ok_0;
            &&& execute(s, opcode, random) is Ok
            &&& post.v[op_x(opcode)] == (m - d + 256) % 256
            &&& post.v[FLAG_REGISTER as int] == if m >= d { 1u8 } else { 0u8 }
        }),
{
}

/// The shifts (8XY6 right, 8XYE left) put in the flag register exactly the
/// bit shifted out of VX, whatever register VX is.
pub proof fn shift_flag_is_shifted_out_bit(s: MachineState, opcode: u16, random: u8)
    requires
        s.wf(),
        op_family(opcode) == 0x8,
        op_n(opcode) == 0x6 || op_n(opcode) == 0xE,
    ensures
        ({
            let a = s.v[op_x(opcode)];
            let post = execute(s, opcode, random)->Ok_0;
            &&& execute(s, opcode, random) is Ok
            &&& post.v[FLAG_REGISTER as int] == if op_n(opcode) == 0x6 { a % 2 } else { a / 128 }
        }),
{
}

/// The instruction skips: 3XNN, 4XNN, 5XY0, 9XY0, EX9E and EXA1.
pub open spec fn is_skip(opcode: u16) -> bool {
    let f = op_family(opcode);
    ||| f == 0x3
    ||| f == 0x4
    ||| f == 0x5
    ||| f == 0x9
    ||| f == 0xE && (op_nn(opcode) == 0x9E || op_nn(opcode) == 0xA1)
}

/// Whether a skip instruction skips in state `s`.
pub open spec fn skip_taken(s: MachineState, opcode: u16) -> bool {
    let f = op_family(opcode);
    let vx = s.v[op_x(opcode)];
    let vy = s.v[op_y(opcode)];
    let pressed = s.input[vx as int % 16];
    if f == 0x3 {
        vx == op_nn(opcode)
    } else if f == 0x4 {
        vx != op_nn(opcode)
    } else if f == 0x5 {
        vx == vy
    } else if f == 0x9 {
        vx != vy
    } else if op_nn(opcode) == 0x9E {
        pressed
    } else {
        !pressed
    }
}

/// A skip instruction succeeds for all operands, changes nothing but the
/// program counter, and moves it forward by exactly 4 when it skips and
/// exactly 2 when it does not (modulo 2^16).
pub proof fn skip_advances_by_four_or_two(s: MachineState, opcode: u16, random: u8)
    requires
        s.wf(),
        is_skip(opcode),
    ensures
        execute(s, opcode, random) is Ok,
        execute(s, opcode, random)->Ok_0 == (MachineState {
            pc: pc_plus(s.pc, if skip_taken(s, opcode) { 4 } else { 2 }),
            ..s
        }),
{
}

/// Drawing a sprite twice at the same place gives back the framebuffer as
/// it was, and the first draw sets the flag register to 1 exactly when some
/// lit cell receives a set sprite bit. The origin registers must not be the
/// flag register, which the first draw overwrites.
pub proof fn draw_twice_restores(s: MachineState, opcode: u16, random: u8)
    requires
        s.wf(),
        op_family(opcode) == 0xD,
        op_x(opcode) != FLAG_REGISTER,
        op_y(opcode) != FLAG_REGISTER,
        execute(s, opcode, random) is Ok,
    ensures
        ({
            let once = execute(s, opcode, random)->Ok_0;
            let twice = execute(once, opcode, random);
            let hit = collides(
                s.display,
                s.memory,
                s.i as int,
                s.v[op_x(opcode)] as int,
                s.v[op_y(opcode)] as int,
                op_n(opcode),
            );
            &&& once.v[FLAG_REGISTER as int] == if hit { 1u8 } else { 0u8 }
            &&& twice is Ok
            &&& twice->Ok_0.display == s.display
        }),
{
    let once = execute(s, opcode, random)->Ok_0;
    let twice = execute(once, opcode, random)->Ok_0;
    assert forall|p: int| 0 <= p < DISPLAY_SIZE implies #[trigger] twice.display[p] == s.display[p] by {
        let b = sprite_pixel(
            s.memory,
            s.i as int,
            s.v[op_x(opcode)] as int,
            s.v[op_y(opcode)] as int,
            op_n(opcode),
            p,
        );
        let d = s.display[p];
        assert((d ^ b) ^ b == d) by (bit_vector);
    }
    assert(twice.display =~= s.display);
}

/// Every pixel of a drawn sprite lands on its own cell, the column wrapped
/// modulo the width and the row modulo the height independently: sprite
/// row `r`, column `c` XORs bit `c` of memory byte `I + r` onto cell
/// ((VY + r) mod 32, (VX + c) mod 64).
pub proof fn draw_wraps_each_pixel(s: MachineState, opcode: u16, random: u8, r: int, c: int)
    requires
        s.wf(),
        op_family(opcode) == 0xD,
        execute(s, opcode, random) is Ok,
        0 <= r < op_n(opcode),
        0 <= c < 8,
    ensures
        ({
            let ox = s.v[op_x(opcode)] as int;
            let oy = s.v[op_y(opcode)] as int;
            let cell = ((oy + r) % 32) * 64 + (ox + c) % 64;
            let post = execute(s, opcode, random)->Ok_0;
            &&& 0 <= cell < DISPLAY_SIZE
            &&& post.display[cell] == s.display[cell] ^ pixel_bit(s.memory[s.i + r], c)
        }),
{
    lemma_draw_target(s.v[op_x(opcode)] as int, s.v[op_y(opcode)] as int, r, c);
}

/// A timer tick decrements each timer by one and leaves a timer at 0 at 0.
pub proof fn timers_saturate_at_zero(s: MachineState)
    ensures
        tick_timers(s).delay_timer == if s.delay_timer == 0 { 0 } else { s.delay_timer - 1 },
        tick_timers(s).sound_timer == if s.sound_timer == 0 { 0 } else { s.sound_timer - 1 },
        tick_timers(s) == (MachineState {
            delay_timer: tick_timers(s).delay_timer,
            sound_timer: tick_timers(s).sound_timer,
            ..s
        }),
{
}

/// The state after `k` timer ticks.
pub open spec fn ticks(s: MachineState, k: nat) -> MachineState
    decreases k,
{
    if k == 0 {
        s
    } else {
        tick_timers(ticks(s, (k - 1) as nat))
    }
}

/// After `k` ticks each timer has gone down by `k` but not below 0; in
/// particular a timer at 0 stays at 0 however often it is ticked.
pub proof fn repeated_ticks_saturate(s: MachineState, k: nat)
    ensures
        ticks(s, k).delay_timer == if s.delay_timer >= k { s.delay_timer - k } else { 0 },
        ticks(s, k).sound_timer == if s.sound_timer >= k { s.sound_timer - k } else { 0 },
    decreases k,
{
    if k > 0 {
        repeated_ticks_saturate(s, (k - 1) as nat);
    }
}

/// A program image is rejected exactly when it is longer than 3584 bytes.
/// An accepted one is copied to addresses 0x200 onward, and memory outside
/// it is unchanged; one of 3584 bytes fills 0x200 to 0xFFF.
pub proof fn load_accepts_what_fits(s: MachineState, rom: Seq<u8>)
    requires
        s.wf(),
    ensures
        load(s, rom) is Err <==> rom.len() > MAX_ROM_SIZE,
        rom.len() > MAX_ROM_SIZE ==> load(s, rom) == Err::<MachineState, CpuError>(
            CpuError::RomTooLarge(rom.len() as usize),
        ),
        rom.len() <= MAX_ROM_SIZE ==> {
            let post = load(s, rom)->Ok_0;
            &&& post == (MachineState { memory: post.memory, ..s })
            &&& post.memory.len() == MEMORY_SIZE
            &&& forall|k: int| 0 <= k < rom.len() ==> post.memory[STARTING_MEMORY_ADDRESS + k] == rom[k]
            &&& forall|a: int|
                0 <= a < MEMORY_SIZE && !(STARTING_MEMORY_ADDRESS <= a < STARTING_MEMORY_ADDRESS
                    + rom.len()) ==> post.memory[a] == s.memory[a]
        },
        rom.len() == MAX_ROM_SIZE ==> STARTING_MEMORY_ADDRESS + rom.len() == MEMORY_SIZE,
{
}

/// A call to `nnn` followed by a return brings the program counter back
/// to the instruction after the call, with the stack pointer as it was.
pub proof fn call_then_return(s: MachineState, opcode: u16, random: u8)
    requires
        s.wf(),
        op_family(opcode) == 0x2,
        s.sp < STACK_SIZE,
    ensures
        ({
            let called = execute(s, opcode, random);
            let returned = execute(called->Ok_0, 0x00EE, random);
            &&& called is Ok
            &&& called->Ok_0.wf()
            &&& returned is Ok
            &&& returned->Ok_0.pc == pc_plus(s.pc, 2)
            &&& returned->Ok_0.sp == s.sp
        }),
{
    assert(op_family(0x00EE) == 0);
}

/// `first_pressed` from `from` is the lowest pressed key at or after
/// `from`, or 16 when none is.
proof fn lemma_first_pressed(input: Seq<bool>, from: int)
    requires
        0 <= from <= INPUTS_COUNT,
    ensures
        from <= first_pressed(input, from) <= INPUTS_COUNT,
        forall|j: int| from <= j < first_pressed(input, from) ==> !input[j],
        first_pressed(input, from) < INPUTS_COUNT ==> input[first_pressed(input, from)],
    decreases INPUTS_COUNT - from,
{
    if from < INPUTS_COUNT && !input[from] {
        lemma_first_pressed(input, from + 1);
    }
}

/// The key wait (FX0A) with no key pressed leaves the whole state as it
/// was, program counter included, so that it runs again; with some key
/// pressed it stores the lowest pressed key in VX and moves on by 2.
pub proof fn key_wait(s: MachineState, opcode: u16, random: u8)
    requires
        s.wf(),
        op_family(opcode) == 0xF,
        op_nn(opcode) == 0x0A,
    ensures
        execute(s, opcode, random) is Ok,
        (forall|k: int| 0 <= k < INPUTS_COUNT ==> !s.input[k]) ==> execute(s, opcode, random)->Ok_0
            == s,
        forall|k: int|
            0 <= k < INPUTS_COUNT && s.input[k] && (forall|j: int| 0 <= j < k ==> !s.input[j])
                ==> {
                let post = execute(s, opcode, random)->Ok_0;
                &&& post.v[op_x(opcode)] == k
                &&& post.pc == pc_plus(s.pc, 2)
            },
{
    lemma_first_pressed(s.input, 0);
}

} // verus!
