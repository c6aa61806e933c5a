//! The mathematical model of the machine and of one instruction step.
use vstd::prelude::*;

use crate::constants::{
    fontset, BYTES_PER_FONT, DISPLAY_HEIGHT, DISPLAY_SIZE, DISPLAY_WIDTH, FLAG_REGISTER,
    FONTSET_SIZE, FONTSET_START_ADDRESS, INPUTS_COUNT, MAX_ROM_SIZE, MEMORY_SIZE,
    REGISTERS_COUNT, STACK_SIZE, STARTING_MEMORY_ADDRESS,
};

verus! {

/// Failures that stop the current run; each leaves the machine unchanged.
#[derive(Debug, Clone, Copy, PartialEq, Eq, Structural)]
pub enum CpuError {
    /// An instruction fetch or a memory access at or from this address
    /// would leave the address space.
    OutOfBounds(u16),
    /// No instruction matches `opcode`, fetched from `address`.
    UnknownOpcode { opcode: u16, address: u16 },
    /// A call with all sixteen stack entries in use.
    StackOverflow,
    /// A return with an empty call stack.
    StackUnderflow,
    /// A font glyph was asked for a value above 0xF.
    InvalidFontIndex(u8),
    /// A program image of this many bytes does not fit in program space.
    RomTooLarge(usize),
}

/// Abstract state of the machine: every component as a sequence or a number.
pub struct MachineState {
    pub v: Seq<u8>,
    pub i: u16,
    pub pc: u16,
    pub memory: Seq<u8>,
    pub stack: Seq<u16>,
    pub sp: u8,
    pub delay_timer: u8,
    pub sound_timer: u8,
    pub display: Seq<u8>,
    pub input: Seq<bool>,
}

impl MachineState {
    /// Sizes of all components are the fixed ones, and the stack pointer is
    /// within the stack.
    pub open spec fn wf(self) -> bool {
        &&& self.v.len() == REGISTERS_COUNT
        &&& self.memory.len() == MEMORY_SIZE
        &&& self.stack.len() == STACK_SIZE
        &&& self.sp <= STACK_SIZE
        &&& self.display.len() == DISPLAY_SIZE
        &&& self.input.len() == INPUTS_COUNT
    }
}

/// State of a freshly constructed machine: everything zero, the program
/// counter at the program entry point and the font installed.
pub open spec fn power_on() -> MachineState {
    MachineState {
        v: Seq::new(REGISTERS_COUNT as nat, |k: int| 0u8),
        i: 0,
        pc: STARTING_MEMORY_ADDRESS as u16,
        memory: Seq::new(
            MEMORY_SIZE as nat,
            |a: int|
                if FONTSET_START_ADDRESS <= a < FONTSET_START_ADDRESS + FONTSET_SIZE {
                    fontset()[a - FONTSET_START_ADDRESS]
                } else {
                    0u8
                },
        ),
        stack: Seq::new(STACK_SIZE as nat, |k: int| 0u16),
        sp: 0,
        delay_timer: 0,
        sound_timer: 0,
        display: Seq::new(DISPLAY_SIZE as nat, |p: int| 0u8),
        input: Seq::new(INPUTS_COUNT as nat, |k: int| false),
    }
}

/// The state after loading `rom` into program space, or the failure when
/// it does not fit.
pub open spec fn load(s: MachineState, rom: Seq<u8>) -> Result<MachineState, CpuError> {
    if rom.len() > MAX_ROM_SIZE {
        Err(CpuError::RomTooLarge(rom.len() as usize))
    } else {
        let memory = Seq::new(
            MEMORY_SIZE as nat,
            |a: int|
                if STARTING_MEMORY_ADDRESS <= a < STARTING_MEMORY_ADDRESS + rom.len() {
                    rom[a - STARTING_MEMORY_ADDRESS]
                } else {
                    s.memory[a]
                },
        );
        Ok(MachineState { memory, ..s })
    }
}

/// The big-endian opcode at the program counter, or the failure when it
/// does not lie wholly in memory.
pub open spec fn fetch_word(s: MachineState) -> Result<u16, CpuError> {
    if s.pc + 1 >= MEMORY_SIZE {
        Err(CpuError::OutOfBounds(s.pc))
    } else {
        Ok((s.memory[s.pc as int] * 256 + s.memory[s.pc + 1]) as u16)
    }
}

/// Register field `x`: bits 8 to 11 of the opcode.
pub open spec fn op_x(opcode: u16) -> int {
    (opcode as int / 256) % 16
}

/// Register field `y`: bits 4 to 7 of the opcode.
pub open spec fn op_y(opcode: u16) -> int {
    (opcode as int / 16) % 16
}

/// Field `n`: bits 0 to 3 of the opcode.
pub open spec fn op_n(opcode: u16) -> int {
    opcode as int % 16
}

/// Field `nn`: bits 0 to 7 of the opcode.
pub open spec fn op_nn(opcode: u16) -> u8 {
    (opcode as int % 256) as u8
}

/// Field `nnn`: bits 0 to 11 of the opcode.
pub open spec fn op_nnn(opcode: u16) -> u16 {
    (opcode as int % 4096) as u16
}

/// Instruction family: bits 12 to 15 of the opcode.
pub open spec fn op_family(opcode: u16) -> int {
    opcode as int / 4096
}

/// A 16-bit program counter moved forward by `k`.
pub open spec fn pc_plus(pc: u16, k: int) -> u16 {
    ((pc + k) % 0x10000) as u16
}

/// The state with the program counter moved forward by `k`.
pub open spec fn advance(s: MachineState, k: int) -> MachineState {
    MachineState { pc: pc_plus(s.pc, k), ..s }
}

/// Skips the next instruction when `cond` holds, else moves to it.
pub open spec fn skip_if(s: MachineState, cond: bool) -> MachineState {
    advance(s, if cond { 4 } else { 2 })
}

/// Sets register `x` to `val` and moves to the next instruction.
pub open spec fn set_reg(s: MachineState, x: int, val: u8) -> MachineState {
    advance(MachineState { v: s.v.update(x, val), ..s }, 2)
}

/// Sets register `x` to `val`, then the flag register to `flag`, and moves
/// to the next instruction. When `x` is the flag register the flag wins.
pub open spec fn set_reg_flag(s: MachineState, x: int, val: u8, flag: u8) -> MachineState {
    advance(MachineState { v: s.v.update(x, val).update(FLAG_REGISTER as int, flag), ..s }, 2)
}

/// The unknown-opcode failure for `opcode` at the current program counter.
pub open spec fn unknown(s: MachineState, opcode: u16) -> Result<MachineState, CpuError> {
    Err(CpuError::UnknownOpcode { opcode, address: s.pc })
}

/// `a + b` wrapped to eight bits.
pub open spec fn add8(a: u8, b: u8) -> u8 {
    ((a + b) % 256) as u8
}

/// `a - b` wrapped to eight bits.
pub open spec fn sub8(a: u8, b: u8) -> u8 {
    ((a - b + 256) % 256) as u8
}

/// Family 0: clear the screen, or return from a subroutine.
pub open spec fn step_system(s: MachineState, opcode: u16) -> Result<MachineState, CpuError> {
    if opcode == 0x00E0 {
        Ok(advance(MachineState { display: Seq::new(DISPLAY_SIZE as nat, |p: int| 0u8), ..s }, 2))
    } else if opcode == 0x00EE {
        if s.sp == 0 {
            Err(CpuError::StackUnderflow)
        } else {
            Ok(MachineState { sp: (s.sp - 1) as u8, pc: s.stack[s.sp - 1], ..s })
        }
    } else {
        unknown(s, opcode)
    }
}

/// Family 2: push the address of the next instruction and jump to `nnn`.
pub open spec fn step_call(s: MachineState, opcode: u16) -> Result<MachineState, CpuError> {
    if s.sp >= STACK_SIZE {
        Err(CpuError::StackOverflow)
    } else {
        Ok(
            MachineState {
                stack: s.stack.update(s.sp as int, pc_plus(s.pc, 2)),
                sp: (s.sp + 1) as u8,
                pc: op_nnn(opcode),
                ..s
            },
        )
    }
}

/// Family 8: register-to-register arithmetic and logic.
pub open spec fn step_alu(s: MachineState, opcode: u16) -> Result<MachineState, CpuError> {
    let x = op_x(opcode);
    let a = s.v[x];
    let b = s.v[op_y(opcode)];
    let n = op_n(opcode);
    if n == 0x0 {
        Ok(set_reg(s, x, b))
    } else if n == 0x1 {
        Ok(set_reg(s, x, a | b))
    } else if n == 0x2 {
        Ok(set_reg(s, x, a & b))
    } else if n == 0x3 {
        Ok(set_reg(s, x, a ^ b))
    } else if n == 0x4 {
        Ok(set_reg_flag(s, x, add8(a, b), if a + b >= 256 { 1 } else { 0 }))
    } else if n == 0x5 {
        Ok(set_reg_flag(s, x, sub8(a, b), if a >= b { 1 } else { 0 }))
    } else if n == 0x6 {
        Ok(set_reg_flag(s, x, (a / 2) as u8, (a % 2) as u8))
    } else if n == 0x7 {
        Ok(set_reg_flag(s, x, sub8(b, a), if b >= a { 1 } else { 0 }))
    } else if n == 0xE {
        Ok(set_reg_flag(s, x, ((a * 2) % 256) as u8, (a / 128) as u8))
    } else {
        unknown(s, opcode)
    }
}

/// Bit `col` of a sprite row, counting from the most significant bit.
pub open spec fn pixel_bit(row: u8, col: int) -> u8 {
    (row >> ((7 - col) as u8)) & 1u8
}

/// Column of framebuffer cell `p` relative to the sprite origin column `ox`,
/// wrapped to the framebuffer width.
pub open spec fn sprite_col(ox: int, p: int) -> int {
    (p % (DISPLAY_WIDTH as int) - ox) % (DISPLAY_WIDTH as int)
}

/// Row of framebuffer cell `p` relative to the sprite origin row `oy`,
/// wrapped to the framebuffer height.
pub open spec fn sprite_row(oy: int, p: int) -> int {
    (p / (DISPLAY_WIDTH as int) - oy) % (DISPLAY_HEIGHT as int)
}

/// The sprite bit that lands on framebuffer cell `p` when an `n`-row sprite
/// at memory address `i` is drawn with origin (`ox`, `oy`); 0 for a cell the
/// sprite does not cover.
pub open spec fn sprite_pixel(memory: Seq<u8>, i: int, ox: int, oy: int, n: int, p: int) -> u8 {
    let col = sprite_col(ox, p);
    let row = sprite_row(oy, p);
    if col < 8 && row < n {
        pixel_bit(memory[i + row], col)
    } else {
        0
    }
}

/// Some lit cell of `display` receives a set sprite bit.
pub open spec fn collides(display: Seq<u8>, memory: Seq<u8>, i: int, ox: int, oy: int, n: int) -> bool {
    exists|p: int|
        0 <= p < DISPLAY_SIZE && #[trigger] display[p] == 1 && sprite_pixel(memory, i, ox, oy, n, p) == 1
}

/// `display` with the sprite XOR-ed onto it.
pub open spec fn xor_sprite(display: Seq<u8>, memory: Seq<u8>, i: int, ox: int, oy: int, n: int) -> Seq<u8> {
    Seq::new(DISPLAY_SIZE as nat, |p: int| display[p] ^ sprite_pixel(memory, i, ox, oy, n, p))
}

/// Family D: draw an `n`-row sprite from memory at I with origin (Vx, Vy).
pub open spec fn step_draw(s: MachineState, opcode: u16) -> Result<MachineState, CpuError> {
    let n = op_n(opcode);
    if n > 0 && s.i + n > MEMORY_SIZE {
        Err(CpuError::OutOfBounds(s.i))
    } else {
        let ox = s.v[op_x(opcode)] as int;
        let oy = s.v[op_y(opcode)] as int;
        let hit = collides(s.display, s.memory, s.i as int, ox, oy, n);
        Ok(
            advance(
                MachineState {
                    display: xor_sprite(s.display, s.memory, s.i as int, ox, oy, n),
                    v: s.v.update(FLAG_REGISTER as int, if hit { 1u8 } else { 0u8 }),
                    ..s
                },
                2,
            ),
        )
    }
}

/// Family E: skip on the state of the key named by the low nibble of Vx.
pub open spec fn step_key(s: MachineState, opcode: u16) -> Result<MachineState, CpuError> {
    let pressed = s.input[s.v[op_x(opcode)] as int % 16];
    if op_nn(opcode) == 0x9E {
        Ok(skip_if(s, pressed))
    } else if op_nn(opcode) == 0xA1 {
        Ok(skip_if(s, !pressed))
    } else {
        unknown(s, opcode)
    }
}

/// The lowest index at or after `from` whose key is pressed, or
/// `INPUTS_COUNT` when there is none.
pub open spec fn first_pressed(input: Seq<bool>, from: int) -> int
    decreases INPUTS_COUNT - from,
{
    if from >= INPUTS_COUNT {
        INPUTS_COUNT as int
    } else if input[from] {
        from
    } else {
        first_pressed(input, from + 1)
    }
}

/// Digit `k` (0 = hundreds, 1 = tens, 2 = ones) of the decimal form of `val`.
pub open spec fn decimal_digit(val: u8, k: int) -> u8 {
    if k == 0 {
        val / 100
    } else if k == 1 {
        (val / 10) % 10
    } else {
        val % 10
    }
}

/// Family F: timers, key wait, index arithmetic and memory blocks.
pub open spec fn step_misc(s: MachineState, opcode: u16) -> Result<MachineState, CpuError> {
    let x = op_x(opcode);
    let vx = s.v[x];
    let nn = op_nn(opcode);
    if nn == 0x07 {
        Ok(set_reg(s, x, s.delay_timer))
    } else if nn == 0x0A {
        let k = first_pressed(s.input, 0);
        if k < INPUTS_COUNT {
            Ok(set_reg(s, x, k as u8))
        } else {
            Ok(s)
        }
    } else if nn == 0x15 {
        Ok(advance(MachineState { delay_timer: vx, ..s }, 2))
    } else if nn == 0x18 {
        Ok(advance(MachineState { sound_timer: vx, ..s }, 2))
    } else if nn == 0x1E {
        Ok(advance(MachineState { i: ((s.i + vx) % 0x10000) as u16, ..s }, 2))
    } else if nn == 0x29 {
        if vx > 0xF {
            Err(CpuError::InvalidFontIndex(vx))
        } else {
            Ok(advance(MachineState { i: (FONTSET_START_ADDRESS + vx * BYTES_PER_FONT) as u16, ..s }, 2))
        }
    } else if nn == 0x33 {
        if s.i + 2 >= MEMORY_SIZE {
            Err(CpuError::OutOfBounds(s.i))
        } else {
            let memory = Seq::new(
                MEMORY_SIZE as nat,
                |a: int| if s.i <= a <= s.i + 2 { decimal_digit(vx, a - s.i) } else { s.memory[a] },
            );
            Ok(advance(MachineState { memory, ..s }, 2))
        }
    } else if nn == 0x55 {
        if s.i + x >= MEMORY_SIZE {
            Err(CpuError::OutOfBounds(s.i))
        } else {
            let memory = Seq::new(
                MEMORY_SIZE as nat,
                |a: int| if s.i <= a <= s.i + x { s.v[a - s.i] } else { s.memory[a] },
            );
            Ok(advance(MachineState { memory, ..s }, 2))
        }
    } else if nn == 0x65 {
        if s.i + x >= MEMORY_SIZE {
            Err(CpuError::OutOfBounds(s.i))
        } else {
            let v = Seq::new(
                REGISTERS_COUNT as nat,
                |k: int| if k <= x { s.memory[s.i + k] } else { s.v[k] },
            );
            Ok(advance(MachineState { v, ..s }, 2))
        }
    } else {
        unknown(s, opcode)
    }
}

/// One instruction: the state after executing `opcode` in state `s`, or the
/// failure it raises. `random` is the byte drawn for the random instruction
/// (family C) and is read by no other.
pub open spec fn execute(s: MachineState, opcode: u16, random: u8) -> Result<MachineState, CpuError> {
    let f = op_family(opcode);
    let x = op_x(opcode);
    let nn = op_nn(opcode);
    if f == 0x0 {
        step_system(s, opcode)
    } else if f == 0x1 {
        Ok(MachineState { pc: op_nnn(opcode), ..s })
    } else if f == 0x2 {
        step_call(s, opcode)
    } else if f == 0x3 {
        Ok(skip_if(s, s.v[x] == nn))
    } else if f == 0x4 {
        Ok(skip_if(s, s.v[x] != nn))
    } else if f == 0x5 {
        Ok(skip_if(s, s.v[x] == s.v[op_y(opcode)]))
    } else if f == 0x6 {
        Ok(set_reg(s, x, nn))
    } else if f == 0x7 {
        Ok(set_reg(s, x, add8(s.v[x], nn)))
    } else if f == 0x8 {
        step_alu(s, opcode)
    } else if f == 0x9 {
        Ok(skip_if(s, s.v[x] != s.v[op_y(opcode)]))
    } else if f == 0xA {
        Ok(advance(MachineState { i: op_nnn(opcode), ..s }, 2))
    } else if f == 0xB {
        Ok(MachineState { pc: (op_nnn(opcode) + s.v[0]) as u16, ..s })
    } else if f == 0xC {
        Ok(set_reg(s, x, nn & random))
    } else if f == 0xD {
        step_draw(s, opcode)
    } else if f == 0xE {
        step_key(s, opcode)
    } else {
        step_misc(s, opcode)
    }
}

/// `post` and the result `r` are what executing an instruction whose
/// outcome is `expected` gives from `pre`: the new state on success; on
/// failure that error, with the state unchanged.
pub open spec fn outcome(
    pre: MachineState,
    post: MachineState,
    r: Result<(), CpuError>,
    expected: Result<MachineState, CpuError>,
) -> bool {
    match expected {
        Ok(s) => r is Ok && post == s,
        Err(e) => r == Err::<(), CpuError>(e) && post == pre,
    }
}

/// The state after one timer tick: both timers decremented, stopping at 0.
pub open spec fn tick_timers(s: MachineState) -> MachineState {
    MachineState {
        delay_timer: if s.delay_timer > 0 { (s.delay_timer - 1) as u8 } else { 0 },
        sound_timer: if s.sound_timer > 0 { (s.sound_timer - 1) as u8 } else { 0 },
        ..s
    }
}

} // verus!
