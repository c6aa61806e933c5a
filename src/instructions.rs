//! Instruction handlers and the dispatchers that pick them.
use vstd::prelude::*;

use crate::constants::{
    BYTES_PER_FONT, DISPLAY_HEIGHT, DISPLAY_SIZE, DISPLAY_WIDTH, FLAG_REGISTER,
    FONTSET_START_ADDRESS, INPUTS_COUNT, MEMORY_SIZE, STACK_SIZE,
};
use crate::cpu::CPU;
use vstd::arithmetic::div_mod::{lemma_fundamental_div_mod, lemma_fundamental_div_mod_converse};
use crate::machine::{
    add8, advance, decimal_digit, first_pressed, op_nn, op_nnn, op_x, op_y, outcome, set_reg,
    set_reg_flag, skip_if, sprite_col, sprite_pixel, sprite_row, step_alu, step_call, step_draw,
    step_key, step_misc, step_system, sub8, collides, xor_sprite, CpuError, MachineState,
};

verus! {

broadcast use vstd::arithmetic::div_mod::lemma_mod_bound;

/// The sprite bit that the first `k` steps of a draw (row by row, eight
/// columns each) have placed on cell `p`.
spec fn drawn_upto(memory: Seq<u8>, i: int, ox: int, oy: int, n: int, k: int, p: int) -> u8 {
    if sprite_row(oy, p) * 8 + sprite_col(ox, p) < k {
        sprite_pixel(memory, i, ox, oy, n, p)
    } else {
        0
    }
}

/// Some lit cell of `display` has received a set sprite bit in the first
/// `k` steps of a draw.
spec fn hits_upto(display: Seq<u8>, memory: Seq<u8>, i: int, ox: int, oy: int, n: int, k: int) -> bool {
    exists|p: int|
        0 <= p < DISPLAY_SIZE && display[p] == 1 && #[trigger] drawn_upto(memory, i, ox, oy, n, k, p) == 1
}

/// The cell that sprite row `r`, column `c` lands on lies in the
/// framebuffer and maps back to that row and column.
pub(crate) proof fn lemma_draw_target(ox: int, oy: int, r: int, c: int)
    requires
        0 <= ox < 256,
        0 <= oy < 256,
        0 <= r < 16,
        0 <= c < 8,
    ensures
        ({
            let t = ((r + oy) % 32) * 64 + (c + ox) % 64;
            &&& 0 <= t < DISPLAY_SIZE
            &&& sprite_col(ox, t) == c
            &&& sprite_row(oy, t) == r
        }),
{
    let a = (r + oy) % 32;
    let b = (c + ox) % 64;
    let t = a * 64 + b;
    lemma_fundamental_div_mod(r + oy, 32);
    lemma_fundamental_div_mod(c + ox, 64);
    lemma_fundamental_div_mod_converse(t, 64, a, b);
    lemma_fundamental_div_mod_converse(b - ox, 64, -((c + ox) / 64), c);
    lemma_fundamental_div_mod_converse(a - oy, 32, -((r + oy) / 32), r);
}

/// Two framebuffer cells at the same position relative to one origin are
/// the same cell.
proof fn lemma_draw_unique(ox: int, oy: int, p: int, q: int)
    requires
        0 <= p < DISPLAY_SIZE,
        0 <= q < DISPLAY_SIZE,
        sprite_col(ox, p) == sprite_col(ox, q),
        sprite_row(oy, p) == sprite_row(oy, q),
    ensures
        p == q,
{
    lemma_fundamental_div_mod(p, 64);
    lemma_fundamental_div_mod(q, 64);
    lemma_fundamental_div_mod(p % 64 - ox, 64);
    lemma_fundamental_div_mod(q % 64 - ox, 64);
    lemma_fundamental_div_mod(p / 64 - oy, 32);
    lemma_fundamental_div_mod(q / 64 - oy, 32);
}

proof fn lemma_xor_zero(a: u8)
    ensures
        a ^ 0u8 == a,
{
    assert(a ^ 0u8 == a) by (bit_vector);
}

impl CPU {
    /// Dispatcher for family 0 (0XXX).
    pub(crate) fn dispatch_0xxx(&mut self, opcode: u16) -> (r: Result<(), CpuError>)
        requires
            old(self).wf(),
        ensures
            final(self).wf(),
            outcome(old(self)@, final(self)@, r, step_system(old(self)@, opcode)),
    {
        match opcode {
            0x00E0 => self.op_00e0(),
            0x00EE => self.op_00ee(),
            _ => Err(CpuError::UnknownOpcode { opcode, address: self.pc }),
        }
    }

    /// Dispatcher for family 8 (8XXX).
    pub(crate) fn dispatch_8xxx(&mut self, opcode: u16) -> (r: Result<(), CpuError>)
        ensures
            final(self).sp == old(self).sp,
            outcome(old(self)@, final(self)@, r, step_alu(old(self)@, opcode)),
    {
        let n = opcode & 0x000F;
        assert(n == opcode % 16) by (bit_vector)
            requires
                n == opcode & 0x000F,
        ;
        match n {
            0x0 => self.op_8xy0(opcode),
            0x1 => self.op_8xy1(opcode),
            0x2 => self.op_8xy2(opcode),
            0x3 => self.op_8xy3(opcode),
            0x4 => self.op_8xy4(opcode),
            0x5 => self.op_8xy5(opcode),
            0x6 => self.op_8xy6(opcode),
            0x7 => self.op_8xy7(opcode),
            0xE => self.op_8xye(opcode),
            _ => Err(CpuError::UnknownOpcode { opcode, address: self.pc }),
        }
    }

    /// Dispatcher for family E (EXXX).
    pub(crate) fn dispatch_exxx(&mut self, opcode: u16) -> (r: Result<(), CpuError>)
        ensures
            final(self).sp == old(self).sp,
            outcome(old(self)@, final(self)@, r, step_key(old(self)@, opcode)),
    {
        match CPU::get_nn(opcode) {
            0x9E => self.op_ex9e(opcode),
            0xA1 => self.op_exa1(opcode),
            _ => Err(CpuError::UnknownOpcode { opcode, address: self.pc }),
        }
    }

    /// Dispatcher for family F (FXXX).
    pub(crate) fn dispatch_fxxx(&mut self, opcode: u16) -> (r: Result<(), CpuError>)
        ensures
            final(self).sp == old(self).sp,
            outcome(old(self)@, final(self)@, r, step_misc(old(self)@, opcode)),
    {
        match CPU::get_nn(opcode) {
            0x07 => self.op_fx07(opcode),
            0x0A => self.op_fx0a(opcode),
            0x15 => self.op_fx15(opcode),
            0x18 => self.op_fx18(opcode),
            0x1E => self.op_fx1e(opcode),
            0x29 => self.op_fx29(opcode),
            0x33 => self.op_fx33(opcode),
            0x55 => self.op_fx55(opcode),
            0x65 => self.op_fx65(opcode),
            _ => Err(CpuError::UnknownOpcode { opcode, address: self.pc }),
        }
    }

    /// 00E0: clears the screen.
    fn op_00e0(&mut self) -> (r: Result<(), CpuError>)
        ensures
            final(self).sp == old(self).sp,
            outcome(old(self)@, final(self)@, r, step_system(old(self)@, 0x00E0)),
    {
        self.display = [0; DISPLAY_SIZE];
        assert(self.display@ =~= Seq::new(DISPLAY_SIZE as nat, |p: int| 0u8));
        self.advance_pc(2);
        Ok(())
    }

    /// 00EE: returns from a subroutine.
    fn op_00ee(&mut self) -> (r: Result<(), CpuError>)
        requires
            old(self).wf(),
        ensures
            final(self).wf(),
            outcome(old(self)@, final(self)@, r, step_system(old(self)@, 0x00EE)),
    {
        if self.sp_idx() == 0 {
            return Err(CpuError::StackUnderflow);
        }
        self.sp -= 1;
        let return_addr = self.stack[self.sp_idx()];
        self.pc = return_addr;
        Ok(())
    }

    /// 1NNN: jumps to address NNN.
    pub(crate) fn op_1nnn(&mut self, opcode: u16) -> (r: Result<(), CpuError>)
        ensures
            r is Ok,
            final(self)@ == (MachineState { pc: op_nnn(opcode), ..old(self)@ }),
    {
        let nnn = CPU::get_nnn(opcode);
        self.pc = nnn;
        Ok(())
    }

    /// 2NNN: calls the subroutine at NNN, saving the address of the next
    /// instruction.
    pub(crate) fn op_2nnn(&mut self, opcode: u16) -> (r: Result<(), CpuError>)
        requires
            old(self).wf(),
        ensures
            final(self).wf(),
            outcome(old(self)@, final(self)@, r, step_call(old(self)@, opcode)),
    {
        if self.sp_idx() >= STACK_SIZE {
            return Err(CpuError::StackOverflow);
        }
        let nnn = CPU::get_nnn(opcode);
        let sp = self.sp_idx();
        self.stack[sp] = self.pc.wrapping_add(2);
        self.sp += 1;
        self.pc = nnn;
        Ok(())
    }

    /// 3XNN: skips the next instruction if VX equals NN.
    pub(crate) fn op_3xnn(&mut self, opcode: u16) -> (r: Result<(), CpuError>)
        ensures
            r is Ok,
            final(self)@ == skip_if(old(self)@, old(self)@.v[op_x(opcode)] == op_nn(opcode)),
    {
        let x = CPU::get_x(opcode);
        let nn = CPU::get_nn(opcode);
        let vx = self.v[x];
        if vx == nn {
            self.advance_pc(4);
        } else {
            self.advance_pc(2);
        }
        Ok(())
    }

    /// 4XNN: skips the next instruction if VX does not equal NN.
    pub(crate) fn op_4xnn(&mut self, opcode: u16) -> (r: Result<(), CpuError>)
        ensures
            r is Ok,
            final(self)@ == skip_if(old(self)@, old(self)@.v[op_x(opcode)] != op_nn(opcode)),
    {
        let x = CPU::get_x(opcode);
        let nn = CPU::get_nn(opcode);
        let vx = self.v[x];
        if vx != nn {
            self.advance_pc(4);
        } else {
            self.advance_pc(2);
        }
        Ok(())
    }

    /// 5XY0: skips the next instruction if VX equals VY.
    pub(crate) fn op_5xy0(&mut self, opcode: u16) -> (r: Result<(), CpuError>)
        ensures
            r is Ok,
            final(self)@ == skip_if(
                old(self)@,
                old(self)@.v[op_x(opcode)] == old(self)@.v[op_y(opcode)],
            ),
    {
        let x = CPU::get_x(opcode);
        let y = CPU::get_y(opcode);
        let vx = self.v[x];
        let vy = self.v[y];
        if vx == vy {
            self.advance_pc(4);
        } else {
            self.advance_pc(2);
        }
        Ok(())
    }

    /// 6XNN: sets VX to NN.
    pub(crate) fn op_6xnn(&mut self, opcode: u16) -> (r: Result<(), CpuError>)
        ensures
            r is Ok,
            final(self)@ == set_reg(old(self)@, op_x(opcode), op_nn(opcode)),
    {
        let x = CPU::get_x(opcode);
        let nn = CPU::get_nn(opcode);
        self.v[x] = nn;
        self.advance_pc(2);
        Ok(())
    }

    /// 7XNN: adds NN to VX, wrapping; the flag register is not changed.
    pub(crate) fn op_7xnn(&mut self, opcode: u16) -> (r: Result<(), CpuError>)
        ensures
            r is Ok,
            final(self)@ == set_reg(
                old(self)@,
                op_x(opcode),
                add8(old(self)@.v[op_x(opcode)], op_nn(opcode)),
            ),
    {
        let x = CPU::get_x(opcode);
        let nn = CPU::get_nn(opcode);
        self.v[x] = self.v[x].wrapping_add(nn);
        self.advance_pc(2);
        Ok(())
    }

    /// 8XY0: sets VX to VY.
    fn op_8xy0(&mut self, opcode: u16) -> (r: Result<(), CpuError>)
        ensures
            r is Ok,
            final(self)@ == set_reg(old(self)@, op_x(opcode), old(self)@.v[op_y(opcode)]),
    {
        let x = CPU::get_x(opcode);
        let y = CPU::get_y(opcode);
        let vy = self.v[y];
        self.v[x] = vy;
        self.advance_pc(2);
        Ok(())
    }

    /// 8XY1: sets VX to VX OR VY.
    fn op_8xy1(&mut self, opcode: u16) -> (r: Result<(), CpuError>)
        ensures
            r is Ok,
            final(self)@ == set_reg(
                old(self)@,
                op_x(opcode),
                old(self)@.v[op_x(opcode)] | old(self)@.v[op_y(opcode)],
            ),
    {
        let x = CPU::get_x(opcode);
        let y = CPU::get_y(opcode);
        let vx = self.v[x];
        let vy = self.v[y];
        self.v[x] = vx | vy;
        self.advance_pc(2);
        Ok(())
    }

    /// 8XY2: sets VX to VX AND VY.
    fn op_8xy2(&mut self, opcode: u16) -> (r: Result<(), CpuError>)
        ensures
            r is Ok,
            final(self)@ == set_reg(
                old(self)@,
                op_x(opcode),
                old(self)@.v[op_x(opcode)] & old(self)@.v[op_y(opcode)],
            ),
    {
        let x = CPU::get_x(opcode);
        let y = CPU::get_y(opcode);
        let vx = self.v[x];
        let vy = self.v[y];
        self.v[x] = vx & vy;
        self.advance_pc(2);
        Ok(())
    }

    /// 8XY3: sets VX to VX XOR VY.
    fn op_8xy3(&mut self, opcode: u16) -> (r: Result<(), CpuError>)
        ensures
            r is Ok,
            final(self)@ == set_reg(
                old(self)@,
                op_x(opcode),
                old(self)@.v[op_x(opcode)] ^ old(self)@.v[op_y(opcode)],
            ),
    {
        let x = CPU::get_x(opcode);
        let y = CPU::get_y(opcode);
        let vx = self.v[x];
        let vy = self.v[y];
        self.v[x] = vx ^ vy;
        self.advance_pc(2);
        Ok(())
    }

    /// 8XY4: adds VY to VX; VF is set to 1 when the sum overflows 8 bits
    /// and to 0 when it does not.
    fn op_8xy4(&mut self, opcode: u16) -> (r: Result<(), CpuError>)
        ensures
            r is Ok,
            ({
                let a = old(self)@.v[op_x(opcode)];
                let b = old(self)@.v[op_y(opcode)];
                final(self)@ == set_reg_flag(
                    old(self)@,
                    op_x(opcode),
                    add8(a, b),
                    if a + b >= 256 { 1 } else { 0 },
                )
            }),
    {
        let x = CPU::get_x(opcode);
        let y = CPU::get_y(opcode);
        let vx = self.v[x];
        let vy = self.v[y];
        let sum = vx.wrapping_add(vy);
        let did_overflow = vx.checked_add(vy).is_none();
        self.v[x] = sum;
        self.v[FLAG_REGISTER] = if did_overflow { 1 } else { 0 };
        self.advance_pc(2);
        Ok(())
    }

    /// 8XY5: subtracts VY from VX; VF is set to 0 when the subtraction
    /// underflows and to 1 when it does not.
    fn op_8xy5(&mut self, opcode: u16) -> (r: Result<(), CpuError>)
        ensures
            r is Ok,
            ({
                let a = old(self)@.v[op_x(opcode)];
                let b = old(self)@.v[op_y(opcode)];
                final(self)@ == set_reg_flag(old(self)@, op_x(opcode), sub8(a, b), if a >= b { 1 } else { 0 })
            }),
    {
        let x = CPU::get_x(opcode);
        let y = CPU::get_y(opcode);
        let vx = self.v[x];
        let vy = self.v[y];
        let result = vx.wrapping_sub(vy);
        let did_underflow = vx < vy;
        self.v[x] = result;
        self.v[FLAG_REGISTER] = if did_underflow { 0 } else { 1 };
        self.advance_pc(2);
        Ok(())
    }

    /// 8XY6: shifts VX right by one; VF receives the bit shifted out.
    fn op_8xy6(&mut self, opcode: u16) -> (r: Result<(), CpuError>)
        ensures
            r is Ok,
            ({
                let a = old(self)@.v[op_x(opcode)];
                final(self)@ == set_reg_flag(old(self)@, op_x(opcode), (a / 2) as u8, (a % 2) as u8)
            }),
    {
        let x = CPU::get_x(opcode);
        let vx = self.v[x];
        let vx_lsb = vx & 0x01;
        let shifted = vx >> 1;
        assert(vx_lsb == vx % 2 && shifted == vx / 2) by (bit_vector)
            requires
                vx_lsb == vx & 0x01,
                shifted == vx >> 1,
        ;
        self.v[x] = shifted;
        self.v[FLAG_REGISTER] = vx_lsb;
        self.advance_pc(2);
        Ok(())
    }

    /// 8XY7: sets VX to VY minus VX; VF is set to 0 when the subtraction
    /// underflows and to 1 when it does not.
    fn op_8xy7(&mut self, opcode: u16) -> (r: Result<(), CpuError>)
        ensures
            r is Ok,
            ({
                let a = old(self)@.v[op_x(opcode)];
                let b = old(self)@.v[op_y(opcode)];
                final(self)@ == set_reg_flag(old(self)@, op_x(opcode), sub8(b, a), if b >= a { 1 } else { 0 })
            }),
    {
        let x = CPU::get_x(opcode);
        let y = CPU::get_y(opcode);
        let vx = self.v[x];
        let vy = self.v[y];
        let result = vy.wrapping_sub(vx);
        let did_underflow = vy < vx;
        self.v[x] = result;
        self.v[FLAG_REGISTER] = if did_underflow { 0 } else { 1 };
        self.advance_pc(2);
        Ok(())
    }

    /// 8XYE: shifts VX left by one, wrapping; VF receives the bit shifted
    /// out.
    fn op_8xye(&mut self, opcode: u16) -> (r: Result<(), CpuError>)
        ensures
            r is Ok,
            ({
                let a = old(self)@.v[op_x(opcode)];
                final(self)@ == set_reg_flag(
                    old(self)@,
                    op_x(opcode),
                    ((a * 2) % 256) as u8,
                    (a / 128) as u8,
                )
            }),
    {
        let x = CPU::get_x(opcode);
        let vx = self.v[x];
        let vx_msb = (vx >> 7) & 0x01;
        let shifted = vx << 1;
        assert(vx_msb == vx / 128 && shifted == vx.wrapping_mul(2)) by (bit_vector)
            requires
                vx_msb == (vx >> 7) & 0x01,
                shifted == vx << 1,
        ;
        self.v[x] = shifted;
        self.v[FLAG_REGISTER] = vx_msb;
        self.advance_pc(2);
        Ok(())
    }

    /// 9XY0: skips the next instruction if VX does not equal VY.
    pub(crate) fn op_9xy0(&mut self, opcode: u16) -> (r: Result<(), CpuError>)
        ensures
            r is Ok,
            final(self)@ == skip_if(
                old(self)@,
                old(self)@.v[op_x(opcode)] != old(self)@.v[op_y(opcode)],
            ),
    {
        let x = CPU::get_x(opcode);
        let y = CPU::get_y(opcode);
        let vx = self.v[x];
        let vy = self.v[y];
        if vx != vy {
            self.advance_pc(4);
        } else {
            self.advance_pc(2);
        }
        Ok(())
    }

    /// ANNN: sets I to the address NNN.
    pub(crate) fn op_annn(&mut self, opcode: u16) -> (r: Result<(), CpuError>)
        ensures
            r is Ok,
            final(self)@ == advance(MachineState { i: op_nnn(opcode), ..old(self)@ }, 2),
    {
        let nnn = CPU::get_nnn(opcode);
        self.i = nnn;
        self.advance_pc(2);
        Ok(())
    }

    /// BNNN: jumps to the address NNN plus V0.
    pub(crate) fn op_bnnn(&mut self, opcode: u16) -> (r: Result<(), CpuError>)
        ensures
            r is Ok,
            final(self)@ == (MachineState {
                pc: (op_nnn(opcode) + old(self)@.v[0]) as u16,
                ..old(self)@
            }),
    {
        let nnn = CPU::get_nnn(opcode);
        let v0 = self.v[0x0] as u16;
        self.pc = nnn + v0;
        Ok(())
    }

    /// CXNN: sets VX to NN AND `random`.
    pub(crate) fn op_cxnn(&mut self, opcode: u16, random: u8) -> (r: Result<(), CpuError>)
        ensures
            r is Ok,
            final(self)@ == set_reg(old(self)@, op_x(opcode), op_nn(opcode) & random),
    {
        let x = CPU::get_x(opcode);
        let nn = CPU::get_nn(opcode);
        self.v[x] = nn & random;
        self.advance_pc(2);
        Ok(())
    }

    /// EX9E: skips the next instruction if the key named by the low nibble
    /// of VX is pressed.
    fn op_ex9e(&mut self, opcode: u16) -> (r: Result<(), CpuError>)
        ensures
            r is Ok,
            final(self)@ == skip_if(old(self)@, old(self)@.input[old(self)@.v[op_x(opcode)] as int % 16]),
    {
        let x = CPU::get_x(opcode);
        let vx = self.v[x];
        let key = (vx & 0x0F) as usize;
        assert(vx & 0x0F == vx % 16) by (bit_vector);
        if self.input[key] {
            self.advance_pc(4);
        } else {
            self.advance_pc(2);
        }
        Ok(())
    }

    /// EXA1: skips the next instruction if the key named by the low nibble
    /// of VX is not pressed.
    fn op_exa1(&mut self, opcode: u16) -> (r: Result<(), CpuError>)
        ensures
            r is Ok,
            final(self)@ == skip_if(old(self)@, !old(self)@.input[old(self)@.v[op_x(opcode)] as int % 16]),
    {
        let x = CPU::get_x(opcode);
        let vx = self.v[x];
        let key = (vx & 0x0F) as usize;
        assert(vx & 0x0F == vx % 16) by (bit_vector);
        if !self.input[key] {
            self.advance_pc(4);
        } else {
            self.advance_pc(2);
        }
        Ok(())
    }

    /// FX07: sets VX to the delay timer.
    fn op_fx07(&mut self, opcode: u16) -> (r: Result<(), CpuError>)
        ensures
            r is Ok,
            final(self)@ == set_reg(old(self)@, op_x(opcode), old(self)@.delay_timer),
    {
        let x = CPU::get_x(opcode);
        self.v[x] = self.delay_timer;
        self.advance_pc(2);
        Ok(())
    }

    /// FX0A: waits for a key. With a key pressed, the lowest pressed key is
    /// stored in VX and execution moves on; with none, the program counter
    /// stays, so that the instruction runs again on the next cycle.
    fn op_fx0a(&mut self, opcode: u16) -> (r: Result<(), CpuError>)
        ensures
            r is Ok,
            ({
                let k = first_pressed(old(self)@.input, 0);
                final(self)@ == if k < INPUTS_COUNT {
                    set_reg(old(self)@, op_x(opcode), k as u8)
                } else {
                    old(self)@
                }
            }),
    {
        let x = CPU::get_x(opcode);
        let mut key: usize = 0;
        while key < INPUTS_COUNT && !self.input[key]
            invariant
                key <= INPUTS_COUNT,
                first_pressed(self.input@, 0) == first_pressed(self.input@, key as int),
            decreases INPUTS_COUNT - key,
        {
            key += 1;
        }
        if key < INPUTS_COUNT {
            self.v[x] = key as u8;
            self.advance_pc(2);
        }
        Ok(())
    }

    /// FX15: sets the delay timer to VX.
    fn op_fx15(&mut self, opcode: u16) -> (r: Result<(), CpuError>)
        ensures
            r is Ok,
            final(self)@ == advance(
                MachineState { delay_timer: old(self)@.v[op_x(opcode)], ..old(self)@ },
                2,
            ),
    {
        let x = CPU::get_x(opcode);
        self.delay_timer = self.v[x];
        self.advance_pc(2);
        Ok(())
    }

    /// FX18: sets the sound timer to VX.
    fn op_fx18(&mut self, opcode: u16) -> (r: Result<(), CpuError>)
        ensures
            r is Ok,
            final(self)@ == advance(
                MachineState { sound_timer: old(self)@.v[op_x(opcode)], ..old(self)@ },
                2,
            ),
    {
        let x = CPU::get_x(opcode);
        self.sound_timer = self.v[x];
        self.advance_pc(2);
        Ok(())
    }

    /// FX1E: adds VX to I, wrapping at 16 bits; VF is not changed.
    fn op_fx1e(&mut self, opcode: u16) -> (r: Result<(), CpuError>)
        ensures
            r is Ok,
            final(self)@ == advance(
                MachineState {
                    i: ((old(self)@.i + old(self)@.v[op_x(opcode)]) % 0x10000) as u16,
                    ..old(self)@
                },
                2,
            ),
    {
        let x = CPU::get_x(opcode);
        self.i = self.i.wrapping_add(self.v[x] as u16);
        self.advance_pc(2);
        Ok(())
    }

    /// FX29: sets I to the font glyph of the character in VX.
    fn op_fx29(&mut self, opcode: u16) -> (r: Result<(), CpuError>)
        requires
            op_nn(opcode) == 0x29,
        ensures
            outcome(old(self)@, final(self)@, r, step_misc(old(self)@, opcode)),
    {
        let x = CPU::get_x(opcode);
        let character = self.v[x] as usize;
        if character > 0x0F {
            return Err(CpuError::InvalidFontIndex(self.v[x]));
        }
        self.i = (FONTSET_START_ADDRESS + (character * BYTES_PER_FONT)) as u16;
        self.advance_pc(2);
        Ok(())
    }

    /// DXYN: draws at (VX, VY) a sprite 8 pixels wide and N rows high, read
    /// from memory at I, one byte per row, most significant bit leftmost.
    /// Each pixel is XOR-ed onto the framebuffer, wrapping at its edges. VF
    /// is set to 1 if a lit pixel is turned off, and to 0 otherwise. I is
    /// not changed.
    pub(crate) fn op_dxyn(&mut self, opcode: u16) -> (r: Result<(), CpuError>)
        ensures
            final(self).sp == old(self).sp,
            outcome(old(self)@, final(self)@, r, step_draw(old(self)@, opcode)),
    {
        let x = CPU::get_x(opcode);
        let y = CPU::get_y(opcode);
        let n = (opcode & 0x000F) as usize;
        assert(opcode & 0x000F == opcode % 16) by (bit_vector);
        if n > 0 && self.i_idx() + n > MEMORY_SIZE {
            return Err(CpuError::OutOfBounds(self.i));
        }
        let row_offset = self.v[y] as usize;
        let col_offset = self.v[x] as usize;
        let ghost pre = self@;
        let ghost i = pre.i as int;
        let ghost ox = col_offset as int;
        let ghost oy = row_offset as int;
        let ghost nn = n as int;
        let mut collision = false;
        let mut row: usize = 0;
        assert forall|p: int| 0 <= p < DISPLAY_SIZE implies #[trigger] self.display@[p]
            == pre.display[p] ^ drawn_upto(pre.memory, i, ox, oy, nn, 0, p) by {
            lemma_xor_zero(pre.display[p]);
        }
        while row < n
            invariant
                n < 16,
                row <= n,
                n > 0 ==> i + n <= MEMORY_SIZE,
                i == self.i,
                i == pre.i,
                ox == col_offset,
                oy == row_offset,
                nn == n,
                pre.display.len() == DISPLAY_SIZE,
                pre.memory.len() == MEMORY_SIZE,
                col_offset < 256,
                row_offset < 256,
                self@ == (MachineState { display: self.display@, ..pre }),
                forall|p: int|
                    0 <= p < DISPLAY_SIZE ==> #[trigger] self.display@[p] == pre.display[p]
                        ^ drawn_upto(pre.memory, i, ox, oy, nn, row * 8, p),
                collision == hits_upto(pre.display, pre.memory, i, ox, oy, nn, row * 8),
            decreases n - row,
        {
            let sprite_byte = self.memory[self.i_idx() + row];
            let mut col: usize = 0;
            while col < 8
                invariant
                    n < 16,
                    row < n,
                    col <= 8,
                    i + n <= MEMORY_SIZE,
                    i == self.i,
                    i == pre.i,
                    ox == col_offset,
                    oy == row_offset,
                    nn == n,
                    pre.display.len() == DISPLAY_SIZE,
                    pre.memory.len() == MEMORY_SIZE,
                    sprite_byte == pre.memory[i + row],
                    col_offset < 256,
                    row_offset < 256,
                    self@ == (MachineState { display: self.display@, ..pre }),
                    forall|p: int|
                        0 <= p < DISPLAY_SIZE ==> #[trigger] self.display@[p] == pre.display[p]
                            ^ drawn_upto(pre.memory, i, ox, oy, nn, row * 8 + col, p),
                    collision == hits_upto(pre.display, pre.memory, i, ox, oy, nn, row * 8 + col),
                decreases 8 - col,
            {
                let display_x = (col + col_offset) % DISPLAY_WIDTH;
                let display_y = (row + row_offset) % DISPLAY_HEIGHT;
                let idx = display_y * DISPLAY_WIDTH + display_x;
                let ghost k = row * 8 + col;
                proof {
                    lemma_draw_target(ox, oy, row as int, col as int);
                }
                let current_pixel = self.display[idx];
                let shift = (7 - col) as u8;
                let pixel = (sprite_byte >> shift) & 0x1;
                proof {
                    assert(drawn_upto(pre.memory, i, ox, oy, nn, k, idx as int) == 0);
                    lemma_xor_zero(pre.display[idx as int]);
                    assert(drawn_upto(pre.memory, i, ox, oy, nn, k + 1, idx as int) == pixel);
                    assert forall|p: int| 0 <= p < DISPLAY_SIZE && p != idx implies drawn_upto(
                        pre.memory,
                        i,
                        ox,
                        oy,
                        nn,
                        k + 1,
                        p,
                    ) == drawn_upto(pre.memory, i, ox, oy, nn, k, p) by {
                        if sprite_row(oy, p) * 8 + sprite_col(ox, p) == k && sprite_col(ox, p) < 8 {
                            lemma_draw_unique(ox, oy, p, idx as int);
                        }
                    }
                }
                self.display[idx] = current_pixel ^ pixel;
                let hit = current_pixel == 1 && pixel == 1;
                proof {
                    if collision {
                        let w = choose|p: int|
                            0 <= p < DISPLAY_SIZE && pre.display[p] == 1 && #[trigger] drawn_upto(
                                pre.memory,
                                i,
                                ox,
                                oy,
                                nn,
                                k,
                                p,
                            ) == 1;
                        assert(w != idx);
                        assert(drawn_upto(pre.memory, i, ox, oy, nn, k + 1, w) == 1);
                    }
                    if hit {
                        assert(pre.display[idx as int] == 1);
                        assert(drawn_upto(pre.memory, i, ox, oy, nn, k + 1, idx as int) == 1);
                    }
                    if exists|p: int|
                        0 <= p < DISPLAY_SIZE && pre.display[p] == 1 && #[trigger] drawn_upto(
                            pre.memory,
                            i,
                            ox,
                            oy,
                            nn,
                            k + 1,
                            p,
                        ) == 1 {
                        let w = choose|p: int|
                            0 <= p < DISPLAY_SIZE && pre.display[p] == 1 && #[trigger] drawn_upto(
                                pre.memory,
                                i,
                                ox,
                                oy,
                                nn,
                                k + 1,
                                p,
                            ) == 1;
                        if w != idx {
                            assert(drawn_upto(pre.memory, i, ox, oy, nn, k, w) == 1);
                        }
                    }
                    assert(row * 8 + (col + 1) == k + 1);
                }
                if hit {
                    collision = true;
                }
                col += 1;
            }
            assert((row + 1) * 8 == row * 8 + 8);
            row += 1;
        }
        proof {
            assert forall|p: int| 0 <= p < DISPLAY_SIZE implies drawn_upto(
                pre.memory,
                i,
                ox,
                oy,
                nn,
                nn * 8,
                p,
            ) == sprite_pixel(pre.memory, i, ox, oy, nn, p) by {
                if sprite_col(ox, p) < 8 && sprite_row(oy, p) < nn {
                    assert(sprite_row(oy, p) * 8 + sprite_col(ox, p) < nn * 8) by (nonlinear_arith)
                        requires
                            0 <= sprite_col(ox, p) < 8,
                            sprite_row(oy, p) < nn,
                            0 <= sprite_row(oy, p),
                    ;
                }
            }
            assert(self.display@ =~= xor_sprite(pre.display, pre.memory, i, ox, oy, nn));
            let hit = collides(pre.display, pre.memory, i, ox, oy, nn);
            if hit {
                let w = choose|p: int|
                    0 <= p < DISPLAY_SIZE && #[trigger] pre.display[p] == 1 && sprite_pixel(
                        pre.memory,
                        i,
                        ox,
                        oy,
                        nn,
                        p,
                    ) == 1;
                assert(drawn_upto(pre.memory, i, ox, oy, nn, nn * 8, w) == 1);
            }
            if collision {
                let w = choose|p: int|
                    0 <= p < DISPLAY_SIZE && pre.display[p] == 1 && #[trigger] drawn_upto(
                        pre.memory,
                        i,
                        ox,
                        oy,
                        nn,
                        nn * 8,
                        p,
                    ) == 1;
                assert(sprite_pixel(pre.memory, i, ox, oy, nn, w) == 1);
            }
        }
        self.v[FLAG_REGISTER] = if collision { 1 } else { 0 };
        self.advance_pc(2);
        Ok(())
    }

    /// FX33: stores the hundreds, tens and ones digits of VX at I, I+1
    /// and I+2.
    fn op_fx33(&mut self, opcode: u16) -> (r: Result<(), CpuError>)
        requires
            op_nn(opcode) == 0x33,
        ensures
            final(self).sp == old(self).sp,
            outcome(old(self)@, final(self)@, r, step_misc(old(self)@, opcode)),
    {
        let x = CPU::get_x(opcode);
        let value = self.v[x];
        if self.i_idx() + 2 >= MEMORY_SIZE {
            return Err(CpuError::OutOfBounds(self.i));
        }
        let hundreds = value / 100;
        let tens = (value / 10) % 10;
        let ones = value % 10;
        let ghost pre = self@;
        let i = self.i_idx();
        self.memory[i] = hundreds;
        self.memory[i + 1] = tens;
        self.memory[i + 2] = ones;
        assert(self.memory@ =~= Seq::new(
            MEMORY_SIZE as nat,
            |a: int| if pre.i <= a <= pre.i + 2 { decimal_digit(value, a - pre.i) } else { pre.memory[a] },
        ));
        self.advance_pc(2);
        Ok(())
    }

    /// FX55: stores V0 to VX inclusive in memory starting at I; I is not
    /// changed.
    fn op_fx55(&mut self, opcode: u16) -> (r: Result<(), CpuError>)
        requires
            op_nn(opcode) == 0x55,
        ensures
            final(self).sp == old(self).sp,
            outcome(old(self)@, final(self)@, r, step_misc(old(self)@, opcode)),
    {
        let x = CPU::get_x(opcode);
        if self.i_idx() + x >= MEMORY_SIZE {
            return Err(CpuError::OutOfBounds(self.i));
        }
        let ghost pre = self@;
        let base = self.i_idx();
        let mut k: usize = 0;
        while k <= x
            invariant
                x < 16,
                k <= x + 1,
                base == pre.i,
                base + x < MEMORY_SIZE,
                self@ == (MachineState { memory: self.memory@, ..pre }),
                forall|a: int|
                    0 <= a < MEMORY_SIZE ==> self.memory@[a] == if base <= a < base + k {
                        pre.v[a - base]
                    } else {
                        pre.memory[a]
                    },
            decreases x + 1 - k,
        {
            self.memory[base + k] = self.v[k];
            k += 1;
        }
        assert(self.memory@ =~= Seq::new(
            MEMORY_SIZE as nat,
            |a: int| if pre.i <= a <= pre.i + x { pre.v[a - pre.i] } else { pre.memory[a] },
        ));
        self.advance_pc(2);
        Ok(())
    }

    /// FX65: fills V0 to VX inclusive from memory starting at I; I is not
    /// changed.
    fn op_fx65(&mut self, opcode: u16) -> (r: Result<(), CpuError>)
        requires
            op_nn(opcode) == 0x65,
        ensures
            final(self).sp == old(self).sp,
            outcome(old(self)@, final(self)@, r, step_misc(old(self)@, opcode)),
    {
        let x = CPU::get_x(opcode);
        if self.i_idx() + x >= MEMORY_SIZE {
            return Err(CpuError::OutOfBounds(self.i));
        }
        let ghost pre = self@;
        let base = self.i_idx();
        let mut k: usize = 0;
        while k <= x
            invariant
                x < 16,
                k <= x + 1,
                base == pre.i,
                base + x < MEMORY_SIZE,
                self@ == (MachineState { v: self.v@, ..pre }),
                forall|j: int|
                    0 <= j < 16 ==> self.v@[j] == if j < k {
                        pre.memory[base + j]
                    } else {
                        pre.v[j]
                    },
            decreases x + 1 - k,
        {
            self.v[k] = self.memory[base + k];
            k += 1;
        }
        assert(self.v@ =~= Seq::new(
            16nat,
            |j: int| if j <= x { pre.memory[pre.i + j] } else { pre.v[j] },
        ));
        self.advance_pc(2);
        Ok(())
    }

    /// Program counter as an index.
    pub(crate) fn pc_idx(&self) -> (r: usize)
        ensures
            r == self.pc,
    {
        self.pc as usize
    }

    /// Stack pointer as an index.
    pub(crate) fn sp_idx(&self) -> (r: usize)
        ensures
            r == self.sp,
    {
        self.sp as usize
    }

    /// Address register as an index.
    pub(crate) fn i_idx(&self) -> (r: usize)
        ensures
            r == self.i,
    {
        self.i as usize
    }

    /// Field x of an opcode (bits 8 to 11).
    pub(crate) fn get_x(opcode: u16) -> (r: usize)
        ensures
            r == op_x(opcode),
            r < 16,
    {
        let r = (opcode & 0x0F00) >> 8;
        assert(r == (opcode / 256) % 16) by (bit_vector)
            requires
                r == (opcode & 0x0F00) >> 8,
        ;
        r as usize
    }

    /// Field y of an opcode (bits 4 to 7).
    pub(crate) fn get_y(opcode: u16) -> (r: usize)
        ensures
            r == op_y(opcode),
            r < 16,
    {
        let r = (opcode & 0x00F0) >> 4;
        assert(r == (opcode / 16) % 16) by (bit_vector)
            requires
                r == (opcode & 0x00F0) >> 4,
        ;
        r as usize
    }

    /// Field nn of an opcode (bits 0 to 7).
    pub(crate) fn get_nn(opcode: u16) -> (r: u8)
        ensures
            r == op_nn(opcode),
    {
        let r = opcode & 0x00FF;
        assert(r == opcode % 256) by (bit_vector)
            requires
                r == opcode & 0x00FF,
        ;
        r as u8
    }

    /// Field nnn of an opcode (bits 0 to 11).
    pub(crate) fn get_nnn(opcode: u16) -> (r: u16)
        ensures
            r == op_nnn(opcode),
    {
        let r = opcode & 0x0FFF;
        assert(r == opcode % 4096) by (bit_vector)
            requires
                r == opcode & 0x0FFF,
        ;
        r
    }
}

} // verus!
