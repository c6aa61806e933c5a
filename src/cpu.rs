//! The fetch-decode-execute engine and the state it owns.
use vstd::prelude::*;

use crate::constants::{
    fontset, fontset_bytes, DISPLAY_SIZE, FONTSET_SIZE, FONTSET_START_ADDRESS, INPUTS_COUNT,
    MAX_ROM_SIZE, MEMORY_SIZE, REGISTERS_COUNT, STACK_SIZE, STARTING_MEMORY_ADDRESS,
};
use crate::machine::{
    advance, execute, fetch_word, load, op_family, outcome, power_on, CpuError, MachineState,
};

verus! {

/// The machine: registers, memory, call stack, timers, framebuffer and
/// input latch.
pub struct CPU {
    /// Sixteen 8-bit general purpose registers, V0 to VF.
    pub v: [u8; REGISTERS_COUNT],
    /// Address register.
    pub i: u16,
    /// Address of the next instruction.
    pub pc: u16,
    pub memory: [u8; MEMORY_SIZE],
    pub stack: [u16; STACK_SIZE],
    /// Number of return addresses on the stack.
    pub sp: u8,
    /// Both timers count down at 60 Hz to 0.
    pub delay_timer: u8,
    pub sound_timer: u8,
    /// One byte per pixel, row-major: 0 unlit, 1 lit.
    pub display: [u8; DISPLAY_SIZE],
    /// One flag per logical key: held or not.
    pub input: [bool; INPUTS_COUNT],
}

impl View for CPU {
    type V = MachineState;

    open spec fn view(&self) -> MachineState {
        MachineState {
            v: self.v@,
            i: self.i,
            pc: self.pc,
            memory: self.memory@,
            stack: self.stack@,
            sp: self.sp,
            delay_timer: self.delay_timer,
            sound_timer: self.sound_timer,
            display: self.display@,
            input: self.input@,
        }
    }
}

impl CPU {
    /// The stack pointer lies within the call stack.
    pub open spec fn wf(&self) -> bool {
        self.sp <= STACK_SIZE
    }

    /// A machine with all state zeroed, the program counter at the entry
    /// point and the font installed.
    pub fn new() -> (r: Self)
        ensures
            r@ == power_on(),
            r.wf(),
    {
        let mut cpu = CPU {
            v: [0; REGISTERS_COUNT],
            i: 0,
            pc: STARTING_MEMORY_ADDRESS as u16,
            memory: [0; MEMORY_SIZE],
            stack: [0; STACK_SIZE],
            sp: 0,
            delay_timer: 0,
            sound_timer: 0,
            display: [0; DISPLAY_SIZE],
            input: [false; INPUTS_COUNT],
        };
        let font = fontset_bytes();
        let mut k: usize = 0;
        while k < FONTSET_SIZE
            invariant
                k <= FONTSET_SIZE,
                font@ == fontset(),
                cpu.sp == 0,
                cpu.i == 0,
                cpu.pc == STARTING_MEMORY_ADDRESS,
                cpu.delay_timer == 0,
                cpu.sound_timer == 0,
                forall|j: int| 0 <= j < REGISTERS_COUNT ==> cpu.v@[j] == 0,
                forall|j: int| 0 <= j < STACK_SIZE ==> cpu.stack@[j] == 0,
                forall|j: int| 0 <= j < DISPLAY_SIZE ==> cpu.display@[j] == 0,
                forall|j: int| 0 <= j < INPUTS_COUNT ==> !cpu.input@[j],
                forall|a: int|
                    0 <= a < MEMORY_SIZE ==> cpu.memory@[a] == if FONTSET_START_ADDRESS <= a
                        < FONTSET_START_ADDRESS + k {
                        fontset()[a - FONTSET_START_ADDRESS]
                    } else {
                        0u8
                    },
            decreases FONTSET_SIZE - k,
        {
            cpu.memory[FONTSET_START_ADDRESS + k] = font[k];
            k += 1;
        }
        assert(cpu@.v =~= power_on().v);
        assert(cpu@.memory =~= power_on().memory);
        assert(cpu@.stack =~= power_on().stack);
        assert(cpu@.display =~= power_on().display);
        assert(cpu@.input =~= power_on().input);
        cpu
    }

    /// Puts the machine back in its freshly constructed state.
    pub fn reset(&mut self)
        ensures
            final(self)@ == power_on(),
            final(self).wf(),
    {
        *self = CPU::new();
    }

    /// Copies a program image into program space, starting at the entry
    /// point. An image larger than program space is rejected and nothing
    /// is written.
    pub fn load_rom(&mut self, rom: &[u8]) -> (r: Result<(), CpuError>)
        ensures
            outcome(old(self)@, final(self)@, r, load(old(self)@, rom@)),
            final(self).sp == old(self).sp,
    {
        if rom.len() > MAX_ROM_SIZE {
            return Err(CpuError::RomTooLarge(rom.len()));
        }
        let ghost pre = self@;
        let mut k: usize = 0;
        while k < rom.len()
            invariant
                k <= rom.len() <= MAX_ROM_SIZE,
                self@ == (MachineState { memory: self.memory@, ..pre }),
                forall|a: int|
                    0 <= a < MEMORY_SIZE ==> self.memory@[a] == if STARTING_MEMORY_ADDRESS <= a
                        < STARTING_MEMORY_ADDRESS + k {
                        rom@[a - STARTING_MEMORY_ADDRESS]
                    } else {
                        pre.memory[a]
                    },
            decreases rom.len() - k,
        {
            self.memory[STARTING_MEMORY_ADDRESS + k] = rom[k];
            k += 1;
        }
        assert(self.memory@ =~= load(pre, rom@)->Ok_0.memory);
        Ok(())
    }

    /// Executes one cycle: fetches the opcode at the program counter, then
    /// decodes and executes it.
    pub fn tick(&mut self) -> (r: Result<(), CpuError>)
        requires
            old(self).wf(),
        ensures
            final(self).wf(),
            match fetch_word(old(self)@) {
                Err(e) => r == Err::<(), CpuError>(e) && final(self)@ == old(self)@,
                Ok(opcode) => exists|random: u8|
                    outcome(old(self)@, final(self)@, r, execute(old(self)@, opcode, random)),
            },
    {
        let opcode: u16 = self.fetch()?;
        self.decode_and_execute(opcode)
    }

    /// Fetches the big-endian opcode at the program counter.
    pub fn fetch(&self) -> (r: Result<u16, CpuError>)
        ensures
            r == fetch_word(self@),
    {
        if self.pc_idx() + 1 >= MEMORY_SIZE {
            return Err(CpuError::OutOfBounds(self.pc));
        }
        let opcode_high = self.memory[self.pc_idx()];
        let opcode_low = self.memory[self.pc_idx() + 1];
        let r = (opcode_high as u16) << 8 | (opcode_low as u16);
        assert(r == opcode_high as u16 * 256 + opcode_low as u16) by (bit_vector)
            requires
                r == (opcode_high as u16) << 8 | (opcode_low as u16),
        ;
        Ok(r)
    }

    /// Decodes `opcode` and executes it. The random instruction (family C)
    /// draws its byte from the thread-local generator.
    pub fn decode_and_execute(&mut self, opcode: u16) -> (r: Result<(), CpuError>)
        requires
            old(self).wf(),
        ensures
            final(self).wf(),
            exists|random: u8| outcome(old(self)@, final(self)@, r, execute(old(self)@, opcode, random)),
            op_family(opcode) != 0xC ==> outcome(old(self)@, final(self)@, r, execute(old(self)@, opcode, 0)),
    {
        let random = if opcode >> 12 == 0xC {
            random_byte()
        } else {
            0
        };
        assert(opcode >> 12 == opcode / 4096) by (bit_vector);
        self.execute_with(opcode, random)
    }

    /// Decodes `opcode` and executes it, with `random` as the byte the
    /// random instruction (family C) combines with its operand.
    pub fn execute_with(&mut self, opcode: u16, random: u8) -> (r: Result<(), CpuError>)
        requires
            old(self).wf(),
        ensures
            final(self).wf(),
            outcome(old(self)@, final(self)@, r, execute(old(self)@, opcode, random)),
    {
        let family = opcode >> 12;
        assert(family == opcode / 4096) by (bit_vector)
            requires
                family == opcode >> 12,
        ;
        match family {
            0x0 => self.dispatch_0xxx(opcode),
            0x1 => self.op_1nnn(opcode),
            0x2 => self.op_2nnn(opcode),
            0x3 => self.op_3xnn(opcode),
            0x4 => self.op_4xnn(opcode),
            0x5 => self.op_5xy0(opcode),
            0x6 => self.op_6xnn(opcode),
            0x7 => self.op_7xnn(opcode),
            0x8 => self.dispatch_8xxx(opcode),
            0x9 => self.op_9xy0(opcode),
            0xA => self.op_annn(opcode),
            0xB => self.op_bnnn(opcode),
            0xC => self.op_cxnn(opcode, random),
            0xD => self.op_dxyn(opcode),
            0xE => self.dispatch_exxx(opcode),
            _ => self.dispatch_fxxx(opcode),
        }
    }

    /// Decrements both timers, stopping at 0. Returns whether the tone is
    /// active, that is whether the sound timer is still nonzero.
    pub fn update_timers(&mut self) -> (tone: bool)
        ensures
            final(self)@ == crate::machine::tick_timers(old(self)@),
            tone == (final(self).sound_timer > 0),
    {
        self.delay_timer = self.delay_timer.saturating_sub(1);
        self.sound_timer = self.sound_timer.saturating_sub(1);
        self.sound_timer > 0
    }

    /// Moves the program counter forward by `k`, wrapping at 16 bits.
    pub(crate) fn advance_pc(&mut self, k: u16)
        ensures
            final(self)@ == advance(old(self)@, k as int),
    {
        self.pc = self.pc.wrapping_add(k);
    }
}

/// Relies on rand::thread_rng and Rng::gen_range over the non-empty range
/// 0..=255: a byte drawn from the thread-local generator, which panics only
/// when the operating system cannot seed it. Nothing is promised of the
/// value beyond its type.
#[verifier::external_body]
fn random_byte() -> (r: u8) {
    rand::Rng::gen_range(&mut rand::thread_rng(), 0..=255u8)
}

} // verus!
