//! The controller: one coprocessor block's shared instruction memory and
//! its four execution-unit handles.
//!
//! The controller owns the register model and the occupancy bitmap. All
//! mutation goes through an exclusive borrow of the controller, which is
//! the synchronization discipline this layer demands: the shared control
//! register and the bitmap are read-modify-write state, racy if two
//! execution contexts touched them independently.

use vstd::prelude::*;

use crate::memory::{
    bit_set, find_first_fit, range_is_free, spec_find_offset, INSTRUCTION_COUNT,
};
use crate::divisor::ClockDivisor;
use crate::registers::{ExecCtrl, PinCtrl, RegisterBlock, ShiftCtrl, UnitRegisters};

verus! {

/// A register-block capability: exclusive ownership of one coprocessor
/// block's register file, in model form. An unverified adapter implements
/// this for the real peripheral by converting between the memory-mapped
/// registers and the model.
pub trait Instance: Sized {
    /// Surrender the capability as the plain register model.
    fn into_register_block(self) -> RegisterBlock;

    /// Reclaim the capability from the model.
    fn from_register_block(regs: RegisterBlock) -> Self;
}

impl Instance for RegisterBlock {
    fn into_register_block(self) -> RegisterBlock {
        self
    }

    fn from_register_block(regs: RegisterBlock) -> RegisterBlock {
        regs
    }
}

/// One programmable I/O block: the register model plus the occupancy
/// bitmap of the 32-word shared instruction memory (one bit per slot).
///
/// Bits of the bitmap are set only by a successful reservation and never
/// cleared: there is no free operation, the space comes back only by
/// recreating the controller.
#[derive(Debug)]
pub struct PIO {
    pub(crate) used_instruction_space: u32,
    pub(crate) regs: RegisterBlock,
}

impl PIO {
    /// The occupancy bitmap: bit `i` set means instruction slot `i` is
    /// reserved.
    pub closed spec fn spec_bitmap(&self) -> u32 {
        self.used_instruction_space
    }

    /// The current register model.
    pub closed spec fn spec_regs(&self) -> RegisterBlock {
        self.regs
    }

    /// A controller is well-formed when its register model has the fixed
    /// block shape.
    pub open spec fn wf(&self) -> bool {
        self.spec_regs().wf()
    }

    /// Take ownership of a register block; no instruction slot is reserved
    /// yet.
    pub fn new(pio: RegisterBlock) -> (r: PIO)
        requires
            pio.wf(),
        ensures
            r.wf(),
            r.spec_bitmap() == 0u32,
            r.spec_regs() == pio,
    {
        PIO { used_instruction_space: 0, regs: pio }
    }

    /// Give the register block back, ending this controller's lifetime.
    pub fn free(self) -> (r: RegisterBlock)
        ensures
            r == self.spec_regs(),
    {
        self.regs
    }

    /// Read-only access to the register model.
    pub fn registers(&self) -> (r: &RegisterBlock)
        ensures
            r == self.spec_regs(),
    {
        &self.regs
    }

    /// The occupancy bitmap of the shared instruction memory: bit `i` set
    /// means slot `i` is reserved.
    pub fn used_mask(&self) -> (r: u32)
        ensures
            r == self.spec_bitmap(),
    {
        self.used_instruction_space
    }

    /// Handles on the block's four execution units.
    pub fn state_machines(&self) -> (r: [StateMachine; 4])
        ensures
            r@.len() == 4,
            forall|i: int| 0 <= i < 4 ==> (#[trigger] r@[i].spec_id()) == i,
    {
        let r = [
            StateMachine::for_unit(0),
            StateMachine::for_unit(1),
            StateMachine::for_unit(2),
            StateMachine::for_unit(3),
        ];
        assert(r@[0].spec_id() == 0);
        assert(r@[1].spec_id() == 1);
        assert(r@[2].spec_id() == 2);
        assert(r@[3].spec_id() == 3);
        r
    }

    /// Where a program of these instructions would be placed: at the fixed
    /// `origin` if one is given and its window is free, else at the lowest
    /// offset with a free window. `None` when the request does not fit.
    ///
    /// Looks only; no state changes.
    pub fn find_offset_for_instructions(&self, instructions: &[u16], origin: Option<u8>) -> (r:
        Option<usize>)
        ensures
            (match r {
                Some(o) => spec_find_offset(self.spec_bitmap(), instructions@.len(), origin)
                    == Some(o as u32) && o + instructions@.len() <= 32,
                None => spec_find_offset(self.spec_bitmap(), instructions@.len(), origin)
                    is None,
            }),
    {
        let n = instructions.len();
        if n > INSTRUCTION_COUNT {
            return None;
        }
        match origin {
            Some(x) => {
                if (x as usize) + n <= INSTRUCTION_COUNT && range_is_free(
                    self.used_instruction_space,
                    x as usize,
                    n,
                ) {
                    Some(x as usize)
                } else {
                    None
                }
            }
            None => {
                let r = find_first_fit(self.used_instruction_space, n);
                proof {
                    crate::memory::lemma_first_fit_from_props(
                        self.used_instruction_space,
                        n as u32,
                        0,
                    );
                }
                r
            }
        }
    }

    /// Reserve space for the instructions and write them into the shared
    /// instruction memory: the placed range's bits become occupied and its
    /// slots hold the program, word for word. On failure — the request did
    /// not fit — nothing changes.
    pub fn add_program(&mut self, instructions: &[u16], origin: Option<u8>) -> (r: Option<
        usize,
    >)
        requires
            old(self).wf(),
        ensures
            final(self).wf(),
            (match r {
                Some(o) => {
                    &&& spec_find_offset(old(self).spec_bitmap(), instructions@.len(), origin)
                        == Some(o as u32)
                    &&& o + instructions@.len() <= 32
                    &&& forall|i: u32|
                        i < 32 ==> ((#[trigger] bit_set(final(self).spec_bitmap(), i)) <==> (
                        bit_set(old(self).spec_bitmap(), i) || o <= i < o
                            + instructions@.len()))
                    &&& forall|t: int|
                        0 <= t < instructions@.len()
                            ==> final(self).spec_regs().instr_mem@[o + t] == instructions@[t]
                    &&& forall|i: int|
                        0 <= i < 32 && !(o <= i < o + instructions@.len())
                            ==> final(self).spec_regs().instr_mem@[i]
                            == old(self).spec_regs().instr_mem@[i]
                    &&& final(self).spec_regs().ctrl == old(self).spec_regs().ctrl
                    &&& final(self).spec_regs().units == old(self).spec_regs().units
                    &&& final(self).spec_regs().rxf == old(self).spec_regs().rxf
                    &&& final(self).spec_regs().txf == old(self).spec_regs().txf
                },
                None => {
                    &&& spec_find_offset(old(self).spec_bitmap(), instructions@.len(), origin)
                        is None
                    &&& *final(self) == *old(self)
                },
            }),
    {
        match self.find_offset_for_instructions(instructions, origin) {
            Some(offset) => {
                let n = instructions.len();
                let mut k: usize = 0;
                while k < n
                    invariant
                        self.wf(),
                        offset + n <= 32,
                        k <= n,
                        n == instructions@.len(),
                        self.used_instruction_space == old(self).used_instruction_space,
                        forall|t: int|
                            0 <= t < k ==> self.regs.instr_mem@[offset + t] == instructions@[t],
                        forall|i: int|
                            0 <= i < 32 && !(offset <= i < offset + k)
                                ==> self.regs.instr_mem@[i] == old(self).regs.instr_mem@[i],
                        self.regs.ctrl == old(self).regs.ctrl,
                        self.regs.units == old(self).regs.units,
                        self.regs.rxf == old(self).regs.rxf,
                        self.regs.txf == old(self).regs.txf,
                    decreases n - k,
                {
                    self.regs.instr_mem.set(offset + k, instructions[k]);
                    k = k + 1;
                }
                let ghost b0 = self.used_instruction_space;
                let mut bm: u32 = self.used_instruction_space;
                let mut j: usize = 0;
                while j < n
                    invariant
                        offset + n <= 32,
                        j <= n,
                        forall|i: u32|
                            i < 32 ==> ((#[trigger] bit_set(bm, i)) <==> (bit_set(b0, i)
                                || offset <= i < offset + j)),
                    decreases n - j,
                {
                    let ghost bm_old = bm;
                    proof {
                        lemma_or_one_bit(bm, (offset + j) as u32);
                    }
                    bm = bm | (1u32 << ((offset + j) as u32));
                    proof {
                        assert forall|i: u32|
                            i < 32 implies ((#[trigger] bit_set(bm, i)) <==> (bit_set(b0, i)
                            || offset <= i < offset + j + 1)) by {
                            assert(bit_set(bm_old, i) <==> (bit_set(b0, i) || offset <= i
                                < offset + j));
                            assert((((bm_old | (1u32 << ((offset + j) as u32))) >> i) & 1u32
                                == 1u32) <==> (((bm_old >> i) & 1u32 == 1u32) || i == (offset
                                + j) as u32));
                            assert(bm == (bm_old | (1u32 << ((offset + j) as u32))));
                        }
                    }
                    j = j + 1;
                }
                self.used_instruction_space = bm;
                Some(offset)
            }
            None => None,
        }
    }
}

/// Bit `j` of a shared per-unit control field.
pub open spec fn unit_bit(bits: u8, j: u8) -> bool {
    (bits >> j) & 1u8 == 1u8
}

/// A handle on one of the four execution units of a block.
///
/// Every operation borrows the controller exclusively and says exactly
/// which register fields it touches. The shared control register holds one
/// bit per unit in each field, so the contracts pin down that a unit's
/// operation leaves its siblings' bits alone.
#[derive(Clone, Copy, PartialEq, Eq, Structural, Debug)]
pub struct StateMachine {
    id: u8,
}

impl StateMachine {
    /// Which of the four units this handle drives.
    pub closed spec fn spec_id(&self) -> u8 {
        self.id
    }

    /// Which of the four units this handle drives.
    pub fn id(&self) -> (r: u8)
        ensures
            r == self.spec_id(),
    {
        self.id
    }

    /// A handle on unit `id`. Handles come from the controller's
    /// `state_machines`; this stays inside the crate.
    fn for_unit(id: u8) -> (r: StateMachine)
        requires
            id < 4,
        ensures
            r.spec_id() == id,
    {
        StateMachine { id }
    }

    /// Start or stop this unit: flip exactly this unit's bit in the shared
    /// enable field, leaving the three sibling bits as they were.
    pub fn set_enabled(&self, pio: &mut PIO, enabled: bool)
        requires
            self.spec_id() < 4,
            old(pio).wf(),
        ensures
            final(pio).wf(),
            final(pio).spec_bitmap() == old(pio).spec_bitmap(),
            RegisterBlock::ctrl_only_change(old(pio).spec_regs(), final(pio).spec_regs()),
            final(pio).spec_regs().ctrl.sm_enable == ((old(pio).spec_regs().ctrl.sm_enable
                & !(1u8 << self.spec_id())) | ((if enabled {
                1u8
            } else {
                0u8
            }) << self.spec_id())),
            unit_bit(final(pio).spec_regs().ctrl.sm_enable, self.spec_id()) == enabled,
            forall|j: u8|
                j < 4 && j != self.spec_id() ==> (#[trigger] unit_bit(
                    final(pio).spec_regs().ctrl.sm_enable,
                    j,
                )) == unit_bit(old(pio).spec_regs().ctrl.sm_enable, j),
            final(pio).spec_regs().ctrl.sm_restart == old(pio).spec_regs().ctrl.sm_restart,
            final(pio).spec_regs().ctrl.clkdiv_restart
                == old(pio).spec_regs().ctrl.clkdiv_restart,
    {
        let bits = pio.regs.ctrl.sm_enable;
        let e: u8 = if enabled {
            1
        } else {
            0
        };
        let new_bits = (bits & !(1u8 << self.id)) | (e << self.id);
        proof {
            lemma_write_unit_bit(bits, self.id, e);
        }
        pio.regs.ctrl.sm_enable = new_bits;
    }

    /// Restart this unit's execution state: set its bit in the one-shot
    /// restart field (hardware self-clears it). Sibling bits that were
    /// already set stay set.
    pub fn restart(&self, pio: &mut PIO)
        requires
            self.spec_id() < 4,
            old(pio).wf(),
        ensures
            final(pio).wf(),
            final(pio).spec_bitmap() == old(pio).spec_bitmap(),
            RegisterBlock::ctrl_only_change(old(pio).spec_regs(), final(pio).spec_regs()),
            final(pio).spec_regs().ctrl.sm_restart == (old(pio).spec_regs().ctrl.sm_restart
                | (1u8 << self.spec_id())),
            final(pio).spec_regs().ctrl.sm_enable == old(pio).spec_regs().ctrl.sm_enable,
            final(pio).spec_regs().ctrl.clkdiv_restart
                == old(pio).spec_regs().ctrl.clkdiv_restart,
    {
        let bits = pio.regs.ctrl.sm_restart | (1u8 << self.id);
        pio.regs.ctrl.sm_restart = bits;
    }

    /// Realign this unit's fractional clock divider: set its bit in the
    /// one-shot clock-phase-restart field (hardware self-clears it).
    pub fn reset_clock(&self, pio: &mut PIO)
        requires
            self.spec_id() < 4,
            old(pio).wf(),
        ensures
            final(pio).wf(),
            final(pio).spec_bitmap() == old(pio).spec_bitmap(),
            RegisterBlock::ctrl_only_change(old(pio).spec_regs(), final(pio).spec_regs()),
            final(pio).spec_regs().ctrl.clkdiv_restart == (old(
                pio,
            ).spec_regs().ctrl.clkdiv_restart | (1u8 << self.spec_id())),
            final(pio).spec_regs().ctrl.sm_enable == old(pio).spec_regs().ctrl.sm_enable,
            final(pio).spec_regs().ctrl.sm_restart == old(pio).spec_regs().ctrl.sm_restart,
    {
        let bits = pio.regs.ctrl.clkdiv_restart | (1u8 << self.id);
        pio.regs.ctrl.clkdiv_restart = bits;
    }

    /// Program this unit's clock divisor: its integer part into the 16-bit
    /// field, its fractional part into the 8-bit field.
    pub fn set_clock_divisor(&self, pio: &mut PIO, divisor: ClockDivisor)
        requires
            self.spec_id() < 4,
            old(pio).wf(),
            divisor.wf(),
        ensures
            final(pio).wf(),
            final(pio).spec_bitmap() == old(pio).spec_bitmap(),
            RegisterBlock::unit_only_change(
                old(pio).spec_regs(),
                final(pio).spec_regs(),
                self.spec_id(),
            ),
            final(pio).spec_regs().units@[self.spec_id() as int] == (UnitRegisters {
                clkdiv_int: divisor.spec_int_part(),
                clkdiv_frac: divisor.spec_frac_part(),
                ..old(pio).spec_regs().units@[self.spec_id() as int]
            }),
    {
        let idx = self.id as usize;
        let mut u = pio.regs.units[idx];
        u.clkdiv_int = divisor.int_part();
        u.clkdiv_frac = divisor.frac_part();
        pio.regs.units.set(idx, u);
    }

    /// Write this unit's execution-control register. The stall flag in the
    /// same register is read-only and keeps its hardware-driven value.
    pub(crate) fn set_exec_ctrl(&self, pio: &mut PIO, v: ExecCtrl)
        requires
            self.spec_id() < 4,
            old(pio).wf(),
        ensures
            final(pio).wf(),
            final(pio).spec_bitmap() == old(pio).spec_bitmap(),
            RegisterBlock::unit_only_change(
                old(pio).spec_regs(),
                final(pio).spec_regs(),
                self.spec_id(),
            ),
            final(pio).spec_regs().units@[self.spec_id() as int] == (UnitRegisters {
                execctrl: (ExecCtrl {
                    exec_stalled: old(pio).spec_regs().units@[self.spec_id() as int].execctrl.exec_stalled,
                    ..v
                }),
                ..old(pio).spec_regs().units@[self.spec_id() as int]
            }),
    {
        let idx = self.id as usize;
        let mut u = pio.regs.units[idx];
        u.execctrl = ExecCtrl { exec_stalled: u.execctrl.exec_stalled, ..v };
        pio.regs.units.set(idx, u);
    }

    /// Write this unit's pin-control register.
    pub(crate) fn set_pin_ctrl(&self, pio: &mut PIO, v: PinCtrl)
        requires
            self.spec_id() < 4,
            old(pio).wf(),
        ensures
            final(pio).wf(),
            final(pio).spec_bitmap() == old(pio).spec_bitmap(),
            RegisterBlock::unit_only_change(
                old(pio).spec_regs(),
                final(pio).spec_regs(),
                self.spec_id(),
            ),
            final(pio).spec_regs().units@[self.spec_id() as int] == (UnitRegisters {
                pinctrl: v,
                ..old(pio).spec_regs().units@[self.spec_id() as int]
            }),
    {
        let idx = self.id as usize;
        let mut u = pio.regs.units[idx];
        u.pinctrl = v;
        pio.regs.units.set(idx, u);
    }

    /// Write this unit's shift-control register.
    pub(crate) fn set_shift_ctrl(&self, pio: &mut PIO, v: ShiftCtrl)
        requires
            self.spec_id() < 4,
            old(pio).wf(),
        ensures
            final(pio).wf(),
            final(pio).spec_bitmap() == old(pio).spec_bitmap(),
            RegisterBlock::unit_only_change(
                old(pio).spec_regs(),
                final(pio).spec_regs(),
                self.spec_id(),
            ),
            final(pio).spec_regs().units@[self.spec_id() as int] == (UnitRegisters {
                shiftctrl: v,
                ..old(pio).spec_regs().units@[self.spec_id() as int]
            }),
    {
        let idx = self.id as usize;
        let mut u = pio.regs.units[idx];
        u.shiftctrl = v;
        pio.regs.units.set(idx, u);
    }

    /// The address of the instruction this unit is at. The model moves it
    /// only when software forces an unconditional jump; a running unit
    /// advances it further in hardware, which the adapter refreshes.
    pub fn instruction_address(&self, pio: &PIO) -> (r: u32)
        requires
            self.spec_id() < 4,
            pio.wf(),
        ensures
            r == pio.spec_regs().units@[self.spec_id() as int].addr,
    {
        pio.regs.units[self.id as usize].addr
    }

    /// Force an instruction into this unit's execution register; hardware
    /// executes it immediately. The one shape this layer itself forces is
    /// an unconditional jump (every bit above the five address bits zero),
    /// which moves the program counter to the jump target.
    pub fn set_instruction(&self, pio: &mut PIO, instruction: u16)
        requires
            self.spec_id() < 4,
            old(pio).wf(),
        ensures
            final(pio).wf(),
            final(pio).spec_bitmap() == old(pio).spec_bitmap(),
            RegisterBlock::unit_only_change(
                old(pio).spec_regs(),
                final(pio).spec_regs(),
                self.spec_id(),
            ),
            final(pio).spec_regs().units@[self.spec_id() as int] == (UnitRegisters {
                instr: instruction,
                addr: if instruction < 32 {
                    instruction as u32
                } else {
                    old(pio).spec_regs().units@[self.spec_id() as int].addr
                },
                ..old(pio).spec_regs().units@[self.spec_id() as int]
            }),
    {
        let idx = self.id as usize;
        let mut u = pio.regs.units[idx];
        u.instr = instruction;
        if instruction < 32 {
            u.addr = instruction as u32;
        }
        pio.regs.units.set(idx, u);
    }

    /// Read the word in this unit's receive-FIFO register window. Raw and
    /// non-blocking: underflow is a hardware flag, not surfaced here.
    pub fn pull(&self, pio: &PIO) -> (r: u32)
        requires
            self.spec_id() < 4,
            pio.wf(),
        ensures
            r == pio.spec_regs().rxf@[self.spec_id() as int],
    {
        pio.regs.rxf[self.id as usize]
    }

    /// Write a word into this unit's transmit-FIFO register window. Raw
    /// and non-blocking: overflow is a hardware flag, not surfaced here.
    pub fn push(&self, pio: &mut PIO, word: u32)
        requires
            self.spec_id() < 4,
            old(pio).wf(),
        ensures
            final(pio).wf(),
            final(pio).spec_bitmap() == old(pio).spec_bitmap(),
            final(pio).spec_regs().txf@[self.spec_id() as int] == word,
            final(pio).spec_regs().txf@.len() == 4,
            forall|j: int|
                0 <= j < 4 && j != self.spec_id() ==> final(pio).spec_regs().txf@[j] == old(
                    pio,
                ).spec_regs().txf@[j],
            final(pio).spec_regs().ctrl == old(pio).spec_regs().ctrl,
            final(pio).spec_regs().instr_mem == old(pio).spec_regs().instr_mem,
            final(pio).spec_regs().units == old(pio).spec_regs().units,
            final(pio).spec_regs().rxf == old(pio).spec_regs().rxf,
    {
        pio.regs.txf.set(self.id as usize, word);
    }

    /// Whether this unit's current instruction is stalled.
    pub fn stalled(&self, pio: &PIO) -> (r: bool)
        requires
            self.spec_id() < 4,
            pio.wf(),
        ensures
            r == pio.spec_regs().units@[self.spec_id() as int].execctrl.exec_stalled,
    {
        pio.regs.units[self.id as usize].execctrl.exec_stalled
    }
}

/// Clearing then writing one bit of a 4-bit field leaves the other bits
/// unchanged and makes that bit the written value.
proof fn lemma_write_unit_bit(x: u8, j: u8, b: u8)
    by (bit_vector)
    requires
        j < 4,
        b == 0 || b == 1,
    ensures
        forall|i: u8|
            i < 4 && i != j ==> ((((x & !(1u8 << j)) | (b << j)) >> i) & 1u8) == ((x >> i)
                & 1u8),
        ((((x & !(1u8 << j)) | (b << j)) >> j) & 1u8) == b,
{
}

/// Setting one bit leaves every other bit as it was.
proof fn lemma_or_one_bit(x: u32, j: u32)
    by (bit_vector)
    requires
        j < 32,
    ensures
        forall|i: u32|
            i < 32 ==> ((((x | (1u32 << j)) >> i) & 1u32 == 1u32) <==> (((x >> i) & 1u32
                == 1u32) || i == j)),
{
}

} // verus!
