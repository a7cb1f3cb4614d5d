//! Configuration builder: accumulates a unit's tunable parameters and, on
//! `build`, drives the full allocate → disable → configure → start sequence
//! against a controller and one of its units.
//!
//! The builder is an explicit configuration value with named fields and
//! documented defaults; `build` is the one pure-to-hardware transform, and
//! its contract pins down every register field the sequence leaves behind.

use vstd::prelude::*;

use crate::controller::{unit_bit, StateMachine, PIO};
use crate::divisor::ClockDivisor;
use crate::memory::{bit_set, spec_find_offset};
use crate::program::Program;
use crate::registers::{ExecCtrl, PinCtrl, ShiftCtrl, UnitRegisters};

verus! {

/// Buffer sharing configuration: the three modes are mutually exclusive by
/// construction.
#[derive(Clone, Copy, PartialEq, Eq, Structural, Debug)]
pub enum Buffers {
    /// No sharing: each direction keeps its own FIFO storage.
    RxTx,
    /// The receive FIFO's storage is given to the transmit FIFO to double
    /// its depth.
    OnlyTx,
    /// The transmit FIFO's storage is given to the receive FIFO to double
    /// its depth.
    OnlyRx,
}

/// Errors from `PIOBuilder::build`.
#[derive(Clone, Copy, PartialEq, Eq, Structural, Debug)]
pub enum BuildError {
    /// There was not enough room in the shared instruction memory for the
    /// builder's program.
    NoSpace,
}

/// The builder's value in specifications: its instruction words as a
/// sequence, and every tunable field.
pub struct BuilderView {
    pub instructions: Seq<u16>,
    pub instruction_offset: Option<u8>,
    pub wrap_top: u8,
    pub wrap_bottom: u8,
    pub side_en: bool,
    pub side_pindir: bool,
    pub jmp_pin: u8,
    pub out_sticky: bool,
    pub inline_out_en: bool,
    pub out_en_sel: u8,
    pub status_sel: bool,
    pub in_base: u8,
    pub out_base: u8,
    pub out_count: u8,
    pub set_base: u8,
    pub set_count: u8,
    pub sideset_base: u8,
    pub sideset_count: u8,
    pub fjoin_rx: bool,
    pub fjoin_tx: bool,
    pub autopull: bool,
    pub autopush: bool,
    pub pull_thresh: u8,
    pub push_thresh: u8,
    pub in_shiftdir: bool,
    pub out_shiftdir: bool,
    pub clock_divisor: ClockDivisor,
}

/// Builder for deploying a fully configured program on one execution unit.
#[derive(Clone, Debug)]
pub struct PIOBuilder {
    /// The program's instruction words.
    pub instructions: Vec<u16>,
    /// A fixed placement origin, if the program demands one.
    pub instruction_offset: Option<u8>,
    /// Wrap bound the unit jumps back to, as an offset within the program.
    pub wrap_top: u8,
    /// Wrap bound the unit jumps from, as an offset within the program.
    pub wrap_bottom: u8,
    /// Side-set data is optional per instruction.
    pub side_en: bool,
    /// Side-set drives pin directions.
    pub side_pindir: bool,
    /// Pin selector for the conditional-jump-on-pin instruction.
    pub jmp_pin: u8,
    /// Continuously assert the most recent pin write.
    pub out_sticky: bool,
    /// Use one output bit as an auxiliary write enable.
    pub inline_out_en: bool,
    /// Which output bit is the auxiliary write enable.
    pub out_en_sel: u8,
    /// Status-word source: transmit level (false) or receive level.
    pub status_sel: bool,
    pub in_base: u8,
    pub out_base: u8,
    pub out_count: u8,
    pub set_base: u8,
    pub set_count: u8,
    pub sideset_base: u8,
    pub sideset_count: u8,
    /// The transmit FIFO's storage is given to the receive FIFO.
    pub fjoin_rx: bool,
    /// The receive FIFO's storage is given to the transmit FIFO.
    pub fjoin_tx: bool,
    pub autopull: bool,
    pub autopush: bool,
    /// Bit threshold for autopull, 1 ..= 32.
    pub pull_thresh: u8,
    /// Bit threshold for autopush, 1 ..= 32.
    pub push_thresh: u8,
    /// Input shift direction; true shifts toward the most significant bit.
    pub in_shiftdir: bool,
    /// Output shift direction; true shifts toward the most significant bit.
    pub out_shiftdir: bool,
    pub clock_divisor: ClockDivisor,
}

impl View for PIOBuilder {
    type V = BuilderView;

    open spec fn view(&self) -> BuilderView {
        BuilderView {
            instructions: self.instructions@,
            instruction_offset: self.instruction_offset,
            wrap_top: self.wrap_top,
            wrap_bottom: self.wrap_bottom,
            side_en: self.side_en,
            side_pindir: self.side_pindir,
            jmp_pin: self.jmp_pin,
            out_sticky: self.out_sticky,
            inline_out_en: self.inline_out_en,
            out_en_sel: self.out_en_sel,
            status_sel: self.status_sel,
            in_base: self.in_base,
            out_base: self.out_base,
            out_count: self.out_count,
            set_base: self.set_base,
            set_count: self.set_count,
            sideset_base: self.sideset_base,
            sideset_count: self.sideset_count,
            fjoin_rx: self.fjoin_rx,
            fjoin_tx: self.fjoin_tx,
            autopull: self.autopull,
            autopush: self.autopush,
            pull_thresh: self.pull_thresh,
            push_thresh: self.push_thresh,
            in_shiftdir: self.in_shiftdir,
            out_shiftdir: self.out_shiftdir,
            clock_divisor: self.clock_divisor,
        }
    }
}

impl Default for PIOBuilder {
    /// The documented defaults: wrap over the whole memory, no side-set,
    /// all pin groups empty except 32 output pins, both shift directions
    /// toward the most significant bit, automatic refill off with
    /// full-word thresholds, no FIFO join, full-speed clock.
    fn default() -> (r: PIOBuilder)
        ensures
            r@.instructions.len() == 0,
            r@.instruction_offset is None,
            r@.wrap_top == 0,
            r@.wrap_bottom == 31,
            r@.side_en == false,
            r@.side_pindir == false,
            r@.jmp_pin == 0,
            r@.out_sticky == false,
            r@.inline_out_en == false,
            r@.out_en_sel == 0,
            r@.status_sel == false,
            r@.in_base == 0,
            r@.out_base == 0,
            r@.out_count == 32,
            r@.set_base == 0,
            r@.set_count == 0,
            r@.sideset_base == 0,
            r@.sideset_count == 0,
            r@.fjoin_rx == false,
            r@.fjoin_tx == false,
            r@.autopull == false,
            r@.autopush == false,
            r@.pull_thresh == 32,
            r@.push_thresh == 32,
            r@.in_shiftdir == true,
            r@.out_shiftdir == true,
            r@.clock_divisor.spec_int_part() == 1,
            r@.clock_divisor.spec_frac_part() == 0,
            r@.clock_divisor.wf(),
    {
        PIOBuilder {
            instructions: Vec::new(),
            instruction_offset: None,
            wrap_top: 0,
            wrap_bottom: 31,
            side_en: false,
            side_pindir: false,
            jmp_pin: 0,
            out_sticky: false,
            inline_out_en: false,
            out_en_sel: 0,
            status_sel: false,
            in_base: 0,
            out_base: 0,
            out_count: 32,
            set_base: 0,
            set_count: 0,
            sideset_base: 0,
            sideset_count: 0,
            fjoin_rx: false,
            fjoin_tx: false,
            autopull: false,
            autopush: false,
            pull_thresh: 32,
            push_thresh: 32,
            in_shiftdir: true,
            out_shiftdir: true,
            clock_divisor: ClockDivisor::one(),
        }
    }
}

/// Copy a program's words into an owned vector.
fn copy_words(src: &[u16]) -> (r: Vec<u16>)
    ensures
        r@ == src@,
{
    let mut r: Vec<u16> = Vec::new();
    let mut k: usize = 0;
    while k < src.len()
        invariant
            k <= src@.len(),
            r@ == src@.subrange(0, k as int),
        decreases src@.len() - k,
    {
        r.push(src[k]);
        proof {
            assert(r@ == src@.subrange(0, k + 1 as int));
        }
        k = k + 1;
    }
    proof {
        assert(src@.subrange(0, src@.len() as int) == src@);
    }
    r
}

impl PIOBuilder {
    /// Copy the program's instructions, wrap bounds and side-set shape into
    /// the builder. Everything else keeps its current value; further
    /// configuration may still be wanted.
    pub fn with_program(&mut self, p: &Program)
        ensures
            final(self)@ == (BuilderView {
                instructions: p.code@,
                wrap_top: p.wrap_top,
                wrap_bottom: p.wrap_bottom,
                side_en: p.side_set.optional,
                side_pindir: p.side_set.pindirs,
                sideset_count: p.side_set.bits,
                ..old(self)@
            }),
    {
        self.instructions = copy_words(p.code.as_slice());
        self.wrap_top = p.wrap_top;
        self.wrap_bottom = p.wrap_bottom;
        self.side_en = p.side_set.optional;
        self.side_pindir = p.side_set.pindirs;
        self.sideset_count = p.side_set.bits;
    }

    /// Set the program's instruction words.
    pub fn instructions(&mut self, instructions: &[u16])
        ensures
            final(self)@ == (BuilderView { instructions: instructions@, ..old(self)@ }),
    {
        self.instructions = copy_words(instructions);
    }

    /// Set the wrap bounds, as offsets within the program: the unit jumps
    /// from `bottom` back to `top` in zero cycles.
    pub fn wrap(&mut self, top: u8, bottom: u8)
        ensures
            final(self)@ == (BuilderView { wrap_top: top, wrap_bottom: bottom, ..old(self)@ }),
    {
        self.wrap_top = top;
        self.wrap_bottom = bottom;
    }

    /// Set the FIFO-join mode; the three modes are mutually exclusive.
    pub fn buffers(&mut self, buffers: Buffers)
        ensures
            final(self)@ == (BuilderView {
                fjoin_rx: buffers is OnlyRx,
                fjoin_tx: buffers is OnlyTx,
                ..old(self)@
            }),
            !(final(self)@.fjoin_rx && final(self)@.fjoin_tx),
    {
        match buffers {
            Buffers::RxTx => {
                self.fjoin_tx = false;
                self.fjoin_rx = false;
            }
            Buffers::OnlyTx => {
                self.fjoin_rx = false;
                self.fjoin_tx = true;
            }
            Buffers::OnlyRx => {
                self.fjoin_rx = true;
                self.fjoin_tx = false;
            }
        }
    }

    /// Set the clock divisor: 1 for full speed, `n` for one cycle every
    /// `n`. For a small integer part a nonzero fraction may introduce
    /// unacceptable jitter.
    pub fn clock_divisor(&mut self, divisor: ClockDivisor)
        ensures
            final(self)@ == (BuilderView { clock_divisor: divisor, ..old(self)@ }),
    {
        self.clock_divisor = divisor;
    }

    /// Deploy the configuration to one unit: reserve instruction memory
    /// (fixed origin if one was requested, else lowest-fit), stop the
    /// unit, write its execution-, pin- and shift-control registers and
    /// clock divisor, restart its state and clock phase, force a jump to
    /// the program's offset, and start it.
    ///
    /// On failure — the program does not fit — nothing is touched and
    /// `NoSpace` comes back. Once the reservation succeeds, the rest of
    /// the sequence is infallible register writes.
    pub fn build(self, pio: &mut PIO, sm: &StateMachine) -> (r: Result<(), BuildError>)
        requires
            old(pio).wf(),
            sm.spec_id() < 4,
            self.wrap_top < 32,
            self.wrap_bottom < 32,
            self.clock_divisor.wf(),
        ensures
            final(pio).wf(),
            (r is Ok) == (spec_find_offset(
                old(pio).spec_bitmap(),
                self@.instructions.len(),
                self@.instruction_offset,
            ) is Some),
            r is Err ==> *final(pio) == *old(pio) && r == Err::<(), BuildError>(
                BuildError::NoSpace,
            ),
            (match spec_find_offset(
                old(pio).spec_bitmap(),
                self@.instructions.len(),
                self@.instruction_offset,
            ) {
                Some(o) => {
                    // The reservation: the program's range is occupied and
                    // holds its words; nothing else of the memory moved.
                    &&& o + self@.instructions.len() <= 32
                    &&& forall|i: u32|
                        i < 32 ==> ((#[trigger] bit_set(final(pio).spec_bitmap(), i)) <==> (
                        bit_set(old(pio).spec_bitmap(), i) || o <= i < o
                            + self@.instructions.len()))
                    &&& forall|t: int|
                        0 <= t < self@.instructions.len()
                            ==> final(pio).spec_regs().instr_mem@[o + t]
                            == self@.instructions[t]
                    &&& forall|i: int|
                        0 <= i < 32 && !(o <= i < o + self@.instructions.len())
                            ==> final(pio).spec_regs().instr_mem@[i]
                            == old(pio).spec_regs().instr_mem@[i]
                    // The unit's registers: every configured field, the
                    // wrap bounds translated to absolute addresses, the
                    // program counter at the program's offset.
                    &&& final(pio).spec_regs().units@[sm.spec_id() as int] == (UnitRegisters {
                        clkdiv_int: self@.clock_divisor.spec_int_part(),
                        clkdiv_frac: self@.clock_divisor.spec_frac_part(),
                        execctrl: (ExecCtrl {
                            wrap_top: (o + self@.wrap_top) as u8,
                            wrap_bottom: (o + self@.wrap_bottom) as u8,
                            side_en: self@.side_en,
                            side_pindir: self@.side_pindir,
                            jmp_pin: self@.jmp_pin,
                            out_sticky: self@.out_sticky,
                            inline_out_en: self@.inline_out_en,
                            out_en_sel: self@.out_en_sel,
                            status_sel: self@.status_sel,
                            exec_stalled: old(pio).spec_regs().units@[sm.spec_id() as int].execctrl.exec_stalled,
                        }),
                        pinctrl: (PinCtrl {
                            in_base: self@.in_base,
                            out_base: self@.out_base,
                            out_count: self@.out_count,
                            set_base: self@.set_base,
                            set_count: self@.set_count,
                            sideset_base: self@.sideset_base,
                            sideset_count: self@.sideset_count,
                        }),
                        shiftctrl: (ShiftCtrl {
                            fjoin_rx: self@.fjoin_rx,
                            fjoin_tx: self@.fjoin_tx,
                            autopull: self@.autopull,
                            autopush: self@.autopush,
                            pull_thresh: self@.pull_thresh,
                            push_thresh: self@.push_thresh,
                            out_shiftdir: self@.out_shiftdir,
                            in_shiftdir: self@.in_shiftdir,
                        }),
                        addr: if o < 32 {
                            o as u32
                        } else {
                            old(pio).spec_regs().units@[sm.spec_id() as int].addr
                        },
                        instr: o as u16,
                    })
                    // Sibling units are untouched.
                    &&& forall|j: int|
                        0 <= j < 4 && j != sm.spec_id()
                            ==> final(pio).spec_regs().units@[j]
                            == old(pio).spec_regs().units@[j]
                    // The unit ends enabled; sibling enable bits are as
                    // they were.
                    &&& unit_bit(final(pio).spec_regs().ctrl.sm_enable, sm.spec_id())
                        == true
                    &&& forall|j: u8|
                        j < 4 && j != sm.spec_id() ==> (#[trigger] unit_bit(
                            final(pio).spec_regs().ctrl.sm_enable,
                            j,
                        )) == unit_bit(old(pio).spec_regs().ctrl.sm_enable, j)
                    // Restart and clock-phase-restart were pulsed for this
                    // unit alone.
                    &&& final(pio).spec_regs().ctrl.sm_restart == (old(
                        pio,
                    ).spec_regs().ctrl.sm_restart | (1u8 << sm.spec_id()))
                    &&& final(pio).spec_regs().ctrl.clkdiv_restart == (old(
                        pio,
                    ).spec_regs().ctrl.clkdiv_restart | (1u8 << sm.spec_id()))
                    // FIFO register windows are untouched.
                    &&& final(pio).spec_regs().rxf == old(pio).spec_regs().rxf
                    &&& final(pio).spec_regs().txf == old(pio).spec_regs().txf
                },
                None => true,
            }),
    {
        let offset = match pio.add_program(self.instructions.as_slice(), self.instruction_offset) {
            Some(o) => o,
            None => {
                return Err(BuildError::NoSpace);
            }
        };
        // Configuration registers are undefined while the unit runs: stop
        // it first.
        sm.set_enabled(pio, false);
        sm.set_exec_ctrl(
            pio,
            ExecCtrl {
                wrap_top: offset as u8 + self.wrap_top,
                wrap_bottom: offset as u8 + self.wrap_bottom,
                side_en: self.side_en,
                side_pindir: self.side_pindir,
                jmp_pin: self.jmp_pin,
                out_sticky: self.out_sticky,
                inline_out_en: self.inline_out_en,
                out_en_sel: self.out_en_sel,
                status_sel: self.status_sel,
                exec_stalled: false,
            },
        );
        sm.set_pin_ctrl(
            pio,
            PinCtrl {
                in_base: self.in_base,
                out_base: self.out_base,
                out_count: self.out_count,
                set_base: self.set_base,
                set_count: self.set_count,
                sideset_base: self.sideset_base,
                sideset_count: self.sideset_count,
            },
        );
        sm.set_shift_ctrl(
            pio,
            ShiftCtrl {
                fjoin_rx: self.fjoin_rx,
                fjoin_tx: self.fjoin_tx,
                autopull: self.autopull,
                autopush: self.autopush,
                pull_thresh: self.pull_thresh,
                push_thresh: self.push_thresh,
                out_shiftdir: self.out_shiftdir,
                in_shiftdir: self.in_shiftdir,
            },
        );
        sm.set_clock_divisor(pio, self.clock_divisor);
        // Restart unit state and clock phase after the configuration, so
        // the unit begins cleanly at the configured rate.
        sm.restart(pio);
        sm.reset_clock(pio);
        // An unconditional jump is all zeros above the five address bits:
        // forcing one fixes the program counter to the program's offset.
        let instr: u16 = offset as u16;
        sm.set_instruction(pio, instr);
        sm.set_enabled(pio, true);
        Ok(())
    }
}

} // verus!
