//! A plain-value model of one coprocessor block's register file.
//!
//! Memory-mapped register access is volatile I/O that no verified function
//! may perform, so the library works on this model instead: every field a
//! driver-visible register value, held as an ordinary integer or boolean.
//! An unverified adapter owns the real peripheral and mirrors the model onto
//! it; fields the hardware drives on its own (the stall flag, the receive
//! FIFO window, the program counter while a unit runs) are refreshed into
//! the model by that adapter before they are read here.

use vstd::prelude::*;

verus! {

/// The control register shared by all four units: one bit per unit in each
/// field. `sm_restart` and `clkdiv_restart` are one-shot in hardware (it
/// self-clears them); the model keeps the last value written.
#[derive(Clone, Copy, PartialEq, Eq, Structural, Debug)]
pub struct CtrlRegister {
    pub sm_enable: u8,
    pub sm_restart: u8,
    pub clkdiv_restart: u8,
}

/// One unit's execution-control register.
#[derive(Clone, Copy, PartialEq, Eq, Structural, Debug)]
pub struct ExecCtrl {
    /// Absolute address the unit wraps back to.
    pub wrap_top: u8,
    /// Absolute address the unit wraps from.
    pub wrap_bottom: u8,
    /// Side-set data is optional per instruction.
    pub side_en: bool,
    /// Side-set drives pin directions instead of pin values.
    pub side_pindir: bool,
    /// Pin selector for the conditional-jump-on-pin instruction.
    pub jmp_pin: u8,
    /// Continuously assert the most recent pin write.
    pub out_sticky: bool,
    /// Use one output bit as an auxiliary write enable.
    pub inline_out_en: bool,
    /// Which output bit is the auxiliary write enable.
    pub out_en_sel: u8,
    /// Source of the status word: transmit level (false) or receive level.
    pub status_sel: bool,
    /// Read-only: the unit's current instruction is stalled.
    pub exec_stalled: bool,
}

/// One unit's pin-control register: four (base pin, pin count) pairs.
#[derive(Clone, Copy, PartialEq, Eq, Structural, Debug)]
pub struct PinCtrl {
    pub in_base: u8,
    pub out_base: u8,
    pub out_count: u8,
    pub set_base: u8,
    pub set_count: u8,
    pub sideset_base: u8,
    pub sideset_count: u8,
}

/// One unit's shift-control register: FIFO joining, automatic refill, and
/// shift directions.
#[derive(Clone, Copy, PartialEq, Eq, Structural, Debug)]
pub struct ShiftCtrl {
    /// The transmit FIFO's storage is given to the receive FIFO.
    pub fjoin_rx: bool,
    /// The receive FIFO's storage is given to the transmit FIFO.
    pub fjoin_tx: bool,
    pub autopull: bool,
    pub autopush: bool,
    /// Bit threshold for autopull; the register field encodes 32 as 0.
    pub pull_thresh: u8,
    /// Bit threshold for autopush; the register field encodes 32 as 0.
    pub push_thresh: u8,
    pub out_shiftdir: bool,
    pub in_shiftdir: bool,
}

/// The per-unit registers of one execution unit.
#[derive(Clone, Copy, PartialEq, Eq, Structural, Debug)]
pub struct UnitRegisters {
    /// Integer part of the clock divisor.
    pub clkdiv_int: u16,
    /// Fractional part of the clock divisor, in units of 1/256.
    pub clkdiv_frac: u8,
    pub execctrl: ExecCtrl,
    pub pinctrl: PinCtrl,
    pub shiftctrl: ShiftCtrl,
    /// The unit's program counter. The model moves it only when software
    /// forces an unconditional jump; a running unit advances it in hardware.
    pub addr: u32,
    /// The last instruction forced into the execution register.
    pub instr: u16,
}

/// The whole register file of one coprocessor block, as plain values.
#[derive(Clone, PartialEq, Eq, Debug)]
pub struct RegisterBlock {
    pub ctrl: CtrlRegister,
    /// The 32-word shared instruction memory.
    pub instr_mem: Vec<u16>,
    /// The four units' register sets.
    pub units: Vec<UnitRegisters>,
    /// Receive-FIFO register window, one word per unit (hardware-filled).
    pub rxf: Vec<u32>,
    /// Transmit-FIFO register window, one word per unit.
    pub txf: Vec<u32>,
}

impl RegisterBlock {
    /// The fixed shape of a block: 32 instruction words and four units.
    pub open spec fn wf(&self) -> bool {
        &&& self.instr_mem.len() == 32
        &&& self.units.len() == 4
        &&& self.rxf.len() == 4
        &&& self.txf.len() == 4
    }

    /// `post` differs from `pre` at most in the shared control register.
    pub open spec fn ctrl_only_change(pre: RegisterBlock, post: RegisterBlock) -> bool {
        &&& post.instr_mem == pre.instr_mem
        &&& post.units == pre.units
        &&& post.rxf == pre.rxf
        &&& post.txf == pre.txf
    }

    /// `post` differs from `pre` at most in unit `id`'s own registers.
    pub open spec fn unit_only_change(pre: RegisterBlock, post: RegisterBlock, id: u8) -> bool {
        &&& post.ctrl == pre.ctrl
        &&& post.instr_mem == pre.instr_mem
        &&& post.rxf == pre.rxf
        &&& post.txf == pre.txf
        &&& post.units@.len() == pre.units@.len()
        &&& forall|j: int| 0 <= j < pre.units@.len() && j != id ==> post.units@[j] == pre.units@[j]
    }

    /// A register block in its reset state: every field zero.
    pub fn new() -> (r: RegisterBlock)
        ensures
            r.wf(),
            r.ctrl == (CtrlRegister { sm_enable: 0, sm_restart: 0, clkdiv_restart: 0 }),
            forall|i: int| 0 <= i < 32 ==> r.instr_mem@[i] == 0u16,
            forall|i: int| 0 <= i < 4 ==> r.units@[i] == UnitRegisters::spec_reset(),
            forall|i: int| 0 <= i < 4 ==> r.rxf@[i] == 0u32 && r.txf@[i] == 0u32,
    {
        let mut instr_mem: Vec<u16> = Vec::new();
        let mut k: usize = 0;
        while k < 32
            invariant
                k <= 32,
                instr_mem.len() == k,
                forall|i: int| 0 <= i < k ==> instr_mem@[i] == 0u16,
            decreases 32 - k,
        {
            instr_mem.push(0u16);
            k = k + 1;
        }
        let mut units: Vec<UnitRegisters> = Vec::new();
        let mut rxf: Vec<u32> = Vec::new();
        let mut txf: Vec<u32> = Vec::new();
        let mut j: usize = 0;
        while j < 4
            invariant
                j <= 4,
                units.len() == j,
                rxf.len() == j,
                txf.len() == j,
                forall|i: int| 0 <= i < j ==> units@[i] == UnitRegisters::spec_reset(),
                forall|i: int| 0 <= i < j ==> rxf@[i] == 0u32 && txf@[i] == 0u32,
            decreases 4 - j,
        {
            units.push(UnitRegisters::reset());
            rxf.push(0u32);
            txf.push(0u32);
            j = j + 1;
        }
        RegisterBlock {
            ctrl: CtrlRegister { sm_enable: 0, sm_restart: 0, clkdiv_restart: 0 },
            instr_mem,
            units,
            rxf,
            txf,
        }
    }
}

impl UnitRegisters {
    /// One unit's registers in their reset state.
    pub open spec fn spec_reset() -> UnitRegisters {
        UnitRegisters {
            clkdiv_int: 0,
            clkdiv_frac: 0,
            execctrl: ExecCtrl {
                wrap_top: 0,
                wrap_bottom: 0,
                side_en: false,
                side_pindir: false,
                jmp_pin: 0,
                out_sticky: false,
                inline_out_en: false,
                out_en_sel: 0,
                status_sel: false,
                exec_stalled: false,
            },
            pinctrl: PinCtrl {
                in_base: 0,
                out_base: 0,
                out_count: 0,
                set_base: 0,
                set_count: 0,
                sideset_base: 0,
                sideset_count: 0,
            },
            shiftctrl: ShiftCtrl {
                fjoin_rx: false,
                fjoin_tx: false,
                autopull: false,
                autopush: false,
                pull_thresh: 0,
                push_thresh: 0,
                out_shiftdir: false,
                in_shiftdir: false,
            },
            addr: 0,
            instr: 0,
        }
    }

    /// Build the reset state.
    pub fn reset() -> (r: UnitRegisters)
        ensures
            r == UnitRegisters::spec_reset(),
    {
        UnitRegisters {
            clkdiv_int: 0,
            clkdiv_frac: 0,
            execctrl: ExecCtrl {
                wrap_top: 0,
                wrap_bottom: 0,
                side_en: false,
                side_pindir: false,
                jmp_pin: 0,
                out_sticky: false,
                inline_out_en: false,
                out_en_sel: 0,
                status_sel: false,
                exec_stalled: false,
            },
            pinctrl: PinCtrl {
                in_base: 0,
                out_base: 0,
                out_count: 0,
                set_base: 0,
                set_count: 0,
                sideset_base: 0,
                sideset_count: 0,
            },
            shiftctrl: ShiftCtrl {
                fjoin_rx: false,
                fjoin_tx: false,
                autopull: false,
                autopush: false,
                pull_thresh: 0,
                push_thresh: 0,
                out_shiftdir: false,
                in_shiftdir: false,
            },
            addr: 0,
            instr: 0,
        }
    }
}

} // verus!
