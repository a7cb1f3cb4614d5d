//! Unit primitives, the configuration builder, and the build sequence.

use pio_block::{
    BuildError, Buffers, ClockDivisor, Instance, PIOBuilder, Program, RegisterBlock, SideSet,
    PIO,
};

#[test]
fn clock_divisor_split_full_speed() {
    // A divisor of 1.0 is 256 in fixed point: integer part 1, fraction 0.
    let d = ClockDivisor::from_fixed_point(256);
    assert_eq!(d.int_part(), 1);
    assert_eq!(d.frac_part(), 0);
}

#[test]
fn clock_divisor_split_two_and_a_half() {
    // A divisor of 2.5 is 640 in fixed point: integer part 2, fraction
    // 128/256.
    let d = ClockDivisor::from_fixed_point(640);
    assert_eq!(d.int_part(), 2);
    assert_eq!(d.frac_part(), 128);
}

#[test]
fn divisor_written_to_the_unit_registers() {
    let mut pio = PIO::new(RegisterBlock::new());
    let sms = pio.state_machines();
    let sm = sms[1].clone();
    sm.set_clock_divisor(&mut pio, ClockDivisor::from_fixed_point(640));
    let regs = pio.registers();
    assert_eq!(regs.units[1].clkdiv_int, 2);
    assert_eq!(regs.units[1].clkdiv_frac, 128);
    assert_eq!(regs.units[0].clkdiv_int, 0);
}

#[test]
fn default_builder_has_documented_defaults() {
    let b = PIOBuilder::default();
    assert_eq!(b.wrap_top, 0);
    assert_eq!(b.wrap_bottom, 31);
    assert!(b.in_shiftdir);
    assert!(b.out_shiftdir);
    assert_eq!(b.clock_divisor.int_part(), 1);
    assert_eq!(b.clock_divisor.frac_part(), 0);
    assert_eq!(b.pull_thresh, 32);
    assert_eq!(b.push_thresh, 32);
    assert!(!b.autopull);
    assert!(!b.autopush);
    assert!(!b.fjoin_rx);
    assert!(!b.fjoin_tx);
    assert!(!b.side_en);
    assert_eq!(b.out_count, 32);
    assert_eq!(b.instructions.len(), 0);
    assert!(b.instruction_offset.is_none());
}

#[test]
fn enabling_one_unit_leaves_siblings() {
    let mut pio = PIO::new(RegisterBlock::new());
    let sms = pio.state_machines();
    sms[1].clone().set_enabled(&mut pio, true);
    sms[3].clone().set_enabled(&mut pio, true);
    assert_eq!(pio.registers().ctrl.sm_enable, 0b1010);
    // Enabling unit 2 touches only bit 2.
    sms[2].clone().set_enabled(&mut pio, true);
    assert_eq!(pio.registers().ctrl.sm_enable, 0b1110);
    // Disabling it brings back exactly the previous value.
    sms[2].clone().set_enabled(&mut pio, false);
    assert_eq!(pio.registers().ctrl.sm_enable, 0b1010);
}

#[test]
fn restart_pulses_only_this_unit() {
    let mut pio = PIO::new(RegisterBlock::new());
    let sms = pio.state_machines();
    sms[1].clone().restart(&mut pio);
    assert_eq!(pio.registers().ctrl.sm_restart, 0b0010);
    sms[2].clone().reset_clock(&mut pio);
    assert_eq!(pio.registers().ctrl.clkdiv_restart, 0b0100);
    assert_eq!(pio.registers().ctrl.sm_restart, 0b0010);
}

#[test]
fn forced_jump_moves_the_program_counter() {
    let mut pio = PIO::new(RegisterBlock::new());
    let sms = pio.state_machines();
    let sm = sms[0].clone();
    // An unconditional jump: all bits above the five address bits zero.
    sm.set_instruction(&mut pio, 7);
    assert_eq!(sm.instruction_address(&pio), 7);
    // Any other instruction executes without moving the modeled counter.
    sm.set_instruction(&mut pio, 0x2042);
    assert_eq!(sm.instruction_address(&pio), 7);
    assert_eq!(pio.registers().units[0].instr, 0x2042);
}

#[test]
fn fifo_windows_and_stall_flag() {
    let mut model = RegisterBlock::new();
    // The adapter would refresh these hardware-driven fields.
    model.rxf[2] = 0xdead_beef;
    model.units[3].execctrl.exec_stalled = true;
    let mut pio = PIO::new(model);
    let sms = pio.state_machines();
    assert_eq!(sms[2].clone().pull(&pio), 0xdead_beef);
    assert!(sms[3].clone().stalled(&pio));
    assert!(!sms[0].clone().stalled(&pio));
    sms[1].clone().push(&mut pio, 0x1234_5678);
    assert_eq!(pio.registers().txf[1], 0x1234_5678);
    assert_eq!(pio.registers().txf[0], 0);
}

#[test]
fn state_machine_handles_carry_their_ids() {
    let pio = PIO::new(RegisterBlock::new());
    let sms = pio.state_machines();
    for (i, sm) in sms.iter().enumerate() {
        assert_eq!(sm.id() as usize, i);
    }
    let regs = pio.free();
    assert_eq!(regs.ctrl.sm_enable, 0);
}

#[test]
fn buffer_modes_are_mutually_exclusive() {
    let mut b = PIOBuilder::default();
    b.buffers(Buffers::OnlyTx);
    assert!(b.fjoin_tx && !b.fjoin_rx);
    b.buffers(Buffers::OnlyRx);
    assert!(b.fjoin_rx && !b.fjoin_tx);
    b.buffers(Buffers::RxTx);
    assert!(!b.fjoin_rx && !b.fjoin_tx);
}

#[test]
fn with_program_copies_code_wrap_and_side_set() {
    let p = Program {
        code: vec![0xe081u16, 0x6001, 0x0001],
        wrap_top: 1,
        wrap_bottom: 2,
        side_set: SideSet { optional: true, pindirs: false, bits: 2 },
    };
    let mut b = PIOBuilder::default();
    b.with_program(&p);
    assert_eq!(b.instructions, vec![0xe081u16, 0x6001, 0x0001]);
    assert_eq!(b.wrap_top, 1);
    assert_eq!(b.wrap_bottom, 2);
    assert!(b.side_en);
    assert!(!b.side_pindir);
    assert_eq!(b.sideset_count, 2);
    // Untouched fields keep their defaults.
    assert_eq!(b.out_count, 32);
    assert_eq!(b.pull_thresh, 32);
}

#[test]
fn build_deploys_a_program() {
    let mut pio = PIO::new(RegisterBlock::new());
    let sms = pio.state_machines();
    let sm = sms[0].clone();
    let mut b = PIOBuilder::default();
    b.instructions(&[0xe081u16, 0x6001]);
    b.wrap(0, 1);
    b.clock_divisor(ClockDivisor::from_fixed_point(640));
    b.buffers(Buffers::OnlyTx);
    assert!(b.build(&mut pio, &sm).is_ok());

    let regs = pio.registers();
    // The program landed at offset 0 and the unit is enabled there.
    assert_eq!(regs.instr_mem[0], 0xe081);
    assert_eq!(regs.instr_mem[1], 0x6001);
    assert_eq!(regs.ctrl.sm_enable & 1, 1);
    assert_eq!(regs.units[0].addr, 0);
    assert_eq!(regs.units[0].instr, 0);
    // Wrap bounds are absolute addresses: offset plus program offsets.
    assert_eq!(regs.units[0].execctrl.wrap_top, 0);
    assert_eq!(regs.units[0].execctrl.wrap_bottom, 1);
    // Configured fields arrived in the unit's registers.
    assert_eq!(regs.units[0].clkdiv_int, 2);
    assert_eq!(regs.units[0].clkdiv_frac, 128);
    assert!(regs.units[0].shiftctrl.fjoin_tx);
    assert!(!regs.units[0].shiftctrl.fjoin_rx);
    assert_eq!(regs.units[0].shiftctrl.pull_thresh, 32);
    assert_eq!(regs.units[0].pinctrl.out_count, 32);
    // Restart and clock-phase pulses went to unit 0 alone.
    assert_eq!(regs.ctrl.sm_restart, 0b0001);
    assert_eq!(regs.ctrl.clkdiv_restart, 0b0001);
    // Sibling units are untouched.
    assert_eq!(regs.units[1].clkdiv_int, 0);
}

#[test]
fn build_twice_leaves_unit_at_second_program() {
    let mut pio = PIO::new(RegisterBlock::new());
    let sms = pio.state_machines();
    let sm = sms[2].clone();

    let mut first = PIOBuilder::default();
    first.instructions(&[0xa042u16; 5]);
    first.wrap(0, 4);
    assert!(first.build(&mut pio, &sm).is_ok());
    assert_eq!(sm.instruction_address(&pio), 0);

    let mut second = PIOBuilder::default();
    second.instructions(&[0x6008u16; 4]);
    second.wrap(0, 3);
    assert!(second.build(&mut pio, &sm).is_ok());

    // The second program landed after the first; the unit is enabled and
    // its program counter is at the second allocation's offset.
    assert_eq!(sm.instruction_address(&pio), 5);
    let regs = pio.registers();
    assert_eq!(regs.ctrl.sm_enable & 0b0100, 0b0100);
    assert_eq!(regs.units[2].execctrl.wrap_top, 5);
    assert_eq!(regs.units[2].execctrl.wrap_bottom, 8);
    assert_eq!(regs.instr_mem[5], 0x6008);
    assert_eq!(regs.instr_mem[0], 0xa042);
}

#[test]
fn build_without_room_returns_no_space_and_touches_nothing() {
    let mut pio = PIO::new(RegisterBlock::new());
    let sms = pio.state_machines();
    let sm = sms[1].clone();

    let mut filler = PIOBuilder::default();
    filler.instructions(&[0x0000u16; 30]);
    assert!(filler.build(&mut pio, &sm).is_ok());

    let mask_before = pio.used_mask();
    let regs_before = pio.registers().clone();
    let mut big = PIOBuilder::default();
    big.instructions(&[0x1111u16; 3]);
    let r = big.build(&mut pio, &sm);
    assert!(matches!(r, Err(BuildError::NoSpace)));
    assert_eq!(pio.used_mask(), mask_before);
    assert_eq!(*pio.registers(), regs_before);
}

#[test]
fn capability_round_trip() {
    // The register model is itself a capability; the adapter outside the
    // library implements the same trait for the real peripheral.
    let regs = RegisterBlock::new().into_register_block();
    let pio = PIO::new(regs);
    let back = pio.free();
    let _again = RegisterBlock::from_register_block(back);
}

#[test]
fn build_with_fixed_origin_conflict_fails() {
    let mut pio = PIO::new(RegisterBlock::new());
    let sms = pio.state_machines();
    let sm = sms[0].clone();
    assert_eq!(pio.add_program(&[7u16; 4], Some(2)), Some(2));

    let mut b = PIOBuilder::default();
    b.instructions(&[0xe081u16, 0x6001]);
    b.instruction_offset = Some(4);
    assert!(b.build(&mut pio, &sm).is_err());

    let mut c = PIOBuilder::default();
    c.instructions(&[0xe081u16, 0x6001]);
    c.instruction_offset = Some(6);
    assert!(c.build(&mut pio, &sm).is_ok());
    assert_eq!(sm.instruction_address(&pio), 6);
}
