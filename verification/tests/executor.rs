//! End-to-end transactions against the recording register model: write
//! ordering, flag waits and byte streaming.

use quadspi::argument::{CommandArgumentData, DdrMode, LineMode};
use quadspi::descriptor::{Command, IoCommand};
use quadspi::qspi::{Qspi, QuadSpiExt};
use quadspi::registers::{
    BusEvent, ClockMode, FlashMode, QuadSpiPeripheral, FMODE_INDIRECT_READ, FMODE_INDIRECT_WRITE,
    FMODE_MEMORY_MAPPED,
};

fn fresh() -> Qspi {
    Qspi {
        inst: QuadSpiPeripheral::new(Vec::new()),
    }
}

fn fresh_with(rx: Vec<u8>) -> Qspi {
    Qspi {
        inst: QuadSpiPeripheral::new(rx),
    }
}

#[test]
fn setup_stores_configuration_fields() {
    let p = QuadSpiPeripheral::new(Vec::new());
    let q = p.qspi((), 2, 16, true, 23, 1, ClockMode::Mode3, FlashMode::Dual);
    assert!(q.inst.enabled);
    assert_eq!(q.inst.prescaler, 2);
    assert_eq!(q.inst.fifo_threshold_m1, 15);
    assert!(q.inst.sample_shift);
    assert!(!q.inst.flash_select_2);
    assert!(q.inst.dual_flash);
    assert_eq!(q.inst.flash_size, 23);
    assert_eq!(q.inst.chip_select_high_time, 1);
    assert!(q.inst.clock_mode_3);
    assert!(q.inst.trace.is_empty());
}

#[test]
fn setup_flash_bank_two() {
    let p = QuadSpiPeripheral::new(Vec::new());
    let q = p.qspi((), 0, 1, false, 0, 0, ClockMode::Mode0, FlashMode::Flash2);
    assert!(q.inst.flash_select_2);
    assert!(!q.inst.dual_flash);
    assert!(!q.inst.clock_mode_3);
    assert_eq!(q.inst.fifo_threshold_m1, 0);
}

#[test]
fn command_single_line_instruction() {
    // A write-enable style command: one busy wait, one ordered register-write
    // sequence, one completion wait, nothing else.
    let mut q = fresh();
    q.command(Command::new(DdrMode::Disabled).with_instruction(LineMode::Single, 0x06));

    let t = &q.inst.trace;
    assert_eq!(t.len(), 5);
    assert_eq!(t[0], BusEvent::WaitWhileBusy);
    assert_eq!(t[1], BusEvent::WriteAlternateBytes(0));
    match t[2] {
        BusEvent::WriteControl(c) => {
            assert_eq!(c.instruction, 0x06);
            assert_eq!(c.imode, 1);
            assert_eq!(c.admode, 0);
            assert_eq!(c.abmode, 0);
            assert_eq!(c.dmode, 0);
            assert_eq!(c.dcyc, 0);
            assert_eq!(c.fmode, FMODE_INDIRECT_WRITE);
            assert!(!c.sioo);
            assert!(!c.ddrm);
            assert!(!c.dhhc);
        }
        ref other => panic!("expected a control write, got {:?}", other),
    }
    assert_eq!(t[3], BusEvent::WriteAddress(0));
    assert_eq!(t[4], BusEvent::WaitTransferComplete);
}

#[test]
fn command_write_ordering_is_abr_ccr_ar() {
    // With no address and no data phase, the control-register write is the
    // launch point: the alternate-bytes write precedes it and the address
    // write after it queues nothing.
    let mut q = fresh();
    q.command(
        Command::new(DdrMode::Disabled)
            .with_instruction(LineMode::Single, 0x05)
            .with_alternate_bytes(LineMode::Single, CommandArgumentData::OneByte([0xA5])),
    );

    let t = &q.inst.trace;
    let abr = t
        .iter()
        .position(|e| matches!(e, BusEvent::WriteAlternateBytes(_)))
        .unwrap();
    let ccr = t
        .iter()
        .position(|e| matches!(e, BusEvent::WriteControl(_)))
        .unwrap();
    let ar = t
        .iter()
        .position(|e| matches!(e, BusEvent::WriteAddress(_)))
        .unwrap();
    assert!(abr < ccr && ccr < ar);
    assert_eq!(t[abr], BusEvent::WriteAlternateBytes(0xA5));
    match t[ccr] {
        BusEvent::WriteControl(c) => {
            assert_eq!(c.admode, 0);
            assert_eq!(c.dmode, 0);
            assert_eq!(c.abmode, 1);
            assert_eq!(c.absize, 0);
        }
        ref other => panic!("expected a control write, got {:?}", other),
    }
    // The address write is the last register access before the completion wait.
    assert_eq!(ar, t.len() - 2);
    assert_eq!(t[t.len() - 1], BusEvent::WaitTransferComplete);
}

#[test]
fn read_quad_streams_every_byte_in_order() {
    // Fast-read shape: 4-line instruction 0xEB, 3-byte address 0x001000,
    // 4 dummy cycles, quad data, 256-byte buffer.
    let rx: Vec<u8> = (0..=255u8).collect();
    let mut q = fresh_with(rx.clone());
    let mut data = vec![0u8; 256];
    q.read(
        IoCommand::new(DdrMode::Disabled, LineMode::Quad)
            .with_instruction(LineMode::Quad, 0xEB)
            .with_address(LineMode::Quad, CommandArgumentData::ThreeBytes([0x00, 0x10, 0x00]))
            .with_dummy_cycles(4),
        &mut data,
    );

    assert_eq!(data, rx);

    let t = &q.inst.trace;
    assert_eq!(t[0], BusEvent::WaitWhileBusy);
    // Length register holds the payload length minus one.
    assert_eq!(t[1], BusEvent::WriteDataLength(255));
    assert_eq!(t[2], BusEvent::WriteAlternateBytes(0));
    match t[3] {
        BusEvent::WriteControl(c) => {
            assert_eq!(c.instruction, 0xEB);
            assert_eq!(c.imode, 3);
            assert_eq!(c.admode, 3);
            assert_eq!(c.adsize, 2);
            assert_eq!(c.dcyc, 4);
            assert_eq!(c.dmode, 3);
            assert_eq!(c.fmode, FMODE_INDIRECT_READ);
        }
        ref other => panic!("expected a control write, got {:?}", other),
    }
    assert_eq!(t[4], BusEvent::WriteAddress(0x001000));
    // Exactly 256 polling iterations, each consuming one byte in order.
    assert_eq!(t.len(), 5 + 2 * 256);
    for i in 0..256usize {
        assert_eq!(t[5 + 2 * i], BusEvent::WaitFifoOrComplete);
        assert_eq!(t[5 + 2 * i + 1], BusEvent::ReadDataByte(i as u8));
    }
    assert_eq!(q.inst.data_length_reg, 255);
}

#[test]
fn read_past_stream_end_yields_zeros() {
    let mut q = fresh_with(vec![0x11, 0x22]);
    let mut data = vec![0xFFu8; 4];
    q.read(IoCommand::new(DdrMode::Disabled, LineMode::Single), &mut data);
    assert_eq!(data, vec![0x11, 0x22, 0x00, 0x00]);
}

#[test]
fn write_pushes_every_byte_then_waits_for_completion() {
    let mut q = fresh();
    let payload = vec![0xDE, 0xAD, 0xBE];
    q.write(
        IoCommand::new(DdrMode::Enabled, LineMode::Dual).with_instruction(LineMode::Single, 0x02),
        &payload,
    );

    let t = &q.inst.trace;
    assert_eq!(t[0], BusEvent::WaitWhileBusy);
    assert_eq!(t[1], BusEvent::WriteDataLength(2));
    match t[3] {
        BusEvent::WriteControl(c) => {
            assert_eq!(c.fmode, FMODE_INDIRECT_WRITE);
            assert_eq!(c.dmode, 2);
            assert!(c.ddrm);
            assert!(!c.dhhc);
        }
        ref other => panic!("expected a control write, got {:?}", other),
    }
    assert_eq!(t.len(), 5 + 2 * 3 + 1);
    for (i, byte) in payload.iter().enumerate() {
        assert_eq!(t[5 + 2 * i], BusEvent::WaitFifoThreshold);
        assert_eq!(t[5 + 2 * i + 1], BusEvent::WriteDataByte(*byte));
    }
    assert_eq!(t[t.len() - 1], BusEvent::WaitTransferComplete);
}

#[test]
fn memory_mapped_returns_without_completion_wait() {
    // Entering memory-mapped mode configures the registers and returns at
    // once: zero completion-flag waits and zero FIFO waits in the trace.
    let mut q = fresh();
    q.memory_mapped(
        IoCommand::new(DdrMode::EnabledWithHold, LineMode::Quad)
            .with_instruction(LineMode::Quad, 0xEB)
            .with_send_instruction_once(),
    );

    let t = &q.inst.trace;
    assert_eq!(t.len(), 4);
    assert_eq!(t[0], BusEvent::WaitWhileBusy);
    assert!(!t.iter().any(|e| matches!(e, BusEvent::WaitTransferComplete)));
    assert!(!t.iter().any(|e| matches!(e, BusEvent::WaitFifoOrComplete)));
    assert_eq!(q.inst.control_reg.fmode, FMODE_MEMORY_MAPPED);
    assert!(q.inst.control_reg.sioo);
    assert!(q.inst.control_reg.ddrm);
    assert!(q.inst.control_reg.dhhc);
}

#[test]
fn dummy_cycles_flow_into_control_register() {
    let mut q = fresh_with(vec![0; 1]);
    let mut data = vec![0u8; 1];
    q.read(
        IoCommand::new(DdrMode::Disabled, LineMode::Single).with_dummy_cycles(8),
        &mut data,
    );
    assert_eq!(q.inst.control_reg.dcyc, 8);
}
