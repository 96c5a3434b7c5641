//! The register-configuration compiler: phase modes, size codes, DDR bits
//! and functional-mode codes.

use quadspi::argument::{CommandArgumentData, DdrMode, LineMode};
use quadspi::compile::{build_control, FunctionalMode};
use quadspi::descriptor::{CommandArgument, CommandInstruction};
use quadspi::registers::{
    FMODE_AUTOMATIC_POLLING, FMODE_INDIRECT_READ, FMODE_INDIRECT_WRITE, FMODE_MEMORY_MAPPED,
};

fn instr(mode: LineMode, data: u8) -> Option<CommandInstruction> {
    Some(CommandInstruction { mode, data })
}

fn arg(mode: LineMode, data: CommandArgumentData) -> Option<CommandArgument> {
    Some(CommandArgument { mode, data })
}

#[test]
fn absent_phases_get_definite_zero_codes() {
    let c = build_control(
        FunctionalMode::Write,
        false,
        DdrMode::Disabled,
        None,
        None,
        None,
        0,
        None,
    );
    assert_eq!(c.imode, 0);
    assert_eq!(c.admode, 0);
    assert_eq!(c.abmode, 0);
    assert_eq!(c.dmode, 0);
    assert_eq!(c.instruction, 0);
    assert_eq!(c.adsize, 0);
    assert_eq!(c.absize, 0);
}

#[test]
fn present_phases_get_line_width_codes() {
    let c = build_control(
        FunctionalMode::Read,
        false,
        DdrMode::Disabled,
        instr(LineMode::Single, 0x9F),
        arg(LineMode::Dual, CommandArgumentData::TwoBytes([0, 0])),
        arg(LineMode::Quad, CommandArgumentData::OneByte([0])),
        0,
        Some(LineMode::Quad),
    );
    assert_eq!(c.instruction, 0x9F);
    assert_eq!(c.imode, 1);
    assert_eq!(c.admode, 2);
    assert_eq!(c.abmode, 3);
    assert_eq!(c.dmode, 3);
}

#[test]
fn size_code_follows_byte_width_not_value() {
    // A one-byte zero still encodes as the 8-bit size code, not a wider one.
    let widths = [
        (CommandArgumentData::OneByte([0x00]), 0),
        (CommandArgumentData::TwoBytes([0x00, 0x00]), 1),
        (CommandArgumentData::ThreeBytes([0xFF, 0xFF, 0xFF]), 2),
        (CommandArgumentData::FourBytes([0x00, 0x00, 0x00, 0x00]), 3),
    ];
    for (data, code) in widths {
        let c = build_control(
            FunctionalMode::Read,
            false,
            DdrMode::Disabled,
            None,
            arg(LineMode::Single, data),
            arg(LineMode::Single, data),
            0,
            None,
        );
        assert_eq!(c.adsize, code);
        assert_eq!(c.absize, code);
    }
}

#[test]
fn ddr_bits_follow_ddr_mode() {
    let cases = [
        (DdrMode::Disabled, false, false),
        (DdrMode::Enabled, true, false),
        (DdrMode::EnabledWithHold, true, true),
    ];
    for (mode, ddrm, dhhc) in cases {
        let c = build_control(
            FunctionalMode::Write,
            false,
            mode,
            None,
            None,
            None,
            0,
            None,
        );
        assert_eq!(c.ddrm, ddrm);
        assert_eq!(c.dhhc, dhhc);
    }
}

#[test]
fn functional_mode_codes() {
    let cases = [
        (FunctionalMode::Write, FMODE_INDIRECT_WRITE),
        (FunctionalMode::Read, FMODE_INDIRECT_READ),
        (FunctionalMode::Poll, FMODE_AUTOMATIC_POLLING),
        (FunctionalMode::Mapped, FMODE_MEMORY_MAPPED),
    ];
    for (mode, code) in cases {
        let c = build_control(mode, false, DdrMode::Disabled, None, None, None, 0, None);
        assert_eq!(c.fmode, code);
    }
}

#[test]
fn dummy_cycles_and_send_once_written_verbatim() {
    let c = build_control(
        FunctionalMode::Read,
        true,
        DdrMode::Disabled,
        None,
        None,
        None,
        31,
        Some(LineMode::Single),
    );
    assert_eq!(c.dcyc, 31);
    assert!(c.sioo);
}
