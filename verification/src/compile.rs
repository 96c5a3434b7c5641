//! The register-configuration compiler: the pure mapping from a transaction
//! descriptor plus a functional-mode tag to the control register's field
//! values. Every phase-mode field is always written — an absent phase gets
//! the explicit "no phase" code 0 rather than a stale value — and argument
//! size codes follow the argument's byte width alone, never its numeric
//! value.

use vstd::prelude::*;
use crate::argument::{arg_value, arg_width, CommandArgumentData, DdrMode, LineMode};
use crate::descriptor::{CommandArgument, CommandInstruction};
use crate::registers::{
    ControlValue, FMODE_AUTOMATIC_POLLING, FMODE_INDIRECT_READ, FMODE_INDIRECT_WRITE,
    FMODE_MEMORY_MAPPED,
};

verus! {

/// Overall direction and triggering behavior of a transaction.
#[derive(Clone, Copy, PartialEq, Eq, Structural)]
pub enum FunctionalMode {
    Read,
    Write,
    Poll,
    Mapped,
}

/// Line-width code of a present phase: one, two or four lines.
pub open spec fn line_mode_code(m: LineMode) -> u8 {
    match m {
        LineMode::Single => 1,
        LineMode::Dual => 2,
        LineMode::Quad => 3,
    }
}

/// Size code of an argument: byte widths 1 to 4 map to codes 0 to 3. The
/// code depends on the variant alone, never on the bytes' numeric value.
pub open spec fn size_code(d: CommandArgumentData) -> u8 {
    match d {
        CommandArgumentData::OneByte(_) => 0,
        CommandArgumentData::TwoBytes(_) => 1,
        CommandArgumentData::ThreeBytes(_) => 2,
        CommandArgumentData::FourBytes(_) => 3,
    }
}

/// Data-direction code of a functional mode.
pub open spec fn functional_mode_code(m: FunctionalMode) -> u8 {
    match m {
        FunctionalMode::Read => FMODE_INDIRECT_READ,
        FunctionalMode::Write => FMODE_INDIRECT_WRITE,
        FunctionalMode::Poll => FMODE_AUTOMATIC_POLLING,
        FunctionalMode::Mapped => FMODE_MEMORY_MAPPED,
    }
}

/// Value an argument register is given: the argument's canonical 32-bit
/// value when the phase is present, 0 (the reset value) when it is absent.
pub open spec fn arg_register_value(a: Option<CommandArgument>) -> u32 {
    match a {
        Some(arg) => arg_value(arg.data) as u32,
        None => 0,
    }
}

/// The control-register field values compiled from a descriptor and a
/// functional mode. Fields of absent phases carry the register's reset
/// value 0.
pub open spec fn compiled_control(
    functional_mode: FunctionalMode,
    send_instruction_once: bool,
    ddr_mode: DdrMode,
    instruction: Option<CommandInstruction>,
    address: Option<CommandArgument>,
    alternate_bytes: Option<CommandArgument>,
    dummy_cycles: u8,
    data_mode: Option<LineMode>,
) -> ControlValue {
    ControlValue {
        instruction: match instruction {
            Some(i) => i.data,
            None => 0,
        },
        imode: match instruction {
            Some(i) => line_mode_code(i.mode),
            None => 0,
        },
        admode: match address {
            Some(a) => line_mode_code(a.mode),
            None => 0,
        },
        adsize: match address {
            Some(a) => size_code(a.data),
            None => 0,
        },
        abmode: match alternate_bytes {
            Some(a) => line_mode_code(a.mode),
            None => 0,
        },
        absize: match alternate_bytes {
            Some(a) => size_code(a.data),
            None => 0,
        },
        dcyc: dummy_cycles,
        dmode: match data_mode {
            Some(m) => line_mode_code(m),
            None => 0,
        },
        fmode: functional_mode_code(functional_mode),
        sioo: send_instruction_once,
        dhhc: ddr_mode == DdrMode::EnabledWithHold,
        ddrm: ddr_mode != DdrMode::Disabled,
    }
}

/// Compile a descriptor's phases and mode into control-register field
/// values.
pub fn build_control(
    functional_mode: FunctionalMode,
    send_instruction_once: bool,
    ddr_mode: DdrMode,
    instruction: Option<CommandInstruction>,
    address: Option<CommandArgument>,
    alternate_bytes: Option<CommandArgument>,
    dummy_cycles: u8,
    data_mode: Option<LineMode>,
) -> (c: ControlValue)
    ensures
        c == compiled_control(
            functional_mode,
            send_instruction_once,
            ddr_mode,
            instruction,
            address,
            alternate_bytes,
            dummy_cycles,
            data_mode,
        ),
{
    let (instruction_byte, imode): (u8, u8) = match instruction {
        Some(i) => (
            i.data,
            match i.mode {
                LineMode::Single => 1,
                LineMode::Dual => 2,
                LineMode::Quad => 3,
            },
        ),
        None => (0, 0),
    };
    let (admode, adsize): (u8, u8) = match address {
        Some(a) => (
            match a.mode {
                LineMode::Single => 1,
                LineMode::Dual => 2,
                LineMode::Quad => 3,
            },
            match a.data {
                CommandArgumentData::OneByte(_) => 0,
                CommandArgumentData::TwoBytes(_) => 1,
                CommandArgumentData::ThreeBytes(_) => 2,
                CommandArgumentData::FourBytes(_) => 3,
            },
        ),
        None => (0, 0),
    };
    let (abmode, absize): (u8, u8) = match alternate_bytes {
        Some(a) => (
            match a.mode {
                LineMode::Single => 1,
                LineMode::Dual => 2,
                LineMode::Quad => 3,
            },
            match a.data {
                CommandArgumentData::OneByte(_) => 0,
                CommandArgumentData::TwoBytes(_) => 1,
                CommandArgumentData::ThreeBytes(_) => 2,
                CommandArgumentData::FourBytes(_) => 3,
            },
        ),
        None => (0, 0),
    };
    let dmode: u8 = match data_mode {
        Some(m) => match m {
            LineMode::Single => 1,
            LineMode::Dual => 2,
            LineMode::Quad => 3,
        },
        None => 0,
    };
    let fmode: u8 = match functional_mode {
        FunctionalMode::Read => FMODE_INDIRECT_READ,
        FunctionalMode::Write => FMODE_INDIRECT_WRITE,
        FunctionalMode::Poll => FMODE_AUTOMATIC_POLLING,
        FunctionalMode::Mapped => FMODE_MEMORY_MAPPED,
    };
    ControlValue {
        instruction: instruction_byte,
        imode,
        admode,
        adsize,
        abmode,
        absize,
        dcyc: dummy_cycles,
        dmode,
        fmode,
        sioo: send_instruction_once,
        dhhc: ddr_mode == DdrMode::EnabledWithHold,
        ddrm: ddr_mode != DdrMode::Disabled,
    }
}

/// The compiler gives every optional phase a definite mode field: the code
/// is 0 exactly when the phase is absent, and the phase's line-width code —
/// 1, 2 or 3, never 0 — when it is present.
pub proof fn lemma_phase_modes_definite(
    functional_mode: FunctionalMode,
    send_instruction_once: bool,
    ddr_mode: DdrMode,
    instruction: Option<CommandInstruction>,
    address: Option<CommandArgument>,
    alternate_bytes: Option<CommandArgument>,
    dummy_cycles: u8,
    data_mode: Option<LineMode>,
)
    ensures
        ({
            let c = compiled_control(
                functional_mode,
                send_instruction_once,
                ddr_mode,
                instruction,
                address,
                alternate_bytes,
                dummy_cycles,
                data_mode,
            );
            &&& (c.imode == 0 <==> instruction is None)
            &&& (instruction matches Some(i) ==> c.imode == line_mode_code(i.mode) && 1 <= c.imode
                <= 3)
            &&& (c.admode == 0 <==> address is None)
            &&& (address matches Some(a) ==> c.admode == line_mode_code(a.mode) && 1 <= c.admode
                <= 3)
            &&& (c.abmode == 0 <==> alternate_bytes is None)
            &&& (alternate_bytes matches Some(a) ==> c.abmode == line_mode_code(a.mode) && 1
                <= c.abmode <= 3)
            &&& (c.dmode == 0 <==> data_mode is None)
            &&& (data_mode matches Some(m) ==> c.dmode == line_mode_code(m) && 1 <= c.dmode <= 3)
        }),
{
}

/// The DDR hold bit is set exactly when the mode is `EnabledWithHold`; the
/// DDR enable bit is set for both `Enabled` and `EnabledWithHold` and clear
/// for `Disabled`.
pub proof fn lemma_ddr_bits(
    functional_mode: FunctionalMode,
    send_instruction_once: bool,
    ddr_mode: DdrMode,
    instruction: Option<CommandInstruction>,
    address: Option<CommandArgument>,
    alternate_bytes: Option<CommandArgument>,
    dummy_cycles: u8,
    data_mode: Option<LineMode>,
)
    ensures
        ({
            let c = compiled_control(
                functional_mode,
                send_instruction_once,
                ddr_mode,
                instruction,
                address,
                alternate_bytes,
                dummy_cycles,
                data_mode,
            );
            &&& (c.dhhc <==> ddr_mode == DdrMode::EnabledWithHold)
            &&& (c.ddrm <==> ddr_mode == DdrMode::Enabled || ddr_mode == DdrMode::EnabledWithHold)
        }),
{
}

/// An argument's size code follows its byte width alone: width `w` encodes
/// as code `w - 1`, whatever the numeric value of the bytes.
pub proof fn lemma_size_code_follows_width(d: CommandArgumentData)
    ensures
        size_code(d) == arg_width(d) - 1,
{
}

/// A transaction with no address phase and no data phase compiles to
/// address- and data-mode codes of 0, so no address- or data-register
/// access is queued behind the control register and the control-register
/// write alone launches the transaction.
pub proof fn lemma_control_write_triggers(
    functional_mode: FunctionalMode,
    send_instruction_once: bool,
    ddr_mode: DdrMode,
    instruction: Option<CommandInstruction>,
    alternate_bytes: Option<CommandArgument>,
    dummy_cycles: u8,
)
    ensures
        ({
            let c = compiled_control(
                functional_mode,
                send_instruction_once,
                ddr_mode,
                instruction,
                None,
                alternate_bytes,
                dummy_cycles,
                None,
            );
            c.admode == 0 && c.dmode == 0
        }),
{
}

} // verus!
