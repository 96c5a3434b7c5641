//! Transaction descriptors: a data-less `Command` (instruction, optional
//! address, optional alternate bytes) and a data-bearing `IoCommand` (which
//! adds a dummy-cycle count, a data-phase line width and a send-once flag).
//! A descriptor is assembled by chained builder calls, consumed by one
//! executor call, and holds no resources.

use vstd::prelude::*;
use crate::argument::{CommandArgumentData, DdrMode, LineMode};

verus! {

/// Instruction phase: a single opcode byte and its line width.
#[derive(Clone, Copy)]
pub struct CommandInstruction {
    pub mode: LineMode,
    pub data: u8,
}

/// Address or alternate-bytes phase: a variable-width argument and its line
/// width.
#[derive(Clone, Copy)]
pub struct CommandArgument {
    pub mode: LineMode,
    pub data: CommandArgumentData,
}

/// Largest dummy-cycle count the control register can hold.
pub const MAX_DUMMY_CYCLES: u8 = 31;

/// Descriptor of a transaction without a data phase. An absent optional
/// phase stays `None` and compiles to an explicit "no phase" mode code.
pub struct Command {
    pub ddr_mode: DdrMode,
    pub instruction: Option<CommandInstruction>,
    pub address: Option<CommandArgument>,
    pub alternate_bytes: Option<CommandArgument>,
}

impl Command {
    /// A descriptor with every optional phase absent.
    pub fn new(ddr_mode: DdrMode) -> (r: Self)
        ensures
            r.ddr_mode == ddr_mode,
            r.instruction is None,
            r.address is None,
            r.alternate_bytes is None,
    {
        Self { ddr_mode, instruction: None, address: None, alternate_bytes: None }
    }

    /// Sets the instruction phase.
    pub fn with_instruction(self, line_mode: LineMode, instruction: u8) -> (r: Self)
        ensures
            r == (Command {
                instruction: Some(CommandInstruction { mode: line_mode, data: instruction }),
                ..self
            }),
    {
        Self {
            instruction: Some(CommandInstruction { mode: line_mode, data: instruction }),
            ..self
        }
    }

    /// Sets the address phase.
    pub fn with_address(self, line_mode: LineMode, address: CommandArgumentData) -> (r: Self)
        ensures
            r == (Command {
                address: Some(CommandArgument { mode: line_mode, data: address }),
                ..self
            }),
    {
        Self { address: Some(CommandArgument { mode: line_mode, data: address }), ..self }
    }

    /// Sets the alternate-bytes phase.
    pub fn with_alternate_bytes(self, line_mode: LineMode, alternate_bytes: CommandArgumentData)
        -> (r: Self)
        ensures
            r == (Command {
                alternate_bytes: Some(CommandArgument { mode: line_mode, data: alternate_bytes }),
                ..self
            }),
    {
        Self {
            alternate_bytes: Some(CommandArgument { mode: line_mode, data: alternate_bytes }),
            ..self
        }
    }
}

/// Descriptor of a data-bearing transaction.
pub struct IoCommand {
    pub ddr_mode: DdrMode,
    pub send_instruction_once: bool,
    pub instruction: Option<CommandInstruction>,
    pub address: Option<CommandArgument>,
    pub alternate_bytes: Option<CommandArgument>,
    pub dummy_cycles: u8,
    pub data_mode: LineMode,
}

impl IoCommand {
    /// The dummy-cycle count fits the control register's field.
    pub open spec fn wf(&self) -> bool {
        self.dummy_cycles <= MAX_DUMMY_CYCLES
    }

    /// A descriptor with every optional phase absent, no dummy cycles and
    /// the instruction re-sent on every transfer.
    pub fn new(ddr_mode: DdrMode, line_mode: LineMode) -> (r: Self)
        ensures
            r.ddr_mode == ddr_mode,
            r.data_mode == line_mode,
            !r.send_instruction_once,
            r.instruction is None,
            r.address is None,
            r.alternate_bytes is None,
            r.dummy_cycles == 0,
            r.wf(),
    {
        Self {
            ddr_mode,
            send_instruction_once: false,
            instruction: None,
            address: None,
            alternate_bytes: None,
            dummy_cycles: 0,
            data_mode: line_mode,
        }
    }

    /// Asks the hardware to send the instruction only on the first of a run
    /// of transfers.
    pub fn with_send_instruction_once(self) -> (r: Self)
        ensures
            r == (IoCommand { send_instruction_once: true, ..self }),
    {
        Self { send_instruction_once: true, ..self }
    }

    /// Sets the instruction phase.
    pub fn with_instruction(self, line_mode: LineMode, instruction: u8) -> (r: Self)
        ensures
            r == (IoCommand {
                instruction: Some(CommandInstruction { mode: line_mode, data: instruction }),
                ..self
            }),
    {
        Self {
            instruction: Some(CommandInstruction { mode: line_mode, data: instruction }),
            ..self
        }
    }

    /// Sets the address phase.
    pub fn with_address(self, line_mode: LineMode, address: CommandArgumentData) -> (r: Self)
        ensures
            r == (IoCommand {
                address: Some(CommandArgument { mode: line_mode, data: address }),
                ..self
            }),
    {
        Self { address: Some(CommandArgument { mode: line_mode, data: address }), ..self }
    }

    /// Sets the alternate-bytes phase.
    pub fn with_alternate_bytes(self, line_mode: LineMode, alternate_bytes: CommandArgumentData)
        -> (r: Self)
        ensures
            r == (IoCommand {
                alternate_bytes: Some(CommandArgument { mode: line_mode, data: alternate_bytes }),
                ..self
            }),
    {
        Self {
            alternate_bytes: Some(CommandArgument { mode: line_mode, data: alternate_bytes }),
            ..self
        }
    }

    /// Sets the dummy-cycle count, 0 to 31.
    pub fn with_dummy_cycles(self, dummy_cycles: u8) -> (r: Self)
        requires
            dummy_cycles <= MAX_DUMMY_CYCLES,
        ensures
            r == (IoCommand { dummy_cycles, ..self }),
    {
        Self { dummy_cycles, ..self }
    }
}

} // verus!
