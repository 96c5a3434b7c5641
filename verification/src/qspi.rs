//! The transaction executor. Every operation first spins on the busy flag,
//! optionally programs the data-length register, then has the compiler
//! program the transaction registers in the required order — alternate
//! bytes first, control register second, address register last — and
//! finally drives the mode-specific completion protocol: a completion wait
//! for a register-only command, a byte-polling loop for indirect read and
//! write, nothing further for memory-mapped mode.

use vstd::prelude::*;
use crate::argument::{DdrMode, LineMode};
use crate::compile::{
    arg_register_value, build_control, compiled_control, FunctionalMode,
};
use crate::descriptor::{Command, CommandArgument, CommandInstruction, IoCommand};
use crate::registers::{
    device_wf, setup_unchanged, stream_unchanged, BusEvent, ClockMode, ControlValue, FlashMode,
    QuadSpiPeripheral, FMODE_MEMORY_MAPPED,
};

verus! {

/// Exclusive owner of the one hardware instance. Requiring `&mut` access
/// for every operation keeps at most one transaction in flight.
pub struct Qspi {
    pub inst: QuadSpiPeripheral,
}

/// One-time setup of the peripheral: prescaler, FIFO threshold (1 to 32,
/// stored as the value minus one), sample shifting, flash size, chip-select
/// high time, clock mode and flash-bank mode. Performed once, before any
/// transaction.
pub trait QuadSpiExt {
    fn qspi<PINS>(
        self,
        pins: PINS,
        clock_prescalar: u8,
        fifo_threshold: u8,
        sample_shifting: bool,
        flash_size: u8,
        chip_select_high_time: u8,
        clock_mode: ClockMode,
        flash_mode: FlashMode,
    ) -> (q: Qspi)
        requires
            1 <= fifo_threshold <= 32,
        ensures
            q.inst.enabled,
            q.inst.fifo_threshold_m1 == fifo_threshold - 1,
            q.inst.prescaler == clock_prescalar,
            q.inst.sample_shift == sample_shifting,
            q.inst.flash_select_2 == (flash_mode == FlashMode::Flash2),
            q.inst.dual_flash == (flash_mode == FlashMode::Dual),
            q.inst.flash_size == flash_size,
            q.inst.chip_select_high_time == chip_select_high_time,
            q.inst.clock_mode_3 == (clock_mode == ClockMode::Mode3),
    ;
}

impl QuadSpiExt for QuadSpiPeripheral {
    fn qspi<PINS>(
        self,
        _pins: PINS,
        clock_prescalar: u8,
        fifo_threshold: u8,
        sample_shifting: bool,
        flash_size: u8,
        chip_select_high_time: u8,
        clock_mode: ClockMode,
        flash_mode: FlashMode,
    ) -> (q: Qspi) {
        let mut inst = self;

        // Disable during configuration and re-enable afterwards.
        inst.enabled = false;

        inst.fifo_threshold_m1 = fifo_threshold - 1;
        inst.prescaler = clock_prescalar;
        inst.sample_shift = sample_shifting;
        inst.flash_select_2 = flash_mode == FlashMode::Flash2;
        inst.dual_flash = flash_mode == FlashMode::Dual;

        inst.flash_size = flash_size;
        inst.chip_select_high_time = chip_select_high_time;
        inst.clock_mode_3 = clock_mode == ClockMode::Mode3;

        inst.enabled = true;

        Qspi { inst }
    }
}

/// The register writes the compiler performs for one transaction, in order:
/// the alternate-bytes register first (even when the phase is absent, to
/// clear any stale value), the control register second, the address
/// register last. The hardware launches the transaction at the first of
/// these writes that has no further register write queued behind it.
pub open spec fn config_events(
    functional_mode: FunctionalMode,
    send_instruction_once: bool,
    ddr_mode: DdrMode,
    instruction: Option<CommandInstruction>,
    address: Option<CommandArgument>,
    alternate_bytes: Option<CommandArgument>,
    dummy_cycles: u8,
    data_mode: Option<LineMode>,
) -> Seq<BusEvent> {
    seq![
        BusEvent::WriteAlternateBytes(arg_register_value(alternate_bytes)),
        BusEvent::WriteControl(
            compiled_control(
                functional_mode,
                send_instruction_once,
                ddr_mode,
                instruction,
                address,
                alternate_bytes,
                dummy_cycles,
                data_mode,
            ),
        ),
        BusEvent::WriteAddress(arg_register_value(address)),
    ]
}

/// Control-register value a data-less command compiles to: an indirect
/// write with no data phase, no dummy cycles and the instruction sent on
/// every transfer.
pub open spec fn command_control(c: Command) -> ControlValue {
    compiled_control(
        FunctionalMode::Write,
        false,
        c.ddr_mode,
        c.instruction,
        c.address,
        c.alternate_bytes,
        0,
        None,
    )
}

/// Control-register value a data-bearing command compiles to under the
/// given functional mode.
pub open spec fn io_control(c: IoCommand, functional_mode: FunctionalMode) -> ControlValue {
    compiled_control(
        functional_mode,
        c.send_instruction_once,
        c.ddr_mode,
        c.instruction,
        c.address,
        c.alternate_bytes,
        c.dummy_cycles,
        Some(c.data_mode),
    )
}

/// The byte the data register hands out `k` reads after a state whose
/// response stream is `rx` with `pos` bytes already consumed: the next
/// unconsumed byte, or 0 once the stream is exhausted.
pub open spec fn stream_byte(rx: Seq<u8>, pos: int, k: int) -> u8 {
    if pos + k < rx.len() {
        rx[pos + k]
    } else {
        0
    }
}

/// Trace of an indirect read's polling loop over its first `n` bytes: for
/// each byte position, one wait for the FIFO-threshold or transfer-complete
/// flag, then one data-register read.
pub open spec fn read_events(rx: Seq<u8>, pos: int, n: int) -> Seq<BusEvent>
    decreases n,
{
    if n <= 0 {
        Seq::empty()
    } else {
        read_events(rx, pos, n - 1)
            + seq![BusEvent::WaitFifoOrComplete, BusEvent::ReadDataByte(stream_byte(rx, pos, n - 1))]
    }
}

/// Trace of an indirect write's polling loop over the first `n` payload
/// bytes: for each byte, one wait for the FIFO-threshold flag, then one
/// data-register write.
pub open spec fn write_events(bytes: Seq<u8>, n: int) -> Seq<BusEvent>
    decreases n,
{
    if n <= 0 {
        Seq::empty()
    } else {
        write_events(bytes, n - 1)
            + seq![BusEvent::WaitFifoThreshold, BusEvent::WriteDataByte(bytes[n - 1])]
    }
}

/// The polling trace of a read, in closed form: position `2k` is a flag
/// wait and position `2k + 1` consumes byte `k` of the stream.
pub open spec fn read_burst(rx: Seq<u8>, pos: int, n: int) -> Seq<BusEvent> {
    Seq::new(
        (2 * n) as nat,
        |i: int|
            if i % 2 == 0 {
                BusEvent::WaitFifoOrComplete
            } else {
                BusEvent::ReadDataByte(stream_byte(rx, pos, i / 2))
            },
    )
}

/// The polling trace of a write, in closed form: position `2k` is the FIFO
/// wait and position `2k + 1` pushes byte `k` of the payload.
pub open spec fn write_burst(bytes: Seq<u8>, n: int) -> Seq<BusEvent> {
    Seq::new(
        (2 * n) as nat,
        |i: int|
            if i % 2 == 0 {
                BusEvent::WaitFifoThreshold
            } else {
                BusEvent::WriteDataByte(bytes[i / 2])
            },
    )
}

/// A read's polling loop performs exactly two bus operations per byte of
/// payload, in byte order: its trace over `n` bytes is `read_burst`, with
/// the wait at every even position and the consumption of byte `k` right
/// after the `k`-th wait.
pub proof fn lemma_read_events_shape(rx: Seq<u8>, pos: int, n: int)
    requires
        0 <= n,
    ensures
        read_events(rx, pos, n) =~= read_burst(rx, pos, n),
    decreases n,
{
    if n > 0 {
        lemma_read_events_shape(rx, pos, n - 1);
        let prev = read_events(rx, pos, n - 1);
        let tail = seq![
            BusEvent::WaitFifoOrComplete,
            BusEvent::ReadDataByte(stream_byte(rx, pos, n - 1)),
        ];
        assert(read_events(rx, pos, n) == prev + tail);
        assert(prev.len() == 2 * n - 2);
        assert forall|i: int| 0 <= i < 2 * n implies (prev + tail)[i] == read_burst(
            rx,
            pos,
            n,
        )[i] by {
            if i < 2 * n - 2 {
                assert((prev + tail)[i] == prev[i]);
            } else if i == 2 * n - 2 {
                assert((prev + tail)[i] == tail[0]);
            } else {
                assert((prev + tail)[i] == tail[1]);
                assert(i / 2 == n - 1);
            }
        }
    }
}

/// A write's polling loop performs exactly two bus operations per byte of
/// payload, in byte order: its trace over `n` bytes is `write_burst`, with
/// the FIFO wait at every even position and the push of byte `k` right
/// after the `k`-th wait.
pub proof fn lemma_write_events_shape(bytes: Seq<u8>, n: int)
    requires
        0 <= n,
    ensures
        write_events(bytes, n) =~= write_burst(bytes, n),
    decreases n,
{
    if n > 0 {
        lemma_write_events_shape(bytes, n - 1);
        let prev = write_events(bytes, n - 1);
        let tail = seq![BusEvent::WaitFifoThreshold, BusEvent::WriteDataByte(bytes[n - 1])];
        assert(write_events(bytes, n) == prev + tail);
        assert(prev.len() == 2 * n - 2);
        assert forall|i: int| 0 <= i < 2 * n implies (prev + tail)[i] == write_burst(
            bytes,
            n,
        )[i] by {
            if i < 2 * n - 2 {
                assert((prev + tail)[i] == prev[i]);
            } else if i == 2 * n - 2 {
                assert((prev + tail)[i] == tail[0]);
            } else {
                assert((prev + tail)[i] == tail[1]);
                assert(i / 2 == n - 1);
            }
        }
    }
}

impl Qspi {
    /// Program the transaction registers in the required order: alternate
    /// bytes, control, address. Reordering these writes would change which
    /// write launches the transaction and could launch it with incomplete
    /// configuration.
    fn config(
        inst: &mut QuadSpiPeripheral,
        functional_mode: FunctionalMode,
        send_instruction_once: bool,
        ddr_mode: DdrMode,
        instruction: Option<CommandInstruction>,
        address: Option<CommandArgument>,
        alternate_bytes: Option<CommandArgument>,
        dummy_cycles: u8,
        data_mode: Option<LineMode>,
    )
        ensures
            final(inst).alternate_bytes_reg == arg_register_value(alternate_bytes),
            final(inst).control_reg == compiled_control(
                functional_mode,
                send_instruction_once,
                ddr_mode,
                instruction,
                address,
                alternate_bytes,
                dummy_cycles,
                data_mode,
            ),
            final(inst).address_reg == arg_register_value(address),
            final(inst).data_length_reg == old(inst).data_length_reg,
            setup_unchanged(old(inst), final(inst)),
            stream_unchanged(old(inst), final(inst)),
            final(inst).trace@ =~= old(inst).trace@ + config_events(
                functional_mode,
                send_instruction_once,
                ddr_mode,
                instruction,
                address,
                alternate_bytes,
                dummy_cycles,
                data_mode,
            ),
    {
        // The operation will be triggered by the write to:
        // - the control register, if no address and no data phase follow;
        // - the address register, if no data phase follows; or
        // - the data register, otherwise.
        let control = build_control(
            functional_mode,
            send_instruction_once,
            ddr_mode,
            instruction,
            address,
            alternate_bytes,
            dummy_cycles,
            data_mode,
        );

        inst.write_abr(
            match alternate_bytes {
                Some(altb) => altb.data.to_u32(),
                None => 0,
            },
        );

        inst.write_ccr(control);

        inst.write_ar(
            match address {
                Some(addr) => addr.data.to_u32(),
                None => 0,
            },
        );
    }

    /// Spin on the busy flag until the peripheral is idle.
    fn wait_not_busy(&mut self)
        ensures
            crate::registers::transaction_regs_unchanged(&old(self).inst, &final(self).inst),
            setup_unchanged(&old(self).inst, &final(self).inst),
            stream_unchanged(&old(self).inst, &final(self).inst),
            final(self).inst.trace@ == old(self).inst.trace@.push(BusEvent::WaitWhileBusy),
    {
        self.inst.wait_while_busy();
    }

    /// Execute a register-only command: wait until idle, program the
    /// registers as an indirect write with no data phase — the
    /// control-register write launches the transaction when no address
    /// phase is present — and wait for the transfer-complete flag.
    pub fn command(&mut self, command: Command)
        ensures
            final(self).inst.alternate_bytes_reg == arg_register_value(command.alternate_bytes),
            final(self).inst.control_reg == command_control(command),
            final(self).inst.address_reg == arg_register_value(command.address),
            final(self).inst.data_length_reg == old(self).inst.data_length_reg,
            setup_unchanged(&old(self).inst, &final(self).inst),
            stream_unchanged(&old(self).inst, &final(self).inst),
            final(self).inst.trace@ =~= old(self).inst.trace@ + seq![BusEvent::WaitWhileBusy]
                + config_events(
                FunctionalMode::Write,
                false,
                command.ddr_mode,
                command.instruction,
                command.address,
                command.alternate_bytes,
                0,
                None,
            ) + seq![BusEvent::WaitTransferComplete],
    {
        self.wait_not_busy();

        Self::config(
            &mut self.inst,
            FunctionalMode::Write,
            false,
            command.ddr_mode,
            command.instruction,
            command.address,
            command.alternate_bytes,
            0,
            None,
        );

        self.inst.wait_transfer_complete();
    }

    /// Execute an indirect read: wait until idle, program the data-length
    /// register with the payload length minus one — a zero-length payload
    /// is a programming error and is ruled out — compile the registers for
    /// an indirect read, then for each byte position wait for the
    /// FIFO-threshold or transfer-complete flag and consume one byte from
    /// the data register into the buffer.
    pub fn read(&mut self, command: IoCommand, data: &mut Vec<u8>)
        requires
            command.wf(),
            1 <= old(data).len() <= u32::MAX,
            device_wf(&old(self).inst),
        ensures
            final(data).len() == old(data).len(),
            forall|i: int|
                0 <= i < old(data)@.len() ==> final(data)@[i] == stream_byte(
                    old(self).inst.rx@,
                    old(self).inst.rx_pos as int,
                    i,
                ),
            final(self).inst.alternate_bytes_reg == arg_register_value(command.alternate_bytes),
            final(self).inst.control_reg == io_control(command, FunctionalMode::Read),
            final(self).inst.address_reg == arg_register_value(command.address),
            final(self).inst.data_length_reg == old(data).len() - 1,
            setup_unchanged(&old(self).inst, &final(self).inst),
            final(self).inst.rx@ == old(self).inst.rx@,
            final(self).inst.rx_pos == if old(self).inst.rx_pos + old(data).len()
                <= old(self).inst.rx@.len() {
                old(self).inst.rx_pos + old(data).len()
            } else {
                old(self).inst.rx@.len() as int
            },
            device_wf(&final(self).inst),
            final(self).inst.trace@ =~= old(self).inst.trace@ + seq![
                BusEvent::WaitWhileBusy,
                BusEvent::WriteDataLength((old(data).len() - 1) as u32),
            ] + config_events(
                FunctionalMode::Read,
                command.send_instruction_once,
                command.ddr_mode,
                command.instruction,
                command.address,
                command.alternate_bytes,
                command.dummy_cycles,
                Some(command.data_mode),
            ) + read_events(
                old(self).inst.rx@,
                old(self).inst.rx_pos as int,
                old(data).len() as int,
            ),
    {
        self.wait_not_busy();

        let len: usize = data.len();
        self.inst.write_dlr(len as u32 - 1);

        Self::config(
            &mut self.inst,
            FunctionalMode::Read,
            command.send_instruction_once,
            command.ddr_mode,
            command.instruction,
            command.address,
            command.alternate_bytes,
            command.dummy_cycles,
            Some(command.data_mode),
        );

        let ghost configured = self.inst;
        let ghost base = self.inst.trace@;
        let ghost rx0 = self.inst.rx@;
        let ghost pos0 = self.inst.rx_pos as int;

        let mut i: usize = 0;
        while i < len
            invariant
                i <= len,
                len == data.len(),
                self.inst.rx@ == rx0,
                0 <= pos0 <= rx0.len(),
                self.inst.rx_pos == if pos0 + i <= rx0.len() {
                    pos0 + i
                } else {
                    rx0.len() as int
                },
                crate::registers::transaction_regs_unchanged(&configured, &self.inst),
                setup_unchanged(&configured, &self.inst),
                forall|j: int| 0 <= j < i ==> data@[j] == stream_byte(rx0, pos0, j),
                self.inst.trace@ =~= base + read_events(rx0, pos0, i as int),
            decreases len - i,
        {
            self.inst.wait_fifo_or_complete();

            let b: u8 = self.inst.read_data_byte();
            data[i] = b;
            i = i + 1;
        }
    }

    /// Execute an indirect write: wait until idle, program the data-length
    /// register with the payload length minus one — a zero-length payload
    /// is a programming error and is ruled out — compile the registers for
    /// an indirect write, push each payload byte into the data register
    /// after its FIFO-threshold wait, and finally wait for the
    /// transfer-complete flag so the last byte has left the peripheral.
    pub fn write(&mut self, command: IoCommand, data: &Vec<u8>)
        requires
            command.wf(),
            1 <= data.len() <= u32::MAX,
        ensures
            final(self).inst.alternate_bytes_reg == arg_register_value(command.alternate_bytes),
            final(self).inst.control_reg == io_control(command, FunctionalMode::Write),
            final(self).inst.address_reg == arg_register_value(command.address),
            final(self).inst.data_length_reg == data.len() - 1,
            setup_unchanged(&old(self).inst, &final(self).inst),
            stream_unchanged(&old(self).inst, &final(self).inst),
            final(self).inst.trace@ =~= old(self).inst.trace@ + seq![
                BusEvent::WaitWhileBusy,
                BusEvent::WriteDataLength((data.len() - 1) as u32),
            ] + config_events(
                FunctionalMode::Write,
                command.send_instruction_once,
                command.ddr_mode,
                command.instruction,
                command.address,
                command.alternate_bytes,
                command.dummy_cycles,
                Some(command.data_mode),
            ) + write_events(data@, data.len() as int) + seq![BusEvent::WaitTransferComplete],
    {
        self.wait_not_busy();

        let len: usize = data.len();
        self.inst.write_dlr(len as u32 - 1);

        Self::config(
            &mut self.inst,
            FunctionalMode::Write,
            command.send_instruction_once,
            command.ddr_mode,
            command.instruction,
            command.address,
            command.alternate_bytes,
            command.dummy_cycles,
            Some(command.data_mode),
        );

        let ghost configured = self.inst;
        let ghost base = self.inst.trace@;

        let mut i: usize = 0;
        while i < len
            invariant
                i <= len,
                len == data.len(),
                crate::registers::transaction_regs_unchanged(&configured, &self.inst),
                setup_unchanged(&configured, &self.inst),
                stream_unchanged(&configured, &self.inst),
                self.inst.trace@ =~= base + write_events(data@, i as int),
            decreases len - i,
        {
            self.inst.wait_fifo_threshold();

            self.inst.write_data_byte(data[i]);
            i = i + 1;
        }

        self.inst.wait_transfer_complete();
    }

    /// Enter memory-mapped mode: wait until idle, compile the registers for
    /// a memory-mapped transaction and return at once, with no completion
    /// wait. The transaction stays active, the peripheral transparently
    /// serving memory-style accesses until it is reconfigured.
    pub fn memory_mapped(&mut self, command: IoCommand)
        requires
            command.wf(),
        ensures
            final(self).inst.alternate_bytes_reg == arg_register_value(command.alternate_bytes),
            final(self).inst.control_reg == io_control(command, FunctionalMode::Mapped),
            final(self).inst.control_reg.fmode == FMODE_MEMORY_MAPPED,
            final(self).inst.address_reg == arg_register_value(command.address),
            final(self).inst.data_length_reg == old(self).inst.data_length_reg,
            setup_unchanged(&old(self).inst, &final(self).inst),
            stream_unchanged(&old(self).inst, &final(self).inst),
            final(self).inst.trace@ =~= old(self).inst.trace@ + seq![BusEvent::WaitWhileBusy]
                + config_events(
                FunctionalMode::Mapped,
                command.send_instruction_once,
                command.ddr_mode,
                command.instruction,
                command.address,
                command.alternate_bytes,
                command.dummy_cycles,
                Some(command.data_mode),
            ),
    {
        self.wait_not_busy();

        Self::config(
            &mut self.inst,
            FunctionalMode::Mapped,
            command.send_instruction_once,
            command.ddr_mode,
            command.instruction,
            command.address,
            command.alternate_bytes,
            command.dummy_cycles,
            Some(command.data_mode),
        );
    }
}

} // verus!
