//! Register-level model of the quad-SPI peripheral. The model holds the
//! last value written to each configuration and transaction register, the
//! stream of bytes the attached flash device will hand back, and a trace of
//! every bus operation performed, in order. The trace is what makes the
//! register-write ordering and the polling protocol observable: whichever
//! register write has no later register write queued behind it is the one
//! that launches the transaction in hardware.
//!
//! Flag waits are modeled as single trace events: the hardware is assumed to
//! clear its busy flag and raise its completion and FIFO flags in bounded
//! time, so a spin on a flag completes and is recorded as one wait.

use vstd::prelude::*;

verus! {

/// Data-direction code of an indirect-write transaction.
pub const FMODE_INDIRECT_WRITE: u8 = 0;

/// Data-direction code of an indirect-read transaction.
pub const FMODE_INDIRECT_READ: u8 = 1;

/// Data-direction code of an automatic-polling transaction.
pub const FMODE_AUTOMATIC_POLLING: u8 = 2;

/// Data-direction code of a memory-mapped transaction.
pub const FMODE_MEMORY_MAPPED: u8 = 3;

/// Which of the two flash banks the peripheral drives, or both at once.
#[derive(Clone, Copy, PartialEq, Eq, Structural)]
pub enum FlashMode {
    Flash1,
    Flash2,
    Dual,
}

/// Clock phase and polarity between transactions.
#[derive(Clone, Copy, PartialEq, Eq, Structural)]
pub enum ClockMode {
    Mode0,
    Mode3,
}

/// Field values of the communication-configuration register. A phase-mode
/// field of 0 means the phase is absent; 1, 2 and 3 select one, two and
/// four lines. A size field of 0 to 3 selects an 8-, 16-, 24- or 32-bit
/// argument.
#[derive(Clone, Copy, PartialEq, Eq, Debug)]
pub struct ControlValue {
    /// Instruction opcode byte.
    pub instruction: u8,
    /// Instruction-phase line-width code.
    pub imode: u8,
    /// Address-phase line-width code.
    pub admode: u8,
    /// Address size code.
    pub adsize: u8,
    /// Alternate-bytes-phase line-width code.
    pub abmode: u8,
    /// Alternate-bytes size code.
    pub absize: u8,
    /// Dummy-cycle count, 0 to 31.
    pub dcyc: u8,
    /// Data-phase line-width code.
    pub dmode: u8,
    /// Functional-mode (data-direction) code.
    pub fmode: u8,
    /// Send the instruction only once for a run of transfers.
    pub sioo: bool,
    /// DDR data-hold bit.
    pub dhhc: bool,
    /// DDR enable bit.
    pub ddrm: bool,
}

/// The control register's value after reset: every field clear.
pub open spec fn control_reset() -> ControlValue {
    ControlValue {
        instruction: 0,
        imode: 0,
        admode: 0,
        adsize: 0,
        abmode: 0,
        absize: 0,
        dcyc: 0,
        dmode: 0,
        fmode: 0,
        sioo: false,
        dhhc: false,
        ddrm: false,
    }
}

/// One bus operation of the peripheral model, in the order performed.
#[derive(Clone, Copy, PartialEq, Eq, Debug)]
pub enum BusEvent {
    /// Spin on the busy flag until it clears.
    WaitWhileBusy,
    /// Program the data-length register (payload length minus one).
    WriteDataLength(u32),
    /// Write the alternate-bytes register.
    WriteAlternateBytes(u32),
    /// Write the communication-configuration register.
    WriteControl(ControlValue),
    /// Write the address register.
    WriteAddress(u32),
    /// Spin until the FIFO threshold or the transfer-complete flag is set.
    WaitFifoOrComplete,
    /// Consume one byte from the data register.
    ReadDataByte(u8),
    /// Spin until the FIFO threshold flag is set.
    WaitFifoThreshold,
    /// Push one byte into the data register.
    WriteDataByte(u8),
    /// Spin on the transfer-complete flag until it is set.
    WaitTransferComplete,
}

/// The peripheral: one-time setup fields, the transaction registers, the
/// byte stream the flash device answers reads with, and the operation trace.
pub struct QuadSpiPeripheral {
    /// Peripheral enable bit.
    pub enabled: bool,
    /// FIFO threshold, stored as the threshold minus one.
    pub fifo_threshold_m1: u8,
    /// Clock prescaler.
    pub prescaler: u8,
    /// Sample-shift bit.
    pub sample_shift: bool,
    /// Bank-2 select bit.
    pub flash_select_2: bool,
    /// Dual-flash bit.
    pub dual_flash: bool,
    /// Flash address-space size exponent.
    pub flash_size: u8,
    /// Chip-select high-time count.
    pub chip_select_high_time: u8,
    /// Clock mode-3 bit.
    pub clock_mode_3: bool,
    /// Alternate-bytes register.
    pub alternate_bytes_reg: u32,
    /// Communication-configuration register.
    pub control_reg: ControlValue,
    /// Address register.
    pub address_reg: u32,
    /// Data-length register.
    pub data_length_reg: u32,
    /// Bytes the flash device answers indirect reads with.
    pub rx: Vec<u8>,
    /// How many of those bytes have been consumed.
    pub rx_pos: usize,
    /// Every bus operation performed so far, oldest first.
    pub trace: Vec<BusEvent>,
}

/// The consumed prefix of the response stream never exceeds the stream.
pub open spec fn device_wf(p: &QuadSpiPeripheral) -> bool {
    p.rx_pos <= p.rx@.len()
}

/// The one-time setup fields of `b` are those of `a`.
pub open spec fn setup_unchanged(a: &QuadSpiPeripheral, b: &QuadSpiPeripheral) -> bool {
    &&& b.enabled == a.enabled
    &&& b.fifo_threshold_m1 == a.fifo_threshold_m1
    &&& b.prescaler == a.prescaler
    &&& b.sample_shift == a.sample_shift
    &&& b.flash_select_2 == a.flash_select_2
    &&& b.dual_flash == a.dual_flash
    &&& b.flash_size == a.flash_size
    &&& b.chip_select_high_time == a.chip_select_high_time
    &&& b.clock_mode_3 == a.clock_mode_3
}

/// The response stream and its cursor in `b` are those of `a`.
pub open spec fn stream_unchanged(a: &QuadSpiPeripheral, b: &QuadSpiPeripheral) -> bool {
    &&& b.rx@ == a.rx@
    &&& b.rx_pos == a.rx_pos
}

/// The transaction registers of `b` hold the values they hold in `a`.
pub open spec fn transaction_regs_unchanged(a: &QuadSpiPeripheral, b: &QuadSpiPeripheral) -> bool {
    &&& b.alternate_bytes_reg == a.alternate_bytes_reg
    &&& b.control_reg == a.control_reg
    &&& b.address_reg == a.address_reg
    &&& b.data_length_reg == a.data_length_reg
}

/// The `k`-th byte the data register will hand out next: the next unconsumed
/// response byte, or 0 once the stream is exhausted.
pub open spec fn pending_byte(p: &QuadSpiPeripheral, k: int) -> u8 {
    if p.rx_pos + k < p.rx@.len() {
        p.rx@[p.rx_pos + k]
    } else {
        0
    }
}

impl QuadSpiPeripheral {
    /// A peripheral fresh out of reset, with `rx` as the byte stream the
    /// attached flash device will answer indirect reads with.
    pub fn new(rx: Vec<u8>) -> (p: Self)
        ensures
            !p.enabled,
            p.fifo_threshold_m1 == 0,
            p.prescaler == 0,
            !p.sample_shift,
            !p.flash_select_2,
            !p.dual_flash,
            p.flash_size == 0,
            p.chip_select_high_time == 0,
            !p.clock_mode_3,
            p.alternate_bytes_reg == 0,
            p.control_reg == control_reset(),
            p.address_reg == 0,
            p.data_length_reg == 0,
            p.rx@ == rx@,
            p.rx_pos == 0,
            p.trace@ =~= Seq::<BusEvent>::empty(),
            device_wf(&p),
    {
        Self {
            enabled: false,
            fifo_threshold_m1: 0,
            prescaler: 0,
            sample_shift: false,
            flash_select_2: false,
            dual_flash: false,
            flash_size: 0,
            chip_select_high_time: 0,
            clock_mode_3: false,
            alternate_bytes_reg: 0,
            control_reg: ControlValue {
                instruction: 0,
                imode: 0,
                admode: 0,
                adsize: 0,
                abmode: 0,
                absize: 0,
                dcyc: 0,
                dmode: 0,
                fmode: 0,
                sioo: false,
                dhhc: false,
                ddrm: false,
            },
            address_reg: 0,
            data_length_reg: 0,
            rx,
            rx_pos: 0,
            trace: Vec::new(),
        }
    }

    /// Write the alternate-bytes register.
    pub fn write_abr(&mut self, value: u32)
        ensures
            final(self).alternate_bytes_reg == value,
            final(self).control_reg == old(self).control_reg,
            final(self).address_reg == old(self).address_reg,
            final(self).data_length_reg == old(self).data_length_reg,
            setup_unchanged(old(self), final(self)),
            stream_unchanged(old(self), final(self)),
            final(self).trace@ == old(self).trace@.push(BusEvent::WriteAlternateBytes(value)),
    {
        self.alternate_bytes_reg = value;
        self.trace.push(BusEvent::WriteAlternateBytes(value));
    }

    /// Write the communication-configuration register.
    pub fn write_ccr(&mut self, value: ControlValue)
        ensures
            final(self).control_reg == value,
            final(self).alternate_bytes_reg == old(self).alternate_bytes_reg,
            final(self).address_reg == old(self).address_reg,
            final(self).data_length_reg == old(self).data_length_reg,
            setup_unchanged(old(self), final(self)),
            stream_unchanged(old(self), final(self)),
            final(self).trace@ == old(self).trace@.push(BusEvent::WriteControl(value)),
    {
        self.control_reg = value;
        self.trace.push(BusEvent::WriteControl(value));
    }

    /// Write the address register.
    pub fn write_ar(&mut self, value: u32)
        ensures
            final(self).address_reg == value,
            final(self).alternate_bytes_reg == old(self).alternate_bytes_reg,
            final(self).control_reg == old(self).control_reg,
            final(self).data_length_reg == old(self).data_length_reg,
            setup_unchanged(old(self), final(self)),
            stream_unchanged(old(self), final(self)),
            final(self).trace@ == old(self).trace@.push(BusEvent::WriteAddress(value)),
    {
        self.address_reg = value;
        self.trace.push(BusEvent::WriteAddress(value));
    }

    /// Program the data-length register.
    pub fn write_dlr(&mut self, value: u32)
        ensures
            final(self).data_length_reg == value,
            final(self).alternate_bytes_reg == old(self).alternate_bytes_reg,
            final(self).control_reg == old(self).control_reg,
            final(self).address_reg == old(self).address_reg,
            setup_unchanged(old(self), final(self)),
            stream_unchanged(old(self), final(self)),
            final(self).trace@ == old(self).trace@.push(BusEvent::WriteDataLength(value)),
    {
        self.data_length_reg = value;
        self.trace.push(BusEvent::WriteDataLength(value));
    }

    /// Spin on the busy flag until it clears.
    pub fn wait_while_busy(&mut self)
        ensures
            transaction_regs_unchanged(old(self), final(self)),
            setup_unchanged(old(self), final(self)),
            stream_unchanged(old(self), final(self)),
            final(self).trace@ == old(self).trace@.push(BusEvent::WaitWhileBusy),
    {
        self.trace.push(BusEvent::WaitWhileBusy);
    }

    /// Spin on the transfer-complete flag until it is set.
    pub fn wait_transfer_complete(&mut self)
        ensures
            transaction_regs_unchanged(old(self), final(self)),
            setup_unchanged(old(self), final(self)),
            stream_unchanged(old(self), final(self)),
            final(self).trace@ == old(self).trace@.push(BusEvent::WaitTransferComplete),
    {
        self.trace.push(BusEvent::WaitTransferComplete);
    }

    /// Spin until the FIFO threshold or the transfer-complete flag is set.
    pub fn wait_fifo_or_complete(&mut self)
        ensures
            transaction_regs_unchanged(old(self), final(self)),
            setup_unchanged(old(self), final(self)),
            stream_unchanged(old(self), final(self)),
            final(self).trace@ == old(self).trace@.push(BusEvent::WaitFifoOrComplete),
    {
        self.trace.push(BusEvent::WaitFifoOrComplete);
    }

    /// Spin until the FIFO threshold flag is set.
    pub fn wait_fifo_threshold(&mut self)
        ensures
            transaction_regs_unchanged(old(self), final(self)),
            setup_unchanged(old(self), final(self)),
            stream_unchanged(old(self), final(self)),
            final(self).trace@ == old(self).trace@.push(BusEvent::WaitFifoThreshold),
    {
        self.trace.push(BusEvent::WaitFifoThreshold);
    }

    /// Consume one byte from the data register: the next unconsumed response
    /// byte, or 0 once the stream is exhausted.
    pub fn read_data_byte(&mut self) -> (b: u8)
        ensures
            b == pending_byte(old(self), 0),
            final(self).rx@ == old(self).rx@,
            final(self).rx_pos == if old(self).rx_pos < old(self).rx@.len() {
                old(self).rx_pos + 1
            } else {
                old(self).rx_pos as int
            },
            transaction_regs_unchanged(old(self), final(self)),
            setup_unchanged(old(self), final(self)),
            final(self).trace@ == old(self).trace@.push(BusEvent::ReadDataByte(b)),
    {
        let b: u8 = if self.rx_pos < self.rx.len() {
            let v: u8 = self.rx[self.rx_pos];
            self.rx_pos = self.rx_pos + 1;
            v
        } else {
            0
        };
        self.trace.push(BusEvent::ReadDataByte(b));
        b
    }

    /// Push one byte into the data register.
    pub fn write_data_byte(&mut self, byte: u8)
        ensures
            transaction_regs_unchanged(old(self), final(self)),
            setup_unchanged(old(self), final(self)),
            stream_unchanged(old(self), final(self)),
            final(self).trace@ == old(self).trace@.push(BusEvent::WriteDataByte(byte)),
    {
        self.trace.push(BusEvent::WriteDataByte(byte));
    }
}

} // verus!
