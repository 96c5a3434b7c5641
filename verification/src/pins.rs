//! Marker traits naming which physical signal line may serve which role of
//! the interface: the clock, the four data lines and the chip select of
//! each flash bank. A full pin set is any tuple whose members each carry
//! the right capability; the check is purely type-level and has no runtime
//! behavior.

use vstd::prelude::*;

verus! {

/// A complete, electrically valid set of pins for the interface.
pub trait Pins {

}

/// A line that may carry the interface clock.
pub trait PinClk {

}

/// A line that may carry bank 1's data line 0.
pub trait PinIo0Bank1 {

}

/// A line that may carry bank 1's data line 1.
pub trait PinIo1Bank1 {

}

/// A line that may carry bank 1's data line 2.
pub trait PinIo2Bank1 {

}

/// A line that may carry bank 1's data line 3.
pub trait PinIo3Bank1 {

}

/// A line that may carry bank 1's chip select.
pub trait PinNcsBank1 {

}

/// A line that may carry bank 2's data line 0.
pub trait PinIo0Bank2 {

}

/// A line that may carry bank 2's data line 1.
pub trait PinIo1Bank2 {

}

/// A line that may carry bank 2's data line 2.
pub trait PinIo2Bank2 {

}

/// A line that may carry bank 2's data line 3.
pub trait PinIo3Bank2 {

}

/// A line that may carry bank 2's chip select.
pub trait PinNcsBank2 {

}

/// A filler type for when the bank 1 chip-select pin is also used for
/// bank 2.
pub struct SharedNcs;

impl PinNcsBank2 for SharedNcs {

}

impl<
    CLK,
    IO0BANK1,
    IO1BANK1,
    IO2BANK1,
    IO3BANK1,
    NCSBANK1,
    IO0BANK2,
    IO1BANK2,
    IO2BANK2,
    IO3BANK2,
> Pins for (
    CLK,
    IO0BANK1,
    IO1BANK1,
    IO2BANK1,
    IO3BANK1,
    NCSBANK1,
    IO0BANK2,
    IO1BANK2,
    IO2BANK2,
    IO3BANK2,
) where
    CLK: PinClk,
    IO0BANK1: PinIo0Bank1,
    IO1BANK1: PinIo1Bank1,
    IO2BANK1: PinIo2Bank1,
    IO3BANK1: PinIo3Bank1,
    NCSBANK1: PinNcsBank1,
    IO0BANK2: PinIo0Bank2,
    IO1BANK2: PinIo1Bank2,
    IO2BANK2: PinIo2Bank2,
    IO3BANK2: PinIo3Bank2,
{

}

} // verus!
