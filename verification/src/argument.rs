//! Variable-width numeric arguments for the address and alternate-bytes
//! phases: 1 to 4 raw bytes, read little-endian and zero-extended to 32 bits.
//! The byte width is part of the value and later selects the register size
//! code; it is never inferred from the numeric magnitude.

use vstd::prelude::*;

verus! {

/// Number of signal lines a phase uses on the bus.
#[derive(Clone, Copy)]
pub enum LineMode {
    Single,
    Dual,
    Quad,
}

/// Double-data-rate signaling for the whole transaction; `EnabledWithHold`
/// adds a data-hold behavior on top of plain DDR, encoded as an extra bit
/// rather than a separate mode.
#[derive(Clone, Copy, PartialEq, Eq, Structural, Debug)]
pub enum DdrMode {
    Disabled,
    Enabled,
    EnabledWithHold,
}

/// Raw bytes of an address or alternate-bytes phase, tagged with their width.
#[derive(Clone, Copy)]
pub enum CommandArgumentData {
    OneByte([u8; 1]),
    TwoBytes([u8; 2]),
    ThreeBytes([u8; 3]),
    FourBytes([u8; 4]),
}

/// Byte width of an argument, 1 to 4.
pub open spec fn arg_width(d: CommandArgumentData) -> int {
    match d {
        CommandArgumentData::OneByte(_) => 1,
        CommandArgumentData::TwoBytes(_) => 2,
        CommandArgumentData::ThreeBytes(_) => 3,
        CommandArgumentData::FourBytes(_) => 4,
    }
}

/// The stored bytes, least significant first.
pub open spec fn arg_bytes(d: CommandArgumentData) -> Seq<u8> {
    match d {
        CommandArgumentData::OneByte(x) => seq![x[0]],
        CommandArgumentData::TwoBytes(x) => seq![x[0], x[1]],
        CommandArgumentData::ThreeBytes(x) => seq![x[0], x[1], x[2]],
        CommandArgumentData::FourBytes(x) => seq![x[0], x[1], x[2], x[3]],
    }
}

/// Little-endian value of a byte sequence: the first byte is least
/// significant.
pub open spec fn le_value(bytes: Seq<u8>) -> int
    decreases bytes.len(),
{
    if bytes.len() == 0 {
        0
    } else {
        bytes[0] + 0x100 * le_value(bytes.skip(1))
    }
}

/// Canonical 32-bit value of an argument: its bytes little-endian,
/// zero-extended.
pub open spec fn arg_value(d: CommandArgumentData) -> int {
    match d {
        CommandArgumentData::OneByte(x) => x[0] as int,
        CommandArgumentData::TwoBytes(x) => x[0] + 0x100 * x[1],
        CommandArgumentData::ThreeBytes(x) => x[0] + 0x100 * x[1] + 0x1_0000 * x[2],
        CommandArgumentData::FourBytes(x) => x[0] + 0x100 * x[1] + 0x1_0000 * x[2]
            + 0x100_0000 * x[3],
    }
}

/// An argument built from the low `w` bytes of a 32-bit value, little-endian.
pub open spec fn arg_from_u32(w: int, v: u32) -> CommandArgumentData {
    let b0 = (v as int % 0x100) as u8;
    let b1 = (v as int / 0x100 % 0x100) as u8;
    let b2 = (v as int / 0x1_0000 % 0x100) as u8;
    let b3 = (v as int / 0x100_0000 % 0x100) as u8;
    if w == 1 {
        CommandArgumentData::OneByte([b0])
    } else if w == 2 {
        CommandArgumentData::TwoBytes([b0, b1])
    } else if w == 3 {
        CommandArgumentData::ThreeBytes([b0, b1, b2])
    } else {
        CommandArgumentData::FourBytes([b0, b1, b2, b3])
    }
}

/// One more than the largest value a `w`-byte argument can carry.
pub open spec fn width_modulus(w: int) -> int {
    if w == 1 {
        0x100
    } else if w == 2 {
        0x1_0000
    } else if w == 3 {
        0x100_0000
    } else {
        0x1_0000_0000
    }
}

impl CommandArgumentData {
    /// The canonical 32-bit value: the stored bytes little-endian,
    /// zero-extended.
    pub fn to_u32(&self) -> (r: u32)
        ensures
            r == arg_value(*self),
    {
        match self {
            CommandArgumentData::OneByte(x) => x[0] as u32,
            CommandArgumentData::TwoBytes(x) => x[0] as u32 + (x[1] as u32) * 0x100,
            CommandArgumentData::ThreeBytes(x) => x[0] as u32 + (x[1] as u32) * 0x100
                + (x[2] as u32) * 0x1_0000,
            CommandArgumentData::FourBytes(x) => x[0] as u32 + (x[1] as u32) * 0x100
                + (x[2] as u32) * 0x1_0000 + (x[3] as u32) * 0x100_0000,
        }
    }
}

/// `to_u32` reconstructs exactly the little-endian zero-extended value of the
/// stored bytes, for every width.
pub proof fn lemma_arg_value_is_le(d: CommandArgumentData)
    ensures
        arg_value(d) == le_value(arg_bytes(d)),
        0 <= arg_value(d) < width_modulus(arg_width(d)),
{
    reveal_with_fuel(le_value, 5);
    match d {
        CommandArgumentData::OneByte(x) => {
            assert(arg_bytes(d).skip(1) =~= Seq::<u8>::empty());
        },
        CommandArgumentData::TwoBytes(x) => {
            assert(arg_bytes(d).skip(1) =~= seq![x[1]]);
            assert(seq![x[1]].skip(1) =~= Seq::<u8>::empty());
        },
        CommandArgumentData::ThreeBytes(x) => {
            assert(arg_bytes(d).skip(1) =~= seq![x[1], x[2]]);
            assert(seq![x[1], x[2]].skip(1) =~= seq![x[2]]);
            assert(seq![x[2]].skip(1) =~= Seq::<u8>::empty());
        },
        CommandArgumentData::FourBytes(x) => {
            assert(arg_bytes(d).skip(1) =~= seq![x[1], x[2], x[3]]);
            assert(seq![x[1], x[2], x[3]].skip(1) =~= seq![x[2], x[3]]);
            assert(seq![x[2], x[3]].skip(1) =~= seq![x[3]]);
            assert(seq![x[3]].skip(1) =~= Seq::<u8>::empty());
        },
    }
}

/// Round trip: encoding the low `w` bytes of a 32-bit value and decoding
/// yields the value reduced modulo the width's range.
pub proof fn lemma_argument_round_trip(w: int, v: u32)
    requires
        1 <= w <= 4,
    ensures
        arg_width(arg_from_u32(w, v)) == w,
        arg_value(arg_from_u32(w, v)) == v as int % width_modulus(w),
{
    let n = v as int;
    assert(n == 0x100 * (n / 0x100) + n % 0x100) by (nonlinear_arith)
        requires n >= 0;
    assert(n / 0x100 / 0x100 == n / 0x1_0000) by (nonlinear_arith)
        requires n >= 0;
    assert(n / 0x1_0000 / 0x100 == n / 0x100_0000) by (nonlinear_arith)
        requires n >= 0;
    assert(n % 0x1_0000 == 0x100 * (n / 0x100 % 0x100) + n % 0x100) by (nonlinear_arith)
        requires n >= 0;
    assert(n % 0x100_0000 == 0x1_0000 * (n / 0x1_0000 % 0x100) + n % 0x1_0000)
        by (nonlinear_arith)
        requires n >= 0;
    assert(n % 0x1_0000_0000 == 0x100_0000 * (n / 0x100_0000 % 0x100) + n % 0x100_0000)
        by (nonlinear_arith)
        requires n >= 0;
    assert(n % 0x1_0000_0000 == n) by (nonlinear_arith)
        requires 0 <= n < 0x1_0000_0000;
}

impl From<[u8; 1]> for CommandArgumentData {
    fn from(value: [u8; 1]) -> (r: Self) {
        CommandArgumentData::OneByte(value)
    }
}

impl vstd::std_specs::convert::FromSpecImpl<[u8; 1]> for CommandArgumentData {
    open spec fn obeys_from_spec() -> bool {
        true
    }

    open spec fn from_spec(v: [u8; 1]) -> Self {
        CommandArgumentData::OneByte(v)
    }
}

impl From<[u8; 2]> for CommandArgumentData {
    fn from(value: [u8; 2]) -> (r: Self) {
        CommandArgumentData::TwoBytes(value)
    }
}

impl vstd::std_specs::convert::FromSpecImpl<[u8; 2]> for CommandArgumentData {
    open spec fn obeys_from_spec() -> bool {
        true
    }

    open spec fn from_spec(v: [u8; 2]) -> Self {
        CommandArgumentData::TwoBytes(v)
    }
}

impl From<[u8; 3]> for CommandArgumentData {
    fn from(value: [u8; 3]) -> (r: Self) {
        CommandArgumentData::ThreeBytes(value)
    }
}

impl vstd::std_specs::convert::FromSpecImpl<[u8; 3]> for CommandArgumentData {
    open spec fn obeys_from_spec() -> bool {
        true
    }

    open spec fn from_spec(v: [u8; 3]) -> Self {
        CommandArgumentData::ThreeBytes(v)
    }
}

impl From<[u8; 4]> for CommandArgumentData {
    fn from(value: [u8; 4]) -> (r: Self) {
        CommandArgumentData::FourBytes(value)
    }
}

impl vstd::std_specs::convert::FromSpecImpl<[u8; 4]> for CommandArgumentData {
    open spec fn obeys_from_spec() -> bool {
        true
    }

    open spec fn from_spec(v: [u8; 4]) -> Self {
        CommandArgumentData::FourBytes(v)
    }
}

} // verus!
