//! Argument encoding: little-endian reconstruction and width round trips.

use quadspi::argument::CommandArgumentData;

#[test]
fn to_u32_one_byte() {
    assert_eq!(CommandArgumentData::OneByte([0xAB]).to_u32(), 0xAB);
}

#[test]
fn to_u32_two_bytes_little_endian() {
    assert_eq!(CommandArgumentData::TwoBytes([0x34, 0x12]).to_u32(), 0x1234);
}

#[test]
fn to_u32_three_bytes_little_endian() {
    assert_eq!(
        CommandArgumentData::ThreeBytes([0x00, 0x10, 0x00]).to_u32(),
        0x0010_00
    );
}

#[test]
fn to_u32_four_bytes_little_endian() {
    assert_eq!(
        CommandArgumentData::FourBytes([0x78, 0x56, 0x34, 0x12]).to_u32(),
        0x1234_5678
    );
}

#[test]
fn to_u32_zero_extends() {
    assert_eq!(CommandArgumentData::OneByte([0x00]).to_u32(), 0);
    assert_eq!(CommandArgumentData::TwoBytes([0xFF, 0xFF]).to_u32(), 0xFFFF);
    assert_eq!(
        CommandArgumentData::FourBytes([0xFF, 0xFF, 0xFF, 0xFF]).to_u32(),
        0xFFFF_FFFF
    );
}

#[test]
fn round_trip_truncated_value() {
    let v: u32 = 0xDEAD_BEEF;
    let b = v.to_le_bytes();
    assert_eq!(
        CommandArgumentData::OneByte([b[0]]).to_u32(),
        v % 0x100
    );
    assert_eq!(
        CommandArgumentData::TwoBytes([b[0], b[1]]).to_u32(),
        v % 0x1_0000
    );
    assert_eq!(
        CommandArgumentData::ThreeBytes([b[0], b[1], b[2]]).to_u32(),
        v % 0x100_0000
    );
    assert_eq!(
        CommandArgumentData::FourBytes([b[0], b[1], b[2], b[3]]).to_u32(),
        v
    );
}

#[test]
fn from_arrays() {
    assert_eq!(CommandArgumentData::from([0x01]).to_u32(), 0x01);
    assert_eq!(CommandArgumentData::from([0x01, 0x02]).to_u32(), 0x0201);
    assert_eq!(CommandArgumentData::from([0x01, 0x02, 0x03]).to_u32(), 0x030201);
    assert_eq!(
        CommandArgumentData::from([0x01, 0x02, 0x03, 0x04]).to_u32(),
        0x0403_0201
    );
}
