//! Doom levels: the lumps that make up a map, and the records in them.

use vstd::prelude::*;
use byteorder::{ByteOrder, LittleEndian};
use crate::error::{FormatError, WadError};
use crate::utils::{le_i16, le_u16};

pub mod linedef;
pub mod map;
pub mod sidedef;
pub mod specials;
pub mod thing;
pub mod types;
pub mod vertex;

verus! {

/// A point of the map, in map units.
#[derive(Debug, Clone, Copy, PartialEq, Eq, Structural)]
pub struct DoomPoint {
    x_position: i16,
    y_position: i16,
}

impl View for DoomPoint {
    type V = (int, int);

    closed spec fn view(&self) -> (int, int) {
        (self.x_position as int, self.y_position as int)
    }
}

impl DoomPoint {
    /// The horizontal coordinate.
    pub fn x(&self) -> (r: i16)
        ensures
            r == self@.0,
    {
        self.x_position
    }

    /// The vertical coordinate.
    pub fn y(&self) -> (r: i16)
        ensures
            r == self@.1,
    {
        self.y_position
    }

    /// The point at `x`, `y`.
    pub fn new(x: i16, y: i16) -> (r: DoomPoint)
        ensures
            r@ == (x as int, y as int),
    {
        DoomPoint { x_position: x, y_position: y }
    }
}

/// One of the eight compass headings that a thing can face.
#[derive(Debug, Clone, Copy, PartialEq, Eq, Structural)]
pub enum DoomDirection {
    /// The angle is none of the eight headings.
    Unknown,
    East,
    Northeast,
    North,
    Northwest,
    West,
    Southwest,
    South,
    Southeast,
}

impl DoomDirection {
    /// The heading at `angle` degrees, counted counterclockwise from east in steps of 45.
    pub open spec fn of_angle(angle: u16) -> DoomDirection {
        if angle == 0 {
            DoomDirection::East
        } else if angle == 45 {
            DoomDirection::Northeast
        } else if angle == 90 {
            DoomDirection::North
        } else if angle == 135 {
            DoomDirection::Northwest
        } else if angle == 180 {
            DoomDirection::West
        } else if angle == 225 {
            DoomDirection::Southwest
        } else if angle == 270 {
            DoomDirection::South
        } else if angle == 315 {
            DoomDirection::Southeast
        } else {
            DoomDirection::Unknown
        }
    }

    /// The heading at `angle` degrees; `Unknown` for an angle that is none of the eight.
    pub fn from_angle(angle: u16) -> (r: DoomDirection)
        ensures
            r == DoomDirection::of_angle(angle),
            r is Unknown <==> !(angle % 45 == 0 && angle < 360),
    {
        match angle {
            0 => DoomDirection::East,
            45 => DoomDirection::Northeast,
            90 => DoomDirection::North,
            135 => DoomDirection::Northwest,
            180 => DoomDirection::West,
            225 => DoomDirection::Southwest,
            270 => DoomDirection::South,
            315 => DoomDirection::Southeast,
            _ => DoomDirection::Unknown,
        }
    }
}

/// The two bytes that encode `value` as a little-endian 16-bit number, signed or unsigned.
pub open spec fn le_bytes_16(value: int) -> Seq<u8> {
    seq![(value % 256) as u8, ((value / 256) % 256) as u8]
}

/// Encoding a 16-bit number that was decoded from two bytes gives those bytes.
pub proof fn lemma_le_bytes_16(b0: u8, b1: u8)
    ensures
        le_bytes_16(le_u16(b0, b1)) == seq![b0, b1],
        le_bytes_16(le_i16(b0, b1)) == seq![b0, b1],
{
    assert(le_bytes_16(le_u16(b0, b1)) =~= seq![b0, b1]);
    assert(le_bytes_16(le_i16(b0, b1)) =~= seq![b0, b1]);
}

/// The `index`-th record of `stride` bytes in `bytes`.
pub open spec fn record_bytes(bytes: Seq<u8>, stride: int, index: int) -> Seq<u8> {
    bytes.subrange(index * stride, index * stride + stride)
}

/// The number of records of `stride` bytes that a lump of `len` bytes holds. A length
/// that is no multiple of `stride` is a format error.
pub open spec fn record_count(len: nat, stride: nat) -> Result<nat, WadError> {
    if len % stride == 0 {
        Ok(len / stride)
    } else {
        Err(WadError::Format(FormatError::RecordSize { len: len as usize, stride: stride as usize }))
    }
}

/// The number of records of `stride` bytes in a lump of `len` bytes.
pub fn count_records(len: usize, stride: usize) -> (r: Result<usize, WadError>)
    requires
        stride > 0,
    ensures
        match r {
            Ok(count) => record_count(len as nat, stride as nat) == Ok::<nat, WadError>(
                count as nat,
            ) && count * stride == len,
            Err(e) => record_count(len as nat, stride as nat) == Err::<nat, WadError>(e),
        },
{
    if len % stride != 0 {
        return Err(WadError::Format(FormatError::RecordSize { len, stride }));
    }
    let count: usize = len / stride;
    assert(count * stride == len) by (nonlinear_arith)
        requires
            len % stride == 0,
            count == len / stride,
            stride > 0,
    ;
    Ok(count)
}

/// `byteorder::LittleEndian::read_u16`, which reads the first two bytes of `buf` as an
/// unsigned number, lowest byte first, and panics on a shorter buffer.
#[verifier::external_body]
pub(crate) fn read_u16_le(buf: &[u8]) -> (r: u16)
    requires
        buf@.len() >= 2,
    ensures
        r as int == le_u16(buf@[0], buf@[1]),
{
    LittleEndian::read_u16(buf)
}

/// `byteorder::LittleEndian::read_i16`, which reads the first two bytes of `buf` as a
/// two's complement number, lowest byte first, and panics on a shorter buffer.
#[verifier::external_body]
pub(crate) fn read_i16_le(buf: &[u8]) -> (r: i16)
    requires
        buf@.len() >= 2,
    ensures
        r as int == le_i16(buf@[0], buf@[1]),
{
    LittleEndian::read_i16(buf)
}

} // verus!
