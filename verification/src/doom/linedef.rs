//! Linedefs: the line segments between vertexes that walls stand on.

use vstd::prelude::*;
use vstd::slice::slice_subrange;
use crate::doom::specials::LinedefSpecial;
use crate::doom::{count_records, le_bytes_16, lemma_le_bytes_16, read_i16_le, read_u16_le,
    record_bytes, record_count};
use crate::error::WadError;
use crate::utils::{le_i16, le_u16};
use crate::wad::Lump;

verus! {

/// Length in bytes of one linedef record.
pub const LINEDEF_SIZE: usize = 14;

/// Players and monsters cannot cross the line.
pub const IMPASSABLE: u16 = 0x0001;

/// Monsters cannot cross the line.
pub const BLOCKS_MONSTERS: u16 = 0x0002;

/// The line has a sector on both sides.
pub const TWO_SIDED: u16 = 0x0004;

/// The upper texture is drawn from the top down.
pub const UPPER_UNPEGGED: u16 = 0x0008;

/// The lower texture is drawn from the bottom up.
pub const LOWER_UNPEGGED: u16 = 0x0010;

/// The automap shows the line as a solid wall.
pub const SECRET: u16 = 0x0020;

/// Sound does not pass the line.
pub const BLOCKS_SOUND: u16 = 0x0040;

/// The automap never shows the line.
pub const NOT_SHOWN_ON_MAP: u16 = 0x0080;

/// The automap shows the line from the start.
pub const ALWAYS_SHOWN_ON_MAP: u16 = 0x0100;

/// The sidedef index that stands for "no sidedef".
pub const NO_SIDEDEF: i16 = -1;

/// The flag bits of a linedef. Every bit of the record is kept, also those without a name.
#[derive(Debug, Clone, Copy, PartialEq, Eq, Structural)]
pub struct LinedefFlags {
    bits: u16,
}

impl View for LinedefFlags {
    type V = u16;

    closed spec fn view(&self) -> u16 {
        self.bits
    }
}

impl LinedefFlags {
    /// The flags with exactly the bits of `bits` set.
    pub fn from_bits(bits: u16) -> (r: LinedefFlags)
        ensures
            r@ == bits,
    {
        LinedefFlags { bits }
    }

    /// The bits, as in the record.
    pub fn bits(&self) -> (r: u16)
        ensures
            r == self@,
    {
        self.bits
    }

    /// True when every bit of `mask` is set.
    pub fn contains(&self, mask: u16) -> (r: bool)
        ensures
            r == (self@ & mask == mask),
    {
        self.bits & mask == mask
    }
}

/// The mathematical content of a linedef.
pub struct LinedefView {
    /// The position of the start vertex among the vertexes of the map.
    pub vertex_1: int,
    /// The position of the end vertex among the vertexes of the map.
    pub vertex_2: int,
    /// The flag bits, as in the record.
    pub flags: u16,
    /// The classified special number.
    pub special: LinedefSpecial,
    /// The tag that ties the line to sectors.
    pub sector_tag: int,
    /// The position of the front sidedef among the sidedefs of the map, or -1 for none.
    pub sidedef_front: int,
    /// The position of the back sidedef among the sidedefs of the map, or -1 for none.
    pub sidedef_back: int,
}

/// The linedef that a 14-byte record encodes: two vertex indices, flags, special number
/// and sector tag (unsigned), then the front and the back sidedef index (signed), each a
/// little-endian 16-bit number.
pub open spec fn decode_linedef(raw: Seq<u8>) -> LinedefView {
    LinedefView {
        vertex_1: le_u16(raw[0], raw[1]),
        vertex_2: le_u16(raw[2], raw[3]),
        flags: le_u16(raw[4], raw[5]) as u16,
        special: LinedefSpecial::classify(le_u16(raw[6], raw[7]) as u16),
        sector_tag: le_u16(raw[8], raw[9]),
        sidedef_front: le_i16(raw[10], raw[11]),
        sidedef_back: le_i16(raw[12], raw[13]),
    }
}

/// The 14-byte record that encodes a linedef.
pub open spec fn encode_linedef(linedef: LinedefView) -> Seq<u8> {
    le_bytes_16(linedef.vertex_1) + le_bytes_16(linedef.vertex_2) + le_bytes_16(
        linedef.flags as int,
    ) + le_bytes_16(linedef.special.code() as int) + le_bytes_16(linedef.sector_tag)
        + le_bytes_16(linedef.sidedef_front) + le_bytes_16(linedef.sidedef_back)
}

/// The linedefs that a lump encodes, in file order.
pub open spec fn decode_linedefs(bytes: Seq<u8>) -> Result<Seq<LinedefView>, WadError> {
    match record_count(bytes.len(), 14) {
        Err(e) => Err(e),
        Ok(count) => Ok(Seq::new(count, |i: int| decode_linedef(record_bytes(bytes, 14, i)))),
    }
}

/// The lump that encodes a sequence of linedefs.
pub open spec fn encode_linedefs(linedefs: Seq<LinedefView>) -> Seq<u8> {
    Seq::new(14 * linedefs.len(), |k: int| encode_linedef(linedefs[k / 14])[k % 14])
}

/// Encoding the linedef that a record decodes to gives the record.
pub proof fn lemma_linedef_round_trip(raw: Seq<u8>)
    requires
        raw.len() == 14,
    ensures
        encode_linedef(decode_linedef(raw)) == raw,
{
    lemma_le_bytes_16(raw[0], raw[1]);
    lemma_le_bytes_16(raw[2], raw[3]);
    lemma_le_bytes_16(raw[4], raw[5]);
    lemma_le_bytes_16(raw[6], raw[7]);
    lemma_le_bytes_16(raw[8], raw[9]);
    lemma_le_bytes_16(raw[10], raw[11]);
    lemma_le_bytes_16(raw[12], raw[13]);
    LinedefSpecial::lemma_classify_keeps_code(le_u16(raw[6], raw[7]) as u16);
    assert(encode_linedef(decode_linedef(raw)) =~= raw);
}

/// Encoding the linedefs that a lump decodes to gives the lump, byte for byte.
pub proof fn lemma_linedefs_round_trip(bytes: Seq<u8>)
    ensures
        decode_linedefs(bytes) matches Ok(linedefs) ==> encode_linedefs(linedefs) == bytes,
{
    if let Ok(linedefs) = decode_linedefs(bytes) {
        assert forall|k: int| 0 <= k < bytes.len() implies encode_linedefs(linedefs)[k]
            == bytes[k] by {
            let raw = record_bytes(bytes, 14, k / 14);
            lemma_linedef_round_trip(raw);
            assert(raw[k % 14] == bytes[k]);
        }
        assert(encode_linedefs(linedefs) =~= bytes);
    }
}

/// A line segment between two vertexes.
#[derive(Debug, Clone, Copy, PartialEq, Eq)]
pub struct Linedef {
    vertex_index_1: u16,
    vertex_index_2: u16,
    linedef_flags: LinedefFlags,
    special: LinedefSpecial,
    sector_tag: u16,
    sidedef_index_front: i16,
    sidedef_index_back: i16,
}

impl View for Linedef {
    type V = LinedefView;

    closed spec fn view(&self) -> LinedefView {
        LinedefView {
            vertex_1: self.vertex_index_1 as int,
            vertex_2: self.vertex_index_2 as int,
            flags: self.linedef_flags@,
            special: self.special,
            sector_tag: self.sector_tag as int,
            sidedef_front: self.sidedef_index_front as int,
            sidedef_back: self.sidedef_index_back as int,
        }
    }
}

/// The views of a sequence of linedefs.
pub open spec fn linedef_views(linedefs: Seq<Linedef>) -> Seq<LinedefView> {
    linedefs.map_values(|linedef: Linedef| linedef@)
}

impl Linedef {
    /// The position of the start vertex among the vertexes of the map.
    pub fn vertex_index_1(&self) -> (r: u16)
        ensures
            r == self@.vertex_1,
    {
        self.vertex_index_1
    }

    /// The position of the end vertex among the vertexes of the map.
    pub fn vertex_index_2(&self) -> (r: u16)
        ensures
            r == self@.vertex_2,
    {
        self.vertex_index_2
    }

    /// The flags of the line.
    pub fn flags(&self) -> (r: LinedefFlags)
        ensures
            r@ == self@.flags,
    {
        self.linedef_flags
    }

    /// What crossing or using the line sets off.
    pub fn special(&self) -> (r: &LinedefSpecial)
        ensures
            *r == self@.special,
    {
        &self.special
    }

    /// The tag that ties the line to sectors.
    pub fn tag(&self) -> (r: u16)
        ensures
            r == self@.sector_tag,
    {
        self.sector_tag
    }

    /// The front sidedef index, as in the record: -1 stands for "no sidedef".
    pub fn sidedef_front(&self) -> (r: i16)
        ensures
            r == self@.sidedef_front,
    {
        self.sidedef_index_front
    }

    /// The back sidedef index, as in the record: -1 stands for "no sidedef".
    pub fn sidedef_back(&self) -> (r: i16)
        ensures
            r == self@.sidedef_back,
    {
        self.sidedef_index_back
    }

    /// The position of the front sidedef among the sidedefs of the map. `None` where the
    /// record holds -1, which stands for "no sidedef", or another negative number, which
    /// is no position.
    pub fn front_sidedef(&self) -> (r: Option<u16>)
        ensures
            r is None <==> self@.sidedef_front < 0,
            r matches Some(index) ==> index == self@.sidedef_front,
    {
        if self.sidedef_index_front < 0 {
            None
        } else {
            Some(self.sidedef_index_front as u16)
        }
    }

    /// The position of the back sidedef among the sidedefs of the map. `None` where the
    /// record holds -1, which stands for "no sidedef", or another negative number, which
    /// is no position.
    pub fn back_sidedef(&self) -> (r: Option<u16>)
        ensures
            r is None <==> self@.sidedef_back < 0,
            r matches Some(index) ==> index == self@.sidedef_back,
    {
        if self.sidedef_index_back < 0 {
            None
        } else {
            Some(self.sidedef_index_back as u16)
        }
    }

    /// Decodes the linedefs that `bytes` hold.
    pub fn from_bytes(bytes: &[u8]) -> (r: Result<Vec<Linedef>, WadError>)
        ensures
            match r {
                Ok(linedefs) => decode_linedefs(bytes@) == Ok::<Seq<LinedefView>, WadError>(
                    linedef_views(linedefs@),
                ) && encode_linedefs(linedef_views(linedefs@)) == bytes@,
                Err(e) => decode_linedefs(bytes@) == Err::<Seq<LinedefView>, WadError>(e),
            },
    {
        let count: usize = match count_records(bytes.len(), LINEDEF_SIZE) {
            Err(e) => {
                return Err(e);
            },
            Ok(count) => count,
        };
        let mut linedefs: Vec<Linedef> = Vec::new();
        let mut index: usize = 0;
        while index < count
            invariant
                index <= count,
                count * 14 == bytes@.len(),
                bytes@.len() <= usize::MAX,
                linedefs@.len() == index,
                forall|i: int|
                    0 <= i < index ==> (#[trigger] linedefs@[i])@ == decode_linedef(
                        record_bytes(bytes@, 14, i),
                    ),
            decreases count - index,
        {
            let start: usize = index * LINEDEF_SIZE;
            let raw: &[u8] = slice_subrange(bytes, start, start + LINEDEF_SIZE);
            let vertex_index_1: u16 = read_u16_le(slice_subrange(raw, 0, 2));
            let vertex_index_2: u16 = read_u16_le(slice_subrange(raw, 2, 4));
            let linedef_flags: LinedefFlags = LinedefFlags::from_bits(
                read_u16_le(slice_subrange(raw, 4, 6)),
            );
            let special: LinedefSpecial = LinedefSpecial::from_type_number(
                read_u16_le(slice_subrange(raw, 6, 8)),
            );
            let sector_tag: u16 = read_u16_le(slice_subrange(raw, 8, 10));
            let sidedef_index_front: i16 = read_i16_le(slice_subrange(raw, 10, 12));
            let sidedef_index_back: i16 = read_i16_le(slice_subrange(raw, 12, 14));
            linedefs.push(
                Linedef {
                    vertex_index_1,
                    vertex_index_2,
                    linedef_flags,
                    special,
                    sector_tag,
                    sidedef_index_front,
                    sidedef_index_back,
                },
            );
            index = index + 1;
        }
        proof {
            assert(linedef_views(linedefs@) =~= Seq::new(
                count as nat,
                |i: int| decode_linedef(record_bytes(bytes@, 14, i)),
            ));
            lemma_linedefs_round_trip(bytes@);
        }
        Ok(linedefs)
    }

    /// Decodes the linedefs of a `LINEDEFS` lump.
    pub fn from_lump(lump: &Lump) -> (r: Result<Vec<Linedef>, WadError>)
        ensures
            match r {
                Ok(linedefs) => decode_linedefs(lump@.data.bytes) == Ok::<
                    Seq<LinedefView>,
                    WadError,
                >(linedef_views(linedefs@)),
                Err(e) => decode_linedefs(lump@.data.bytes) == Err::<Seq<LinedefView>, WadError>(
                    e,
                ),
            },
    {
        Linedef::from_bytes(lump.data().bytes())
    }
}

} // verus!
