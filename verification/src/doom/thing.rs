//! Things: the objects placed in a level.

use vstd::prelude::*;
use vstd::slice::slice_subrange;
use crate::doom::types::ThingType;
use crate::doom::{count_records, le_bytes_16, lemma_le_bytes_16, read_i16_le, read_u16_le,
    record_bytes, record_count, DoomDirection, DoomPoint};
use crate::error::WadError;
use crate::utils::{le_i16, le_u16};
use crate::wad::{Entry, Lump};

verus! {

/// Length in bytes of one thing record.
pub const THING_SIZE: usize = 10;

/// The thing is present at the easy skill levels.
pub const EASY: u16 = 0x0001;

/// The thing is present at the medium skill level.
pub const MEDIUM: u16 = 0x0002;

/// The thing is present at the hard skill levels.
pub const HARD: u16 = 0x0004;

/// The thing waits in ambush.
pub const AMBUSH: u16 = 0x0008;

/// The thing is present in deathmatch games only.
pub const DM_ONLY: u16 = 0x0010;

/// The flag bits of a thing. Every bit of the record is kept, also those without a name.
#[derive(Debug, Clone, Copy, PartialEq, Eq, Structural)]
pub struct ThingFlags {
    bits: u16,
}

impl View for ThingFlags {
    type V = u16;

    closed spec fn view(&self) -> u16 {
        self.bits
    }
}

impl ThingFlags {
    /// The flags with exactly the bits of `bits` set.
    pub fn from_bits(bits: u16) -> (r: ThingFlags)
        ensures
            r@ == bits,
    {
        ThingFlags { bits }
    }

    /// The bits, as in the record.
    pub fn bits(&self) -> (r: u16)
        ensures
            r == self@,
    {
        self.bits
    }

    /// True when every bit of `mask` is set.
    pub fn contains(&self, mask: u16) -> (r: bool)
        ensures
            r == (self@ & mask == mask),
    {
        self.bits & mask == mask
    }
}

/// The mathematical content of a thing.
pub struct ThingView {
    pub x: int,
    pub y: int,
    /// The facing angle in degrees, as in the record.
    pub angle: u16,
    /// The classified type number.
    pub thing_type: ThingType,
    /// The flag bits, as in the record.
    pub flags: u16,
}

/// The thing that a 10-byte record encodes: `x`, `y` (signed), then angle, type number
/// and flags (unsigned), each a little-endian 16-bit number.
pub open spec fn decode_thing(raw: Seq<u8>) -> ThingView {
    ThingView {
        x: le_i16(raw[0], raw[1]),
        y: le_i16(raw[2], raw[3]),
        angle: le_u16(raw[4], raw[5]) as u16,
        thing_type: ThingType::classify(le_u16(raw[6], raw[7]) as u16),
        flags: le_u16(raw[8], raw[9]) as u16,
    }
}

/// The 10-byte record that encodes a thing.
pub open spec fn encode_thing(thing: ThingView) -> Seq<u8> {
    le_bytes_16(thing.x) + le_bytes_16(thing.y) + le_bytes_16(thing.angle as int) + le_bytes_16(
        thing.thing_type.code() as int,
    ) + le_bytes_16(thing.flags as int)
}

/// The things that a lump encodes, in file order.
pub open spec fn decode_things(bytes: Seq<u8>) -> Result<Seq<ThingView>, WadError> {
    match record_count(bytes.len(), 10) {
        Err(e) => Err(e),
        Ok(count) => Ok(Seq::new(count, |i: int| decode_thing(record_bytes(bytes, 10, i)))),
    }
}

/// The lump that encodes a sequence of things.
pub open spec fn encode_things(things: Seq<ThingView>) -> Seq<u8> {
    Seq::new(10 * things.len(), |k: int| encode_thing(things[k / 10])[k % 10])
}

/// Encoding the thing that a record decodes to gives the record.
pub proof fn lemma_thing_round_trip(raw: Seq<u8>)
    requires
        raw.len() == 10,
    ensures
        encode_thing(decode_thing(raw)) == raw,
{
    lemma_le_bytes_16(raw[0], raw[1]);
    lemma_le_bytes_16(raw[2], raw[3]);
    lemma_le_bytes_16(raw[4], raw[5]);
    lemma_le_bytes_16(raw[6], raw[7]);
    lemma_le_bytes_16(raw[8], raw[9]);
    ThingType::lemma_classify_keeps_code(le_u16(raw[6], raw[7]) as u16);
    assert(encode_thing(decode_thing(raw)) =~= raw);
}

/// Encoding the things that a lump decodes to gives the lump, byte for byte.
pub proof fn lemma_things_round_trip(bytes: Seq<u8>)
    ensures
        decode_things(bytes) matches Ok(things) ==> encode_things(things) == bytes,
{
    if let Ok(things) = decode_things(bytes) {
        assert forall|k: int| 0 <= k < bytes.len() implies encode_things(things)[k]
            == bytes[k] by {
            let raw = record_bytes(bytes, 10, k / 10);
            lemma_thing_round_trip(raw);
            assert(raw[k % 10] == bytes[k]);
        }
        assert(encode_things(things) =~= bytes);
    }
}

/// An object placed in a level.
#[derive(Debug, Clone, Copy, PartialEq, Eq)]
pub struct Thing {
    location: DoomPoint,
    angle: u16,
    thing_type: ThingType,
    thing_flags: ThingFlags,
}

impl View for Thing {
    type V = ThingView;

    closed spec fn view(&self) -> ThingView {
        ThingView {
            x: self.location@.0,
            y: self.location@.1,
            angle: self.angle,
            thing_type: self.thing_type,
            flags: self.thing_flags@,
        }
    }
}

/// The views of a sequence of things.
pub open spec fn thing_views(things: Seq<Thing>) -> Seq<ThingView> {
    things.map_values(|thing: Thing| thing@)
}

impl Thing {
    /// Where the thing stands.
    pub fn location(&self) -> (r: DoomPoint)
        ensures
            r@ == (self@.x, self@.y),
    {
        self.location
    }

    /// The facing angle in degrees, as in the record.
    pub fn angle(&self) -> (r: u16)
        ensures
            r == self@.angle,
    {
        self.angle
    }

    /// The heading that the thing faces; `Unknown` where the angle is none of the eight
    /// headings.
    pub fn direction(&self) -> (r: DoomDirection)
        ensures
            r == DoomDirection::of_angle(self@.angle),
    {
        DoomDirection::from_angle(self.angle)
    }

    /// What the thing is.
    pub fn thing_type(&self) -> (r: &ThingType)
        ensures
            *r == self@.thing_type,
    {
        &self.thing_type
    }

    /// The flags of the thing.
    pub fn flags(&self) -> (r: ThingFlags)
        ensures
            r@ == self@.flags,
    {
        self.thing_flags
    }

    /// Decodes the things that `bytes` hold.
    pub fn from_bytes(bytes: &[u8]) -> (r: Result<Vec<Thing>, WadError>)
        ensures
            match r {
                Ok(things) => decode_things(bytes@) == Ok::<Seq<ThingView>, WadError>(
                    thing_views(things@),
                ) && encode_things(thing_views(things@)) == bytes@,
                Err(e) => decode_things(bytes@) == Err::<Seq<ThingView>, WadError>(e),
            },
    {
        let count: usize = match count_records(bytes.len(), THING_SIZE) {
            Err(e) => {
                return Err(e);
            },
            Ok(count) => count,
        };
        let mut things: Vec<Thing> = Vec::new();
        let mut index: usize = 0;
        while index < count
            invariant
                index <= count,
                count * 10 == bytes@.len(),
                bytes@.len() <= usize::MAX,
                things@.len() == index,
                forall|i: int|
                    0 <= i < index ==> (#[trigger] things@[i])@ == decode_thing(
                        record_bytes(bytes@, 10, i),
                    ),
            decreases count - index,
        {
            let start: usize = index * THING_SIZE;
            let raw: &[u8] = slice_subrange(bytes, start, start + THING_SIZE);
            let x: i16 = read_i16_le(slice_subrange(raw, 0, 2));
            let y: i16 = read_i16_le(slice_subrange(raw, 2, 4));
            let angle: u16 = read_u16_le(slice_subrange(raw, 4, 6));
            let thing_type: ThingType = ThingType::from_type_number(
                read_u16_le(slice_subrange(raw, 6, 8)),
            );
            let thing_flags: ThingFlags = ThingFlags::from_bits(
                read_u16_le(slice_subrange(raw, 8, 10)),
            );
            things.push(Thing { location: DoomPoint::new(x, y), angle, thing_type, thing_flags });
            index = index + 1;
        }
        proof {
            assert(thing_views(things@) =~= Seq::new(
                count as nat,
                |i: int| decode_thing(record_bytes(bytes@, 10, i)),
            ));
            lemma_things_round_trip(bytes@);
        }
        Ok(things)
    }

    /// Decodes the things of a `THINGS` lump.
    pub fn from_lump(lump: &Lump) -> (r: Result<Vec<Thing>, WadError>)
        ensures
            match r {
                Ok(things) => decode_things(lump@.data.bytes) == Ok::<Seq<ThingView>, WadError>(
                    thing_views(things@),
                ),
                Err(e) => decode_things(lump@.data.bytes) == Err::<Seq<ThingView>, WadError>(e),
            },
    {
        Thing::from_bytes(lump.data().bytes())
    }

    /// Decodes the things of the `THINGS` lump that `lump` stands at.
    pub fn from_things_lump(lump: Entry) -> (r: Result<Vec<Thing>, WadError>)
        ensures
            match r {
                Ok(things) => decode_things(lump@.lump().data.bytes) == Ok::<
                    Seq<ThingView>,
                    WadError,
                >(thing_views(things@)),
                Err(e) => decode_things(lump@.lump().data.bytes) == Err::<
                    Seq<ThingView>,
                    WadError,
                >(e),
            },
    {
        Thing::from_lump(lump.lump())
    }
}

} // verus!
