//! Vertexes: the points that linedefs run between.

use vstd::prelude::*;
use vstd::slice::slice_subrange;
use crate::doom::{count_records, le_bytes_16, lemma_le_bytes_16, read_i16_le, record_bytes,
    record_count, DoomPoint};
use crate::error::WadError;
use crate::utils::le_i16;
use crate::wad::Lump;

verus! {

/// Length in bytes of one vertex record.
pub const VERTEX_SIZE: usize = 4;

/// The vertex that a 4-byte record encodes: `x`, then `y`, each a little-endian signed
/// 16-bit number.
pub open spec fn decode_vertex(raw: Seq<u8>) -> (int, int) {
    (le_i16(raw[0], raw[1]), le_i16(raw[2], raw[3]))
}

/// The 4-byte record that encodes a vertex.
pub open spec fn encode_vertex(vertex: (int, int)) -> Seq<u8> {
    le_bytes_16(vertex.0) + le_bytes_16(vertex.1)
}

/// The vertexes that a lump encodes, in file order.
pub open spec fn decode_vertexes(bytes: Seq<u8>) -> Result<Seq<(int, int)>, WadError> {
    match record_count(bytes.len(), 4) {
        Err(e) => Err(e),
        Ok(count) => Ok(Seq::new(count, |i: int| decode_vertex(record_bytes(bytes, 4, i)))),
    }
}

/// The lump that encodes a sequence of vertexes.
pub open spec fn encode_vertexes(vertexes: Seq<(int, int)>) -> Seq<u8> {
    Seq::new(4 * vertexes.len(), |k: int| encode_vertex(vertexes[k / 4])[k % 4])
}

/// Encoding the vertex that a record decodes to gives the record.
pub proof fn lemma_vertex_round_trip(raw: Seq<u8>)
    requires
        raw.len() == 4,
    ensures
        encode_vertex(decode_vertex(raw)) == raw,
{
    lemma_le_bytes_16(raw[0], raw[1]);
    lemma_le_bytes_16(raw[2], raw[3]);
    assert(encode_vertex(decode_vertex(raw)) =~= raw);
}

/// Encoding the vertexes that a lump decodes to gives the lump, byte for byte.
pub proof fn lemma_vertexes_round_trip(bytes: Seq<u8>)
    ensures
        decode_vertexes(bytes) matches Ok(vertexes) ==> encode_vertexes(vertexes) == bytes,
{
    if let Ok(vertexes) = decode_vertexes(bytes) {
        assert forall|k: int| 0 <= k < bytes.len() implies encode_vertexes(vertexes)[k]
            == bytes[k] by {
            let raw = record_bytes(bytes, 4, k / 4);
            lemma_vertex_round_trip(raw);
            assert(raw[k % 4] == bytes[k]);
        }
        assert(encode_vertexes(vertexes) =~= bytes);
    }
}

/// A point that linedefs run between.
#[derive(Debug, Clone, Copy, PartialEq, Eq, Structural)]
pub struct Vertex {
    location: DoomPoint,
}

impl View for Vertex {
    type V = (int, int);

    closed spec fn view(&self) -> (int, int) {
        self.location@
    }
}

/// The views of a sequence of vertexes.
pub open spec fn vertex_views(vertexes: Seq<Vertex>) -> Seq<(int, int)> {
    vertexes.map_values(|vertex: Vertex| vertex@)
}

impl Vertex {
    /// The horizontal coordinate.
    pub fn x(&self) -> (r: i16)
        ensures
            r == self@.0,
    {
        self.location.x()
    }

    /// The vertical coordinate.
    pub fn y(&self) -> (r: i16)
        ensures
            r == self@.1,
    {
        self.location.y()
    }

    /// Decodes the vertexes that `bytes` hold.
    pub fn from_bytes(bytes: &[u8]) -> (r: Result<Vec<Vertex>, WadError>)
        ensures
            match r {
                Ok(vertexes) => decode_vertexes(bytes@) == Ok::<Seq<(int, int)>, WadError>(
                    vertex_views(vertexes@),
                ) && encode_vertexes(vertex_views(vertexes@)) == bytes@,
                Err(e) => decode_vertexes(bytes@) == Err::<Seq<(int, int)>, WadError>(e),
            },
    {
        let count: usize = match count_records(bytes.len(), VERTEX_SIZE) {
            Err(e) => {
                return Err(e);
            },
            Ok(count) => count,
        };
        let mut vertexes: Vec<Vertex> = Vec::new();
        let mut index: usize = 0;
        while index < count
            invariant
                index <= count,
                count * 4 == bytes@.len(),
                bytes@.len() <= usize::MAX,
                vertexes@.len() == index,
                forall|i: int|
                    0 <= i < index ==> (#[trigger] vertexes@[i])@ == decode_vertex(
                        record_bytes(bytes@, 4, i),
                    ),
            decreases count - index,
        {
            let start: usize = index * VERTEX_SIZE;
            let raw: &[u8] = slice_subrange(bytes, start, start + VERTEX_SIZE);
            let x: i16 = read_i16_le(slice_subrange(raw, 0, 2));
            let y: i16 = read_i16_le(slice_subrange(raw, 2, 4));
            vertexes.push(Vertex { location: DoomPoint::new(x, y) });
            index = index + 1;
        }
        proof {
            assert(vertex_views(vertexes@) =~= Seq::new(
                count as nat,
                |i: int| decode_vertex(record_bytes(bytes@, 4, i)),
            ));
            lemma_vertexes_round_trip(bytes@);
        }
        Ok(vertexes)
    }

    /// Decodes the vertexes of a `VERTEXES` lump.
    pub fn from_lump(lump: &Lump) -> (r: Result<Vec<Vertex>, WadError>)
        ensures
            match r {
                Ok(vertexes) => decode_vertexes(lump@.data.bytes) == Ok::<
                    Seq<(int, int)>,
                    WadError,
                >(vertex_views(vertexes@)),
                Err(e) => decode_vertexes(lump@.data.bytes) == Err::<Seq<(int, int)>, WadError>(e),
            },
    {
        Vertex::from_bytes(lump.data().bytes())
    }
}

} // verus!
