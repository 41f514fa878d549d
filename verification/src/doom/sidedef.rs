//! Sidedefs: what one side of a linedef looks like. Only their size is known here, so a
//! sidedef keeps the bytes of its record.

use vstd::prelude::*;
use vstd::slice::{slice_subrange, slice_to_vec};
use crate::doom::{count_records, record_bytes, record_count};
use crate::error::WadError;
use crate::wad::Lump;

verus! {

/// Length in bytes of one sidedef record.
pub const SIDEDEF_SIZE: usize = 30;

/// The records of 30 bytes that a lump is made of, in file order.
pub open spec fn decode_sidedefs(bytes: Seq<u8>) -> Result<Seq<Seq<u8>>, WadError> {
    match record_count(bytes.len(), 30) {
        Err(e) => Err(e),
        Ok(count) => Ok(Seq::new(count, |i: int| record_bytes(bytes, 30, i))),
    }
}

/// One side of a linedef, undecoded.
#[derive(Debug, PartialEq, Eq)]
pub struct Sidedef {
    raw: Vec<u8>,
}

impl View for Sidedef {
    type V = Seq<u8>;

    closed spec fn view(&self) -> Seq<u8> {
        self.raw@
    }
}

/// The views of a sequence of sidedefs.
pub open spec fn sidedef_views(sidedefs: Seq<Sidedef>) -> Seq<Seq<u8>> {
    sidedefs.map_values(|sidedef: Sidedef| sidedef@)
}

impl Sidedef {
    /// The bytes of the record.
    pub fn bytes(&self) -> (r: &[u8])
        ensures
            r@ == self@,
    {
        self.raw.as_slice()
    }

    /// Cuts `bytes` into sidedef records.
    pub fn from_bytes(bytes: &[u8]) -> (r: Result<Vec<Sidedef>, WadError>)
        ensures
            match r {
                Ok(sidedefs) => decode_sidedefs(bytes@) == Ok::<Seq<Seq<u8>>, WadError>(
                    sidedef_views(sidedefs@),
                ),
                Err(e) => decode_sidedefs(bytes@) == Err::<Seq<Seq<u8>>, WadError>(e),
            },
    {
        let count: usize = match count_records(bytes.len(), SIDEDEF_SIZE) {
            Err(e) => {
                return Err(e);
            },
            Ok(count) => count,
        };
        let mut sidedefs: Vec<Sidedef> = Vec::new();
        let mut index: usize = 0;
        while index < count
            invariant
                index <= count,
                count * 30 == bytes@.len(),
                bytes@.len() <= usize::MAX,
                sidedefs@.len() == index,
                forall|i: int|
                    0 <= i < index ==> (#[trigger] sidedefs@[i])@ == record_bytes(bytes@, 30, i),
            decreases count - index,
        {
            let start: usize = index * SIDEDEF_SIZE;
            let raw: Vec<u8> = slice_to_vec(slice_subrange(bytes, start, start + SIDEDEF_SIZE));
            sidedefs.push(Sidedef { raw });
            index = index + 1;
        }
        proof {
            assert(sidedef_views(sidedefs@) =~= Seq::new(
                count as nat,
                |i: int| record_bytes(bytes@, 30, i),
            ));
        }
        Ok(sidedefs)
    }

    /// Cuts a `SIDEDEFS` lump into sidedef records.
    pub fn from_lump(lump: &Lump) -> (r: Result<Vec<Sidedef>, WadError>)
        ensures
            match r {
                Ok(sidedefs) => decode_sidedefs(lump@.data.bytes) == Ok::<Seq<Seq<u8>>, WadError>(
                    sidedef_views(sidedefs@),
                ),
                Err(e) => decode_sidedefs(lump@.data.bytes) == Err::<Seq<Seq<u8>>, WadError>(e),
            },
    {
        Sidedef::from_bytes(lump.data().bytes())
    }
}

} // verus!
