//! The archive: its header, its lumps, and a cursor over them.

use vstd::prelude::*;
use crate::dir::{lemma_directory_counts, lemma_load_lumps_stops, lemma_parse_records,
    load_lumps, lump_bytes, parse_directory, parse_records, read_lump, read_records,
    record_views, DirectoryView, RecordView};
use crate::error::{FormatError, IoError, WadError};
use crate::utils::{le_u32, u8ref_to_u32};

verus! {

/// The kind of archive, read from the four-byte tag at its start.
#[derive(Debug, Copy, Clone, PartialEq, Eq, Structural)]
pub enum WadType {
    /// A complete game archive with the Doom directory layout.
    IWAD,
    /// A patch archive with the Doom directory layout.
    PWAD,
    /// An archive with the Quake directory layout.
    WAD2,
}

/// How the bytes of a lump are stored. Only uncompressed storage is implemented.
#[derive(Debug, Copy, Clone, PartialEq, Eq, Structural)]
pub enum CompressionType {
    /// The bytes in the archive are the bytes of the lump.
    Uncompressed,
}

/// What a lump holds, as far as the directory tells.
#[derive(Debug, Copy, Clone, PartialEq, Eq, Structural)]
pub enum LumpDataType {
    /// A lump of a Doom-style archive, whose directory carries no type.
    Doom,
    /// A lump without data, used as a named delimiter.
    Marker,
    Palette,
    StatusBar,
    Texture,
    ConsolePic,
}

/// Length of the header in bytes.
pub const HEADER_SIZE: usize = 12;

/// The mathematical content of a header.
pub struct HeaderView {
    pub kind: WadType,
    pub lump_count: nat,
    pub dir_offset: nat,
}

/// The archive kind that a four-byte tag names, if any: the ASCII codes of `IWAD`,
/// `PWAD` or `WAD2`.
pub open spec fn magic_kind(b0: u8, b1: u8, b2: u8, b3: u8) -> Option<WadType> {
    if b0 == 0x49 && b1 == 0x57 && b2 == 0x41 && b3 == 0x44 {
        Some(WadType::IWAD)
    } else if b0 == 0x50 && b1 == 0x57 && b2 == 0x41 && b3 == 0x44 {
        Some(WadType::PWAD)
    } else if b0 == 0x57 && b1 == 0x41 && b2 == 0x44 && b3 == 0x32 {
        Some(WadType::WAD2)
    } else {
        None
    }
}

/// What the first twelve bytes of `source` say: the tag, then the lump count and the
/// directory offset as little-endian 32-bit numbers.
pub open spec fn parse_header(source: Seq<u8>) -> Result<HeaderView, WadError> {
    if source.len() < 12 {
        Err(WadError::Io(IoError::Header))
    } else {
        match magic_kind(source[0], source[1], source[2], source[3]) {
            None => Err(
                WadError::Format(
                    FormatError::Magic { bytes: [source[0], source[1], source[2], source[3]] },
                ),
            ),
            Some(kind) => Ok(
                HeaderView {
                    kind,
                    lump_count: le_u32(source[4], source[5], source[6], source[7]) as nat,
                    dir_offset: le_u32(source[8], source[9], source[10], source[11]) as nat,
                },
            ),
        }
    }
}

/// The lump count and the directory offset of a header fit in 32 bits.
pub proof fn lemma_header_bounds(source: Seq<u8>)
    ensures
        parse_header(source) matches Ok(header) ==> header.lump_count <= u32::MAX
            && header.dir_offset <= u32::MAX,
{
}

/// The parsed header of an archive.
pub struct WadHeader {
    wad_type: WadType,
    num_lumps: usize,
    dir_offset: usize,
}

impl View for WadHeader {
    type V = HeaderView;

    closed spec fn view(&self) -> HeaderView {
        HeaderView {
            kind: self.wad_type,
            lump_count: self.num_lumps as nat,
            dir_offset: self.dir_offset as nat,
        }
    }
}

impl WadHeader {
    /// Reads the header from the start of `source`.
    pub fn from_bytes(source: &[u8]) -> (r: Result<WadHeader, WadError>)
        ensures
            match r {
                Ok(h) => parse_header(source@) == Ok::<HeaderView, WadError>(h@),
                Err(e) => parse_header(source@) == Err::<HeaderView, WadError>(e),
            },
    {
        if source.len() < HEADER_SIZE {
            return Err(WadError::Io(IoError::Header));
        }
        let b0: u8 = source[0];
        let b1: u8 = source[1];
        let b2: u8 = source[2];
        let b3: u8 = source[3];
        let wad_type: WadType = if b0 == 0x49 && b1 == 0x57 && b2 == 0x41 && b3 == 0x44 {
            WadType::IWAD
        } else if b0 == 0x50 && b1 == 0x57 && b2 == 0x41 && b3 == 0x44 {
            WadType::PWAD
        } else if b0 == 0x57 && b1 == 0x41 && b2 == 0x44 && b3 == 0x32 {
            WadType::WAD2
        } else {
            return Err(WadError::Format(FormatError::Magic { bytes: [b0, b1, b2, b3] }));
        };
        let num_lumps: usize = u8ref_to_u32(vstd::slice::slice_subrange(source, 4, 8)) as usize;
        let dir_offset: usize = u8ref_to_u32(vstd::slice::slice_subrange(source, 8, 12)) as usize;
        Ok(WadHeader { wad_type, num_lumps, dir_offset })
    }

    /// The kind of the archive.
    pub fn wad_type(&self) -> (r: WadType)
        ensures
            r == self@.kind,
    {
        self.wad_type
    }

    /// The number of lumps that the directory lists.
    pub fn num_lumps(&self) -> (r: usize)
        ensures
            r == self@.lump_count,
    {
        self.num_lumps
    }

    /// The byte offset at which the directory starts.
    pub fn dir_offset(&self) -> (r: usize)
        ensures
            r == self@.dir_offset,
    {
        self.dir_offset
    }
}

/// The mathematical content of the data of a lump.
pub struct LumpDataView {
    pub bytes: Seq<u8>,
    /// `Marker` for a lump without bytes, else the type that the directory declares.
    pub data_type: LumpDataType,
    pub compression: CompressionType,
}

/// The mathematical content of a lump.
pub struct LumpView {
    pub name: Seq<char>,
    pub data: LumpDataView,
}

/// The mathematical content of an archive.
pub struct WadView {
    pub header: HeaderView,
    /// The lumps, in directory order.
    pub lumps: Seq<LumpView>,
}

impl WadView {
    /// The names of the lumps, in directory order.
    pub open spec fn names(self) -> Seq<Seq<char>> {
        self.lumps.map_values(|lump: LumpView| lump.name)
    }
}

/// The lump that a directory record and the bytes that it points to make up. A lump
/// without bytes is a marker, whatever the record declares.
pub open spec fn lump_of(record: RecordView, bytes: Seq<u8>) -> LumpView {
    LumpView {
        name: record.name,
        data: LumpDataView {
            bytes,
            data_type: if bytes.len() == 0 {
                LumpDataType::Marker
            } else {
                record.entry_type
            },
            compression: record.compression,
        },
    }
}

/// The lumps of a directory, in directory order.
pub open spec fn lumps_of(directory: DirectoryView) -> Seq<LumpView> {
    Seq::new(directory.lumps.len(), |i: int| lump_of(directory.lumps[i], directory.cache[i]))
}

/// The archive that `source` holds: the header, then the directory that the header
/// describes, then the bytes of every lump.
pub open spec fn parse_wad(source: Seq<u8>) -> Result<WadView, WadError> {
    match parse_header(source) {
        Err(e) => Err(e),
        Ok(header) => match parse_directory(source, header) {
            Err(e) => Err(e),
            Ok(directory) => Ok(WadView { header, lumps: lumps_of(directory) }),
        },
    }
}

/// An archive that parses has as many lumps as its header counts, and a lump is a marker
/// exactly when it has no bytes.
pub proof fn lemma_wad_counts(source: Seq<u8>)
    ensures
        parse_wad(source) matches Ok(wad) ==> {
            &&& wad.lumps.len() == wad.header.lump_count
            &&& forall|i: int|
                0 <= i < wad.lumps.len() ==> ((#[trigger] wad.lumps[i]).data.data_type
                    == LumpDataType::Marker <==> wad.lumps[i].data.bytes.len() == 0)
        },
{
    if let Ok(header) = parse_header(source) {
        lemma_directory_counts(source, header);
        lemma_parse_records(source, header, header.lump_count);
    }
}

/// The bytes of a lump with what the directory says of them.
pub struct LumpData {
    bytes: Vec<u8>,
    data_type: LumpDataType,
    compression: CompressionType,
}

impl View for LumpData {
    type V = LumpDataView;

    closed spec fn view(&self) -> LumpDataView {
        LumpDataView {
            bytes: self.bytes@,
            data_type: self.data_type,
            compression: self.compression,
        }
    }
}

impl LumpData {
    /// A lump is a marker exactly when it has no bytes.
    #[verifier::type_invariant]
    closed spec fn well_formed(&self) -> bool {
        self.data_type == LumpDataType::Marker <==> self.bytes@.len() == 0
    }

    /// The number of bytes.
    pub fn len(&self) -> (r: usize)
        ensures
            r == self@.bytes.len(),
            r == 0 <==> self@.data_type == LumpDataType::Marker,
    {
        proof {
            use_type_invariant(self);
        }
        self.bytes.len()
    }

    /// The bytes.
    pub fn bytes(&self) -> (r: &[u8])
        ensures
            r@ == self@.bytes,
    {
        self.bytes.as_slice()
    }

    /// What the lump holds: `Marker` exactly when it has no bytes.
    pub fn data_type(&self) -> (r: LumpDataType)
        ensures
            r == self@.data_type,
            r == LumpDataType::Marker <==> self@.bytes.len() == 0,
    {
        proof {
            use_type_invariant(self);
        }
        self.data_type
    }

    /// How the bytes are stored.
    pub fn compression_type(&self) -> (r: CompressionType)
        ensures
            r == self@.compression,
    {
        self.compression
    }
}

/// A named lump.
pub struct Lump {
    name: String,
    data: LumpData,
}

impl View for Lump {
    type V = LumpView;

    closed spec fn view(&self) -> LumpView {
        LumpView { name: self.name@, data: self.data@ }
    }
}

impl Lump {
    /// The name of the lump.
    pub fn name(&self) -> (r: String)
        ensures
            r@ == self@.name,
    {
        self.name.clone()
    }

    /// The data of the lump.
    pub fn data(&self) -> (r: &LumpData)
        ensures
            r@ == self@.data,
    {
        &self.data
    }
}

/// The views of a sequence of lumps.
pub open spec fn lump_views(lumps: Seq<Lump>) -> Seq<LumpView> {
    lumps.map_values(|lump: Lump| lump@)
}

/// An archive, wholly in memory.
pub struct Wad {
    header: WadHeader,
    lumps: Vec<Lump>,
}

impl View for Wad {
    type V = WadView;

    closed spec fn view(&self) -> WadView {
        WadView { header: self.header@, lumps: lump_views(self.lumps@) }
    }
}

impl Wad {
    /// There are as many lumps as the header counts.
    #[verifier::type_invariant]
    closed spec fn well_formed(&self) -> bool {
        self.lumps@.len() == self.header.num_lumps
    }

    /// Reads an archive from the bytes of a file.
    pub fn from_bytes(source: &[u8]) -> (r: Result<Wad, WadError>)
        ensures
            match r {
                Ok(wad) => {
                    &&& parse_wad(source@) == Ok::<WadView, WadError>(wad@)
                    &&& wad@.lumps.len() == wad@.header.lump_count
                },
                Err(e) => parse_wad(source@) == Err::<WadView, WadError>(e),
            },
    {
        let header: WadHeader = match WadHeader::from_bytes(source) {
            Err(e) => {
                return Err(e);
            },
            Ok(header) => header,
        };
        let records = match read_records(source, &header) {
            Err(e) => {
                return Err(e);
            },
            Ok(records) => records,
        };
        let ghost described = record_views(records@);
        let ghost mut cache: Seq<Seq<u8>> = Seq::empty();
        let mut lumps: Vec<Lump> = Vec::new();
        let mut index: usize = 0;
        proof {
            lemma_parse_records(source@, header@, header@.lump_count);
        }
        while index < records.len()
            invariant
                index <= records@.len(),
                described == record_views(records@),
                described.len() == header@.lump_count,
                parse_header(source@) == Ok::<HeaderView, WadError>(header@),
                parse_records(source@, header@, header@.lump_count) == Ok::<
                    Seq<RecordView>,
                    WadError,
                >(described),
                load_lumps(source@, described, index as nat) == Ok::<Seq<Seq<u8>>, WadError>(
                    cache,
                ),
                cache.len() == index,
                lumps@.len() == index,
                forall|i: int|
                    0 <= i < described.len() ==> (#[trigger] described[i]).entry_type
                        != LumpDataType::Marker,
                forall|i: int|
                    0 <= i < index ==> (#[trigger] lumps@[i])@ == lump_of(described[i], cache[i]),
            decreases records@.len() - index,
        {
            let record = &records[index];
            proof {
                assert(described[index as int] == record@);
                if lump_bytes(source@, record@) is Err {
                    lemma_load_lumps_stops(source@, described, index as nat, described.len());
                }
            }
            let bytes: Vec<u8> = match read_lump(source, record) {
                Err(e) => {
                    return Err(e);
                },
                Ok(bytes) => bytes,
            };
            let data_type: LumpDataType = if bytes.len() == 0 {
                LumpDataType::Marker
            } else {
                record.entry_type()
            };
            proof {
                cache = cache.push(bytes@);
            }
            lumps.push(
                Lump {
                    name: record.name(),
                    data: LumpData { bytes, data_type, compression: record.compression_type() },
                },
            );
            index = index + 1;
        }
        proof {
            let directory = DirectoryView { lumps: described, cache };
            assert(parse_directory(source@, header@) == Ok::<DirectoryView, WadError>(directory));
            assert(lump_views(lumps@) =~= lumps_of(directory));
        }
        Ok(Wad { header, lumps })
    }

    /// The header of the archive.
    pub fn get_header(&self) -> (r: &WadHeader)
        ensures
            r@ == self@.header,
    {
        &self.header
    }

    /// The lumps of the archive, in directory order.
    pub fn lumps(&self) -> (r: &Vec<Lump>)
        ensures
            lump_views(r@) == self@.lumps,
            r@.len() == self@.header.lump_count,
    {
        proof {
            use_type_invariant(self);
        }
        &self.lumps
    }

    /// The entry at `index`, if the archive has that many lumps.
    pub fn get_at_index(&self, index: usize) -> (r: Option<Entry<'_>>)
        ensures
            r is Some <==> index < self@.lumps.len(),
            r matches Some(entry) ==> entry@ == (EntryView { wad: self@, index: index as nat }),
    {
        Entry::from_index(self, index)
    }

    /// The entry of the first lump in directory order whose name is `name`, byte for byte.
    pub fn get_by_name(&self, name: &str) -> (r: Option<Entry<'_>>)
        ensures
            match r {
                Some(entry) => {
                    &&& entry@.wad == self@
                    &&& entry@.index < self@.lumps.len()
                    &&& self@.lumps[entry@.index as int].name == name@
                    &&& forall|j: int| 0 <= j < entry@.index ==> self@.lumps[j].name != name@
                },
                None => forall|j: int| 0 <= j < self@.lumps.len() ==> self@.lumps[j].name != name@,
            },
    {
        Entry::by_name(self, name)
    }
}

/// The mathematical content of an entry: an archive and a position in its directory.
pub struct EntryView {
    pub wad: WadView,
    pub index: nat,
}

impl EntryView {
    /// The lump that the entry stands at.
    pub open spec fn lump(self) -> LumpView {
        self.wad.lumps[self.index as int]
    }
}

/// A position in the directory of an archive. It borrows the archive and copies nothing.
#[derive(Copy, Clone)]
pub struct Entry<'a> {
    wad: &'a Wad,
    index: usize,
}

impl<'a> View for Entry<'a> {
    type V = EntryView;

    closed spec fn view(&self) -> EntryView {
        EntryView { wad: self.wad@, index: self.index as nat }
    }
}

impl<'a> Entry<'a> {
    /// The position is one of the archive's lumps.
    #[verifier::type_invariant]
    closed spec fn well_formed(&self) -> bool {
        self.index < self.wad.lumps@.len()
    }

    /// The archive that the entry belongs to.
    pub fn owner(&self) -> (r: &'a Wad)
        ensures
            r@ == self@.wad,
    {
        self.wad
    }

    /// The position of the entry in the directory, from 0.
    pub fn index(&self) -> (r: usize)
        ensures
            r == self@.index,
            r < self@.wad.lumps.len(),
    {
        proof {
            use_type_invariant(self);
        }
        self.index
    }

    /// The lump that the entry stands at.
    pub fn lump(&self) -> (r: &'a Lump)
        ensures
            self@.index < self@.wad.lumps.len(),
            r@ == self@.lump(),
    {
        proof {
            use_type_invariant(self);
        }
        &self.wad.lumps[self.index]
    }

    /// The entry at `index` of `wad`, if `wad` has that many lumps.
    pub fn from_index(wad: &'a Wad, index: usize) -> (r: Option<Entry<'a>>)
        ensures
            r is Some <==> index < wad@.lumps.len(),
            r matches Some(entry) ==> entry@ == (EntryView { wad: wad@, index: index as nat }),
    {
        if index >= wad.lumps.len() {
            return None;
        }
        Some(Entry { wad, index })
    }

    /// The entry of the first lump of `wad` in directory order whose name is `name`, byte
    /// for byte.
    pub fn by_name(wad: &'a Wad, name: &str) -> (r: Option<Entry<'a>>)
        ensures
            match r {
                Some(entry) => {
                    &&& entry@.wad == wad@
                    &&& entry@.index < wad@.lumps.len()
                    &&& wad@.lumps[entry@.index as int].name == name@
                    &&& forall|j: int| 0 <= j < entry@.index ==> wad@.lumps[j].name != name@
                },
                None => forall|j: int| 0 <= j < wad@.lumps.len() ==> wad@.lumps[j].name != name@,
            },
    {
        let wanted: String = name.to_owned();
        let mut index: usize = 0;
        while index < wad.lumps.len()
            invariant
                index <= wad.lumps@.len(),
                wanted@ == name@,
                forall|j: int| 0 <= j < index ==> wad@.lumps[j].name != name@,
            decreases wad.lumps@.len() - index,
        {
            if wad.lumps[index].name == wanted {
                return Some(Entry { wad, index });
            }
            index = index + 1;
        }
        None
    }

    /// Steps to the next lump in directory order and returns the entry there. At the last
    /// lump the entry stays where it is and `None` is returned.
    pub fn next(&mut self) -> (r: Option<Entry<'a>>)
        ensures
            final(self)@.wad == old(self)@.wad,
            old(self)@.index < old(self)@.wad.lumps.len(),
            match r {
                Some(entry) => {
                    &&& old(self)@.index + 1 < old(self)@.wad.lumps.len()
                    &&& final(self)@.index == old(self)@.index + 1
                    &&& entry@ == final(self)@
                },
                None => {
                    &&& old(self)@.index + 1 >= old(self)@.wad.lumps.len()
                    &&& final(self)@ == old(self)@
                },
            },
    {
        proof {
            use_type_invariant(&*self);
        }
        let count: usize = self.wad.lumps.len();
        let next_index: usize = self.index + 1;
        if next_index >= count {
            return None;
        }
        self.index = next_index;
        Some(Entry { wad: self.wad, index: next_index })
    }
}

} // verus!
