//! The directory: one fixed-size record per lump, and the cache of lump data.

use vstd::prelude::*;
use vstd::slice::{slice_subrange, slice_to_vec};
use crate::error::{FormatError, IoError, UnsupportedFeature, WadError};
use crate::text::{ascii_chars, ascii_string, is_ascii_bytes, nul_position, trim_trailing_nuls,
    trimmed_len, until_nul};
use crate::utils::{le_u32, u8ref_to_u32};
use crate::wad::{CompressionType, HeaderView, LumpDataType, WadHeader, WadType};

verus! {

/// The mathematical content of a directory record.
pub struct RecordView {
    /// The name, without padding.
    pub name: Seq<char>,
    /// Where the data starts in the archive.
    pub offset: nat,
    /// The position of the record in the directory, from 0.
    pub index: nat,
    /// The number of bytes that the data takes in the archive.
    pub wad_size: nat,
    /// The number of bytes that the data takes in memory.
    pub mem_size: nat,
    /// The type that the record declares.
    pub entry_type: LumpDataType,
    /// The compression that the record declares.
    pub compression: CompressionType,
}

/// The mathematical content of a directory: its records, and for each the bytes of its lump.
pub struct DirectoryView {
    pub lumps: Seq<RecordView>,
    pub cache: Seq<Seq<u8>>,
}

/// The length in bytes of one directory record.
pub open spec fn record_size(kind: WadType) -> nat {
    match kind {
        WadType::WAD2 => 32,
        _ => 16,
    }
}

/// The lump type that a content-type byte names: `@`, `B`, `D` or `E`.
pub open spec fn content_type(code: u8) -> Option<LumpDataType> {
    if code == 0x40 {
        Some(LumpDataType::Palette)
    } else if code == 0x42 {
        Some(LumpDataType::StatusBar)
    } else if code == 0x44 {
        Some(LumpDataType::Texture)
    } else if code == 0x45 {
        Some(LumpDataType::ConsolePic)
    } else {
        None
    }
}

/// A 16-byte record of the Doom layout: offset, size, and an 8-byte name padded with NUL
/// bytes at its end.
pub open spec fn parse_standard_record(raw: Seq<u8>, index: nat) -> Result<RecordView, WadError> {
    let name = trim_trailing_nuls(raw.subrange(8, 16));
    let size = le_u32(raw[4], raw[5], raw[6], raw[7]) as nat;
    if !is_ascii_bytes(name) {
        Err(WadError::Format(FormatError::Name { index: index as usize }))
    } else {
        Ok(
            RecordView {
                name: ascii_chars(name),
                offset: le_u32(raw[0], raw[1], raw[2], raw[3]) as nat,
                index,
                wad_size: size,
                mem_size: size,
                entry_type: LumpDataType::Doom,
                compression: CompressionType::Uncompressed,
            },
        )
    }
}

/// A 32-byte record of the Quake layout: offset, size in the archive, size in memory, a
/// content-type byte, a compression byte, two unused bytes, and a 16-byte name that ends
/// at its first NUL byte.
pub open spec fn parse_extended_record(raw: Seq<u8>, index: nat) -> Result<RecordView, WadError> {
    let name = until_nul(raw.subrange(16, 32));
    match content_type(raw[12]) {
        None => Err(
            WadError::Format(FormatError::ContentType { index: index as usize, code: raw[12] }),
        ),
        Some(entry_type) => if raw[13] != 0 {
            Err(
                WadError::Unsupported(
                    UnsupportedFeature::Compression { index: index as usize, code: raw[13] },
                ),
            )
        } else if !is_ascii_bytes(name) {
            Err(WadError::Format(FormatError::Name { index: index as usize }))
        } else {
            Ok(
                RecordView {
                    name: ascii_chars(name),
                    offset: le_u32(raw[0], raw[1], raw[2], raw[3]) as nat,
                    index,
                    wad_size: le_u32(raw[4], raw[5], raw[6], raw[7]) as nat,
                    mem_size: le_u32(raw[8], raw[9], raw[10], raw[11]) as nat,
                    entry_type,
                    compression: CompressionType::Uncompressed,
                },
            )
        },
    }
}

/// The record that `raw` holds, in the layout of the archive kind.
pub open spec fn parse_record(kind: WadType, raw: Seq<u8>, index: nat) -> Result<
    RecordView,
    WadError,
> {
    match kind {
        WadType::WAD2 => parse_extended_record(raw, index),
        _ => parse_standard_record(raw, index),
    }
}

/// Where the record at `index` starts in the archive: records follow each other without
/// padding from the directory offset on.
pub open spec fn record_start(header: HeaderView, index: nat) -> nat {
    header.dir_offset + index * record_size(header.kind)
}

/// The record at `index` of the directory that `header` describes.
pub open spec fn record_at(source: Seq<u8>, header: HeaderView, index: nat) -> Result<
    RecordView,
    WadError,
> {
    let start = record_start(header, index);
    let end = start + record_size(header.kind);
    if end > source.len() {
        Err(WadError::Io(IoError::DirectoryRecord { index: index as usize }))
    } else {
        parse_record(header.kind, source.subrange(start as int, end as int), index)
    }
}

/// The first `count` records of the directory, or the error of the first one that fails.
pub open spec fn parse_records(source: Seq<u8>, header: HeaderView, count: nat) -> Result<
    Seq<RecordView>,
    WadError,
>
    decreases count,
{
    if count == 0 {
        Ok(Seq::empty())
    } else {
        match parse_records(source, header, (count - 1) as nat) {
            Err(e) => Err(e),
            Ok(records) => match record_at(source, header, (count - 1) as nat) {
                Err(e) => Err(e),
                Ok(record) => Ok(records.push(record)),
            },
        }
    }
}

/// The bytes of the lump that `record` describes. A record of size 0 has none, wherever
/// its offset points.
pub open spec fn lump_bytes(source: Seq<u8>, record: RecordView) -> Result<Seq<u8>, WadError> {
    if record.wad_size == 0 {
        Ok(Seq::empty())
    } else if record.offset + record.wad_size > source.len() {
        Err(WadError::Io(IoError::Lump { index: record.index as usize }))
    } else {
        Ok(source.subrange(record.offset as int, (record.offset + record.wad_size) as int))
    }
}

/// The bytes of the lumps of the first `count` records, or the error of the first one
/// that fails.
pub open spec fn load_lumps(source: Seq<u8>, records: Seq<RecordView>, count: nat) -> Result<
    Seq<Seq<u8>>,
    WadError,
>
    decreases count,
{
    if count == 0 {
        Ok(Seq::empty())
    } else {
        match load_lumps(source, records, (count - 1) as nat) {
            Err(e) => Err(e),
            Ok(cache) => match lump_bytes(source, records[count - 1]) {
                Err(e) => Err(e),
                Ok(bytes) => Ok(cache.push(bytes)),
            },
        }
    }
}

/// The directory of an archive: every record is read before any lump is loaded.
pub open spec fn parse_directory(source: Seq<u8>, header: HeaderView) -> Result<
    DirectoryView,
    WadError,
> {
    match parse_records(source, header, header.lump_count) {
        Err(e) => Err(e),
        Ok(lumps) => match load_lumps(source, lumps, lumps.len()) {
            Err(e) => Err(e),
            Ok(cache) => Ok(DirectoryView { lumps, cache }),
        },
    }
}

/// A record that parses has the index that it was read at, offset and sizes that fit in
/// 32 bits, and a declared type that is not `Marker`.
pub proof fn lemma_parse_record(kind: WadType, raw: Seq<u8>, index: nat)
    ensures
        parse_record(kind, raw, index) matches Ok(record) ==> {
            &&& record.index == index
            &&& record.offset <= u32::MAX
            &&& record.wad_size <= u32::MAX
            &&& record.mem_size <= u32::MAX
            &&& record.entry_type != LumpDataType::Marker
            &&& kind != WadType::WAD2 ==> record.mem_size == record.wad_size && record.entry_type
                == LumpDataType::Doom
        },
{
}

/// When the first `count` records are read, there are `count` of them, and each is the
/// record at its own position, with that position as its index.
pub proof fn lemma_parse_records(source: Seq<u8>, header: HeaderView, count: nat)
    ensures
        parse_records(source, header, count) matches Ok(records) ==> {
            &&& records.len() == count
            &&& forall|i: int|
                0 <= i < count ==> record_at(source, header, i as nat) == Ok::<
                    RecordView,
                    WadError,
                >(#[trigger] records[i])
            &&& forall|i: int| 0 <= i < count ==> (#[trigger] records[i]).index == i
            &&& forall|i: int|
                0 <= i < count ==> (#[trigger] records[i]).entry_type != LumpDataType::Marker
        },
    decreases count,
{
    if count > 0 {
        lemma_parse_records(source, header, (count - 1) as nat);
        lemma_parse_record(
            header.kind,
            source.subrange(
                record_start(header, (count - 1) as nat) as int,
                (record_start(header, (count - 1) as nat) + record_size(header.kind)) as int,
            ),
            (count - 1) as nat,
        );
    }
}

/// When the lumps of the first `count` records are loaded, there are `count` of them, and
/// each holds the bytes of its own record.
pub proof fn lemma_load_lumps(source: Seq<u8>, records: Seq<RecordView>, count: nat)
    requires
        count <= records.len(),
    ensures
        load_lumps(source, records, count) matches Ok(cache) ==> {
            &&& cache.len() == count
            &&& forall|i: int|
                0 <= i < count ==> lump_bytes(source, records[i]) == Ok::<Seq<u8>, WadError>(
                    #[trigger] cache[i],
                )
            &&& forall|i: int|
                0 <= i < count ==> (#[trigger] cache[i]).len() == records[i].wad_size
        },
    decreases count,
{
    if count > 0 {
        lemma_load_lumps(source, records, (count - 1) as nat);
    }
}

/// Once a record fails, the directory fails with the error of that record, however many
/// records follow.
pub proof fn lemma_parse_records_stops(
    source: Seq<u8>,
    header: HeaderView,
    failed: nat,
    count: nat,
)
    requires
        failed < count,
        parse_records(source, header, failed) is Ok,
        record_at(source, header, failed) is Err,
    ensures
        parse_records(source, header, count) == Err::<Seq<RecordView>, WadError>(
            record_at(source, header, failed)->Err_0,
        ),
    decreases count,
{
    if count - 1 > failed {
        lemma_parse_records_stops(source, header, failed, (count - 1) as nat);
    }
}

/// Once a lump fails to load, the cache fails with the error of that lump, however many
/// lumps follow.
pub proof fn lemma_load_lumps_stops(
    source: Seq<u8>,
    records: Seq<RecordView>,
    failed: nat,
    count: nat,
)
    requires
        failed < count,
        load_lumps(source, records, failed) is Ok,
        lump_bytes(source, records[failed as int]) is Err,
    ensures
        load_lumps(source, records, count) == Err::<Seq<Seq<u8>>, WadError>(
            lump_bytes(source, records[failed as int])->Err_0,
        ),
    decreases count,
{
    if count - 1 > failed {
        lemma_load_lumps_stops(source, records, failed, (count - 1) as nat);
    }
}

/// A directory that parses has as many records as the header counts and as many cache
/// entries as records; record `i` has index `i`, and cache entry `i` holds the bytes of
/// record `i`, as many as the record's size in the archive.
pub proof fn lemma_directory_counts(source: Seq<u8>, header: HeaderView)
    ensures
        parse_directory(source, header) matches Ok(d) ==> {
            &&& d.lumps.len() == header.lump_count
            &&& d.cache.len() == d.lumps.len()
            &&& forall|i: int| 0 <= i < d.lumps.len() ==> (#[trigger] d.lumps[i]).index == i
            &&& forall|i: int|
                0 <= i < d.lumps.len() ==> (#[trigger] d.cache[i]).len() == d.lumps[i].wad_size
        },
{
    lemma_parse_records(source, header, header.lump_count);
    if let Ok(lumps) = parse_records(source, header, header.lump_count) {
        lemma_load_lumps(source, lumps, lumps.len());
    }
}

/// One record of the directory.
pub struct Lump {
    name: String,
    offset: usize,
    index: usize,
    wad_size: usize,
    mem_size: usize,
    entry_type: LumpDataType,
    compression: CompressionType,
}

impl View for Lump {
    type V = RecordView;

    closed spec fn view(&self) -> RecordView {
        RecordView {
            name: self.name@,
            offset: self.offset as nat,
            index: self.index as nat,
            wad_size: self.wad_size as nat,
            mem_size: self.mem_size as nat,
            entry_type: self.entry_type,
            compression: self.compression,
        }
    }
}

impl Lump {
    /// The name of the lump.
    pub fn name(&self) -> (r: String)
        ensures
            r@ == self@.name,
    {
        self.name.clone()
    }

    /// The position of the record in the directory, from 0.
    pub fn index(&self) -> (r: usize)
        ensures
            r == self@.index,
    {
        self.index
    }

    /// Where the data of the lump starts in the archive.
    pub fn offset(&self) -> (r: usize)
        ensures
            r == self@.offset,
    {
        self.offset
    }

    /// The number of bytes that the lump takes in the archive.
    pub fn wad_size(&self) -> (r: usize)
        ensures
            r == self@.wad_size,
    {
        self.wad_size
    }

    /// The number of bytes that the lump takes in memory.
    pub fn mem_size(&self) -> (r: usize)
        ensures
            r == self@.mem_size,
    {
        self.mem_size
    }

    /// True when the record describes a marker: a lump that takes no bytes in the archive.
    pub fn is_marker(&self) -> (r: bool)
        ensures
            r == (self@.wad_size == 0),
    {
        self.wad_size == 0
    }

    /// The type that the record declares.
    pub fn entry_type(&self) -> (r: LumpDataType)
        ensures
            r == self@.entry_type,
    {
        self.entry_type
    }

    /// The compression that the record declares.
    pub fn compression_type(&self) -> (r: CompressionType)
        ensures
            r == self@.compression,
    {
        self.compression
    }
}

/// The bytes of one lump, as held in the cache.
pub struct LumpData {
    _index: usize,
    data: Vec<u8>,
}

impl View for LumpData {
    type V = Seq<u8>;

    closed spec fn view(&self) -> Seq<u8> {
        self.data@
    }
}

impl LumpData {
    /// The number of bytes.
    pub fn len(&self) -> (r: usize)
        ensures
            r == self@.len(),
    {
        self.data.len()
    }

    /// The bytes.
    pub fn bytes(&self) -> (r: &[u8])
        ensures
            r@ == self@,
    {
        self.data.as_slice()
    }
}

/// Reads a record of the Doom layout.
fn read_standard_record(raw: &[u8], index: usize) -> (r: Result<Lump, WadError>)
    requires
        raw@.len() == 16,
    ensures
        match r {
            Ok(lump) => parse_standard_record(raw@, index as nat) == Ok::<RecordView, WadError>(
                lump@,
            ),
            Err(e) => parse_standard_record(raw@, index as nat) == Err::<RecordView, WadError>(e),
        },
{
    let offset: usize = u8ref_to_u32(slice_subrange(raw, 0, 4)) as usize;
    let size: usize = u8ref_to_u32(slice_subrange(raw, 4, 8)) as usize;
    let field: &[u8] = slice_subrange(raw, 8, 16);
    let len: usize = trimmed_len(field);
    match ascii_string(slice_subrange(field, 0, len)) {
        None => Err(WadError::Format(FormatError::Name { index })),
        Some(name) => Ok(
            Lump {
                name,
                offset,
                index,
                wad_size: size,
                mem_size: size,
                entry_type: LumpDataType::Doom,
                compression: CompressionType::Uncompressed,
            },
        ),
    }
}

/// Reads a record of the Quake layout.
fn read_extended_record(raw: &[u8], index: usize) -> (r: Result<Lump, WadError>)
    requires
        raw@.len() == 32,
    ensures
        match r {
            Ok(lump) => parse_extended_record(raw@, index as nat) == Ok::<RecordView, WadError>(
                lump@,
            ),
            Err(e) => parse_extended_record(raw@, index as nat) == Err::<RecordView, WadError>(e),
        },
{
    let offset: usize = u8ref_to_u32(slice_subrange(raw, 0, 4)) as usize;
    let wad_size: usize = u8ref_to_u32(slice_subrange(raw, 4, 8)) as usize;
    let mem_size: usize = u8ref_to_u32(slice_subrange(raw, 8, 12)) as usize;
    let code: u8 = raw[12];
    let entry_type: LumpDataType = if code == 0x40 {
        LumpDataType::Palette
    } else if code == 0x42 {
        LumpDataType::StatusBar
    } else if code == 0x44 {
        LumpDataType::Texture
    } else if code == 0x45 {
        LumpDataType::ConsolePic
    } else {
        return Err(WadError::Format(FormatError::ContentType { index, code }));
    };
    let compression: u8 = raw[13];
    if compression != 0 {
        return Err(
            WadError::Unsupported(UnsupportedFeature::Compression { index, code: compression }),
        );
    }
    let field: &[u8] = slice_subrange(raw, 16, 32);
    let len: usize = nul_position(field);
    match ascii_string(slice_subrange(field, 0, len)) {
        None => Err(WadError::Format(FormatError::Name { index })),
        Some(name) => Ok(
            Lump {
                name,
                offset,
                index,
                wad_size,
                mem_size,
                entry_type,
                compression: CompressionType::Uncompressed,
            },
        ),
    }
}

/// The views of a sequence of records.
pub open spec fn record_views(lumps: Seq<Lump>) -> Seq<RecordView> {
    lumps.map_values(|lump: Lump| lump@)
}

/// The views of a sequence of cache entries.
pub open spec fn cache_views(cache: Seq<LumpData>) -> Seq<Seq<u8>> {
    cache.map_values(|data: LumpData| data@)
}

/// Reads the directory that `header` describes: `header.num_lumps()` records from
/// `header.dir_offset()` on.
pub fn read_records(source: &[u8], header: &WadHeader) -> (r: Result<Vec<Lump>, WadError>)
    ensures
        match r {
            Ok(lumps) => parse_records(source@, header@, header@.lump_count) == Ok::<
                Seq<RecordView>,
                WadError,
            >(record_views(lumps@)),
            Err(e) => parse_records(source@, header@, header@.lump_count) == Err::<
                Seq<RecordView>,
                WadError,
            >(e),
        },
{
    let kind: WadType = header.wad_type();
    let count: usize = header.num_lumps();
    let dir_offset: usize = header.dir_offset();
    let stride: usize = match kind {
        WadType::WAD2 => 32,
        _ => 16,
    };
    let total: usize = source.len();
    let mut lumps: Vec<Lump> = Vec::new();
    let mut index: usize = 0;
    assert(record_views(lumps@) =~= Seq::<RecordView>::empty());
    while index < count
        invariant
            index <= count,
            total == source@.len(),
            count == header@.lump_count,
            dir_offset == header@.dir_offset,
            kind == header@.kind,
            stride == record_size(kind),
            parse_records(source@, header@, index as nat) == Ok::<Seq<RecordView>, WadError>(
                record_views(lumps@),
            ),
        decreases count - index,
    {
        let failed: Result<Vec<Lump>, WadError> = Err(
            WadError::Io(IoError::DirectoryRecord { index }),
        );
        proof {
            if record_at(source@, header@, index as nat) is Err {
                lemma_parse_records_stops(source@, header@, index as nat, count as nat);
            }
        }
        let start: usize = match index.checked_mul(stride) {
            None => {
                return failed;
            },
            Some(skipped) => match dir_offset.checked_add(skipped) {
                None => {
                    return failed;
                },
                Some(start) => start,
            },
        };
        let end: usize = match start.checked_add(stride) {
            None => {
                return failed;
            },
            Some(end) => end,
        };
        if end > total {
            return failed;
        }
        let raw: &[u8] = slice_subrange(source, start, end);
        let parsed: Result<Lump, WadError> = match kind {
            WadType::WAD2 => read_extended_record(raw, index),
            _ => read_standard_record(raw, index),
        };
        match parsed {
            Err(e) => {
                return Err(e);
            },
            Ok(lump) => {
                proof {
                    assert(record_views(lumps@.push(lump)) =~= record_views(lumps@).push(lump@));
                }
                lumps.push(lump);
            },
        }
        index = index + 1;
    }
    Ok(lumps)
}

/// Copies the bytes of the lump that `lump` describes out of `source`.
pub fn read_lump(source: &[u8], lump: &Lump) -> (r: Result<Vec<u8>, WadError>)
    ensures
        match r {
            Ok(bytes) => lump_bytes(source@, lump@) == Ok::<Seq<u8>, WadError>(bytes@),
            Err(e) => lump_bytes(source@, lump@) == Err::<Seq<u8>, WadError>(e),
        },
{
    let total: usize = source.len();
    if lump.wad_size == 0 {
        return Ok(Vec::new());
    }
    match lump.offset.checked_add(lump.wad_size) {
        None => Err(WadError::Io(IoError::Lump { index: lump.index })),
        Some(end) => if end > total {
            Err(WadError::Io(IoError::Lump { index: lump.index }))
        } else {
            Ok(slice_to_vec(slice_subrange(source, lump.offset, end)))
        },
    }
}

/// The records of an archive with the bytes of their lumps, both in directory order.
pub struct Directory {
    lumps: Vec<Lump>,
    cache: Vec<LumpData>,
}

impl View for Directory {
    type V = DirectoryView;

    closed spec fn view(&self) -> DirectoryView {
        DirectoryView { lumps: record_views(self.lumps@), cache: cache_views(self.cache@) }
    }
}

impl Directory {
    /// Every record has a cache entry, record `i` has index `i`, and cache entry `i` holds
    /// as many bytes as record `i` takes in the archive.
    #[verifier::type_invariant]
    closed spec fn well_formed(&self) -> bool {
        &&& self.cache@.len() == self.lumps@.len()
        &&& forall|i: int| 0 <= i < self.lumps@.len() ==> (#[trigger] self.lumps@[i]).index == i
        &&& forall|i: int| 0 <= i < self.cache@.len() ==> (#[trigger] self.cache@[i])._index == i
        &&& forall|i: int|
            0 <= i < self.lumps@.len() ==> (#[trigger] self.cache@[i]).data@.len()
                == self.lumps@[i].wad_size
    }

    /// Reads the directory that `header` describes and loads the bytes of every lump.
    pub fn from_bytes(source: &[u8], header: &WadHeader) -> (r: Result<Directory, WadError>)
        ensures
            match r {
                Ok(d) => {
                    &&& parse_directory(source@, header@) == Ok::<DirectoryView, WadError>(d@)
                    &&& d@.lumps.len() == header@.lump_count
                    &&& d@.cache.len() == d@.lumps.len()
                },
                Err(e) => parse_directory(source@, header@) == Err::<DirectoryView, WadError>(e),
            },
    {
        let lumps: Vec<Lump> = match read_records(source, header) {
            Err(e) => {
                return Err(e);
            },
            Ok(lumps) => lumps,
        };
        let ghost records = record_views(lumps@);
        let mut cache: Vec<LumpData> = Vec::new();
        let mut index: usize = 0;
        assert(cache_views(cache@) =~= Seq::<Seq<u8>>::empty());
        while index < lumps.len()
            invariant
                index <= lumps@.len(),
                records == record_views(lumps@),
                parse_records(source@, header@, header@.lump_count) == Ok::<
                    Seq<RecordView>,
                    WadError,
                >(records),
                cache@.len() == index,
                forall|i: int| 0 <= i < index ==> (#[trigger] cache@[i])._index == i,
                load_lumps(source@, records, index as nat) == Ok::<Seq<Seq<u8>>, WadError>(
                    cache_views(cache@),
                ),
            decreases lumps@.len() - index,
        {
            let lump: &Lump = &lumps[index];
            proof {
                assert(records[index as int] == lump@);
                if lump_bytes(source@, lump@) is Err {
                    lemma_load_lumps_stops(source@, records, index as nat, records.len());
                }
            }
            match read_lump(source, lump) {
                Err(e) => {
                    return Err(e);
                },
                Ok(data) => {
                    let entry = LumpData { _index: index, data };
                    proof {
                        assert(cache_views(cache@.push(entry)) =~= cache_views(cache@).push(
                            entry@,
                        ));
                    }
                    cache.push(entry);
                },
            }
            index = index + 1;
        }
        proof {
            lemma_directory_counts(source@, header@);
            lemma_parse_records(source@, header@, header@.lump_count);
            lemma_load_lumps(source@, records, records.len());
            assert forall|i: int| 0 <= i < lumps@.len() implies (#[trigger] lumps@[i]).index
                == i by {
                assert(records[i] == lumps@[i]@);
            }
            assert forall|i: int| 0 <= i < lumps@.len() implies (#[trigger] cache@[i]).data@.len()
                == lumps@[i].wad_size by {
                assert(records[i] == lumps@[i]@);
                assert(cache_views(cache@)[i] == cache@[i]@);
            }
        }
        Ok(Directory { lumps, cache })
    }

    /// The number of lumps.
    pub fn num_lumps(&self) -> (r: usize)
        ensures
            r == self@.lumps.len(),
            r == self@.cache.len(),
    {
        proof {
            use_type_invariant(self);
        }
        self.lumps.len()
    }

    /// The record at `index`, if the directory has that many.
    pub fn get_at_index(&self, index: usize) -> (r: Option<&Lump>)
        ensures
            r is Some <==> index < self@.lumps.len(),
            r matches Some(lump) ==> lump@ == self@.lumps[index as int] && lump@.index == index,
    {
        proof {
            use_type_invariant(self);
        }
        if index < self.lumps.len() {
            Some(&self.lumps[index])
        } else {
            None
        }
    }

    /// The first record in directory order whose name is `name`, byte for byte.
    pub fn get_by_name(&self, name: &str) -> (r: Option<&Lump>)
        ensures
            match r {
                Some(lump) => {
                    &&& lump@.index < self@.lumps.len()
                    &&& lump@ == self@.lumps[lump@.index as int]
                    &&& lump@.name == name@
                    &&& forall|j: int| 0 <= j < lump@.index ==> self@.lumps[j].name != name@
                },
                None => forall|j: int| 0 <= j < self@.lumps.len() ==> self@.lumps[j].name != name@,
            },
    {
        proof {
            use_type_invariant(self);
        }
        let wanted: String = name.to_owned();
        let mut index: usize = 0;
        while index < self.lumps.len()
            invariant
                index <= self.lumps@.len(),
                wanted@ == name@,
                forall|j: int| 0 <= j < index ==> self@.lumps[j].name != name@,
                forall|i: int|
                    0 <= i < self.lumps@.len() ==> (#[trigger] self.lumps@[i]).index == i,
            decreases self.lumps@.len() - index,
        {
            if self.lumps[index].name == wanted {
                return Some(&self.lumps[index]);
            }
            index = index + 1;
        }
        None
    }

    /// The bytes of the lump at `index`, if the directory has that many.
    pub fn get_data_at_index(&self, index: usize) -> (r: Option<&LumpData>)
        ensures
            r is Some <==> index < self@.cache.len(),
            r matches Some(data) ==> data@ == self@.cache[index as int] && data@.len()
                == self@.lumps[index as int].wad_size,
    {
        proof {
            use_type_invariant(self);
        }
        if index < self.cache.len() {
            Some(&self.cache[index])
        } else {
            None
        }
    }
}

} // verus!
