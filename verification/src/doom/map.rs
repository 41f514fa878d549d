//! Maps: the run of lumps behind a map marker, its validation and its decoding.

use vstd::prelude::*;
use regex::Regex;
use crate::doom::linedef::{decode_linedefs, linedef_views, Linedef, LinedefView};
use crate::doom::sidedef::{decode_sidedefs, sidedef_views, Sidedef};
use crate::doom::thing::{decode_things, thing_views, Thing, ThingView};
use crate::doom::vertex::{decode_vertexes, vertex_views, Vertex};
use crate::error::WadError;
use crate::text::{ascii_string, same_text};
use crate::wad::{Entry, Wad, WadView};

verus! {

/// The number of lump roles in the map schema.
pub const ROLE_COUNT: usize = 10;

/// The role of the schema that may be missing from a map: `REJECT`.
pub const OPTIONAL_ROLE: usize = 8;

/// The name of the lump that fills the role at position `role` of the map schema.
pub open spec fn role_name(role: int) -> Seq<char> {
    if role == 0 {
        "THINGS"@
    } else if role == 1 {
        "LINEDEFS"@
    } else if role == 2 {
        "SIDEDEFS"@
    } else if role == 3 {
        "VERTEXES"@
    } else if role == 4 {
        "SEGS"@
    } else if role == 5 {
        "SSECTORS"@
    } else if role == 6 {
        "NODES"@
    } else if role == 7 {
        "SECTORS"@
    } else if role == 8 {
        "REJECT"@
    } else {
        "BLOCKMAP"@
    }
}

/// Every role but `REJECT` is required.
pub open spec fn role_required(role: int) -> bool {
    role != 8
}

/// True when `name` is the name of one of the ten roles.
pub open spec fn is_role_name(name: Seq<char>) -> bool {
    exists|role: int| 0 <= role < 10 && name == #[trigger] role_name(role)
}

/// The number of lumps from position `from` on whose names are role names, up to the first
/// that is none.
pub open spec fn run_length(names: Seq<Seq<char>>, from: int) -> nat
    decreases names.len() - from,
{
    if 0 <= from < names.len() && is_role_name(names[from]) {
        1 + run_length(names, from + 1)
    } else {
        0
    }
}

/// The candidate run of a marker: the names of the lumps that follow it in directory
/// order, up to the first that is no role name.
pub open spec fn candidate_run(names: Seq<Seq<char>>, marker: int) -> Seq<Seq<char>> {
    names.subrange(marker + 1, marker + 1 + run_length(names, marker + 1))
}

/// The walk over the schema from `role` on, with `cursor` at the first entry of the run
/// that is not consumed yet. An entry that has the name of the role is consumed; a
/// required role without it fails; an optional role without it is passed over.
pub open spec fn schema_walk(run: Seq<Seq<char>>, role: int, cursor: int) -> bool
    decreases 10 - role,
{
    if role >= 10 {
        true
    } else if 0 <= cursor < run.len() && run[cursor] == role_name(role) {
        schema_walk(run, role + 1, cursor + 1)
    } else if role_required(role) {
        false
    } else {
        schema_walk(run, role + 1, cursor)
    }
}

/// The role whose lump stands at position `k` of a complete map group, with or without
/// the optional `REJECT`.
pub open spec fn group_role(with_reject: bool, k: int) -> int {
    if !with_reject && k == 8 {
        9
    } else {
        k
    }
}

/// True when the lumps from position `from` on are those of a complete map group: the
/// eight roles from `THINGS` to `SECTORS` in order, then `REJECT` if `with_reject`, then
/// `BLOCKMAP`.
pub open spec fn group_at(names: Seq<Seq<char>>, from: int, with_reject: bool) -> bool {
    let count: int = if with_reject {
        10
    } else {
        9
    };
    &&& 0 <= from
    &&& from + count <= names.len()
    &&& forall|k: int|
        0 <= k < count ==> #[trigger] names[from + k] == role_name(group_role(with_reject, k))
}

/// True when the lump at position `marker` is followed by a complete map group.
pub open spec fn is_map_group(names: Seq<Seq<char>>, marker: int) -> bool {
    group_at(names, marker + 1, true) || group_at(names, marker + 1, false)
}

/// In a map group, the four lumps behind the marker are `THINGS`, `LINEDEFS`, `SIDEDEFS`
/// and `VERTEXES`, and at least nine lumps follow the marker.
pub proof fn lemma_group_lumps(names: Seq<Seq<char>>, marker: int)
    requires
        is_map_group(names, marker),
    ensures
        marker + 9 < names.len(),
        names[marker + 1] == "THINGS"@,
        names[marker + 2] == "LINEDEFS"@,
        names[marker + 3] == "SIDEDEFS"@,
        names[marker + 4] == "VERTEXES"@,
{
    let with_reject = group_at(names, marker + 1, true);
    assert(names[marker + 1 + 0] == role_name(group_role(with_reject, 0)));
    assert(names[marker + 1 + 1] == role_name(group_role(with_reject, 1)));
    assert(names[marker + 1 + 2] == role_name(group_role(with_reject, 2)));
    assert(names[marker + 1 + 3] == role_name(group_role(with_reject, 3)));
}

/// The names of the roles differ from each other.
pub proof fn lemma_role_names_differ(a: int, b: int)
    requires
        0 <= a < 10,
        0 <= b < 10,
        a != b,
    ensures
        role_name(a) != role_name(b),
{
    reveal_strlit("THINGS");
    reveal_strlit("LINEDEFS");
    reveal_strlit("SIDEDEFS");
    reveal_strlit("VERTEXES");
    reveal_strlit("SEGS");
    reveal_strlit("SSECTORS");
    reveal_strlit("NODES");
    reveal_strlit("SECTORS");
    reveal_strlit("REJECT");
    reveal_strlit("BLOCKMAP");
    let x = role_name(a);
    let y = role_name(b);
    if x.len() == y.len() {
        assert(x[0] != y[0] || x[1] != y[1]);
    }
}

/// The run does not reach past the end of the directory.
pub proof fn lemma_run_bounded(names: Seq<Seq<char>>, from: int)
    requires
        0 <= from <= names.len(),
    ensures
        from + run_length(names, from) <= names.len(),
    decreases names.len() - from,
{
    if from < names.len() && is_role_name(names[from]) {
        lemma_run_bounded(names, from + 1);
    }
}

/// A stretch of role names that ends at the end of the directory or before a lump that
/// is no role is the whole run.
pub proof fn lemma_run_length(names: Seq<Seq<char>>, from: int, end: int)
    requires
        0 <= from <= end <= names.len(),
        forall|i: int| from <= i < end ==> is_role_name(#[trigger] names[i]),
        end == names.len() || !is_role_name(names[end]),
    ensures
        run_length(names, from) == end - from,
    decreases end - from,
{
    if from < end {
        lemma_run_length(names, from + 1, end);
    }
}

/// A stretch of role names lies within the run.
pub proof fn lemma_run_covers(names: Seq<Seq<char>>, from: int, end: int)
    requires
        0 <= from <= end <= names.len(),
        forall|i: int| from <= i < end ==> is_role_name(#[trigger] names[i]),
    ensures
        run_length(names, from) >= end - from,
    decreases end - from,
{
    if from < end {
        lemma_run_covers(names, from + 1, end);
    }
}

/// The walk over the schema accepts the candidate run of a marker exactly when a complete
/// map group follows the marker.
pub proof fn lemma_walk_accepts_groups(names: Seq<Seq<char>>, marker: int)
    requires
        0 <= marker < names.len(),
    ensures
        schema_walk(candidate_run(names, marker), 0, 0) <==> is_map_group(names, marker),
{
    let from = marker + 1;
    let run = candidate_run(names, marker);
    lemma_run_bounded(names, from);
    assert forall|k: int| 0 <= k < run.len() implies run[k] == names[from + k] by {}
    lemma_role_names_differ(8, 9);
    reveal_with_fuel(schema_walk, 11);
    if schema_walk(run, 0, 0) {
        if run[8] == role_name(8) {
            assert(group_at(names, from, true));
        } else {
            assert(group_at(names, from, false));
        }
    }
    if group_at(names, from, true) {
        assert forall|i: int| from <= i < from + 10 implies is_role_name(#[trigger] names[i]) by {
            assert(names[from + (i - from)] == role_name(group_role(true, i - from)));
        }
        lemma_run_covers(names, from, from + 10);
        assert forall|k: int| 0 <= k < 10 implies run[k] == role_name(k) by {
            assert(names[from + k] == role_name(group_role(true, k)));
        }
    }
    if group_at(names, from, false) {
        assert forall|i: int| from <= i < from + 9 implies is_role_name(#[trigger] names[i]) by {
            assert(names[from + (i - from)] == role_name(group_role(false, i - from)));
        }
        lemma_run_covers(names, from, from + 9);
        assert forall|k: int| 0 <= k < 9 implies run[k] == role_name(group_role(false, k)) by {
            assert(names[from + k] == role_name(group_role(false, k)));
        }
        assert(run[8] == role_name(9));
    }
}

/// The views of a sequence of strings.
pub open spec fn text_views(texts: Seq<String>) -> Seq<Seq<char>> {
    texts.map_values(|text: String| text@)
}

/// The name of the lump that fills the role at position `index` of the map schema.
pub fn role(index: usize) -> (r: &'static str)
    requires
        index < 10,
    ensures
        r@ == role_name(index as int),
{
    match index {
        0 => "THINGS",
        1 => "LINEDEFS",
        2 => "SIDEDEFS",
        3 => "VERTEXES",
        4 => "SEGS",
        5 => "SSECTORS",
        6 => "NODES",
        7 => "SECTORS",
        8 => "REJECT",
        _ => "BLOCKMAP",
    }
}

/// True when `name` is the name of one of the ten roles.
pub fn is_role(name: &str) -> (r: bool)
    ensures
        r == is_role_name(name@),
{
    let mut index: usize = 0;
    while index < ROLE_COUNT
        invariant
            index <= 10,
            forall|k: int| 0 <= k < index ==> name@ != #[trigger] role_name(k),
        decreases 10 - index,
    {
        if same_text(name, role(index)) {
            return true;
        }
        index = index + 1;
    }
    false
}

/// The names of the candidate run of `map_marker`: those of the lumps that follow it, up
/// to the first that is no role.
pub fn collect_run(map_marker: Entry) -> (run: Vec<String>)
    ensures
        map_marker@.index < map_marker@.wad.lumps.len(),
        text_views(run@) == candidate_run(map_marker@.wad.names(), map_marker@.index as int),
{
    let ghost names = map_marker@.wad.names();
    let ghost start: int = map_marker@.index as int + 1;
    let mut run: Vec<String> = Vec::new();
    let mut cursor: Entry = map_marker;
    let mut successor: Option<Entry> = cursor.next();
    assert(text_views(run@) =~= names.subrange(start, start + 0));
    while successor.is_some()
        invariant
            names == map_marker@.wad.names(),
            start == map_marker@.index + 1,
            start + run@.len() <= names.len(),
            text_views(run@) == names.subrange(start, start + run@.len()),
            forall|i: int| start <= i < start + run@.len() ==> is_role_name(#[trigger] names[i]),
            successor matches Some(entry) ==> entry@.wad == map_marker@.wad && entry@.index
                == start + run@.len(),
            successor is None ==> (start + run@.len() == names.len() || !is_role_name(
                names[start + run@.len()],
            )),
        decreases
                2 * (names.len() - start - run@.len()) + (if successor is Some {
                    1int
                } else {
                    0int
                }),
    {
        let mut entry: Entry = successor.unwrap();
        let name: String = entry.lump().name();
        assert(name@ == names[start + run@.len()]);
        if is_role(name.as_str()) {
            proof {
                assert(text_views(run@.push(name)) =~= names.subrange(
                    start,
                    start + run@.len() + 1,
                ));
            }
            run.push(name);
            successor = entry.next();
        } else {
            successor = None;
        }
    }
    proof {
        lemma_run_length(names, start, start + run@.len());
    }
    run
}

/// Walks the schema over a candidate run.
pub fn walk_schema(run: &Vec<String>) -> (accepted: bool)
    ensures
        accepted == schema_walk(text_views(run@), 0, 0),
{
    let mut cursor: usize = 0;
    let mut index: usize = 0;
    while index < ROLE_COUNT
        invariant
            index <= 10,
            cursor <= index,
            schema_walk(text_views(run@), 0, 0) == schema_walk(
                text_views(run@),
                index as int,
                cursor as int,
            ),
        decreases 10 - index,
    {
        let found: bool = cursor < run.len() && same_text(run[cursor].as_str(), role(index));
        if found {
            cursor = cursor + 1;
        } else if index != OPTIONAL_ROLE {
            return false;
        }
        index = index + 1;
    }
    true
}

/// Whether a regular expression finds a match anywhere in a text, as the `regex` crate
/// decides it; `None` for a pattern that the crate does not compile.
pub uninterp spec fn regex_search(pattern: Seq<char>, haystack: Seq<char>) -> Option<bool>;

/// `regex::Regex::new` on `pattern`, then `Regex::is_match` on `haystack`: whether the
/// pattern matches anywhere in the text. Both depend on their arguments alone. A pattern
/// that does not compile gives `None`.
#[verifier::external_body]
fn search(pattern: &str, haystack: &str) -> (r: Option<bool>)
    ensures
        r == regex_search(pattern@, haystack@),
{
    match Regex::new(pattern) {
        Ok(regex) => Some(regex.is_match(haystack)),
        Err(_) => None,
    }
}

/// The pattern of the map markers of Doom: an episode digit and a map digit.
pub fn doom1_marker_pattern() -> (r: &'static str)
    ensures
        r@ == "E[0-9]M[0-9]"@,
{
    "E[0-9]M[0-9]"
}

/// The pattern of the map markers of Doom II: a map number of two digits.
pub fn doom2_marker_pattern() -> (r: &'static str)
    ensures
        r@ == "MAP[0-9][0-9]"@,
{
    "MAP[0-9][0-9]"
}

/// True when `name` is the name of a map marker: one of the two marker patterns matches
/// it.
pub open spec fn is_marker_name(name: Seq<char>) -> bool {
    regex_search("E[0-9]M[0-9]"@, name) == Some(true) || regex_search("MAP[0-9][0-9]"@, name)
        == Some(true)
}

/// Decides whether `map_marker` starts a map, given what the two marker patterns said of
/// its name. A marker that neither pattern matched starts none, and the lumps behind it
/// are not looked at.
pub fn validate_map(doom1: Option<bool>, doom2: Option<bool>, map_marker: Entry) -> (valid: bool)
    ensures
        valid == ((doom1 == Some(true) || doom2 == Some(true)) && is_map_group(
            map_marker@.wad.names(),
            map_marker@.index as int,
        )),
{
    let recognized: bool = match doom1 {
        Some(true) => true,
        _ => match doom2 {
            Some(true) => true,
            _ => false,
        },
    };
    if !recognized {
        return false;
    }
    let run: Vec<String> = collect_run(map_marker);
    proof {
        assert(map_marker@.wad.names().len() == map_marker@.wad.lumps.len());
        lemma_walk_accepts_groups(map_marker@.wad.names(), map_marker@.index as int);
    }
    walk_schema(&run)
}

/// True when `map_marker` starts a map: its name is that of a map marker, and a complete
/// map group follows it.
pub fn is_valid_map(map_marker: Entry) -> (valid: bool)
    ensures
        valid == (is_marker_name(map_marker@.lump().name) && is_map_group(
            map_marker@.wad.names(),
            map_marker@.index as int,
        )),
{
    let name: String = map_marker.lump().name();
    let doom1: Option<bool> = search(doom1_marker_pattern(), name.as_str());
    let doom2: Option<bool> = match doom1 {
        Some(true) => None,
        _ => search(doom2_marker_pattern(), name.as_str()),
    };
    validate_map(doom1, doom2, map_marker)
}

/// The mathematical content of a decoded map.
pub struct MapView {
    pub wad: WadView,
    pub name: Seq<char>,
    pub things: Seq<ThingView>,
    pub linedefs: Seq<LinedefView>,
    pub sidedefs: Seq<Seq<u8>>,
    pub vertexes: Seq<(int, int)>,
}

/// The map whose marker stands at position `marker`: the four lumps behind the marker,
/// decoded as things, linedefs, sidedefs and vertexes, in that order. The first that
/// fails gives the error.
pub open spec fn decode_map(wad: WadView, marker: int) -> Result<MapView, WadError> {
    match decode_things(wad.lumps[marker + 1].data.bytes) {
        Err(e) => Err(e),
        Ok(things) => match decode_linedefs(wad.lumps[marker + 2].data.bytes) {
            Err(e) => Err(e),
            Ok(linedefs) => match decode_sidedefs(wad.lumps[marker + 3].data.bytes) {
                Err(e) => Err(e),
                Ok(sidedefs) => match decode_vertexes(wad.lumps[marker + 4].data.bytes) {
                    Err(e) => Err(e),
                    Ok(vertexes) => Ok(
                        MapView {
                            wad,
                            name: wad.lumps[marker].name,
                            things,
                            linedefs,
                            sidedefs,
                            vertexes,
                        },
                    ),
                },
            },
        },
    }
}

/// The character that stands for a digit from 0 to 9.
pub open spec fn digit_char(digit: int) -> char {
    (48 + digit) as u8 as char
}

/// The name of the marker of map `map` in episode `episode`.
pub open spec fn episode_map_name(episode: int, map: int) -> Seq<char> {
    seq!['E', digit_char(episode), 'M', digit_char(map)]
}

/// The marker names under which maps are looked for: the nine maps of each of the four
/// episodes, episode by episode.
pub open spec fn potential_map_names() -> Seq<Seq<char>> {
    Seq::new(36, |i: int| episode_map_name(i / 9 + 1, i % 9 + 1))
}

/// True when the lump at position `i` is the first in directory order with the name
/// `name`.
pub open spec fn is_first_named(names: Seq<Seq<char>>, name: Seq<char>, i: int) -> bool {
    &&& 0 <= i < names.len()
    &&& names[i] == name
    &&& forall|j: int| 0 <= j < i ==> names[j] != name
}

/// The position of the map with the marker name `name`: that of the first lump with that
/// name, if it starts a map.
pub open spec fn map_position(wad: WadView, name: Seq<char>) -> Option<int> {
    if exists|i: int| is_first_named(wad.names(), name, i) {
        let i = choose|i: int| is_first_named(wad.names(), name, i);
        if is_marker_name(name) && is_map_group(wad.names(), i) {
            Some(i)
        } else {
            None
        }
    } else {
        None
    }
}

/// The maps found under the first `count` of `names`, in that order, or the error of the
/// first that fails to decode.
pub open spec fn maps_of(wad: WadView, names: Seq<Seq<char>>, count: nat) -> Result<
    Seq<MapView>,
    WadError,
>
    decreases count,
{
    if count == 0 {
        Ok(Seq::empty())
    } else {
        match maps_of(wad, names, (count - 1) as nat) {
            Err(e) => Err(e),
            Ok(maps) => match map_position(wad, names[count - 1]) {
                None => Ok(maps),
                Some(marker) => match decode_map(wad, marker) {
                    Err(e) => Err(e),
                    Ok(map) => Ok(maps.push(map)),
                },
            },
        }
    }
}

/// Once a map fails to decode, the search fails with its error, however many names
/// follow.
pub proof fn lemma_maps_of_stops(wad: WadView, names: Seq<Seq<char>>, failed: nat, count: nat)
    requires
        failed < count,
        maps_of(wad, names, failed) is Ok,
        map_position(wad, names[failed as int]) is Some,
        decode_map(wad, map_position(wad, names[failed as int])->Some_0) is Err,
    ensures
        maps_of(wad, names, count) == Err::<Seq<MapView>, WadError>(
            decode_map(wad, map_position(wad, names[failed as int])->Some_0)->Err_0,
        ),
    decreases count,
{
    if count - 1 > failed {
        lemma_maps_of_stops(wad, names, failed, (count - 1) as nat);
    }
}

/// A map of an archive, decoded.
pub struct DoomMap<'a> {
    wad: &'a Wad,
    name: String,
    things: Vec<Thing>,
    linedefs: Vec<Linedef>,
    sidedefs: Vec<Sidedef>,
    vertexes: Vec<Vertex>,
}

impl<'a> View for DoomMap<'a> {
    type V = MapView;

    closed spec fn view(&self) -> MapView {
        MapView {
            wad: self.wad@,
            name: self.name@,
            things: thing_views(self.things@),
            linedefs: linedef_views(self.linedefs@),
            sidedefs: sidedef_views(self.sidedefs@),
            vertexes: vertex_views(self.vertexes@),
        }
    }
}

/// The views of a sequence of maps.
pub open spec fn map_views(maps: Seq<DoomMap>) -> Seq<MapView> {
    maps.map_values(|map: DoomMap| map@)
}

impl<'a> DoomMap<'a> {
    /// The archive that the map was read from.
    pub fn wad(&self) -> (r: &Wad)
        ensures
            r@ == self@.wad,
    {
        self.wad
    }

    /// The name of the map: that of its marker.
    pub fn name(&self) -> (r: String)
        ensures
            r@ == self@.name,
    {
        self.name.clone()
    }

    /// The things of the map, in file order.
    pub fn things(&self) -> (r: &Vec<Thing>)
        ensures
            thing_views(r@) == self@.things,
    {
        &self.things
    }

    /// The linedefs of the map, in file order.
    pub fn linedefs(&self) -> (r: &Vec<Linedef>)
        ensures
            linedef_views(r@) == self@.linedefs,
    {
        &self.linedefs
    }

    /// The sidedefs of the map, in file order.
    pub fn sidedefs(&self) -> (r: &Vec<Sidedef>)
        ensures
            sidedef_views(r@) == self@.sidedefs,
    {
        &self.sidedefs
    }

    /// The vertexes of the map, in file order.
    pub fn vertexes(&self) -> (r: &Vec<Vertex>)
        ensures
            vertex_views(r@) == self@.vertexes,
    {
        &self.vertexes
    }

    /// The marker names under which `get_maps` looks for maps.
    pub fn get_potential_map_list() -> (r: Vec<String>)
        ensures
            text_views(r@) == potential_map_names(),
    {
        let mut map_names: Vec<String> = Vec::new();
        let mut episode: u8 = 1;
        while episode <= 4
            invariant
                1 <= episode <= 5,
                map_names@.len() == 9 * (episode - 1),
                forall|i: int|
                    0 <= i < map_names@.len() ==> (#[trigger] map_names@[i])@ == episode_map_name(
                        i / 9 + 1,
                        i % 9 + 1,
                    ),
            decreases 5 - episode,
        {
            let mut map: u8 = 1;
            while map <= 9
                invariant
                    1 <= episode <= 4,
                    1 <= map <= 10,
                    map_names@.len() == 9 * (episode - 1) + (map - 1),
                    forall|i: int|
                        0 <= i < map_names@.len() ==> (#[trigger] map_names@[i])@
                            == episode_map_name(i / 9 + 1, i % 9 + 1),
                decreases 10 - map,
            {
                let mut raw: Vec<u8> = Vec::new();
                raw.push(0x45);
                raw.push(48 + episode);
                raw.push(0x4d);
                raw.push(48 + map);
                match ascii_string(raw.as_slice()) {
                    Some(name) => {
                        assert(name@ =~= episode_map_name(episode as int, map as int));
                        map_names.push(name);
                    },
                    None => {
                        assert(false);
                    },
                }
                map = map + 1;
            }
            episode = episode + 1;
        }
        assert(text_views(map_names@) =~= potential_map_names());
        map_names
    }

    /// Decodes the map that `map_marker` starts: the `THINGS`, `LINEDEFS`, `SIDEDEFS` and
    /// `VERTEXES` lumps of the map group behind it.
    pub fn get_map(map_marker: Entry<'a>) -> (r: Result<DoomMap<'a>, WadError>)
        requires
            is_map_group(map_marker@.wad.names(), map_marker@.index as int),
        ensures
            match r {
                Ok(map) => decode_map(map_marker@.wad, map_marker@.index as int) == Ok::<
                    MapView,
                    WadError,
                >(map@),
                Err(e) => decode_map(map_marker@.wad, map_marker@.index as int) == Err::<
                    MapView,
                    WadError,
                >(e),
            },
    {
        let wad: &'a Wad = map_marker.owner();
        let index: usize = map_marker.index();
        let lumps = wad.lumps();
        let count: usize = lumps.len();
        assert(map_marker@.wad.names().len() == count);
        let name: String = map_marker.lump().name();
        let things: Vec<Thing> = match Thing::from_lump(&lumps[index + 1]) {
            Err(e) => {
                return Err(e);
            },
            Ok(things) => things,
        };
        let linedefs: Vec<Linedef> = match Linedef::from_lump(&lumps[index + 2]) {
            Err(e) => {
                return Err(e);
            },
            Ok(linedefs) => linedefs,
        };
        let sidedefs: Vec<Sidedef> = match Sidedef::from_lump(&lumps[index + 3]) {
            Err(e) => {
                return Err(e);
            },
            Ok(sidedefs) => sidedefs,
        };
        let vertexes: Vec<Vertex> = match Vertex::from_lump(&lumps[index + 4]) {
            Err(e) => {
                return Err(e);
            },
            Ok(vertexes) => vertexes,
        };
        Ok(DoomMap { wad, name, things, linedefs, sidedefs, vertexes })
    }

    /// Decodes every map of `wad` whose marker has one of the names of
    /// `get_potential_map_list`, in the order of that list.
    pub fn get_maps(wad: &'a Wad) -> (r: Result<Vec<DoomMap<'a>>, WadError>)
        ensures
            match r {
                Ok(maps) => maps_of(wad@, potential_map_names(), 36) == Ok::<
                    Seq<MapView>,
                    WadError,
                >(map_views(maps@)),
                Err(e) => maps_of(wad@, potential_map_names(), 36) == Err::<
                    Seq<MapView>,
                    WadError,
                >(e),
            },
    {
        let mut maps: Vec<DoomMap<'a>> = Vec::new();
        let potential_maps: Vec<String> = DoomMap::get_potential_map_list();
        let ghost names = potential_map_names();
        let mut index: usize = 0;
        assert(map_views(maps@) =~= Seq::<MapView>::empty());
        assert(potential_maps@.len() == text_views(potential_maps@).len());
        while index < potential_maps.len()
            invariant
                index <= 36,
                potential_maps@.len() == 36,
                names == potential_map_names(),
                text_views(potential_maps@) == names,
                maps_of(wad@, names, index as nat) == Ok::<Seq<MapView>, WadError>(
                    map_views(maps@),
                ),
            decreases 36 - index,
        {
            let name: &String = &potential_maps[index];
            assert(name@ == names[index as int]);
            match wad.get_by_name(name.as_str()) {
                None => {
                    assert(map_position(wad@, name@) is None) by {
                        assert forall|i: int| !is_first_named(wad@.names(), name@, i) by {
                            if 0 <= i < wad@.names().len() {
                                assert(wad@.names()[i] == wad@.lumps[i].name);
                            }
                        }
                    }
                },
                Some(entry) => {
                    let ghost position = entry@.index as int;
                    proof {
                        assert forall|j: int| 0 <= j <= position implies wad@.names()[j]
                            == wad@.lumps[j].name by {}
                        assert(is_first_named(wad@.names(), name@, position));
                        let chosen = choose|i: int| is_first_named(wad@.names(), name@, i);
                        assert(chosen == position) by {
                            if chosen < position {
                                assert(wad@.names()[chosen] == wad@.lumps[chosen].name);
                            }
                        }
                    }
                    if is_valid_map(entry) {
                        proof {
                            if decode_map(wad@, position) is Err {
                                lemma_maps_of_stops(wad@, names, index as nat, 36);
                            }
                        }
                        match DoomMap::get_map(entry) {
                            Err(e) => {
                                return Err(e);
                            },
                            Ok(map) => {
                                proof {
                                    assert(map_views(maps@.push(map)) =~= map_views(maps@).push(
                                        map@,
                                    ));
                                }
                                maps.push(map);
                            },
                        }
                    }
                },
            }
            index = index + 1;
        }
        Ok(maps)
    }
}

} // verus!
