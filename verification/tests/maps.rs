use wad_archive::doom::map::{
    collect_run, is_role, is_valid_map, role, validate_map, walk_schema, DoomMap,
};
use wad_archive::doom::types::{MonsterType, ThingType};
use wad_archive::error::{FormatError, WadError};
use wad_archive::wad::Wad;

/// A Doom-style archive: header, lump data, then the directory.
fn doom_archive(magic: &[u8; 4], lumps: &[(&[u8], Vec<u8>)]) -> Vec<u8> {
    let mut bytes: Vec<u8> = Vec::new();
    bytes.extend_from_slice(magic);
    bytes.extend_from_slice(&(lumps.len() as u32).to_le_bytes());
    bytes.extend_from_slice(&[0u8; 4]);
    let mut offsets: Vec<u32> = Vec::new();
    for (_, data) in lumps {
        offsets.push(bytes.len() as u32);
        bytes.extend_from_slice(data);
    }
    let dir_offset = bytes.len() as u32;
    bytes[8..12].copy_from_slice(&dir_offset.to_le_bytes());
    for (i, (name, data)) in lumps.iter().enumerate() {
        bytes.extend_from_slice(&offsets[i].to_le_bytes());
        bytes.extend_from_slice(&(data.len() as u32).to_le_bytes());
        let mut field = [0u8; 8];
        field[..name.len()].copy_from_slice(name);
        bytes.extend_from_slice(&field);
    }
    bytes
}

const ROLES: [&str; 10] = [
    "THINGS", "LINEDEFS", "SIDEDEFS", "VERTEXES", "SEGS", "SSECTORS", "NODES", "SECTORS",
    "REJECT", "BLOCKMAP",
];

const KNOWN_TYPES: [u16; 11] = [1, 3004, 2001, 2007, 2015, 2018, 13, 2035, 10, 14, 32000];

/// `count` thing records whose type numbers all belong to a category.
fn things(count: usize) -> Vec<u8> {
    let mut bytes: Vec<u8> = Vec::new();
    for i in 0..count {
        bytes.extend_from_slice(&(i as i16).to_le_bytes());
        bytes.extend_from_slice(&(-(i as i16)).to_le_bytes());
        bytes.extend_from_slice(&(((i % 8) * 45) as u16).to_le_bytes());
        bytes.extend_from_slice(&KNOWN_TYPES[i % KNOWN_TYPES.len()].to_le_bytes());
        bytes.extend_from_slice(&7u16.to_le_bytes());
    }
    bytes
}

/// The lumps of one map; `skip` names the roles that are left out.
fn map_lumps(marker: &str, skip: &[&str], first: bool) -> Vec<(String, Vec<u8>)> {
    let mut lumps: Vec<(String, Vec<u8>)> = Vec::new();
    lumps.push((marker.to_string(), Vec::new()));
    for role in ROLES.iter() {
        if skip.contains(role) {
            continue;
        }
        let data = match (*role, first) {
            ("THINGS", true) => things(158),
            ("LINEDEFS", true) => vec![0u8; 645 * 14],
            ("SIDEDEFS", true) => vec![0u8; 876 * 30],
            ("VERTEXES", true) => vec![0u8; 564 * 4],
            ("SEGS", true) => vec![0u8; 946 * 12],
            ("SSECTORS", true) => vec![0u8; 258 * 4],
            ("THINGS", false) => things(3),
            ("LINEDEFS", false) => vec![0u8; 28],
            ("SIDEDEFS", false) => vec![0u8; 60],
            ("VERTEXES", false) => vec![0u8; 8],
            _ => vec![0u8; 4],
        };
        lumps.push((role.to_string(), data));
    }
    lumps
}

fn archive_of(named: &[(String, Vec<u8>)]) -> Vec<u8> {
    let lumps: Vec<(&[u8], Vec<u8>)> =
        named.iter().map(|(n, d)| (n.as_bytes(), d.clone())).collect();
    doom_archive(b"PWAD", &lumps)
}

/// An episode of nine maps behind an intermission picture, 152 lumps in all.
fn goetia() -> Vec<u8> {
    let mut named: Vec<(String, Vec<u8>)> = Vec::new();
    named.push(("WIMAP0".to_string(), vec![7u8; 66888]));
    for map in 1..=9 {
        named.extend(map_lumps(&format!("E1M{}", map), &[], map == 1));
    }
    let mut filler = 0;
    while named.len() < 152 {
        named.push((format!("FILL{:02}", filler), vec![1u8; 3]));
        filler += 1;
    }
    archive_of(&named)
}

/// The same episode with a map that lacks `SIDEDEFS` and `SECTORS` and one that lacks
/// `REJECT`.
fn goetia_broken() -> Vec<u8> {
    let mut named: Vec<(String, Vec<u8>)> = Vec::new();
    named.push(("WIMAP0".to_string(), vec![7u8; 66888]));
    for map in 1..=9 {
        let skip: &[&str] = match map {
            3 => &["SIDEDEFS", "SECTORS"],
            9 => &["REJECT"],
            _ => &[],
        };
        named.extend(map_lumps(&format!("E1M{}", map), skip, map == 1));
    }
    archive_of(&named)
}

fn one_map(marker: &str, skip: &[&str], after: &[&str]) -> Vec<u8> {
    let mut named = map_lumps(marker, skip, false);
    for name in after {
        named.push((name.to_string(), vec![0u8; 2]));
    }
    archive_of(&named)
}

fn run_of(names: &[&str]) -> Vec<String> {
    names.iter().map(|n| n.to_string()).collect()
}

#[test]
fn verify_valid_doom_map() {
    let w: Wad = Wad::from_bytes(&goetia()).unwrap();

    let pass = w.get_by_name("E1M1");
    assert!(pass.is_some());

    let e1m1_entry = pass.unwrap();
    assert!(is_valid_map(e1m1_entry.clone()));
}

#[test]
fn verify_doom_map_lump_data() {
    let w: Wad = Wad::from_bytes(&goetia()).unwrap();
    let mut map_marker = w.get_by_name("E1M1").unwrap();

    let things_wad_entry = map_marker.next().unwrap();
    let linedefs_wad_entry = map_marker.next().unwrap();
    let sidedefs_wad_entry = map_marker.next().unwrap();
    let vertexes_wad_entry = map_marker.next().unwrap();
    let segs_wad_entry = map_marker.next().unwrap();
    let ssectors_wad_entry = map_marker.next().unwrap();

    let expected_num_things = 158;
    let num_things = things_wad_entry.lump().data().len() / 10;
    assert!(num_things == expected_num_things);

    let expected_num_linedefs = 645;
    let num_linedefs = linedefs_wad_entry.lump().data().len() / 14;
    assert!(num_linedefs == expected_num_linedefs);

    let expected_num_sidedefs = 876;
    let num_sidedefs = sidedefs_wad_entry.lump().data().len() / 30;
    assert!(num_sidedefs == expected_num_sidedefs);

    let expected_num_vertexes = 564;
    let num_vertexes = vertexes_wad_entry.lump().data().len() / 4;
    assert!(num_vertexes == expected_num_vertexes);

    let expected_num_segs = 946;
    let num_segs = segs_wad_entry.lump().data().len() / 12;
    assert!(num_segs == expected_num_segs);

    let expected_num_ssectors = 258;
    let num_ssectors = ssectors_wad_entry.lump().data().len() / 4;
    assert!(num_ssectors == expected_num_ssectors);
}

#[test]
fn verify_missing_optional() {
    let broken: Wad = Wad::from_bytes(&goetia_broken()).unwrap();
    let missing_e1m9 = broken.get_by_name("E1M9");
    assert!(missing_e1m9.is_some());

    let e1m9_entry = missing_e1m9.unwrap();
    assert!(is_valid_map(e1m9_entry.clone()));
}

#[test]
fn detect_broken_doom_map() {
    let broken: Wad = Wad::from_bytes(&goetia_broken()).unwrap();
    let broken_e1m3 = broken.get_by_name("E1M3");
    assert!(broken_e1m3.is_some());

    let e1m3_entry = broken_e1m3.unwrap();
    assert!(!is_valid_map(e1m3_entry.clone()));
}

#[test]
fn verify_all_thing_types_loaded() {
    let w: Wad = Wad::from_bytes(&goetia()).unwrap();
    let maplist = DoomMap::get_maps(&w).unwrap();

    assert!(maplist.len() == 9);

    for map in maplist {
        for thing in map.things() {
            let unknown_thing = match thing.thing_type() {
                ThingType::Unknown(_) => true,
                _ => false,
            };

            assert_eq!(unknown_thing, false);
        }
    }
}

#[test]
fn complete_group_is_valid() {
    let wad = Wad::from_bytes(&one_map("E1M1", &[], &[])).unwrap();
    assert!(is_valid_map(wad.get_at_index(0).unwrap()));
}

#[test]
fn group_without_reject_is_valid() {
    let wad = Wad::from_bytes(&one_map("E1M1", &["REJECT"], &[])).unwrap();
    assert_eq!(wad.lumps().len(), 10);
    assert!(is_valid_map(wad.get_at_index(0).unwrap()));
}

#[test]
fn group_without_sidedefs_and_sectors_is_invalid() {
    let wad = Wad::from_bytes(&one_map("E1M1", &["SIDEDEFS", "SECTORS"], &[])).unwrap();
    assert!(!is_valid_map(wad.get_at_index(0).unwrap()));
}

#[test]
fn every_required_role_is_needed() {
    for role in ROLES.iter() {
        let wad = Wad::from_bytes(&one_map("E1M1", &[role], &[])).unwrap();
        let valid = is_valid_map(wad.get_at_index(0).unwrap());
        assert_eq!(valid, *role == "REJECT", "without {}", role);
    }
}

#[test]
fn unrecognized_marker_is_invalid() {
    let wad = Wad::from_bytes(&one_map("FOO1", &[], &[])).unwrap();
    assert!(!is_valid_map(wad.get_at_index(0).unwrap()));
    let wad = Wad::from_bytes(&one_map("THINGS", &[], &[])).unwrap();
    assert!(!is_valid_map(wad.get_at_index(0).unwrap()));
}

#[test]
fn doom2_marker_is_recognized() {
    let wad = Wad::from_bytes(&one_map("MAP01", &[], &[])).unwrap();
    assert!(is_valid_map(wad.get_at_index(0).unwrap()));
    let wad = Wad::from_bytes(&one_map("MAP32", &["REJECT"], &[])).unwrap();
    assert!(is_valid_map(wad.get_at_index(0).unwrap()));
    let wad = Wad::from_bytes(&one_map("MAP1", &[], &[])).unwrap();
    assert!(!is_valid_map(wad.get_at_index(0).unwrap()));
    let wad = Wad::from_bytes(&one_map("MAPXX", &[], &[])).unwrap();
    assert!(!is_valid_map(wad.get_at_index(0).unwrap()));
    let wad = Wad::from_bytes(&one_map("ExMy", &[], &[])).unwrap();
    assert!(!is_valid_map(wad.get_at_index(0).unwrap()));
}

#[test]
fn lumps_behind_a_complete_group_do_not_matter() {
    let wad = Wad::from_bytes(&one_map("E2M4", &[], &["THINGS", "THINGS", "DEMO1"])).unwrap();
    assert!(is_valid_map(wad.get_at_index(0).unwrap()));
    let wad = Wad::from_bytes(&one_map("E2M4", &["REJECT"], &["REJECT"])).unwrap();
    assert!(is_valid_map(wad.get_at_index(0).unwrap()));
}

#[test]
fn roles_out_of_order_are_invalid() {
    let names = [
        "E1M1", "LINEDEFS", "THINGS", "SIDEDEFS", "VERTEXES", "SEGS", "SSECTORS", "NODES",
        "SECTORS", "REJECT", "BLOCKMAP",
    ];
    let named: Vec<(String, Vec<u8>)> =
        names.iter().map(|n| (n.to_string(), Vec::new())).collect();
    let wad = Wad::from_bytes(&archive_of(&named)).unwrap();
    assert!(!is_valid_map(wad.get_at_index(0).unwrap()));
}

#[test]
fn foreign_lump_inside_the_group_ends_the_run() {
    let names = [
        "E1M1", "THINGS", "LINEDEFS", "SIDEDEFS", "VERTEXES", "SCRIPTS", "SEGS", "SSECTORS",
        "NODES", "SECTORS", "REJECT", "BLOCKMAP",
    ];
    let named: Vec<(String, Vec<u8>)> =
        names.iter().map(|n| (n.to_string(), Vec::new())).collect();
    let wad = Wad::from_bytes(&archive_of(&named)).unwrap();
    let marker = wad.get_at_index(0).unwrap();
    assert_eq!(collect_run(marker), run_of(&["THINGS", "LINEDEFS", "SIDEDEFS", "VERTEXES"]));
    assert!(!is_valid_map(marker));
}

#[test]
fn marker_at_the_end_of_the_directory_is_invalid() {
    let named = vec![("DATA".to_string(), vec![1u8]), ("E1M1".to_string(), Vec::new())];
    let wad = Wad::from_bytes(&archive_of(&named)).unwrap();
    let marker = wad.get_at_index(1).unwrap();
    assert!(collect_run(marker).is_empty());
    assert!(!is_valid_map(marker));
}

#[test]
fn group_cut_short_is_invalid() {
    let wad = Wad::from_bytes(&one_map("E1M1", &["BLOCKMAP"], &[])).unwrap();
    assert!(!is_valid_map(wad.get_at_index(0).unwrap()));
    let wad = Wad::from_bytes(&one_map("E1M1", &["REJECT", "BLOCKMAP"], &[])).unwrap();
    assert!(!is_valid_map(wad.get_at_index(0).unwrap()));
}

#[test]
fn validation_follows_what_the_patterns_said() {
    let wad = Wad::from_bytes(&one_map("FOO1", &[], &[])).unwrap();
    let marker = wad.get_at_index(0).unwrap();
    assert!(validate_map(Some(true), Some(false), marker));
    assert!(validate_map(Some(false), Some(true), marker));
    assert!(validate_map(None, Some(true), marker));
    assert!(validate_map(Some(true), None, marker));
    assert!(!validate_map(Some(false), Some(false), marker));
    assert!(!validate_map(None, None, marker));
    assert!(!validate_map(Some(false), None, marker));
    let broken = Wad::from_bytes(&one_map("E1M1", &["NODES"], &[])).unwrap();
    assert!(!validate_map(Some(true), Some(true), broken.get_at_index(0).unwrap()));
}

#[test]
fn run_holds_the_role_lumps_behind_the_marker() {
    let wad = Wad::from_bytes(&one_map("E1M1", &["REJECT"], &["DEMO1", "THINGS"])).unwrap();
    let run = collect_run(wad.get_at_index(0).unwrap());
    assert_eq!(
        run,
        run_of(&[
            "THINGS", "LINEDEFS", "SIDEDEFS", "VERTEXES", "SEGS", "SSECTORS", "NODES",
            "SECTORS", "BLOCKMAP",
        ])
    );
    let later = collect_run(wad.get_at_index(5).unwrap());
    assert_eq!(later, run_of(&["SSECTORS", "NODES", "SECTORS", "BLOCKMAP"]));
    assert!(collect_run(wad.get_at_index(9).unwrap()).is_empty());
}

#[test]
fn walk_consumes_roles_in_order() {
    assert!(walk_schema(&run_of(&ROLES)));
    assert!(walk_schema(&run_of(&[
        "THINGS", "LINEDEFS", "SIDEDEFS", "VERTEXES", "SEGS", "SSECTORS", "NODES", "SECTORS",
        "BLOCKMAP",
    ])));
    assert!(walk_schema(&run_of(&[
        "THINGS", "LINEDEFS", "SIDEDEFS", "VERTEXES", "SEGS", "SSECTORS", "NODES", "SECTORS",
        "BLOCKMAP", "REJECT",
    ])));
    assert!(!walk_schema(&run_of(&[
        "THINGS", "LINEDEFS", "SIDEDEFS", "VERTEXES", "SEGS", "SSECTORS", "NODES", "SECTORS",
        "REJECT",
    ])));
    assert!(!walk_schema(&run_of(&[
        "THINGS", "LINEDEFS", "SIDEDEFS", "VERTEXES", "SEGS", "SSECTORS", "NODES", "SECTORS",
        "REJECT", "REJECT", "BLOCKMAP",
    ])));
    assert!(!walk_schema(&run_of(&[])));
    assert!(!walk_schema(&run_of(&["THINGS"])));
}

#[test]
fn schema_has_ten_roles() {
    for (i, name) in ROLES.iter().enumerate() {
        assert_eq!(role(i), *name);
        assert!(is_role(name));
    }
    assert!(!is_role("E1M1"));
    assert!(!is_role("things"));
    assert!(!is_role(""));
    assert!(!is_role("BLOCKMAPS"));
}

#[test]
fn potential_maps_are_four_episodes_of_nine() {
    let names = DoomMap::get_potential_map_list();
    assert_eq!(names.len(), 36);
    assert_eq!(names[0], "E1M1");
    assert_eq!(names[8], "E1M9");
    assert_eq!(names[9], "E2M1");
    assert_eq!(names[35], "E4M9");
    for episode in 1..=4 {
        for map in 1..=9 {
            assert_eq!(names[(episode - 1) * 9 + map - 1], format!("E{}M{}", episode, map));
        }
    }
}

#[test]
fn map_is_decoded_from_the_four_lumps_behind_its_marker() {
    let wad = Wad::from_bytes(&goetia()).unwrap();
    let marker = wad.get_by_name("E1M1").unwrap();
    assert!(is_valid_map(marker));
    let map = DoomMap::get_map(marker).unwrap();
    assert_eq!(map.name(), "E1M1");
    assert_eq!(map.things().len(), 158);
    assert_eq!(map.linedefs().len(), 645);
    assert_eq!(map.sidedefs().len(), 876);
    assert_eq!(map.vertexes().len(), 564);
    assert_eq!(map.wad().lumps().len(), 152);
    assert_eq!(map.things()[1].location().x(), 1);
    assert_eq!(map.things()[1].location().y(), -1);
    assert_eq!(*map.things()[1].thing_type(), ThingType::Monster(MonsterType::Zombieman));
    assert_eq!(map.sidedefs()[0].bytes().len(), 30);
}

#[test]
fn maps_come_in_the_order_of_the_name_list() {
    let mut named: Vec<(String, Vec<u8>)> = Vec::new();
    named.extend(map_lumps("E2M1", &[], false));
    named.extend(map_lumps("MAP01", &[], false));
    named.extend(map_lumps("E1M5", &["REJECT"], false));
    named.extend(map_lumps("E1M2", &["NODES"], false));
    named.extend(map_lumps("E5M1", &[], false));
    let wad = Wad::from_bytes(&archive_of(&named)).unwrap();
    let maps = DoomMap::get_maps(&wad).unwrap();
    let names: Vec<String> = maps.iter().map(|m| m.name()).collect();
    assert_eq!(names, vec!["E1M5".to_string(), "E2M1".to_string()]);
    assert_eq!(maps[0].things().len(), 3);
    assert_eq!(maps[0].linedefs().len(), 2);
    assert_eq!(maps[0].sidedefs().len(), 2);
    assert_eq!(maps[0].vertexes().len(), 2);
}

#[test]
fn archive_without_maps_has_none() {
    let wad = Wad::from_bytes(&doom_archive(b"IWAD", &[(b"PLAYPAL", vec![0u8; 3])])).unwrap();
    assert!(DoomMap::get_maps(&wad).unwrap().is_empty());
}

#[test]
fn map_with_a_misaligned_lump_fails_to_decode() {
    let mut named = map_lumps("E1M1", &[], false);
    named[2].1 = vec![0u8; 15];
    let wad = Wad::from_bytes(&archive_of(&named)).unwrap();
    let marker = wad.get_at_index(0).unwrap();
    assert!(is_valid_map(marker));
    assert_eq!(
        DoomMap::get_map(marker).err(),
        Some(WadError::Format(FormatError::RecordSize { len: 15, stride: 14 }))
    );
    assert_eq!(
        DoomMap::get_maps(&wad).err(),
        Some(WadError::Format(FormatError::RecordSize { len: 15, stride: 14 }))
    );
}

#[test]
fn first_misaligned_lump_gives_the_error() {
    let mut named = map_lumps("E1M1", &[], false);
    named[1].1 = vec![0u8; 11];
    named[3].1 = vec![0u8; 31];
    named[4].1 = vec![0u8; 5];
    let wad = Wad::from_bytes(&archive_of(&named)).unwrap();
    assert_eq!(
        DoomMap::get_map(wad.get_at_index(0).unwrap()).err(),
        Some(WadError::Format(FormatError::RecordSize { len: 11, stride: 10 }))
    );
    named[1].1 = vec![0u8; 10];
    let wad = Wad::from_bytes(&archive_of(&named)).unwrap();
    assert_eq!(
        DoomMap::get_map(wad.get_at_index(0).unwrap()).err(),
        Some(WadError::Format(FormatError::RecordSize { len: 31, stride: 30 }))
    );
    named[3].1 = vec![0u8; 30];
    let wad = Wad::from_bytes(&archive_of(&named)).unwrap();
    assert_eq!(
        DoomMap::get_map(wad.get_at_index(0).unwrap()).err(),
        Some(WadError::Format(FormatError::RecordSize { len: 5, stride: 4 }))
    );
}
