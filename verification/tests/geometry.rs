use wad_archive::doom::linedef::{
    Linedef, LinedefFlags, ALWAYS_SHOWN_ON_MAP, BLOCKS_MONSTERS, BLOCKS_SOUND, IMPASSABLE,
    LOWER_UNPEGGED, NOT_SHOWN_ON_MAP, NO_SIDEDEF, SECRET, TWO_SIDED, UPPER_UNPEGGED,
};
use wad_archive::doom::sidedef::Sidedef;
use wad_archive::doom::specials::{DoorLineSpecial, LinedefSpecial};
use wad_archive::doom::thing::{Thing, ThingFlags, AMBUSH, DM_ONLY, EASY, HARD, MEDIUM};
use wad_archive::doom::types::{
    AmmoType, DecorationType, EditorType, ItemType, KeyType, MonsterType, ObstacleType,
    OtherType, PowerupType, StartType, ThingType, WeaponType,
};
use wad_archive::doom::vertex::Vertex;
use wad_archive::doom::{count_records, DoomDirection, DoomPoint};
use wad_archive::error::{FormatError, WadError};
use wad_archive::wad::Wad;

fn misaligned(len: usize, stride: usize) -> Option<WadError> {
    Some(WadError::Format(FormatError::RecordSize { len, stride }))
}

/// Bytes without any pattern, to decode and encode again.
fn noise(len: usize) -> Vec<u8> {
    let mut state: u32 = 0x2545_f491;
    let mut bytes: Vec<u8> = Vec::new();
    for _ in 0..len {
        state ^= state << 13;
        state ^= state >> 17;
        state ^= state << 5;
        bytes.push((state >> 11) as u8);
    }
    bytes
}

fn encode_vertexes(vertexes: &[Vertex]) -> Vec<u8> {
    let mut bytes: Vec<u8> = Vec::new();
    for vertex in vertexes {
        bytes.extend_from_slice(&vertex.x().to_le_bytes());
        bytes.extend_from_slice(&vertex.y().to_le_bytes());
    }
    bytes
}

fn encode_things(things: &[Thing]) -> Vec<u8> {
    let mut bytes: Vec<u8> = Vec::new();
    for thing in things {
        bytes.extend_from_slice(&thing.location().x().to_le_bytes());
        bytes.extend_from_slice(&thing.location().y().to_le_bytes());
        bytes.extend_from_slice(&thing.angle().to_le_bytes());
        bytes.extend_from_slice(&thing.thing_type().type_number().to_le_bytes());
        bytes.extend_from_slice(&thing.flags().bits().to_le_bytes());
    }
    bytes
}

fn encode_linedefs(linedefs: &[Linedef]) -> Vec<u8> {
    let mut bytes: Vec<u8> = Vec::new();
    for linedef in linedefs {
        bytes.extend_from_slice(&linedef.vertex_index_1().to_le_bytes());
        bytes.extend_from_slice(&linedef.vertex_index_2().to_le_bytes());
        bytes.extend_from_slice(&linedef.flags().bits().to_le_bytes());
        bytes.extend_from_slice(&linedef.special().type_number().to_le_bytes());
        bytes.extend_from_slice(&linedef.tag().to_le_bytes());
        bytes.extend_from_slice(&linedef.sidedef_front().to_le_bytes());
        bytes.extend_from_slice(&linedef.sidedef_back().to_le_bytes());
    }
    bytes
}

#[test]
fn point_keeps_its_coordinates() {
    let point = DoomPoint::new(-32768, 32767);
    assert_eq!(point.x(), -32768);
    assert_eq!(point.y(), 32767);
    assert_eq!(point, DoomPoint::new(-32768, 32767));
}

#[test]
fn eight_angles_are_headings() {
    assert_eq!(DoomDirection::from_angle(0), DoomDirection::East);
    assert_eq!(DoomDirection::from_angle(45), DoomDirection::Northeast);
    assert_eq!(DoomDirection::from_angle(90), DoomDirection::North);
    assert_eq!(DoomDirection::from_angle(135), DoomDirection::Northwest);
    assert_eq!(DoomDirection::from_angle(180), DoomDirection::West);
    assert_eq!(DoomDirection::from_angle(225), DoomDirection::Southwest);
    assert_eq!(DoomDirection::from_angle(270), DoomDirection::South);
    assert_eq!(DoomDirection::from_angle(315), DoomDirection::Southeast);
}

#[test]
fn other_angles_are_unknown() {
    for angle in 0..=u16::MAX {
        let heading = DoomDirection::from_angle(angle);
        let known = angle % 45 == 0 && angle < 360;
        assert_eq!(heading == DoomDirection::Unknown, !known, "angle {}", angle);
    }
    assert_eq!(DoomDirection::from_angle(360), DoomDirection::Unknown);
    assert_eq!(DoomDirection::from_angle(1), DoomDirection::Unknown);
}

#[test]
fn records_are_counted_by_stride() {
    assert_eq!(count_records(0, 4), Ok(0));
    assert_eq!(count_records(40, 4), Ok(10));
    assert_eq!(count_records(1580, 10), Ok(158));
    assert_eq!(count_records(9030, 14), Ok(645));
    assert_eq!(count_records(41, 4).err(), misaligned(41, 4));
    assert_eq!(count_records(9, 10).err(), misaligned(9, 10));
}

#[test]
fn vertex_is_two_signed_numbers() {
    let bytes = [0x01, 0x00, 0xff, 0xff, 0x00, 0x80, 0xff, 0x7f, 0x18, 0xfc, 0xe8, 0x03];
    let vertexes = Vertex::from_bytes(&bytes).unwrap();
    assert_eq!(vertexes.len(), 3);
    assert_eq!((vertexes[0].x(), vertexes[0].y()), (1, -1));
    assert_eq!((vertexes[1].x(), vertexes[1].y()), (-32768, 32767));
    assert_eq!((vertexes[2].x(), vertexes[2].y()), (-1000, 1000));
}

#[test]
fn empty_lump_decodes_to_nothing() {
    assert!(Vertex::from_bytes(&[]).unwrap().is_empty());
    assert!(Thing::from_bytes(&[]).unwrap().is_empty());
    assert!(Linedef::from_bytes(&[]).unwrap().is_empty());
    assert!(Sidedef::from_bytes(&[]).unwrap().is_empty());
}

#[test]
fn misaligned_lump_is_a_format_error() {
    assert_eq!(Vertex::from_bytes(&[0u8; 6]).err(), misaligned(6, 4));
    assert_eq!(Thing::from_bytes(&[0u8; 19]).err(), misaligned(19, 10));
    assert_eq!(Linedef::from_bytes(&[0u8; 15]).err(), misaligned(15, 14));
    assert_eq!(Sidedef::from_bytes(&[0u8; 29]).err(), misaligned(29, 30));
    assert_eq!(Vertex::from_bytes(&[0u8; 1]).err(), misaligned(1, 4));
}

#[test]
fn thing_record_is_decoded_field_by_field() {
    let bytes = [
        0x20, 0x00, 0xe0, 0xff, 0x5a, 0x00, 0xb9, 0x0b, 0x0f, 0x00, 0xff, 0xff, 0x01, 0x00, 0x64,
        0x00, 0x0f, 0x27, 0x10, 0x80,
    ];
    let things = Thing::from_bytes(&bytes).unwrap();
    assert_eq!(things.len(), 2);
    assert_eq!(things[0].location(), DoomPoint::new(32, -32));
    assert_eq!(things[0].angle(), 90);
    assert_eq!(things[0].direction(), DoomDirection::North);
    assert_eq!(*things[0].thing_type(), ThingType::Monster(MonsterType::Imp));
    assert_eq!(things[0].flags().bits(), 0x000f);
    assert!(things[0].flags().contains(EASY));
    assert!(things[0].flags().contains(MEDIUM | HARD));
    assert!(things[0].flags().contains(AMBUSH));
    assert!(!things[0].flags().contains(DM_ONLY));
    assert_eq!(things[1].location(), DoomPoint::new(-1, 1));
    assert_eq!(things[1].angle(), 100);
    assert_eq!(things[1].direction(), DoomDirection::Unknown);
    assert_eq!(*things[1].thing_type(), ThingType::Unknown(9999));
    assert_eq!(things[1].flags().bits(), 0x8010);
    assert!(things[1].flags().contains(DM_ONLY));
    assert!(!things[1].flags().contains(EASY | DM_ONLY));
}

#[test]
fn thing_flags_are_independent_bits() {
    assert_eq!((EASY, MEDIUM, HARD, AMBUSH, DM_ONLY), (1, 2, 4, 8, 16));
    let flags = ThingFlags::from_bits(EASY | HARD);
    assert!(flags.contains(EASY));
    assert!(flags.contains(HARD));
    assert!(flags.contains(EASY | HARD));
    assert!(!flags.contains(MEDIUM));
    assert!(!flags.contains(EASY | MEDIUM));
    assert!(flags.contains(0));
    assert_eq!(flags.bits(), 5);
    assert!(!ThingFlags::from_bits(0).contains(EASY));
}

#[test]
fn linedef_record_is_decoded_field_by_field() {
    let bytes = [
        0x02, 0x00, 0x03, 0x01, 0x05, 0x01, 0x01, 0x00, 0x07, 0x00, 0x00, 0x00, 0xff, 0xff, 0xff,
        0xff, 0x00, 0x00, 0x20, 0x00, 0xe7, 0x03, 0xff, 0xff, 0xfe, 0xff, 0x09, 0x00,
    ];
    let linedefs = Linedef::from_bytes(&bytes).unwrap();
    assert_eq!(linedefs.len(), 2);
    assert_eq!(linedefs[0].vertex_index_1(), 2);
    assert_eq!(linedefs[0].vertex_index_2(), 259);
    assert_eq!(linedefs[0].flags().bits(), 0x0105);
    assert!(linedefs[0].flags().contains(IMPASSABLE | TWO_SIDED | ALWAYS_SHOWN_ON_MAP));
    assert!(!linedefs[0].flags().contains(BLOCKS_MONSTERS));
    assert_eq!(*linedefs[0].special(), LinedefSpecial::Door(DoorLineSpecial::SlowOpenWaitClose));
    assert_eq!(linedefs[0].tag(), 7);
    assert_eq!(linedefs[0].sidedef_front(), 0);
    assert_eq!(linedefs[0].sidedef_back(), -1);
    assert_eq!(linedefs[0].front_sidedef(), Some(0));
    assert_eq!(linedefs[0].back_sidedef(), None);
    assert_eq!(linedefs[1].vertex_index_1(), 65535);
    assert_eq!(linedefs[1].vertex_index_2(), 0);
    assert!(linedefs[1].flags().contains(SECRET));
    assert_eq!(*linedefs[1].special(), LinedefSpecial::Unknown(999));
    assert_eq!(linedefs[1].tag(), 65535);
    assert_eq!(linedefs[1].sidedef_front(), -2);
    assert_eq!(linedefs[1].front_sidedef(), None);
    assert_eq!(linedefs[1].back_sidedef(), Some(9));
}

#[test]
fn absent_sidedef_is_not_sidedef_zero() {
    assert_eq!(NO_SIDEDEF, -1);
    let mut record = [0u8; 14];
    record[10] = 0xff;
    record[11] = 0xff;
    let linedefs = Linedef::from_bytes(&record).unwrap();
    assert_eq!(linedefs[0].sidedef_front(), NO_SIDEDEF);
    assert_eq!(linedefs[0].front_sidedef(), None);
    assert_eq!(linedefs[0].back_sidedef(), Some(0));
}

#[test]
fn linedef_flags_are_independent_bits() {
    assert_eq!(
        [
            IMPASSABLE, BLOCKS_MONSTERS, TWO_SIDED, UPPER_UNPEGGED, LOWER_UNPEGGED, SECRET,
            BLOCKS_SOUND, NOT_SHOWN_ON_MAP, ALWAYS_SHOWN_ON_MAP,
        ],
        [1, 2, 4, 8, 16, 32, 64, 128, 256]
    );
    let flags = LinedefFlags::from_bits(UPPER_UNPEGGED | LOWER_UNPEGGED | BLOCKS_SOUND);
    assert!(flags.contains(UPPER_UNPEGGED));
    assert!(flags.contains(LOWER_UNPEGGED | BLOCKS_SOUND));
    assert!(!flags.contains(NOT_SHOWN_ON_MAP));
    assert!(!flags.contains(UPPER_UNPEGGED | SECRET));
    assert_eq!(flags.bits(), 0x58);
}

#[test]
fn sidedefs_are_records_of_thirty_bytes() {
    let bytes = noise(90);
    let sidedefs = Sidedef::from_bytes(&bytes).unwrap();
    assert_eq!(sidedefs.len(), 3);
    assert_eq!(sidedefs[0].bytes(), &bytes[0..30]);
    assert_eq!(sidedefs[1].bytes(), &bytes[30..60]);
    assert_eq!(sidedefs[2].bytes(), &bytes[60..90]);
}

#[test]
fn vertexes_encode_back_to_their_lump() {
    let bytes = noise(4 * 257);
    let vertexes = Vertex::from_bytes(&bytes).unwrap();
    assert_eq!(vertexes.len(), 257);
    assert_eq!(encode_vertexes(&vertexes), bytes);
}

#[test]
fn things_encode_back_to_their_lump() {
    let bytes = noise(10 * 301);
    let things = Thing::from_bytes(&bytes).unwrap();
    assert_eq!(things.len(), 301);
    assert_eq!(encode_things(&things), bytes);
}

#[test]
fn linedefs_encode_back_to_their_lump() {
    let bytes = noise(14 * 199);
    let linedefs = Linedef::from_bytes(&bytes).unwrap();
    assert_eq!(linedefs.len(), 199);
    assert_eq!(encode_linedefs(&linedefs), bytes);
}

#[test]
fn every_thing_number_is_classified_without_loss() {
    let mut known = 0;
    for code in 0..=u16::MAX {
        let thing_type = ThingType::from_type_number(code);
        assert_eq!(thing_type.type_number(), code);
        match thing_type {
            ThingType::Unknown(kept) => assert_eq!(kept, code),
            _ => known += 1,
        }
    }
    assert_eq!(known, 123);
}

#[test]
fn every_special_number_is_classified_without_loss() {
    let mut doors = 0;
    for code in 0..=u16::MAX {
        let special = LinedefSpecial::from_type_number(code);
        assert_eq!(special.type_number(), code);
        match special {
            LinedefSpecial::Unknown(kept) => assert_eq!(kept, code),
            LinedefSpecial::Door(door) => {
                assert_eq!(door.to_u16(), code);
                assert_eq!(DoorLineSpecial::from_u16(code), Some(door));
                doors += 1;
            },
        }
    }
    assert_eq!(doors, 43);
}

#[test]
fn thing_numbers_fall_into_their_categories() {
    assert_eq!(ThingType::from_type_number(1), ThingType::Start(StartType::Player1Start));
    assert_eq!(ThingType::from_type_number(11), ThingType::Start(StartType::DeathmatchStart));
    assert_eq!(ThingType::from_type_number(3004), ThingType::Monster(MonsterType::Zombieman));
    assert_eq!(ThingType::from_type_number(16), ThingType::Monster(MonsterType::Cyberdemon));
    assert_eq!(ThingType::from_type_number(2001), ThingType::Weapon(WeaponType::Shotgun));
    assert_eq!(ThingType::from_type_number(2006), ThingType::Weapon(WeaponType::BFG9000));
    assert_eq!(ThingType::from_type_number(2007), ThingType::Ammo(AmmoType::Clip));
    assert_eq!(ThingType::from_type_number(17), ThingType::Ammo(AmmoType::EnergyPack));
    assert_eq!(ThingType::from_type_number(2013), ThingType::Item(ItemType::Supercharge));
    assert_eq!(ThingType::from_type_number(83), ThingType::Item(ItemType::Megasphere));
    assert_eq!(ThingType::from_type_number(8), ThingType::Powerup(PowerupType::Backpack));
    assert_eq!(ThingType::from_type_number(2011), ThingType::Powerup(PowerupType::Stimpack));
    assert_eq!(ThingType::from_type_number(13), ThingType::Key(KeyType::RedKey));
    assert_eq!(ThingType::from_type_number(39), ThingType::Key(KeyType::YellowSkullKey));
    assert_eq!(
        ThingType::from_type_number(2035),
        ThingType::Obstacle(ObstacleType::ExplodingBarrel)
    );
    assert_eq!(ThingType::from_type_number(48), ThingType::Obstacle(ObstacleType::TallTechnoColumn));
    assert_eq!(ThingType::from_type_number(10), ThingType::Decoration(DecorationType::BloodyMess1));
    assert_eq!(
        ThingType::from_type_number(63),
        ThingType::Decoration(DecorationType::HangingVictimTwitching)
    );
    assert_eq!(ThingType::from_type_number(14), ThingType::Other(OtherType::TeleportLanding));
    assert_eq!(ThingType::from_type_number(32000), ThingType::Editor(EditorType::BuilderCamera));
    assert_eq!(ThingType::from_type_number(0), ThingType::Unknown(0));
    assert_eq!(ThingType::from_type_number(82), ThingType::Unknown(82));
    assert_eq!(ThingType::from_type_number(65535), ThingType::Unknown(65535));
}

#[test]
fn category_codes_read_back() {
    assert_eq!(MonsterType::from_u16(3001), Some(MonsterType::Imp));
    assert_eq!(MonsterType::Imp.to_u16(), 3001);
    assert_eq!(MonsterType::from_u16(1), None);
    assert_eq!(StartType::from_u16(4), Some(StartType::Player4Start));
    assert_eq!(StartType::from_u16(5), None);
    assert_eq!(KeyType::from_u16(5), Some(KeyType::BlueKey));
    assert_eq!(EditorType::BuilderCamera.to_u16(), 32000);
    assert_eq!(ObstacleType::from_u16(26), Some(ObstacleType::TwitchingImpaledHuman));
    assert_eq!(OtherType::from_u16(89), Some(OtherType::IconOfSinMonsterSpawner));
}

#[test]
fn door_specials_are_recognized() {
    assert_eq!(
        LinedefSpecial::from_type_number(1),
        LinedefSpecial::Door(DoorLineSpecial::SlowOpenWaitClose)
    );
    assert_eq!(
        LinedefSpecial::from_type_number(117),
        LinedefSpecial::Door(DoorLineSpecial::FastOpenWaitClose)
    );
    assert_eq!(
        LinedefSpecial::from_type_number(137),
        LinedefSpecial::Door(DoorLineSpecial::FastOpenStayYellowKeySwitchSingle)
    );
    assert_eq!(
        LinedefSpecial::from_type_number(26),
        LinedefSpecial::Door(DoorLineSpecial::SlowOpenWaitCloseBlueKey)
    );
    assert_eq!(LinedefSpecial::from_type_number(0), LinedefSpecial::Unknown(0));
    assert_eq!(LinedefSpecial::from_type_number(11), LinedefSpecial::Unknown(11));
    assert_eq!(LinedefSpecial::from_type_number(138), LinedefSpecial::Unknown(138));
}

#[test]
fn lumps_are_decoded_through_their_entries() {
    let mut bytes: Vec<u8> = b"PWAD".to_vec();
    bytes.extend_from_slice(&3u32.to_le_bytes());
    bytes.extend_from_slice(&36u32.to_le_bytes());
    let thing = [0x01, 0x00, 0x02, 0x00, 0x3b, 0x01, 0xd1, 0x07, 0x07, 0x00];
    let vertex = [0x0a, 0x00, 0xf6, 0xff];
    bytes.extend_from_slice(&thing);
    bytes.extend_from_slice(&[0u8; 14]);
    for (offset, size, name) in
        [(12u32, 10u32, b"THINGS\0\0"), (22, 14, b"LINEDEFS"), (0, 0, b"EMPTY\0\0\0")]
    {
        bytes.extend_from_slice(&offset.to_le_bytes());
        bytes.extend_from_slice(&size.to_le_bytes());
        bytes.extend_from_slice(name);
    }
    let wad = Wad::from_bytes(&bytes).unwrap();
    let things = Thing::from_things_lump(wad.get_by_name("THINGS").unwrap()).unwrap();
    assert_eq!(things.len(), 1);
    assert_eq!(things[0].direction(), DoomDirection::Southeast);
    assert_eq!(*things[0].thing_type(), ThingType::Weapon(WeaponType::Shotgun));
    let same = Thing::from_lump(wad.get_at_index(0).unwrap().lump()).unwrap();
    assert_eq!(same, things);
    let linedefs = Linedef::from_lump(wad.get_at_index(1).unwrap().lump()).unwrap();
    assert_eq!(linedefs.len(), 1);
    assert_eq!(linedefs[0].back_sidedef(), Some(0));
    assert!(Vertex::from_lump(wad.get_at_index(2).unwrap().lump()).unwrap().is_empty());
    assert!(Sidedef::from_lump(wad.get_at_index(2).unwrap().lump()).unwrap().is_empty());
    assert_eq!(Vertex::from_lump(wad.get_at_index(0).unwrap().lump()).err(), misaligned(10, 4));
    let vertexes = Vertex::from_bytes(&vertex).unwrap();
    assert_eq!((vertexes[0].x(), vertexes[0].y()), (10, -10));
}
