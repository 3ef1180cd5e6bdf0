use idola::block::lobbyhandler::event::Event;
use idola::game::{CharClass, Version};
use idola::maps::files::{ep1_areas_from, ep1_map_files, ep2_areas_from, ep2_map_files, ep4_areas_from, ep4_map_files, ep4_offline_map_files};
use idola::maps::{Ep1AreaCode, Ep2AreaCode, Ep4AreaCode, MapEnemy, VariationData};

#[test]
fn version_names_parse() {
    assert_eq!(Version::from_str("BlueBurst"), Ok(Version::BlueBurst));
    assert_eq!(Version::from_str("Gamecube"), Ok(Version::Gamecube));
    assert_eq!(Version::from_str("Episode3"), Ok(Version::Episode3));
    assert_eq!(Version::from_str("PC"), Ok(Version::PC));
    assert_eq!(Version::from_str("DCV2"), Ok(Version::DCV2));
    assert_eq!(Version::from_str("DCV1"), Ok(Version::DCV1));
}

#[test]
fn version_unknown_name_is_refused() {
    assert_eq!(Version::from_str("Xbox"), Err("Unknown version Xbox".to_string()));
    assert_eq!(Version::from_str("blueburst"), Err("Unknown version blueburst".to_string()));
}

#[test]
fn char_class_codes_roundtrip() {
    for code in 0u8..12 {
        let c = CharClass::from_code(code).unwrap();
        assert_eq!(c.code(), code);
    }
    assert_eq!(CharClass::from_code(12), None);
    assert_eq!(CharClass::from_code(255), None);
}

#[test]
fn char_class_names() {
    assert_eq!(CharClass::HUmar.to_string(), "HUmar");
    assert_eq!(CharClass::FOnewearl.to_string(), "FOnewearl");
    assert_eq!(CharClass::RAmarl.to_string(), "RAmarl");
    assert_eq!(CharClass::from_code(9).unwrap().to_string(), "HUcaseal");
}

#[test]
fn area_codes_roundtrip() {
    for code in 0u8..18 {
        assert_eq!(Ep1AreaCode::from_code(code).unwrap().code(), code);
        assert_eq!(Ep2AreaCode::from_code(code).unwrap().code(), code);
    }
    for code in 0u8..10 {
        assert_eq!(Ep4AreaCode::from_code(code).unwrap().code(), code);
    }
    assert!(Ep1AreaCode::from_code(18).is_none());
    assert!(Ep2AreaCode::from_code(18).is_none());
    assert!(Ep4AreaCode::from_code(10).is_none());
    assert_eq!(Ep1AreaCode::DarkFalz.code(), 14);
    assert_eq!(Ep2AreaCode::GolDragon.code(), 15);
    assert_eq!(Ep4AreaCode::SaintMilion.code(), 9);
}

#[test]
fn event_codes() {
    assert_eq!(Event::Normal.code(), 0);
    assert_eq!(Event::Christmas.code(), 1);
    assert_eq!(Event::Valentines.code(), 3);
    assert_eq!(Event::Halloween.code(), 5);
    assert_eq!(Event::AltNormal.code(), 14);
    assert_eq!(Event::from_code(4), Some(Event::Easter));
    assert_eq!(Event::from_code(2), None);
    assert_eq!(Event::from_code(15), None);
}

fn numbered(n: usize) -> Vec<VariationData> {
    (0..n).map(|i| VariationData { enemies: vec![MapEnemy { base: i as u32, num_clones: 0, skin: 0, reserved2: [0; 11] }] }).collect()
}

fn tag(v: &VariationData) -> u32 {
    v.enemies[0].base
}

#[test]
fn map_file_tables() {
    let ep1 = ep1_map_files();
    assert_eq!(ep1.len(), 63);
    assert_eq!((ep1[0].area, ep1[0].enemies, ep1[0].objects), (0, "map_city00_00e.dat", "map_city00_00o.dat"));
    assert_eq!((ep1[1].area, ep1[1].major, ep1[1].enemies), (1, 0, "map_forest01_00e.dat"));
    assert_eq!((ep1[12].area, ep1[12].major, ep1[12].minor, ep1[12].enemies), (3, 0, 1, "map_cave01_00_01e.dat"));
    assert_eq!((ep1[62].area, ep1[62].enemies), (14, "map_boss04e.dat"));
    assert_eq!(ep2_map_files().len(), 37);
    assert_eq!(ep4_map_files().len(), 26);
    assert_eq!(ep4_map_files()[25].area, 9);
}

#[test]
fn loaded_variations_fill_the_areas_in_order() {
    let a = ep1_areas_from(numbered(63));
    assert_eq!(tag(&a.city), 0);
    assert_eq!(a.forest1.iter().map(tag).collect::<Vec<_>>(), vec![1, 2, 3, 4, 5]);
    assert_eq!(a.forest2.len(), 5);
    assert_eq!(a.cave1.len(), 6);
    assert_eq!((a.cave1[1].major, a.cave1[1].minor, tag(&a.cave1[1].data)), (0, 1, 12));
    assert_eq!((a.cave1[5].major, a.cave1[5].minor), (2, 1));
    assert_eq!(tag(&a.boss4), 62);
    let b = ep2_areas_from(numbered(37));
    assert_eq!(tag(&b.boss8), 36);
    assert_eq!(b.jungle4.len(), 4);
    let c = ep4_areas_from(numbered(26));
    assert_eq!(c.wilds1.iter().map(tag).collect::<Vec<_>>(), vec![1, 2, 3]);
    assert_eq!(tag(&c.boss9), 25);
}

#[test]
fn offline_episode4_uses_its_own_city_files() {
    let online = ep4_map_files();
    let offline = ep4_offline_map_files();
    assert_eq!(offline.len(), online.len());
    assert_eq!((offline[0].enemies, offline[0].objects), ("map_city02_00_00e_s.dat", "map_city02_00_00o_s.dat"));
    for i in 1..online.len() {
        assert_eq!(offline[i].enemies, online[i].enemies);
    }
}
