use idola::block::partyhandler::enemygen::convert_enemy;
use idola::block::partyhandler::layout::{
    enemy_defined, enemies_defined, is_episode_ready, list_is_ready, keyed_is_ready, keys_are_distinct, random_variants_ep1,
    random_variants_ep2, random_variants_ep4,
};
use idola::maps::{Areas, Ep1Areas, Ep2Areas, Ep4Areas, InstanceEnemy, KeyedVariation, MapEnemy, VariationData};

fn enemy(base: u32, skin: u32) -> MapEnemy {
    MapEnemy { base, num_clones: 0, skin, reserved2: [0; 11] }
}

fn alt_enemy(base: u32, skin: u32) -> MapEnemy {
    let mut r = [0u32; 11];
    r[10] = 0x800000;
    MapEnemy { base, num_clones: 0, skin, reserved2: r }
}

fn entries(v: &[InstanceEnemy]) -> Vec<(usize, usize, &'static str)> {
    v.iter().map(|e| (e.param_entry, e.rt_entry, e.name)).collect()
}

fn var(enemies: Vec<MapEnemy>) -> VariationData {
    VariationData { enemies }
}

fn keyed(major: u32, minor: u32, enemies: Vec<MapEnemy>) -> KeyedVariation {
    KeyedVariation { major, minor, data: var(enemies) }
}

fn ep1_maps() -> Ep1Areas {
    Ep1Areas {
        city: var(vec![]),
        forest1: vec![var(vec![enemy(0x40, 0)]), var(vec![enemy(0x40, 1)])],
        forest2: vec![var(vec![enemy(0x44, 2)])],
        cave1: vec![keyed(0, 0, vec![]), keyed(1, 1, vec![enemy(0x62, 0)])],
        cave2: vec![keyed(2, 0, vec![])],
        cave3: vec![keyed(0, 1, vec![])],
        machine1: vec![keyed(1, 0, vec![])],
        machine2: vec![keyed(2, 1, vec![])],
        ancient1: vec![keyed(0, 0, vec![])],
        ancient2: vec![keyed(1, 1, vec![])],
        ancient3: vec![keyed(2, 0, vec![])],
        boss1: var(vec![]),
        boss2: var(vec![]),
        boss3: var(vec![]),
        boss4: var(vec![enemy(0xC8, 0)]),
    }
}

fn ep2_maps() -> Ep2Areas {
    Ep2Areas {
        city: var(vec![]),
        ruins1: vec![keyed(0, 0, vec![])],
        ruins2: vec![keyed(0, 1, vec![])],
        space1: vec![keyed(1, 0, vec![])],
        space2: vec![keyed(1, 1, vec![])],
        jungle1: vec![var(vec![])],
        jungle2: vec![var(vec![])],
        jungle3: vec![var(vec![])],
        jungle4: vec![keyed(2, 0, vec![])],
        jungle5: vec![var(vec![])],
        seabed1: vec![keyed(2, 1, vec![])],
        seabed2: vec![keyed(0, 2, vec![enemy(0x41, 1)])],
        boss5: var(vec![]),
        boss6: var(vec![]),
        boss7: var(vec![]),
        boss8: var(vec![]),
    }
}

fn ep4_maps() -> Ep4Areas {
    Ep4Areas {
        city: var(vec![]),
        wilds1: vec![var(vec![]), var(vec![]), var(vec![enemy(0x41, 2)])],
        wilds2: vec![var(vec![])],
        wilds3: vec![var(vec![])],
        wilds4: vec![var(vec![])],
        crater: vec![var(vec![])],
        desert1: vec![var(vec![enemy(0x41, 1)])],
        desert2: vec![var(vec![])],
        desert3: vec![var(vec![])],
        boss9: var(vec![]),
    }
}

#[test]
fn hildebear_by_skin() {
    assert_eq!(entries(&convert_enemy(&enemy(0x40, 0), 1, 0, false)), vec![(0x49, 0x01, "Hildebear/Hildetorr")]);
    assert_eq!(entries(&convert_enemy(&enemy(0x40, 1), 1, 0, false)), vec![(0x4A, 0x02, "Hildebear/Hildetorr")]);
}

#[test]
fn monest_brings_thirty_mothmants() {
    let r = convert_enemy(&enemy(0x42, 0), 1, 0, false);
    assert_eq!(r.len(), 31);
    assert_eq!((r[0].param_entry, r[0].rt_entry, r[0].name), (0x01, 0x04, "Monest"));
    for e in &r[1..] {
        assert_eq!((e.param_entry, e.rt_entry, e.name), (0x00, 0x03, "Mothmant"));
    }
}

#[test]
fn booma_skin_modulo_three() {
    assert_eq!(entries(&convert_enemy(&enemy(0x44, 2), 1, 0, false)), vec![(0x4A, 0x0B, "Booma")]);
    assert_eq!(entries(&convert_enemy(&enemy(0x44, 4), 1, 0, false)), vec![(0x49, 0x0A, "Booma")]);
}

#[test]
fn wolf_alternate_form() {
    assert_eq!(entries(&convert_enemy(&enemy(0x43, 0), 1, 0, false)), vec![(0x02, 0x07, "Savage/Barbarous Wolf")]);
    assert_eq!(entries(&convert_enemy(&alt_enemy(0x43, 0), 1, 0, false)), vec![(0x03, 0x08, "Savage/Barbarous Wolf")]);
}

#[test]
fn rappies_by_episode_and_event() {
    assert_eq!(entries(&convert_enemy(&enemy(0x41, 1), 1, 0, false)), vec![(0x19, 0x13, "Rappy")]);
    // Episode 2: the rare table entry follows the event.
    assert_eq!(entries(&convert_enemy(&enemy(0x41, 1), 2, 1, false)), vec![(0x19, 79, "Rappy")]);
    assert_eq!(entries(&convert_enemy(&enemy(0x41, 1), 2, 4, false)), vec![(0x19, 81, "Rappy")]);
    assert_eq!(entries(&convert_enemy(&enemy(0x41, 1), 2, 5, false)), vec![(0x19, 80, "Rappy")]);
    assert_eq!(entries(&convert_enemy(&enemy(0x41, 1), 2, 0, false)), vec![(0x19, 51, "Rappy")]);
    assert_eq!(entries(&convert_enemy(&enemy(0x41, 0), 2, 1, false)), vec![(0x18, 0x05, "Rappy")]);
    // Episode 4.
    assert_eq!(entries(&convert_enemy(&enemy(0x41, 1), 3, 0, true)), vec![(0x18, 0x12, "Sand/Del Rappy (Desert)")]);
    assert_eq!(
        entries(&convert_enemy(&enemy(0x41, 2), 3, 0, false)),
        vec![(0x05, 0x14, "Sand/Del Rappy (Wilds/Crater)")]
    );
}

#[test]
fn dark_falz_phases() {
    let r = convert_enemy(&enemy(0xC8, 0), 1, 0, false);
    assert_eq!(r.len(), 513);
    assert!(r[..510].iter().all(|e| e.param_entry == 0x35 && e.rt_entry == 0x00));
    assert_eq!((r[510].param_entry, r[510].name), (0x38, "Dark Falz Phase 3"));
    assert_eq!((r[511].param_entry, r[511].name), (0x37, "Dark Falz Phase 2"));
    assert_eq!((r[512].param_entry, r[512].name), (0x36, "Dark Falz Phase 1"));
}

#[test]
fn unknown_base_is_marked() {
    assert_eq!(entries(&convert_enemy(&enemy(0x1234, 0), 1, 0, false)), vec![(0xFFFFFFFF, 0xFFFFFFFF, "Unknown")]);
}

#[test]
fn enemy_definedness() {
    assert!(enemy_defined(&enemy(0x40, 0), 7, false));
    assert!(!enemy_defined(&enemy(0x41, 0), 7, false));
    assert!(!enemy_defined(&enemy(0x41, 0xFFFF_FFFF), 1, false));
    assert!(enemy_defined(&enemy(0x41, 0xFFFF_FFFF), 2, false));
    assert!(enemies_defined(&vec![enemy(0x40, 0), enemy(0x41, 3)], 1, false));
    assert!(!enemies_defined(&vec![enemy(0x40, 0), enemy(0x41, 3)], 9, false));
}

#[test]
fn readiness_of_lists() {
    assert!(!list_is_ready(&vec![], 1, false));
    assert!(list_is_ready(&vec![var(vec![])], 1, false));
    assert!(!keyed_is_ready(&vec![], 1));
    assert!(keyed_is_ready(&vec![keyed(0, 0, vec![enemy(0x41, 0)])], 2));
    let areas = Areas { ep1: ep1_maps(), ep2: ep2_maps(), ep4: ep4_maps() };
    assert!(is_episode_ready(&areas, 1));
    assert!(is_episode_ready(&areas, 2));
    assert!(is_episode_ready(&areas, 3));
    assert!(!is_episode_ready(&areas, 4));
    let mut broken = areas.clone();
    broken.ep1.forest2 = vec![];
    assert!(!is_episode_ready(&broken, 1));
}

#[test]
fn ep1_layout_follows_rolls() {
    let maps = ep1_maps();
    let rolls = [1usize, 5, 3, 0, 0, 0, 0, 0, 0, 0];
    let (variants, enemies) = random_variants_ep1(&maps, 0, true, &rolls);
    assert_eq!(variants.len(), 32);
    assert_eq!(variants[3], 1);
    assert_eq!(variants[5], 0);
    assert_eq!((variants[6], variants[7]), (1, 1));
    assert_eq!((variants[8], variants[9]), (2, 0));
    assert_eq!((variants[20], variants[21]), (2, 0));
    assert_eq!(variants[0], 0);
    // forest1 variation 1 (Hildetorr), forest2 (Booma), cave1 key (1,1)
    // (Nano Dragon), then Dark Falz with his Darvants.
    assert_eq!(enemies.len(), 3 + 513);
    assert_eq!((enemies[0].param_entry, enemies[0].rt_entry), (0x4A, 0x02));
    assert_eq!(enemies[1].name, "Booma");
    assert_eq!(enemies[2].name, "Nano Dragon");
    assert_eq!(enemies[3 + 511].param_entry, 0x37);
}

#[test]
fn ep1_layout_raises_falz_from_hard_on() {
    let maps = ep1_maps();
    let rolls = [0usize; 10];
    let (_, enemies) = random_variants_ep1(&maps, 0, false, &rolls);
    assert!(enemies.iter().all(|e| e.param_entry != 0x37));
    assert_eq!(enemies.iter().filter(|e| e.param_entry == 0x38).count(), 2);
}

#[test]
fn ep2_layout_follows_rolls() {
    let maps = ep2_maps();
    let rolls = [0usize; 11];
    let (variants, enemies) = random_variants_ep2(&maps, 4, &rolls);
    assert_eq!(variants.len(), 32);
    assert_eq!((variants[2], variants[3]), (0, 0));
    assert_eq!((variants[4], variants[5]), (0, 1));
    assert_eq!((variants[6], variants[7]), (1, 0));
    assert_eq!(enemies.len(), 1);
    assert_eq!((enemies[0].param_entry, enemies[0].rt_entry), (0x19, 81));
}

#[test]
fn ep4_layout_follows_rolls() {
    let maps = ep4_maps();
    let rolls = [5usize, 0, 0, 0, 0, 0, 0, 0];
    let (variants, enemies) = random_variants_ep4(&maps, 0, &rolls);
    assert_eq!(variants[3], 2);
    assert_eq!(variants[5], 0);
    // Wilds rappy (skin 2) then the desert rappy in its alternate form.
    assert_eq!(enemies.len(), 2);
    assert_eq!((enemies[0].param_entry, enemies[0].rt_entry), (0x05, 0x14));
    assert_eq!((enemies[1].param_entry, enemies[1].rt_entry, enemies[1].name), (0x18, 0x12, "Sand/Del Rappy (Desert)"));
}

#[test]
fn event_changes_only_episode2_rappies() {
    for &(base, ep) in &[(0x40u32, 1u8), (0x41, 1), (0x41, 3), (0xC8, 1), (0x117, 3)] {
        let a = entries(&convert_enemy(&enemy(base, 1), ep, 0, false));
        let b = entries(&convert_enemy(&enemy(base, 1), ep, 4, false));
        assert_eq!(a, b);
    }
    let plain = entries(&convert_enemy(&enemy(0x41, 1), 2, 0, false));
    let christmas = entries(&convert_enemy(&enemy(0x41, 1), 2, 1, false));
    assert_eq!(plain[0].1, 51);
    assert_eq!(christmas[0].1, 79);
}

#[test]
fn alt_forms_change_only_some_enemies() {
    for &(base, ep) in &[(0x40u32, 1u8), (0x41, 1), (0x61, 1), (0xE0, 1), (0x115, 3), (0x82, 1)] {
        let a = entries(&convert_enemy(&enemy(base, 1), ep, 0, true));
        let b = entries(&convert_enemy(&enemy(base, 1), ep, 0, false));
        assert_eq!(a, b);
    }
    assert_ne!(
        entries(&convert_enemy(&enemy(0x61, 0), 2, 0, true)),
        entries(&convert_enemy(&enemy(0x61, 0), 2, 0, false))
    );
}

#[test]
fn keyed_variations_need_distinct_layout_numbers() {
    let distinct = vec![keyed(0, 0, vec![]), keyed(0, 1, vec![]), keyed(1, 0, vec![])];
    assert!(keys_are_distinct(&distinct));
    assert!(keyed_is_ready(&distinct, 1));
    let twice = vec![keyed(0, 0, vec![]), keyed(1, 0, vec![]), keyed(0, 0, vec![])];
    assert!(!keys_are_distinct(&twice));
    assert!(!keyed_is_ready(&twice, 1));
}
