//! The map layout of a new party: which variation of each area it plays
//! and the enemies those variations instantiate.

use vstd::prelude::*;

use crate::block::partyhandler::enemygen::{convert_enemy, convert_enemy_defined, spec_convert_enemy};
use crate::maps::{Areas, Ep1Areas, Ep2Areas, Ep4Areas, EnemyDesc, InstanceEnemy, KeyedVariation, MapEnemy, VariationData, descs, keys_distinct, same_key};

verus! {

/// The enemies that a list of map enemy placements instantiates, in order.
pub open spec fn area_enemies(mes: Seq<MapEnemy>, episode: u8, event: u16, alt_enemies: bool) -> Seq<EnemyDesc>
    decreases mes.len(),
{
    if mes.len() == 0 {
        Seq::empty()
    } else {
        area_enemies(mes.drop_last(), episode, event, alt_enemies) + spec_convert_enemy(mes.last(), episode, event, alt_enemies)
    }
}

/// Every placement can be converted in the given episode.
pub open spec fn all_defined(mes: Seq<MapEnemy>, episode: u8, alt_enemies: bool) -> bool {
    forall|i: int| 0 <= i < mes.len() ==> convert_enemy_defined(#[trigger] mes[i], episode, alt_enemies)
}

/// A list of variations to choose from: not empty, and every placement
/// convertible.
pub open spec fn list_ready(vs: Seq<VariationData>, episode: u8, alt_enemies: bool) -> bool {
    &&& vs.len() > 0
    &&& forall|i: int| 0 <= i < vs.len() ==> all_defined(#[trigger] vs[i].enemies@, episode, alt_enemies)
}

/// A list of keyed variations to choose from: not empty, and every
/// placement convertible.
pub open spec fn keyed_ready(vs: Seq<KeyedVariation>, episode: u8) -> bool {
    &&& vs.len() > 0
    &&& forall|i: int| 0 <= i < vs.len() ==> all_defined(#[trigger] vs[i].data.enemies@, episode, false)
    &&& keys_distinct(vs)
}

/// The index that the random number `roll` picks among `len` choices.
pub open spec fn pick(len: nat, roll: usize) -> int {
    roll as int % len as int
}

/// Appends the enemies of `map_enemies` to `instance_enemies`.
pub fn append_enemies(
    map_enemies: &Vec<MapEnemy>,
    instance_enemies: &mut Vec<InstanceEnemy>,
    episode: u8,
    event: u16,
    alt_enemies: bool,
)
    requires
        all_defined(map_enemies@, episode, alt_enemies),
    ensures
        descs(final(instance_enemies)@) == descs(old(instance_enemies)@) + area_enemies(
            map_enemies@,
            episode,
            event,
            alt_enemies,
        ),
{
    let ghost start = descs(instance_enemies@);
    let n = map_enemies.len();
    let mut i: usize = 0;
    assert(map_enemies@.take(0) =~= Seq::<MapEnemy>::empty());
    assert(start + area_enemies(Seq::<MapEnemy>::empty(), episode, event, alt_enemies) =~= start);
    while i < n
        invariant
            n == map_enemies@.len(),
            i <= n,
            all_defined(map_enemies@, episode, alt_enemies),
            descs(instance_enemies@) == start + area_enemies(map_enemies@.take(i as int), episode, event, alt_enemies),
        decreases n - i,
    {
        let mut v = convert_enemy(&map_enemies[i], episode, event, alt_enemies);
        let ghost before = instance_enemies@;
        let ghost added = v@;
        instance_enemies.append(&mut v);
        proof {
            assert(instance_enemies@ == before + added);
            assert(descs(before + added) =~= descs(before) + descs(added));
            let t = map_enemies@.take(i + 1);
            assert(t.drop_last() =~= map_enemies@.take(i as int));
            assert(t.last() == map_enemies@[i as int]);
        }
        i = i + 1;
    }
    assert(map_enemies@.take(n as int) =~= map_enemies@);
}

/// Appends the enemies of one variation to `instance_enemies`.
fn append_variation(v: &VariationData, instance_enemies: &mut Vec<InstanceEnemy>, episode: u8, event: u16, alt_enemies: bool)
    requires
        all_defined(v.enemies@, episode, alt_enemies),
    ensures
        descs(final(instance_enemies)@) == descs(old(instance_enemies)@) + area_enemies(
            v.enemies@,
            episode,
            event,
            alt_enemies,
        ),
{
    append_enemies(&v.enemies, instance_enemies, episode, event, alt_enemies);
}

/// Dark Falz has a different parameter entry from Hard on, because of his
/// third phase.
pub open spec fn raise_falz(s: Seq<EnemyDesc>) -> Seq<EnemyDesc> {
    s.map_values(|d: EnemyDesc| if d.0 == 0x37 { (0x38int, d.1, d.2) } else { d })
}

/// Thirty-two zero variant numbers.
pub open spec fn no_variants() -> Seq<u32> {
    Seq::new(0x20, |_i: int| 0u32)
}

fn zero_variants() -> (v: Vec<u32>)
    ensures
        v@ == no_variants(),
{
    let v = vec![0u32; 0x20];
    assert(v@ =~= no_variants());
    v
}

/// Gives every instance enemy with parameter entry 0x37 the entry 0x38.
fn raise_falz_entries(enemies: &mut Vec<InstanceEnemy>)
    ensures
        descs(final(enemies)@) == raise_falz(descs(old(enemies)@)),
{
    let ghost start = descs(enemies@);
    let n = enemies.len();
    let mut i: usize = 0;
    while i < n
        invariant
            n == enemies@.len(),
            start.len() == n,
            i <= n,
            forall|j: int| 0 <= j < i ==> desc_at(enemies@, j) == raise_falz(start)[j],
            forall|j: int| i <= j < n ==> desc_at(enemies@, j) == start[j],
        decreases n - i,
    {
        if enemies[i].param_entry == 0x37 {
            let mut e = enemies[i];
            e.param_entry = 0x38;
            enemies.set(i, e);
        }
        i = i + 1;
    }
    assert(descs(enemies@) =~= raise_falz(start));
}

/// The description of the `j`th enemy.
pub open spec fn desc_at(s: Seq<InstanceEnemy>, j: int) -> EnemyDesc {
    descs(s)[j]
}

/// The Ep1Areas maps can lay out a party: every area to choose from has a
/// variation, and every placement converts in the episode.
pub open spec fn ep1_ready(maps: Ep1Areas) -> bool {
    &&& all_defined(maps.city.enemies@, 1, false)
    &&& list_ready(maps.forest1@, 1, false)
    &&& list_ready(maps.forest2@, 1, false)
    &&& keyed_ready(maps.cave1@, 1)
    &&& keyed_ready(maps.cave2@, 1)
    &&& keyed_ready(maps.cave3@, 1)
    &&& keyed_ready(maps.machine1@, 1)
    &&& keyed_ready(maps.machine2@, 1)
    &&& keyed_ready(maps.ancient1@, 1)
    &&& keyed_ready(maps.ancient2@, 1)
    &&& keyed_ready(maps.ancient3@, 1)
    &&& all_defined(maps.boss1.enemies@, 1, false)
    &&& all_defined(maps.boss2.enemies@, 1, false)
    &&& all_defined(maps.boss3.enemies@, 1, false)
    &&& all_defined(maps.boss4.enemies@, 1, false)
}

/// The variant numbers that the random numbers `rolls` pick, in the
/// order the areas draw them.
pub open spec fn ep1_variants(maps: Ep1Areas, rolls: Seq<usize>) -> Seq<u32> {
    no_variants()
        .update(3, pick(maps.forest1@.len(), rolls[0]) as u32)
        .update(5, pick(maps.forest2@.len(), rolls[1]) as u32)
        .update(6, maps.cave1@[pick(maps.cave1@.len(), rolls[2])].major)
        .update(7, maps.cave1@[pick(maps.cave1@.len(), rolls[2])].minor)
        .update(8, maps.cave2@[pick(maps.cave2@.len(), rolls[3])].major)
        .update(9, maps.cave2@[pick(maps.cave2@.len(), rolls[3])].minor)
        .update(10, maps.cave3@[pick(maps.cave3@.len(), rolls[4])].major)
        .update(11, maps.cave3@[pick(maps.cave3@.len(), rolls[4])].minor)
        .update(12, maps.machine1@[pick(maps.machine1@.len(), rolls[5])].major)
        .update(13, maps.machine1@[pick(maps.machine1@.len(), rolls[5])].minor)
        .update(14, maps.machine2@[pick(maps.machine2@.len(), rolls[6])].major)
        .update(15, maps.machine2@[pick(maps.machine2@.len(), rolls[6])].minor)
        .update(16, maps.ancient1@[pick(maps.ancient1@.len(), rolls[7])].major)
        .update(17, maps.ancient1@[pick(maps.ancient1@.len(), rolls[7])].minor)
        .update(18, maps.ancient2@[pick(maps.ancient2@.len(), rolls[8])].major)
        .update(19, maps.ancient2@[pick(maps.ancient2@.len(), rolls[8])].minor)
        .update(20, maps.ancient3@[pick(maps.ancient3@.len(), rolls[9])].major)
        .update(21, maps.ancient3@[pick(maps.ancient3@.len(), rolls[9])].minor)
}

/// The enemies of the variations that `rolls` picks, city first and
/// bosses last.
pub open spec fn ep1_enemies(maps: Ep1Areas, event: u16, rolls: Seq<usize>) -> Seq<EnemyDesc> {
    area_enemies(maps.city.enemies@, 1, event, false)
        + area_enemies(maps.forest1@[pick(maps.forest1@.len(), rolls[0])].enemies@, 1, event, false)
        + area_enemies(maps.forest2@[pick(maps.forest2@.len(), rolls[1])].enemies@, 1, event, false)
        + area_enemies(maps.cave1@[pick(maps.cave1@.len(), rolls[2])].data.enemies@, 1, event, false)
        + area_enemies(maps.cave2@[pick(maps.cave2@.len(), rolls[3])].data.enemies@, 1, event, false)
        + area_enemies(maps.cave3@[pick(maps.cave3@.len(), rolls[4])].data.enemies@, 1, event, false)
        + area_enemies(maps.machine1@[pick(maps.machine1@.len(), rolls[5])].data.enemies@, 1, event, false)
        + area_enemies(maps.machine2@[pick(maps.machine2@.len(), rolls[6])].data.enemies@, 1, event, false)
        + area_enemies(maps.ancient1@[pick(maps.ancient1@.len(), rolls[7])].data.enemies@, 1, event, false)
        + area_enemies(maps.ancient2@[pick(maps.ancient2@.len(), rolls[8])].data.enemies@, 1, event, false)
        + area_enemies(maps.ancient3@[pick(maps.ancient3@.len(), rolls[9])].data.enemies@, 1, event, false)
        + area_enemies(maps.boss1.enemies@, 1, event, false)
        + area_enemies(maps.boss2.enemies@, 1, event, false)
        + area_enemies(maps.boss3.enemies@, 1, event, false)
        + area_enemies(maps.boss4.enemies@, 1, event, false)
}

/// Lays out a party of this episode from the random numbers `rolls`,
/// one per area with a choice, in the order the areas draw them: the
/// variant numbers (32 of them) and the enemies.
/// `normal` is the Normal difficulty; from Hard on, Dark Falz's second
/// phase uses the parameter entry of his third.
#[verifier::rlimit(60)]
pub fn random_variants_ep1(maps: &Ep1Areas, event: u16, normal: bool, rolls: &[usize]) -> (r: (Vec<u32>, Vec<InstanceEnemy>))
    requires
        ep1_ready(*maps),
        rolls@.len() >= 10,
    ensures
        r.0@ == ep1_variants(*maps, rolls@),
        normal ==> descs(r.1@) == ep1_enemies(*maps, event, rolls@),
        !normal ==> descs(r.1@) == raise_falz(ep1_enemies(*maps, event, rolls@)),
{
    let mut variants = zero_variants();
    let mut enemies: Vec<InstanceEnemy> = Vec::new();
    assert(descs(enemies@) =~= Seq::<EnemyDesc>::empty());
    assert(Seq::<EnemyDesc>::empty() + area_enemies(maps.city.enemies@, 1, event, false) =~= area_enemies(maps.city.enemies@, 1, event, false));
    append_variation(&maps.city, &mut enemies, 1, event, false);
    let i_forest1 = rolls[0] % maps.forest1.len();
    variants.set(3, i_forest1 as u32);
    append_variation(&maps.forest1[i_forest1], &mut enemies, 1, event, false);
    let i_forest2 = rolls[1] % maps.forest2.len();
    variants.set(5, i_forest2 as u32);
    append_variation(&maps.forest2[i_forest2], &mut enemies, 1, event, false);
    let i_cave1 = rolls[2] % maps.cave1.len();
    let kv_cave1 = &maps.cave1[i_cave1];
    variants.set(6, kv_cave1.major);
    variants.set(7, kv_cave1.minor);
    append_variation(&kv_cave1.data, &mut enemies, 1, event, false);
    let i_cave2 = rolls[3] % maps.cave2.len();
    let kv_cave2 = &maps.cave2[i_cave2];
    variants.set(8, kv_cave2.major);
    variants.set(9, kv_cave2.minor);
    append_variation(&kv_cave2.data, &mut enemies, 1, event, false);
    let i_cave3 = rolls[4] % maps.cave3.len();
    let kv_cave3 = &maps.cave3[i_cave3];
    variants.set(10, kv_cave3.major);
    variants.set(11, kv_cave3.minor);
    append_variation(&kv_cave3.data, &mut enemies, 1, event, false);
    let i_machine1 = rolls[5] % maps.machine1.len();
    let kv_machine1 = &maps.machine1[i_machine1];
    variants.set(12, kv_machine1.major);
    variants.set(13, kv_machine1.minor);
    append_variation(&kv_machine1.data, &mut enemies, 1, event, false);
    let i_machine2 = rolls[6] % maps.machine2.len();
    let kv_machine2 = &maps.machine2[i_machine2];
    variants.set(14, kv_machine2.major);
    variants.set(15, kv_machine2.minor);
    append_variation(&kv_machine2.data, &mut enemies, 1, event, false);
    let i_ancient1 = rolls[7] % maps.ancient1.len();
    let kv_ancient1 = &maps.ancient1[i_ancient1];
    variants.set(16, kv_ancient1.major);
    variants.set(17, kv_ancient1.minor);
    append_variation(&kv_ancient1.data, &mut enemies, 1, event, false);
    let i_ancient2 = rolls[8] % maps.ancient2.len();
    let kv_ancient2 = &maps.ancient2[i_ancient2];
    variants.set(18, kv_ancient2.major);
    variants.set(19, kv_ancient2.minor);
    append_variation(&kv_ancient2.data, &mut enemies, 1, event, false);
    let i_ancient3 = rolls[9] % maps.ancient3.len();
    let kv_ancient3 = &maps.ancient3[i_ancient3];
    variants.set(20, kv_ancient3.major);
    variants.set(21, kv_ancient3.minor);
    append_variation(&kv_ancient3.data, &mut enemies, 1, event, false);
    append_variation(&maps.boss1, &mut enemies, 1, event, false);
    append_variation(&maps.boss2, &mut enemies, 1, event, false);
    append_variation(&maps.boss3, &mut enemies, 1, event, false);
    append_variation(&maps.boss4, &mut enemies, 1, event, false);
    if !normal {
        raise_falz_entries(&mut enemies);
    }
    (variants, enemies)
}

/// The Ep2Areas maps can lay out a party: every area to choose from has a
/// variation, and every placement converts in the episode.
pub open spec fn ep2_ready(maps: Ep2Areas) -> bool {
    &&& all_defined(maps.city.enemies@, 2, false)
    &&& keyed_ready(maps.ruins1@, 2)
    &&& keyed_ready(maps.ruins2@, 2)
    &&& keyed_ready(maps.space1@, 2)
    &&& keyed_ready(maps.space2@, 2)
    &&& list_ready(maps.jungle1@, 2, false)
    &&& list_ready(maps.jungle2@, 2, false)
    &&& list_ready(maps.jungle3@, 2, false)
    &&& keyed_ready(maps.jungle4@, 2)
    &&& list_ready(maps.jungle5@, 2, false)
    &&& keyed_ready(maps.seabed1@, 2)
    &&& keyed_ready(maps.seabed2@, 2)
    &&& all_defined(maps.boss5.enemies@, 2, false)
    &&& all_defined(maps.boss6.enemies@, 2, false)
    &&& all_defined(maps.boss7.enemies@, 2, false)
    &&& all_defined(maps.boss8.enemies@, 2, false)
}

/// The variant numbers that the random numbers `rolls` pick, in the
/// order the areas draw them.
pub open spec fn ep2_variants(maps: Ep2Areas, rolls: Seq<usize>) -> Seq<u32> {
    no_variants()
        .update(2, maps.ruins1@[pick(maps.ruins1@.len(), rolls[0])].major)
        .update(3, maps.ruins1@[pick(maps.ruins1@.len(), rolls[0])].minor)
        .update(4, maps.ruins2@[pick(maps.ruins2@.len(), rolls[1])].major)
        .update(5, maps.ruins2@[pick(maps.ruins2@.len(), rolls[1])].minor)
        .update(6, maps.space1@[pick(maps.space1@.len(), rolls[2])].major)
        .update(7, maps.space1@[pick(maps.space1@.len(), rolls[2])].minor)
        .update(8, maps.space2@[pick(maps.space2@.len(), rolls[3])].major)
        .update(9, maps.space2@[pick(maps.space2@.len(), rolls[3])].minor)
        .update(11, pick(maps.jungle1@.len(), rolls[4]) as u32)
        .update(13, pick(maps.jungle2@.len(), rolls[5]) as u32)
        .update(15, pick(maps.jungle3@.len(), rolls[6]) as u32)
        .update(16, maps.jungle4@[pick(maps.jungle4@.len(), rolls[8])].major)
        .update(17, maps.jungle4@[pick(maps.jungle4@.len(), rolls[8])].minor)
        .update(19, pick(maps.jungle5@.len(), rolls[7]) as u32)
        .update(20, maps.seabed1@[pick(maps.seabed1@.len(), rolls[9])].major)
        .update(21, maps.seabed1@[pick(maps.seabed1@.len(), rolls[9])].minor)
        .update(22, maps.seabed2@[pick(maps.seabed2@.len(), rolls[10])].major)
        .update(23, maps.seabed2@[pick(maps.seabed2@.len(), rolls[10])].minor)
}

/// The enemies of the variations that `rolls` picks, city first and
/// bosses last.
pub open spec fn ep2_enemies(maps: Ep2Areas, event: u16, rolls: Seq<usize>) -> Seq<EnemyDesc> {
    area_enemies(maps.city.enemies@, 2, event, false)
        + area_enemies(maps.ruins1@[pick(maps.ruins1@.len(), rolls[0])].data.enemies@, 2, event, false)
        + area_enemies(maps.ruins2@[pick(maps.ruins2@.len(), rolls[1])].data.enemies@, 2, event, false)
        + area_enemies(maps.space1@[pick(maps.space1@.len(), rolls[2])].data.enemies@, 2, event, false)
        + area_enemies(maps.space2@[pick(maps.space2@.len(), rolls[3])].data.enemies@, 2, event, false)
        + area_enemies(maps.jungle1@[pick(maps.jungle1@.len(), rolls[4])].enemies@, 2, event, false)
        + area_enemies(maps.jungle2@[pick(maps.jungle2@.len(), rolls[5])].enemies@, 2, event, false)
        + area_enemies(maps.jungle3@[pick(maps.jungle3@.len(), rolls[6])].enemies@, 2, event, false)
        + area_enemies(maps.jungle4@[pick(maps.jungle4@.len(), rolls[8])].data.enemies@, 2, event, false)
        + area_enemies(maps.jungle5@[pick(maps.jungle5@.len(), rolls[7])].enemies@, 2, event, false)
        + area_enemies(maps.seabed1@[pick(maps.seabed1@.len(), rolls[9])].data.enemies@, 2, event, false)
        + area_enemies(maps.seabed2@[pick(maps.seabed2@.len(), rolls[10])].data.enemies@, 2, event, false)
        + area_enemies(maps.boss5.enemies@, 2, event, false)
        + area_enemies(maps.boss6.enemies@, 2, event, false)
        + area_enemies(maps.boss7.enemies@, 2, event, false)
        + area_enemies(maps.boss8.enemies@, 2, event, false)
}

/// Lays out a party of this episode from the random numbers `rolls`,
/// one per area with a choice, in the order the areas draw them: the
/// variant numbers (32 of them) and the enemies.
#[verifier::rlimit(60)]
pub fn random_variants_ep2(maps: &Ep2Areas, event: u16, rolls: &[usize]) -> (r: (Vec<u32>, Vec<InstanceEnemy>))
    requires
        ep2_ready(*maps),
        rolls@.len() >= 11,
    ensures
        r.0@ == ep2_variants(*maps, rolls@),
        descs(r.1@) == ep2_enemies(*maps, event, rolls@),
{
    let mut variants = zero_variants();
    let mut enemies: Vec<InstanceEnemy> = Vec::new();
    assert(descs(enemies@) =~= Seq::<EnemyDesc>::empty());
    assert(Seq::<EnemyDesc>::empty() + area_enemies(maps.city.enemies@, 2, event, false) =~= area_enemies(maps.city.enemies@, 2, event, false));
    append_variation(&maps.city, &mut enemies, 2, event, false);
    let i_ruins1 = rolls[0] % maps.ruins1.len();
    let kv_ruins1 = &maps.ruins1[i_ruins1];
    variants.set(2, kv_ruins1.major);
    variants.set(3, kv_ruins1.minor);
    append_variation(&kv_ruins1.data, &mut enemies, 2, event, false);
    let i_ruins2 = rolls[1] % maps.ruins2.len();
    let kv_ruins2 = &maps.ruins2[i_ruins2];
    variants.set(4, kv_ruins2.major);
    variants.set(5, kv_ruins2.minor);
    append_variation(&kv_ruins2.data, &mut enemies, 2, event, false);
    let i_space1 = rolls[2] % maps.space1.len();
    let kv_space1 = &maps.space1[i_space1];
    variants.set(6, kv_space1.major);
    variants.set(7, kv_space1.minor);
    append_variation(&kv_space1.data, &mut enemies, 2, event, false);
    let i_space2 = rolls[3] % maps.space2.len();
    let kv_space2 = &maps.space2[i_space2];
    variants.set(8, kv_space2.major);
    variants.set(9, kv_space2.minor);
    append_variation(&kv_space2.data, &mut enemies, 2, event, false);
    let i_jungle1 = rolls[4] % maps.jungle1.len();
    variants.set(11, i_jungle1 as u32);
    append_variation(&maps.jungle1[i_jungle1], &mut enemies, 2, event, false);
    let i_jungle2 = rolls[5] % maps.jungle2.len();
    variants.set(13, i_jungle2 as u32);
    append_variation(&maps.jungle2[i_jungle2], &mut enemies, 2, event, false);
    let i_jungle3 = rolls[6] % maps.jungle3.len();
    variants.set(15, i_jungle3 as u32);
    append_variation(&maps.jungle3[i_jungle3], &mut enemies, 2, event, false);
    let i_jungle4 = rolls[8] % maps.jungle4.len();
    let kv_jungle4 = &maps.jungle4[i_jungle4];
    variants.set(16, kv_jungle4.major);
    variants.set(17, kv_jungle4.minor);
    append_variation(&kv_jungle4.data, &mut enemies, 2, event, false);
    let i_jungle5 = rolls[7] % maps.jungle5.len();
    variants.set(19, i_jungle5 as u32);
    append_variation(&maps.jungle5[i_jungle5], &mut enemies, 2, event, false);
    let i_seabed1 = rolls[9] % maps.seabed1.len();
    let kv_seabed1 = &maps.seabed1[i_seabed1];
    variants.set(20, kv_seabed1.major);
    variants.set(21, kv_seabed1.minor);
    append_variation(&kv_seabed1.data, &mut enemies, 2, event, false);
    let i_seabed2 = rolls[10] % maps.seabed2.len();
    let kv_seabed2 = &maps.seabed2[i_seabed2];
    variants.set(22, kv_seabed2.major);
    variants.set(23, kv_seabed2.minor);
    append_variation(&kv_seabed2.data, &mut enemies, 2, event, false);
    append_variation(&maps.boss5, &mut enemies, 2, event, false);
    append_variation(&maps.boss6, &mut enemies, 2, event, false);
    append_variation(&maps.boss7, &mut enemies, 2, event, false);
    append_variation(&maps.boss8, &mut enemies, 2, event, false);
    (variants, enemies)
}

/// The Ep4Areas maps can lay out a party: every area to choose from has a
/// variation, and every placement converts in the episode.
pub open spec fn ep4_ready(maps: Ep4Areas) -> bool {
    &&& all_defined(maps.city.enemies@, 3, false)
    &&& list_ready(maps.wilds1@, 3, false)
    &&& list_ready(maps.wilds2@, 3, false)
    &&& list_ready(maps.wilds3@, 3, false)
    &&& list_ready(maps.wilds4@, 3, false)
    &&& list_ready(maps.crater@, 3, false)
    &&& list_ready(maps.desert1@, 3, true)
    &&& list_ready(maps.desert2@, 3, true)
    &&& list_ready(maps.desert3@, 3, true)
    &&& all_defined(maps.boss9.enemies@, 3, false)
}

/// The variant numbers that the random numbers `rolls` pick, in the
/// order the areas draw them.
pub open spec fn ep4_variants(maps: Ep4Areas, rolls: Seq<usize>) -> Seq<u32> {
    no_variants()
        .update(3, pick(maps.wilds1@.len(), rolls[0]) as u32)
        .update(5, pick(maps.wilds2@.len(), rolls[1]) as u32)
        .update(7, pick(maps.wilds3@.len(), rolls[2]) as u32)
        .update(9, pick(maps.wilds4@.len(), rolls[3]) as u32)
        .update(11, pick(maps.crater@.len(), rolls[4]) as u32)
        .update(12, pick(maps.desert1@.len(), rolls[5]) as u32)
        .update(15, pick(maps.desert2@.len(), rolls[6]) as u32)
        .update(16, pick(maps.desert3@.len(), rolls[7]) as u32)
}

/// The enemies of the variations that `rolls` picks, city first and
/// bosses last.
pub open spec fn ep4_enemies(maps: Ep4Areas, event: u16, rolls: Seq<usize>) -> Seq<EnemyDesc> {
    area_enemies(maps.city.enemies@, 3, event, false)
        + area_enemies(maps.wilds1@[pick(maps.wilds1@.len(), rolls[0])].enemies@, 3, event, false)
        + area_enemies(maps.wilds2@[pick(maps.wilds2@.len(), rolls[1])].enemies@, 3, event, false)
        + area_enemies(maps.wilds3@[pick(maps.wilds3@.len(), rolls[2])].enemies@, 3, event, false)
        + area_enemies(maps.wilds4@[pick(maps.wilds4@.len(), rolls[3])].enemies@, 3, event, false)
        + area_enemies(maps.crater@[pick(maps.crater@.len(), rolls[4])].enemies@, 3, event, false)
        + area_enemies(maps.desert1@[pick(maps.desert1@.len(), rolls[5])].enemies@, 3, event, true)
        + area_enemies(maps.desert2@[pick(maps.desert2@.len(), rolls[6])].enemies@, 3, event, true)
        + area_enemies(maps.desert3@[pick(maps.desert3@.len(), rolls[7])].enemies@, 3, event, true)
        + area_enemies(maps.boss9.enemies@, 3, event, false)
}

/// Lays out a party of this episode from the random numbers `rolls`,
/// one per area with a choice, in the order the areas draw them: the
/// variant numbers (32 of them) and the enemies.
#[verifier::rlimit(60)]
pub fn random_variants_ep4(maps: &Ep4Areas, event: u16, rolls: &[usize]) -> (r: (Vec<u32>, Vec<InstanceEnemy>))
    requires
        ep4_ready(*maps),
        rolls@.len() >= 8,
    ensures
        r.0@ == ep4_variants(*maps, rolls@),
        descs(r.1@) == ep4_enemies(*maps, event, rolls@),
{
    let mut variants = zero_variants();
    let mut enemies: Vec<InstanceEnemy> = Vec::new();
    assert(descs(enemies@) =~= Seq::<EnemyDesc>::empty());
    assert(Seq::<EnemyDesc>::empty() + area_enemies(maps.city.enemies@, 3, event, false) =~= area_enemies(maps.city.enemies@, 3, event, false));
    append_variation(&maps.city, &mut enemies, 3, event, false);
    let i_wilds1 = rolls[0] % maps.wilds1.len();
    variants.set(3, i_wilds1 as u32);
    append_variation(&maps.wilds1[i_wilds1], &mut enemies, 3, event, false);
    let i_wilds2 = rolls[1] % maps.wilds2.len();
    variants.set(5, i_wilds2 as u32);
    append_variation(&maps.wilds2[i_wilds2], &mut enemies, 3, event, false);
    let i_wilds3 = rolls[2] % maps.wilds3.len();
    variants.set(7, i_wilds3 as u32);
    append_variation(&maps.wilds3[i_wilds3], &mut enemies, 3, event, false);
    let i_wilds4 = rolls[3] % maps.wilds4.len();
    variants.set(9, i_wilds4 as u32);
    append_variation(&maps.wilds4[i_wilds4], &mut enemies, 3, event, false);
    let i_crater = rolls[4] % maps.crater.len();
    variants.set(11, i_crater as u32);
    append_variation(&maps.crater[i_crater], &mut enemies, 3, event, false);
    let i_desert1 = rolls[5] % maps.desert1.len();
    variants.set(12, i_desert1 as u32);
    append_variation(&maps.desert1[i_desert1], &mut enemies, 3, event, true);
    let i_desert2 = rolls[6] % maps.desert2.len();
    variants.set(15, i_desert2 as u32);
    append_variation(&maps.desert2[i_desert2], &mut enemies, 3, event, true);
    let i_desert3 = rolls[7] % maps.desert3.len();
    variants.set(16, i_desert3 as u32);
    append_variation(&maps.desert3[i_desert3], &mut enemies, 3, event, true);
    append_variation(&maps.boss9, &mut enemies, 3, event, false);
    (variants, enemies)
}

/// The maps can lay out a party of `episode` (1, 2, or 3 for Episode 4).
pub open spec fn episode_ready(maps: Areas, episode: u8) -> bool {
    ||| episode == 1 && ep1_ready(maps.ep1)
    ||| episode == 2 && ep2_ready(maps.ep2)
    ||| episode == 3 && ep4_ready(maps.ep4)
}

/// Whether an enemy placement converts in `episode` (see
/// [`convert_enemy_defined`]).
pub fn enemy_defined(me: &MapEnemy, episode: u8, alt_enemies: bool) -> (r: bool)
    ensures
        r == convert_enemy_defined(*me, episode, alt_enemies),
{
    if me.base != 0x41 {
        return true;
    }
    if !(episode == 1 || episode == 2 || episode == 3) {
        return false;
    }
    if episode == 1 || (episode == 3 && !alt_enemies) {
        me.skin < 0xFFFF_FFFFu32 && (me.skin as usize) <= usize::MAX - 0x12
    } else {
        true
    }
}

/// Whether every placement converts.
pub fn enemies_defined(mes: &Vec<MapEnemy>, episode: u8, alt_enemies: bool) -> (r: bool)
    ensures
        r == all_defined(mes@, episode, alt_enemies),
{
    let mut i: usize = 0;
    while i < mes.len()
        invariant
            i <= mes@.len(),
            forall|j: int| 0 <= j < i ==> convert_enemy_defined(#[trigger] mes@[j], episode, alt_enemies),
        decreases mes@.len() - i,
    {
        if !enemy_defined(&mes[i], episode, alt_enemies) {
            return false;
        }
        i = i + 1;
    }
    true
}

/// Whether a list of variations can be chosen from.
pub fn list_is_ready(vs: &Vec<VariationData>, episode: u8, alt_enemies: bool) -> (r: bool)
    ensures
        r == list_ready(vs@, episode, alt_enemies),
{
    if vs.len() == 0 {
        return false;
    }
    let mut i: usize = 0;
    while i < vs.len()
        invariant
            i <= vs@.len(),
            forall|j: int| 0 <= j < i ==> all_defined(#[trigger] vs@[j].enemies@, episode, alt_enemies),
        decreases vs@.len() - i,
    {
        if !enemies_defined(&vs[i].enemies, episode, alt_enemies) {
            return false;
        }
        i = i + 1;
    }
    true
}

/// Whether a list of keyed variations can be chosen from.
pub fn keyed_is_ready(vs: &Vec<KeyedVariation>, episode: u8) -> (r: bool)
    ensures
        r == keyed_ready(vs@, episode),
{
    if vs.len() == 0 {
        return false;
    }
    let mut i: usize = 0;
    while i < vs.len()
        invariant
            i <= vs@.len(),
            forall|j: int| 0 <= j < i ==> all_defined(#[trigger] vs@[j].data.enemies@, episode, false),
        decreases vs@.len() - i,
    {
        if !enemies_defined(&vs[i].data.enemies, episode, false) {
            return false;
        }
        i = i + 1;
    }
    keys_are_distinct(vs)
}

/// Whether no two of the variations `vs` are kept under the same layout
/// numbers.
pub fn keys_are_distinct(vs: &Vec<KeyedVariation>) -> (r: bool)
    ensures
        r == keys_distinct(vs@),
{
    let mut i: usize = 0;
    while i < vs.len()
        invariant
            i <= vs@.len(),
            forall|a: int, b: int|
                0 <= a < i && a < b < vs@.len() ==> !same_key(#[trigger] vs@[a], #[trigger] vs@[b]),
        decreases vs@.len() - i,
    {
        let mut j: usize = i + 1;
        while j < vs.len()
            invariant
                i < vs@.len(),
                i + 1 <= j <= vs@.len(),
                forall|a: int, b: int|
                    0 <= a < i && a < b < vs@.len() ==> !same_key(#[trigger] vs@[a], #[trigger] vs@[b]),
                forall|b: int| i < b < j ==> !same_key(vs@[i as int], #[trigger] vs@[b]),
            decreases vs@.len() - j,
        {
            if vs[i].major == vs[j].major && vs[i].minor == vs[j].minor {
                assert(same_key(vs@[i as int], vs@[j as int]));
                return false;
            }
            j = j + 1;
        }
        i = i + 1;
    }
    true
}

/// Whether the Episode 1 maps can lay out a party.
pub fn ep1_is_ready(maps: &Ep1Areas) -> (r: bool)
    ensures
        r == ep1_ready(*maps),
{
    enemies_defined(&maps.city.enemies, 1, false) && list_is_ready(&maps.forest1, 1, false) && list_is_ready(
        &maps.forest2,
        1,
        false,
    ) && keyed_is_ready(&maps.cave1, 1) && keyed_is_ready(&maps.cave2, 1) && keyed_is_ready(&maps.cave3, 1)
        && keyed_is_ready(&maps.machine1, 1) && keyed_is_ready(&maps.machine2, 1) && keyed_is_ready(&maps.ancient1, 1)
        && keyed_is_ready(&maps.ancient2, 1) && keyed_is_ready(&maps.ancient3, 1) && enemies_defined(
        &maps.boss1.enemies,
        1,
        false,
    ) && enemies_defined(&maps.boss2.enemies, 1, false) && enemies_defined(&maps.boss3.enemies, 1, false)
        && enemies_defined(&maps.boss4.enemies, 1, false)
}

/// Whether the Episode 2 maps can lay out a party.
pub fn ep2_is_ready(maps: &Ep2Areas) -> (r: bool)
    ensures
        r == ep2_ready(*maps),
{
    enemies_defined(&maps.city.enemies, 2, false) && keyed_is_ready(&maps.ruins1, 2) && keyed_is_ready(&maps.ruins2, 2)
        && keyed_is_ready(&maps.space1, 2) && keyed_is_ready(&maps.space2, 2) && list_is_ready(&maps.jungle1, 2, false)
        && list_is_ready(&maps.jungle2, 2, false) && list_is_ready(&maps.jungle3, 2, false) && keyed_is_ready(
        &maps.jungle4,
        2,
    ) && list_is_ready(&maps.jungle5, 2, false) && keyed_is_ready(&maps.seabed1, 2) && keyed_is_ready(&maps.seabed2, 2)
        && enemies_defined(&maps.boss5.enemies, 2, false) && enemies_defined(&maps.boss6.enemies, 2, false)
        && enemies_defined(&maps.boss7.enemies, 2, false) && enemies_defined(&maps.boss8.enemies, 2, false)
}

/// Whether the Episode 4 maps can lay out a party.
pub fn ep4_is_ready(maps: &Ep4Areas) -> (r: bool)
    ensures
        r == ep4_ready(*maps),
{
    enemies_defined(&maps.city.enemies, 3, false) && list_is_ready(&maps.wilds1, 3, false) && list_is_ready(
        &maps.wilds2,
        3,
        false,
    ) && list_is_ready(&maps.wilds3, 3, false) && list_is_ready(&maps.wilds4, 3, false) && list_is_ready(
        &maps.crater,
        3,
        false,
    ) && list_is_ready(&maps.desert1, 3, true) && list_is_ready(&maps.desert2, 3, true) && list_is_ready(
        &maps.desert3,
        3,
        true,
    ) && enemies_defined(&maps.boss9.enemies, 3, false)
}

/// Whether the maps can lay out a party of `episode`.
pub fn is_episode_ready(maps: &Areas, episode: u8) -> (r: bool)
    ensures
        r == episode_ready(*maps, episode),
{
    if episode == 1 {
        ep1_is_ready(&maps.ep1)
    } else if episode == 2 {
        ep2_is_ready(&maps.ep2)
    } else if episode == 3 {
        ep4_is_ready(&maps.ep4)
    } else {
        false
    }
}

/// Entries `b` and `b + 1` of the variant numbers are the layout numbers
/// (major, then minor) of the keyed variation `kv`.
pub open spec fn told_key(v: Seq<u32>, b: int, kv: KeyedVariation) -> bool {
    v[b] == kv.major && v[b + 1] == kv.minor
}

/// The variation of `area` that the random number `roll` picks.
pub open spec fn picked(area: Seq<KeyedVariation>, roll: usize) -> KeyedVariation {
    area[roll as int % area.len() as int]
}

/// The variant numbers of an Episode 1 party: the client is told, for each
/// area with keyed variations, the major and then the minor layout number
/// of the variation picked for it (caves at 6, 8 and 10, mines at 12 and
/// 14, ruins at 16, 18 and 20); for each forest, the index of the variation
/// picked (at 3 and 5); every other entry is 0.
pub proof fn law_ep1_variants_name_the_picked_layouts(maps: Ep1Areas, rolls: Seq<usize>)
    requires
        ep1_ready(maps),
        rolls.len() >= 10,
    ensures
        ({
            let v = ep1_variants(maps, rolls);
            &&& v.len() == 32
            &&& v[3] == (rolls[0] as int % maps.forest1@.len() as int) as u32
            &&& v[5] == (rolls[1] as int % maps.forest2@.len() as int) as u32
            &&& told_key(v, 6, picked(maps.cave1@, rolls[2]))
            &&& told_key(v, 8, picked(maps.cave2@, rolls[3]))
            &&& told_key(v, 10, picked(maps.cave3@, rolls[4]))
            &&& told_key(v, 12, picked(maps.machine1@, rolls[5]))
            &&& told_key(v, 14, picked(maps.machine2@, rolls[6]))
            &&& told_key(v, 16, picked(maps.ancient1@, rolls[7]))
            &&& told_key(v, 18, picked(maps.ancient2@, rolls[8]))
            &&& told_key(v, 20, picked(maps.ancient3@, rolls[9]))
            &&& forall|k: int| 0 <= k < 32 && !(k == 3 || 5 <= k <= 21) ==> v[k] == 0
        }),
{
}

/// The variant numbers of an Episode 2 party: for each area with keyed
/// variations, the major and then the minor layout number of the variation
/// picked for it (temples at 2 and 4, spaceship at 6 and 8, the jungle's
/// fourth area at 16, seabed at 20 and 22); for the other jungle areas,
/// the index of the variation picked (at 11, 13, 15 and 19); every other
/// entry is 0.
pub proof fn law_ep2_variants_name_the_picked_layouts(maps: Ep2Areas, rolls: Seq<usize>)
    requires
        ep2_ready(maps),
        rolls.len() >= 11,
    ensures
        ({
            let v = ep2_variants(maps, rolls);
            &&& v.len() == 32
            &&& told_key(v, 2, picked(maps.ruins1@, rolls[0]))
            &&& told_key(v, 4, picked(maps.ruins2@, rolls[1]))
            &&& told_key(v, 6, picked(maps.space1@, rolls[2]))
            &&& told_key(v, 8, picked(maps.space2@, rolls[3]))
            &&& v[11] == (rolls[4] as int % maps.jungle1@.len() as int) as u32
            &&& v[13] == (rolls[5] as int % maps.jungle2@.len() as int) as u32
            &&& v[15] == (rolls[6] as int % maps.jungle3@.len() as int) as u32
            &&& told_key(v, 16, picked(maps.jungle4@, rolls[8]))
            &&& v[19] == (rolls[7] as int % maps.jungle5@.len() as int) as u32
            &&& told_key(v, 20, picked(maps.seabed1@, rolls[9]))
            &&& told_key(v, 22, picked(maps.seabed2@, rolls[10]))
            &&& forall|k: int| 0 <= k < 32 && !(2 <= k <= 9 || k == 11 || 13 <= k <= 17 || 19 <= k <= 23) ==> v[k] == 0
        }),
{
}

/// The variant numbers of an Episode 4 party: for each area, the index of
/// the variation picked for it (wilds at 3, 5, 7 and 9, crater at 11,
/// desert at 12, 15 and 16); every other entry is 0.
pub proof fn law_ep4_variants_name_the_picked_layouts(maps: Ep4Areas, rolls: Seq<usize>)
    requires
        ep4_ready(maps),
        rolls.len() >= 8,
    ensures
        ({
            let v = ep4_variants(maps, rolls);
            &&& v.len() == 32
            &&& v[3] == (rolls[0] as int % maps.wilds1@.len() as int) as u32
            &&& v[5] == (rolls[1] as int % maps.wilds2@.len() as int) as u32
            &&& v[7] == (rolls[2] as int % maps.wilds3@.len() as int) as u32
            &&& v[9] == (rolls[3] as int % maps.wilds4@.len() as int) as u32
            &&& v[11] == (rolls[4] as int % maps.crater@.len() as int) as u32
            &&& v[12] == (rolls[5] as int % maps.desert1@.len() as int) as u32
            &&& v[15] == (rolls[6] as int % maps.desert2@.len() as int) as u32
            &&& v[16] == (rolls[7] as int % maps.desert3@.len() as int) as u32
            &&& forall|k: int| 0 <= k < 32 && !(k == 3 || k == 5 || k == 7 || k == 9 || k == 11 || k == 12 || k == 15 || k == 16) ==> v[k] == 0
        }),
{
}

} // verus!
