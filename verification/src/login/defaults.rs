//! The starting equipment, items, techniques and stats of a new character.

use vstd::prelude::*;

use crate::block::partyhandler::exp::{LevelTable, Stats};

verus! {

/// An inventory item.
#[derive(Clone, Copy, Debug)]
pub struct InvItem {
    pub exists: u16,
    pub flags: u32,
    pub data: [u8; 12],
    pub item_id: u32,
    pub data2: [u8; 4],
}

/// An inventory item as plain values.
pub struct ItemView {
    pub exists: u16,
    pub flags: u32,
    pub data: Seq<u8>,
    pub item_id: u32,
    pub data2: Seq<u8>,
}

/// The plain values of an item.
pub open spec fn item_view(it: InvItem) -> ItemView {
    ItemView { exists: it.exists, flags: it.flags, data: it.data@, item_id: it.item_id, data2: it.data2@ }
}

/// What making the defaults reads and sets of a new character.
#[derive(Clone, Debug)]
pub struct NewCharacter {
    pub class: u8,
    pub skin: u16,
    pub costume: u16,
    pub techniques: [u8; 20],
    pub config: Vec<u8>,
    pub meseta: u32,
    pub stats: Stats,
    pub inventory: Vec<InvItem>,
}

/// Hunters (HUmar, HUnewearl, HUcast, HUcaseal) start with a saber.
pub open spec fn is_hunter(class: u8) -> bool {
    class == 0 || class == 1 || class == 2 || class == 9
}

/// Rangers (RAmar, RAcast, RAcaseal, RAmarl) start with a handgun.
pub open spec fn is_ranger(class: u8) -> bool {
    class == 3 || class == 4 || class == 5 || class == 11
}

/// Forces (FOmarl, FOnewm, FOnewearl, FOmar) start with a cane, a
/// monofluid and Foie.
pub open spec fn is_force(class: u8) -> bool {
    class == 6 || class == 7 || class == 8 || class == 10
}

/// Androids (HUcast, HUcaseal, RAcast, RAcaseal) color their mag by skin.
pub open spec fn is_android(class: u8) -> bool {
    class == 2 || class == 9 || class == 4 || class == 5
}

/// An item with these bytes.
pub open spec fn item(flags: u32, data: Seq<u8>, item_id: u32, data2: Seq<u8>) -> ItemView {
    ItemView { exists: 1, flags, data, item_id, data2 }
}

/// Twelve bytes, `a` to `f` first, zeros after.
pub open spec fn bytes12(a: u8, b: u8, c: u8, d: u8, e: u8, f: u8) -> Seq<u8> {
    seq![a, b, c, d, e, f, 0u8, 0u8, 0u8, 0u8, 0u8, 0u8]
}

/// The starting weapon of a class, equipped: none for an unknown class.
pub open spec fn default_weapon(class: u8) -> Seq<ItemView> {
    let kind: u8 = if is_hunter(class) {
        0x01
    } else if is_ranger(class) {
        0x06
    } else {
        0x0A
    };
    if is_hunter(class) || is_ranger(class) || is_force(class) {
        seq![item(8, bytes12(0, kind, 0, 0, 0, 0), 0x0001_0000, seq![0u8, 0u8, 0u8, 0u8])]
    } else {
        Seq::empty()
    }
}

/// The mag's color: an android's skin, anyone else's costume (low byte).
pub open spec fn mag_color(class: u8, skin: u16, costume: u16) -> u8 {
    if is_android(class) {
        skin as u8
    } else {
        costume as u8
    }
}

/// The starting inventory: the weapon, an equipped frame, an equipped mag
/// (20 synchro), four monomates, and for forces four monofluids.
pub open spec fn default_items(class: u8, skin: u16, costume: u16) -> Seq<ItemView> {
    default_weapon(class) + seq![
        item(8, bytes12(0x01, 0x01, 0, 0, 0, 0), 0x0001_0001, seq![0u8, 0u8, 0u8, 0u8]),
        item(8, bytes12(0x02, 0, 0x05, 0, 0xF4, 0x01), 0x0001_0002, seq![0x14u8, 0u8, 0u8, mag_color(class, skin, costume)]),
        item(0, bytes12(0x03, 0, 0, 0, 0, 0x04), 0x0001_0003, seq![0u8, 0u8, 0u8, 0u8]),
    ] + if is_force(class) {
        seq![item(0, bytes12(0x03, 0x01, 0, 0, 0, 0x04), 0x0001_0004, seq![0u8, 0u8, 0u8, 0u8])]
    } else {
        Seq::empty()
    }
}

/// Byte `i` of a force's default palette.
pub open spec fn force_config_byte(i: int) -> u8 {
    if i == 4 || i == 13 || i == 60 {
        1
    } else if i == 8 || i == 12 {
        2
    } else if i == 16 {
        3
    } else if 22 <= i <= 58 && (i - 22) % 4 == 0 {
        1
    } else if 66 <= i <= 114 && (i - 66) % 4 == 0 {
        1
    } else {
        0
    }
}

/// A force's default palette: 232 bytes.
pub open spec fn force_config() -> Seq<u8> {
    Seq::new(232, |i: int| force_config_byte(i))
}

/// Byte `i` of a force's default palette.
fn config_byte(i: usize) -> (r: u8)
    ensures
        r == force_config_byte(i as int),
{
    if i == 4 || i == 13 || i == 60 {
        1
    } else if i == 8 || i == 12 {
        2
    } else if i == 16 {
        3
    } else if 22 <= i && i <= 58 && (i - 22) % 4 == 0 {
        1
    } else if 66 <= i && i <= 114 && (i - 66) % 4 == 0 {
        1
    } else {
        0
    }
}

/// A force's default palette.
fn make_force_config() -> (r: Vec<u8>)
    ensures
        r@ == force_config(),
{
    let mut v: Vec<u8> = Vec::new();
    let mut i: usize = 0;
    while i < 232
        invariant
            i <= 232,
            v@ == Seq::new(i as nat, |k: int| force_config_byte(k)),
        decreases 232 - i,
    {
        v.push(config_byte(i));
        assert(v@ =~= Seq::new((i + 1) as nat, |k: int| force_config_byte(k)));
        i = i + 1;
    }
    v
}

/// Gives a new character its defaults: the starting inventory of its
/// class, 300 meseta, and its class's starting stats. A force also
/// learns Foie (technique 0 at level 0) and gets the forces' palette. A
/// class without starting stats gets 10 HP and keeps its other stats.
pub fn make_defaults(chara: &mut NewCharacter, level_table: &LevelTable)
    ensures
        final(chara).inventory@.map_values(|it: InvItem| item_view(it)) == default_items(
            old(chara).class,
            old(chara).skin,
            old(chara).costume,
        ),
        final(chara).meseta == 300,
        is_force(old(chara).class) ==> final(chara).techniques@ == old(chara).techniques@.update(0, 0u8)
            && final(chara).config@ == force_config(),
        !is_force(old(chara).class) ==> final(chara).techniques == old(chara).techniques && final(chara).config
            == old(chara).config,
        old(chara).class < level_table.start_stats@.len() ==> final(chara).stats
            == level_table.start_stats@[old(chara).class as int],
        old(chara).class >= level_table.start_stats@.len() ==> final(chara).stats == (Stats {
            hp: 10,
            ..old(chara).stats
        }),
        final(chara).class == old(chara).class,
        final(chara).skin == old(chara).skin,
        final(chara).costume == old(chara).costume,
{
    let class = chara.class;
    let mut items: Vec<InvItem> = Vec::new();
    let zero4: [u8; 4] = [0, 0, 0, 0];
    if class == 0 || class == 1 || class == 2 || class == 9 {
        items.push(InvItem { exists: 1, flags: 8, data: [0, 0x01, 0, 0, 0, 0, 0, 0, 0, 0, 0, 0], item_id: 0x0001_0000, data2: zero4 });
    } else if class == 3 || class == 4 || class == 5 || class == 11 {
        items.push(InvItem { exists: 1, flags: 8, data: [0, 0x06, 0, 0, 0, 0, 0, 0, 0, 0, 0, 0], item_id: 0x0001_0000, data2: zero4 });
    } else if class == 6 || class == 7 || class == 8 || class == 10 {
        items.push(InvItem { exists: 1, flags: 8, data: [0, 0x0A, 0, 0, 0, 0, 0, 0, 0, 0, 0, 0], item_id: 0x0001_0000, data2: zero4 });
    }
    // Frame
    items.push(InvItem { exists: 1, flags: 8, data: [0x01, 0x01, 0, 0, 0, 0, 0, 0, 0, 0, 0, 0], item_id: 0x0001_0001, data2: zero4 });
    // Mag: 20 synchro; androids color it by skin, everyone else by costume.
    let color: u8 = if class == 2 || class == 9 || class == 4 || class == 5 {
        chara.skin as u8
    } else {
        chara.costume as u8
    };
    items.push(InvItem { exists: 1, flags: 8, data: [0x02, 0, 0x05, 0, 0xF4, 0x01, 0, 0, 0, 0, 0, 0], item_id: 0x0001_0002, data2: [0x14, 0, 0, color] });
    // Monomates
    items.push(InvItem { exists: 1, flags: 0, data: [0x03, 0, 0, 0, 0, 0x04, 0, 0, 0, 0, 0, 0], item_id: 0x0001_0003, data2: zero4 });
    if class == 6 || class == 7 || class == 8 || class == 10 {
        // Monofluids
        items.push(InvItem { exists: 1, flags: 0, data: [0x03, 0x01, 0, 0, 0, 0x04, 0, 0, 0, 0, 0, 0], item_id: 0x0001_0004, data2: zero4 });
        // Foie, and the forces' palette.
        chara.techniques[0] = 0;
        chara.config = make_force_config();
    }
    chara.meseta = 300;
    if (class as usize) < level_table.start_stats.len() {
        chara.stats = level_table.start_stats[class as usize];
    } else {
        chara.stats.hp = 10;
    }
    proof {
        assert(items@.map_values(|it: InvItem| item_view(it)) =~= default_items(class, chara.skin, chara.costume));
    }
    chara.inventory = items;
}

} // verus!
