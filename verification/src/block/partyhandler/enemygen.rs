//! Conversion of map enemy placements into the enemies of a party instance.

use vstd::prelude::*;

use crate::block::lobbyhandler::event::{Event, event_code};
use crate::maps::{InstanceEnemy, MapEnemy, EnemyDesc, descs};

verus! {

/// The entry index that no battle parameter or rare table entry has.
pub const INVALID_ENTRY: usize = 0xFFFFFFFF;

/// One enemy.
pub open spec fn one(p: int, r: int, name: Seq<char>) -> Seq<EnemyDesc> {
    seq![(p, r, name)]
}

/// `n` enemies of one kind.
pub open spec fn many(n: nat, p: int, r: int, name: Seq<char>) -> Seq<EnemyDesc> {
    Seq::new(n, |_i: int| (p, r, name))
}

/// The low bit of the skin.
pub open spec fn skin_bit(me: MapEnemy) -> int {
    (me.skin & 1u32) as int
}

/// 1 when the alternate-form flag (bit 0x800000 of reserved word 10) is
/// set, else 0.
pub open spec fn alt_flag(me: MapEnemy) -> int {
    if (me.reserved2@[10] & 0x800000u32) > 0 { 1 } else { 0 }
}

/// The inputs on which the conversion is defined: rappies exist in
/// episodes 1, 2 and 3 (the third being Episode 4), and the rappy skins of
/// Episode 1 and of the Episode 4 wilds are counted up by one, and offset into the rare table,
/// without overflowing.
pub open spec fn convert_enemy_defined(me: MapEnemy, episode: u8, alt_enemies: bool) -> bool {
    me.base == 0x41 ==> {
        &&& (episode == 1 || episode == 2 || episode == 3)
        &&& (episode == 1 || (episode == 3 && !alt_enemies)) ==> {
            &&& me.skin < 0xFFFF_FFFFu32
            &&& me.skin as int + 0x12 <= usize::MAX
        }
    }
}

/// The rare table entry of an Episode 2 rappy, which depends on the event.
pub open spec fn ep2_rappy_rt(me: MapEnemy, event: u16) -> int {
    if (me.skin & 1u32) > 0 {
        if event == event_code(Event::Christmas) {
            79
        } else if event == event_code(Event::Easter) {
            81
        } else if event == event_code(Event::Halloween) {
            80
        } else {
            51
        }
    } else {
        5
    }
}

/// The instance enemies that one map enemy placement stands for, in order.
pub open spec fn spec_convert_enemy(me: MapEnemy, episode: u8, event: u16, alt_enemies: bool) -> Seq<EnemyDesc> {
    let s1 = skin_bit(me);
    let f = alt_flag(me);
    let m3 = (me.skin % 3) as int;
    let inv = 0xFFFFFFFFint;
    if me.base == 0x40 {
        one(0x49 + s1, 0x01 + s1, "Hildebear/Hildetorr"@)
    } else if me.base == 0x41 {
        if episode == 3 {
            if alt_enemies {
                one(0x17 + s1, 0x11 + s1, "Sand/Del Rappy (Desert)"@)
            } else {
                one(0x05 + s1, 0x12 + me.skin, "Sand/Del Rappy (Wilds/Crater)"@)
            }
        } else if episode == 1 {
            one(0x18 + s1, 0x12 + me.skin, "Rappy"@)
        } else {
            one(0x18 + s1, ep2_rappy_rt(me, event), "Rappy"@)
        }
    } else if me.base == 0x42 {
        one(0x01, 0x04, "Monest"@) + many(30, 0x00, 0x03, "Mothmant"@)
    } else if me.base == 0x43 {
        one(0x02 + f, 0x07 + f, "Savage/Barbarous Wolf"@)
    } else if me.base == 0x44 {
        one(0x48 + m3, 0x09 + m3, "Booma"@)
    } else if me.base == 0x60 {
        one(0x4E, 0x0C, "Grass Assassin"@)
    } else if me.base == 0x61 {
        if episode == 2 && alt_enemies {
            one(0x25, 0x53, "Del Lily"@)
        } else {
            one(0x04 + f, 0x0D + f, "Poison/Nar Lily"@)
        }
    } else if me.base == 0x62 {
        one(0x1A, 0x0F, "Nano Dragon"@)
    } else if me.base == 0x63 {
        one(0x4F + m3, 0x10 + m3, "Shark"@)
    } else if me.base == 0x64 {
        one(0x30 - f, 0x13 + f, "Slime"@) + many(4, 0x30, 0x13, "Slime"@)
    } else if me.base == 0x65 {
        one(0x31, 0x15, "Pan Arms"@) + one(0x32, 0x16, "Pan Arms"@) + one(0x33, 0x17, "Pan Arms"@)
    } else if me.base == 0x80 {
        one(0x1B + s1, 0x18 + s1, "Dubchic/Gilchic"@)
    } else if me.base == 0x81 {
        one(0x1D, 0x19, "Garanz"@)
    } else if me.base == 0x82 {
        if f == 1 {
            many(me.num_clones as nat, 0x13, 0x1B, "Sinow Beat/Gold"@)
        } else {
            many(me.num_clones as nat, 0x06, 0x1A, "Sinow Beat/Gold"@)
        }
    } else if me.base == 0x83 {
        one(0x07, 0x1C, "Canadine (Solo)"@)
    } else if me.base == 0x84 {
        one(0x09, 0x1D, "Canadine Leader"@) + many(8, 0x08, 0x1C, "Canadine Squadmate"@)
    } else if me.base == 0x85 {
        one(inv, inv, "Dubwitch"@)
    } else if me.base == 0xA0 {
        one(0x52, 0x1E, "Delsaber"@)
    } else if me.base == 0xA1 {
        one(0x0A, 0x1F, "Chaos Sorcerer"@) + one(0x0B, 0x00, "Bee L"@) + one(0x0C, 0x00, "Bee R"@)
    } else if me.base == 0xA2 {
        one(0x1E, 0x22, "Dark Gunner"@)
    } else if me.base == 0xA3 {
        one(inv, inv, "Death Gunner (INVALID)"@)
    } else if me.base == 0xA4 {
        one(0x0D, 0x24, "Chaos Bringer"@)
    } else if me.base == 0xA5 {
        one(0x0E, 0x25, "Dark Belra"@)
    } else if me.base == 0xA6 {
        one(0x53 + m3, 0x29 + m3, "Dimenian"@)
    } else if me.base == 0xA7 {
        one(0x1F, 0x28, "Bulclaw"@) + many(4, 0x20, 0x26, "Claw (Bulclaw minion)"@)
    } else if me.base == 0xA8 {
        one(0x20, 0x26, "Claw"@)
    } else if me.base == 0xC0 {
        if episode == 1 {
            one(0x12, 0x2C, "Dragon"@)
        } else {
            one(0x1E, 0x4D, "Gal Gryphon"@)
        }
    } else if me.base == 0xC1 {
        one(0x0F, 0x2D, "De Rol Le"@)
    } else if me.base == 0xC2 {
        one(inv, inv, "Vol Opt Phase 1 (INVALID)"@)
    } else if me.base == 0xC5 {
        one(0x25, 0x2E, "Vol Opt Phase 2"@)
    } else if me.base == 0xC8 {
        many(510, 0x35, 0x00, "Darvant (Falz Minion)"@) + one(0x38, 0x2F, "Dark Falz Phase 3"@)
            + one(0x37, 0x2F, "Dark Falz Phase 2"@) + one(0x36, 0x2F, "Dark Falz Phase 1"@)
    } else if me.base == 0xCA {
        one(0x2C, 0x4E, "Olga Flow"@) + many(512, inv, inv, "Olga Flow Extra (INVALID)"@)
    } else if me.base == 0xCB {
        one(0x0F, 0x49, "Barba Ray"@) + many(47, inv, inv, "Barba Ray Extra (INVALID)"@)
    } else if me.base == 0xCC {
        one(0x12, 0x4C, "Gol Dragon"@) + many(5, inv, inv, "Barba Ray Extra (INVALID)"@)
    } else if me.base == 0xD4 {
        (if me.skin > 0 {
            one(0x13, 0x3F, "Sinow Spigell"@)
        } else {
            one(0x06, 0x3E, "Sinow Berill"@)
        }) + many(4, inv, inv, "Unused (INVALID)"@)
    } else if me.base == 0xD5 {
        one(0x4B + s1, 0x34 + s1, "Merillia/Meriltas"@)
    } else if me.base == 0xD6 {
        if m3 == 2 {
            one(0x46, 0x3A, "Mericarol"@)
        } else if m3 == 1 {
            one(0x45, 0x39, "Merikle"@)
        } else {
            one(0x3A, 0x38, "Mericus"@)
        }
    } else if me.base == 0xD7 {
        one(0x3B + s1, 0x3B + s1, "Gibbon"@)
    } else if me.base == 0xD8 {
        one(0x3D, 0x3D, "Gibbles"@)
    } else if me.base == 0xD9 {
        one(0x07, 0x36, "Gee"@)
    } else if me.base == 0xDA {
        one(0x1A, 0x37, "Gi Gue"@)
    } else if me.base == 0xDB {
        one(0x30, 0x47, "Deldepth"@)
    } else if me.base == 0xDC {
        one(0x0D, 0x48, "Delbiter"@)
    } else if me.base == 0xDD {
        one(0x4F + s1, 0x40 + s1, "Dolmolm/Domldarl"@)
    } else if me.base == 0xDE {
        one(0x41, 0x42, "Morfos"@)
    } else if me.base == 0xDF {
        one(0x41, 0x43, "Recobox"@) + many(me.num_clones as nat, 0x42, 0x44, "Recon (Recobox Minion)"@)
    } else if me.base == 0xE0 {
        if episode == 2 && alt_enemies {
            one(0x23, 0x54, "Zele"@) + many(4, inv, inv, "Empty"@)
        } else {
            one(0x43 + s1, 0x45 + s1, "Epsilon/Sinow Zoa"@)
        }
    } else if me.base == 0xE1 {
        one(0x26, 0x52, "Ill Gill"@)
    } else if me.base == 0x110 {
        one(0x09, 0x01, "Astark"@)
    } else if me.base == 0x111 {
        one(if alt_enemies { 0x0D + f + 0x10 } else { 0x0D + f }, 0x02 + f, "Satellite Lizard/Yowie"@)
    } else if me.base == 0x112 {
        one(0x19 + s1, 0x04 + s1, "Merissa"@)
    } else if me.base == 0x113 {
        one(0x1F, 0x06, "Girtablulu"@)
    } else if me.base == 0x114 {
        one(if alt_enemies { 0x07 + s1 + 0x14 } else { 0x07 + s1 }, 0x07 + s1, "Zu/Pazuzu"@)
    } else if me.base == 0x115 {
        one(if (me.skin & 2u32) > 0 { 0x03 } else { m3 }, 0x09 + m3, "Boota"@)
    } else if me.base == 0x116 {
        one(0x0F + s1, 0x0C + s1, "Dorphon/Eclair"@)
    } else if me.base == 0x117 {
        one(
            0x11 + (me.skin & 3u32) as int,
            if (me.skin & 2u32) > 0 { 0x0F } else if (me.skin & 1u32) > 0 { 0x10 } else { 0x0E },
            "Goran"@,
        )
    } else if me.base == 0x119 {
        one(0x22, if f == 1 { 0x15 } else { 0x13 + s1 }, "Saint Milion/Shambertin/Kondrieu"@)
    } else {
        one(inv, inv, "Unknown"@)
    }
}

/// The boss placement 0xC0 is the Dragon in Episode 1 (parameter entry
/// 0x12, rare table entry 0x2C) and Gal Gryphon elsewhere (0x1E, 0x4D):
/// one enemy either way, whatever its skin, clones, the event or the
/// alternate forms.
pub proof fn law_boss_c0_by_episode(me: MapEnemy, episode: u8, event: u16, alt_enemies: bool)
    requires
        me.base == 0xC0,
    ensures
        episode == 1 ==> spec_convert_enemy(me, episode, event, alt_enemies) == seq![(0x12int, 0x2Cint, "Dragon"@)],
        episode != 1 ==> spec_convert_enemy(me, episode, event, alt_enemies) == seq![
            (0x1Eint, 0x4Dint, "Gal Gryphon"@),
        ],
{
}

/// The other bosses are one enemy each, the same in every episode: De Rol
/// Le (0xC1: 0x0F, 0x2D), Vol Opt's second phase (0xC5: 0x25, 0x2E), and
/// the Dark Falz placement (0xC8), which stands for 510 Darvants (0x35,
/// 0x00) followed by his third, second and first phases (0x38, 0x37, 0x36,
/// all with rare entry 0x2F).
pub proof fn law_other_bosses(me: MapEnemy, episode: u8, event: u16, alt_enemies: bool)
    ensures
        me.base == 0xC1 ==> spec_convert_enemy(me, episode, event, alt_enemies) == seq![(0x0Fint, 0x2Dint, "De Rol Le"@)],
        me.base == 0xC5 ==> spec_convert_enemy(me, episode, event, alt_enemies) == seq![
            (0x25int, 0x2Eint, "Vol Opt Phase 2"@),
        ],
        me.base == 0xC8 ==> ({
            let r = spec_convert_enemy(me, episode, event, alt_enemies);
            &&& r.len() == 513
            &&& forall|i: int| 0 <= i < 510 ==> #[trigger] r[i] == (0x35int, 0x00int, "Darvant (Falz Minion)"@)
            &&& r[510] == (0x38int, 0x2Fint, "Dark Falz Phase 3"@)
            &&& r[511] == (0x37int, 0x2Fint, "Dark Falz Phase 2"@)
            &&& r[512] == (0x36int, 0x2Fint, "Dark Falz Phase 1"@)
        }),
{
    if me.base == 0xC8 {
        let d = many(510, 0x35, 0x00, "Darvant (Falz Minion)"@);
        let r = d + one(0x38, 0x2F, "Dark Falz Phase 3"@) + one(0x37, 0x2F, "Dark Falz Phase 2"@) + one(
            0x36,
            0x2F,
            "Dark Falz Phase 1"@,
        );
        assert(r[510] == (0x38int, 0x2Fint, "Dark Falz Phase 3"@));
        assert(r[511] == (0x37int, 0x2Fint, "Dark Falz Phase 2"@));
        assert(r[512] == (0x36int, 0x2Fint, "Dark Falz Phase 1"@));
        assert forall|i: int| 0 <= i < 510 implies #[trigger] r[i] == (0x35int, 0x00int, "Darvant (Falz Minion)"@) by {
            assert(r[i] == d[i]);
        }
    }
}

/// A skin with its low bit set gives the rare form of the placements that
/// have one: for Hildebear (0x40), Dubchic (0x80), Merillia (0xD5), Gibbon
/// (0xD7), Dolmolm (0xDD), Merissa (0x112) and Dorphon (0x116), the rare
/// form is the one enemy of the same name with parameter and rare table
/// entries each one above the common form's.
pub proof fn law_rare_skin_is_next_entry(me: MapEnemy, episode: u8, event: u16, alt_enemies: bool)
    requires
        me.base == 0x40 || me.base == 0x80 || me.base == 0xD5 || me.base == 0xD7 || me.base == 0xDD || me.base
            == 0x112 || me.base == 0x116,
        me.skin & 1u32 == 0,
    ensures
        ({
            let common = spec_convert_enemy(me, episode, event, alt_enemies);
            let rare = spec_convert_enemy(MapEnemy { skin: me.skin | 1u32, ..me }, episode, event, alt_enemies);
            &&& common.len() == 1
            &&& rare.len() == 1
            &&& rare[0].0 == common[0].0 + 1
            &&& rare[0].1 == common[0].1 + 1
            &&& rare[0].2 == common[0].2
        }),
{
    let s = me.skin;
    assert((s | 1u32) & 1u32 == 1u32) by (bit_vector);
}

/// The common form of each placement that has no alternatives (a skin of
/// 0, no alternate-form flag, no clones): the instance enemies it stands
/// for, given by their parameter entry, rare table entry and name (for a
/// group, the first of them and how many there are; 0xFFFFFFFF is the
/// entry no table has).
#[verifier::rlimit(60)]
pub proof fn law_common_placements(me: MapEnemy, episode: u8, event: u16, alt_enemies: bool)
    requires
        me.skin == 0,
        me.reserved2@[10] & 0x800000u32 == 0,
        me.num_clones == 0,
    ensures
        me.base == 0x40 ==> spec_convert_enemy(me, episode, event, alt_enemies) == seq![(0x49int, 0x01int, "Hildebear/Hildetorr"@)],
        me.base == 0x42 ==> spec_convert_enemy(me, episode, event, alt_enemies)[0] == (0x01int, 0x04int, "Monest"@) && spec_convert_enemy(me, episode, event, alt_enemies).len() == 31,
        me.base == 0x43 ==> spec_convert_enemy(me, episode, event, alt_enemies) == seq![(0x02int, 0x07int, "Savage/Barbarous Wolf"@)],
        me.base == 0x44 ==> spec_convert_enemy(me, episode, event, alt_enemies) == seq![(0x48int, 0x09int, "Booma"@)],
        me.base == 0x60 ==> spec_convert_enemy(me, episode, event, alt_enemies) == seq![(0x4Eint, 0x0Cint, "Grass Assassin"@)],
        me.base == 0x62 ==> spec_convert_enemy(me, episode, event, alt_enemies) == seq![(0x1Aint, 0x0Fint, "Nano Dragon"@)],
        me.base == 0x63 ==> spec_convert_enemy(me, episode, event, alt_enemies) == seq![(0x4Fint, 0x10int, "Shark"@)],
        me.base == 0x64 ==> spec_convert_enemy(me, episode, event, alt_enemies)[0] == (0x30int, 0x13int, "Slime"@) && spec_convert_enemy(me, episode, event, alt_enemies).len() == 5,
        me.base == 0x65 ==> spec_convert_enemy(me, episode, event, alt_enemies)[0] == (0x31int, 0x15int, "Pan Arms"@) && spec_convert_enemy(me, episode, event, alt_enemies).len() == 3,
        me.base == 0x80 ==> spec_convert_enemy(me, episode, event, alt_enemies) == seq![(0x1Bint, 0x18int, "Dubchic/Gilchic"@)],
        me.base == 0x81 ==> spec_convert_enemy(me, episode, event, alt_enemies) == seq![(0x1Dint, 0x19int, "Garanz"@)],
        me.base == 0x83 ==> spec_convert_enemy(me, episode, event, alt_enemies) == seq![(0x07int, 0x1Cint, "Canadine (Solo)"@)],
        me.base == 0x84 ==> spec_convert_enemy(me, episode, event, alt_enemies)[0] == (0x09int, 0x1Dint, "Canadine Leader"@) && spec_convert_enemy(me, episode, event, alt_enemies).len() == 9,
        me.base == 0x85 ==> spec_convert_enemy(me, episode, event, alt_enemies) == seq![(0xFFFFFFFFint, 0xFFFFFFFFint, "Dubwitch"@)],
        me.base == 0xA0 ==> spec_convert_enemy(me, episode, event, alt_enemies) == seq![(0x52int, 0x1Eint, "Delsaber"@)],
        me.base == 0xA1 ==> spec_convert_enemy(me, episode, event, alt_enemies)[0] == (0x0Aint, 0x1Fint, "Chaos Sorcerer"@) && spec_convert_enemy(me, episode, event, alt_enemies).len() == 3,
        me.base == 0xA2 ==> spec_convert_enemy(me, episode, event, alt_enemies) == seq![(0x1Eint, 0x22int, "Dark Gunner"@)],
        me.base == 0xA3 ==> spec_convert_enemy(me, episode, event, alt_enemies) == seq![(0xFFFFFFFFint, 0xFFFFFFFFint, "Death Gunner (INVALID)"@)],
        me.base == 0xA4 ==> spec_convert_enemy(me, episode, event, alt_enemies) == seq![(0x0Dint, 0x24int, "Chaos Bringer"@)],
        me.base == 0xA5 ==> spec_convert_enemy(me, episode, event, alt_enemies) == seq![(0x0Eint, 0x25int, "Dark Belra"@)],
        me.base == 0xA6 ==> spec_convert_enemy(me, episode, event, alt_enemies) == seq![(0x53int, 0x29int, "Dimenian"@)],
        me.base == 0xA7 ==> spec_convert_enemy(me, episode, event, alt_enemies)[0] == (0x1Fint, 0x28int, "Bulclaw"@) && spec_convert_enemy(me, episode, event, alt_enemies).len() == 5,
        me.base == 0xA8 ==> spec_convert_enemy(me, episode, event, alt_enemies) == seq![(0x20int, 0x26int, "Claw"@)],
        me.base == 0xC1 ==> spec_convert_enemy(me, episode, event, alt_enemies) == seq![(0x0Fint, 0x2Dint, "De Rol Le"@)],
        me.base == 0xC2 ==> spec_convert_enemy(me, episode, event, alt_enemies) == seq![(0xFFFFFFFFint, 0xFFFFFFFFint, "Vol Opt Phase 1 (INVALID)"@)],
        me.base == 0xC5 ==> spec_convert_enemy(me, episode, event, alt_enemies) == seq![(0x25int, 0x2Eint, "Vol Opt Phase 2"@)],
        me.base == 0xCA ==> spec_convert_enemy(me, episode, event, alt_enemies)[0] == (0x2Cint, 0x4Eint, "Olga Flow"@) && spec_convert_enemy(me, episode, event, alt_enemies).len() == 513,
        me.base == 0xCB ==> spec_convert_enemy(me, episode, event, alt_enemies)[0] == (0x0Fint, 0x49int, "Barba Ray"@) && spec_convert_enemy(me, episode, event, alt_enemies).len() == 48,
        me.base == 0xCC ==> spec_convert_enemy(me, episode, event, alt_enemies)[0] == (0x12int, 0x4Cint, "Gol Dragon"@) && spec_convert_enemy(me, episode, event, alt_enemies).len() == 6,
        me.base == 0xD5 ==> spec_convert_enemy(me, episode, event, alt_enemies) == seq![(0x4Bint, 0x34int, "Merillia/Meriltas"@)],
        me.base == 0xD7 ==> spec_convert_enemy(me, episode, event, alt_enemies) == seq![(0x3Bint, 0x3Bint, "Gibbon"@)],
        me.base == 0xD8 ==> spec_convert_enemy(me, episode, event, alt_enemies) == seq![(0x3Dint, 0x3Dint, "Gibbles"@)],
        me.base == 0xD9 ==> spec_convert_enemy(me, episode, event, alt_enemies) == seq![(0x07int, 0x36int, "Gee"@)],
        me.base == 0xDA ==> spec_convert_enemy(me, episode, event, alt_enemies) == seq![(0x1Aint, 0x37int, "Gi Gue"@)],
        me.base == 0xDB ==> spec_convert_enemy(me, episode, event, alt_enemies) == seq![(0x30int, 0x47int, "Deldepth"@)],
        me.base == 0xDC ==> spec_convert_enemy(me, episode, event, alt_enemies) == seq![(0x0Dint, 0x48int, "Delbiter"@)],
        me.base == 0xDD ==> spec_convert_enemy(me, episode, event, alt_enemies) == seq![(0x4Fint, 0x40int, "Dolmolm/Domldarl"@)],
        me.base == 0xDE ==> spec_convert_enemy(me, episode, event, alt_enemies) == seq![(0x41int, 0x42int, "Morfos"@)],
        me.base == 0xDF ==> spec_convert_enemy(me, episode, event, alt_enemies)[0] == (0x41int, 0x43int, "Recobox"@) && spec_convert_enemy(me, episode, event, alt_enemies).len() == 1,
        me.base == 0xE1 ==> spec_convert_enemy(me, episode, event, alt_enemies) == seq![(0x26int, 0x52int, "Ill Gill"@)],
        me.base == 0x110 ==> spec_convert_enemy(me, episode, event, alt_enemies) == seq![(0x09int, 0x01int, "Astark"@)],
        me.base == 0x112 ==> spec_convert_enemy(me, episode, event, alt_enemies) == seq![(0x19int, 0x04int, "Merissa"@)],
        me.base == 0x113 ==> spec_convert_enemy(me, episode, event, alt_enemies) == seq![(0x1Fint, 0x06int, "Girtablulu"@)],
        me.base == 0x116 ==> spec_convert_enemy(me, episode, event, alt_enemies) == seq![(0x0Fint, 0x0Cint, "Dorphon/Eclair"@)],
{
    assert(0u32 & 1u32 == 0u32) by (bit_vector);
    assert(0u32 & 2u32 == 0u32) by (bit_vector);
    assert(0u32 & 3u32 == 0u32) by (bit_vector);
}

/// Rappies (0x41): in Episode 1 a Rappy (parameter entry 0x18, or 0x19
/// with the skin's low bit), rare table entry 0x12 plus the skin; in
/// Episode 2 a Rappy whose rare entry is 5 for the common skin and, for
/// the rare one, follows the event (79 at Christmas, 81 at Easter, 80 at
/// Halloween, else 51); in Episode 4 a Sand/Del Rappy: of the desert with
/// the alternate forms (0x17 or 0x18, rare entry 0x11 or 0x12), else of the
/// wilds and crater (0x05 or 0x06, rare entry 0x12 plus the skin).
pub proof fn law_rappies(me: MapEnemy, episode: u8, event: u16, alt_enemies: bool)
    requires
        me.base == 0x41,
    ensures
        ({
            let r = spec_convert_enemy(me, episode, event, alt_enemies);
            let rare = me.skin & 1u32 == 1u32;
            let b: int = if rare { 1 } else { 0 };
            &&& r.len() == 1
            &&& episode == 1 ==> r[0] == (0x18 + b, 0x12 + me.skin, "Rappy"@)
            &&& episode == 2 ==> r[0].0 == 0x18 + b && r[0].2 == "Rappy"@ && r[0].1 == (if !rare {
                5int
            } else if event == 1 {
                79int
            } else if event == 4 {
                81int
            } else if event == 5 {
                80int
            } else {
                51int
            })
            &&& episode == 3 && alt_enemies ==> r[0] == (0x17 + b, 0x11 + b, "Sand/Del Rappy (Desert)"@)
            &&& episode == 3 && !alt_enemies ==> r[0] == (0x05 + b, 0x12 + me.skin, "Sand/Del Rappy (Wilds/Crater)"@)
        }),
{
    let s = me.skin;
    assert(s & 1u32 == 1u32 || s & 1u32 == 0u32) by (bit_vector);
    assert((s & 1u32 > 0) == (s & 1u32 == 1u32)) by (bit_vector);
}

/// The seasonal event only selects the rare table entry of an Episode 2
/// rappy: every other placement (rappies being in episodes 1 to 3) gives
/// the same enemies whatever the event.
pub proof fn law_event_only_for_episode2_rappies(me: MapEnemy, episode: u8, e1: u16, e2: u16, alt_enemies: bool)
    requires
        me.base == 0x41 ==> (episode == 1 || episode == 3),
    ensures
        spec_convert_enemy(me, episode, e1, alt_enemies) == spec_convert_enemy(me, episode, e2, alt_enemies),
{
}

/// The alternate forms touch only the desert rappies of Episode 4, the
/// Episode 2 lilies and Epsilons, and the Satellite Lizards and Zus: every
/// other placement gives the same enemies with or without them.
pub proof fn law_alt_forms_only_for_some(me: MapEnemy, episode: u8, event: u16)
    requires
        !(me.base == 0x41 && episode == 3),
        !((me.base == 0x61 || me.base == 0xE0) && episode == 2),
        me.base != 0x111,
        me.base != 0x114,
    ensures
        spec_convert_enemy(me, episode, event, true) == spec_convert_enemy(me, episode, event, false),
{
}

/// Appends `n` enemies of one kind to `ret`.
fn push_many(ret: &mut Vec<InstanceEnemy>, n: usize, param_entry: usize, rt_entry: usize, name: &'static str)
    ensures
        descs(final(ret)@) == descs(old(ret)@) + many(n as nat, param_entry as int, rt_entry as int, name@),
{
    let ghost start = descs(ret@);
    let mut i: usize = 0;
    while i < n
        invariant
            i <= n,
            descs(ret@) == start + many(i as nat, param_entry as int, rt_entry as int, name@),
        decreases n - i,
    {
        let ghost before = ret@;
        ret.push(InstanceEnemy { param_entry, rt_entry, name });
        proof {
            assert(ret@ == before.push(InstanceEnemy { param_entry, rt_entry, name }));
            assert(descs(ret@) =~= descs(before).push((param_entry as int, rt_entry as int, name@)));
            assert(many((i + 1) as nat, param_entry as int, rt_entry as int, name@)
                =~= many(i as nat, param_entry as int, rt_entry as int, name@).push((param_entry as int, rt_entry as int, name@)));
        }
        i = i + 1;
    }
}

/// Appends one enemy to `ret`.
fn push_one(ret: &mut Vec<InstanceEnemy>, param_entry: usize, rt_entry: usize, name: &'static str)
    ensures
        descs(final(ret)@) == descs(old(ret)@) + one(param_entry as int, rt_entry as int, name@),
{
    push_many(ret, 1, param_entry, rt_entry, name);
    assert(many(1, param_entry as int, rt_entry as int, name@) =~= one(param_entry as int, rt_entry as int, name@));
}

/// The instance enemies that the map enemy placement `me` stands for, in
/// episode `episode` (1, 2, or 3 for Episode 4) during the seasonal event
/// `event`. `alt_enemies` selects the alternate forms that some areas use
/// (the Episode 2 tower, the Episode 4 desert).
#[verifier::rlimit(50)]
pub fn convert_enemy(me: &MapEnemy, episode: u8, event: u16, alt_enemies: bool) -> (r: Vec<InstanceEnemy>)
    requires
        convert_enemy_defined(*me, episode, alt_enemies),
    ensures
        descs(r@) == spec_convert_enemy(*me, episode, event, alt_enemies),
{
    let mut ret: Vec<InstanceEnemy> = Vec::new();
    let skin = me.skin;
    assert(skin & 1u32 <= 1u32) by (bit_vector);
    assert(skin & 3u32 <= 3u32) by (bit_vector);
    let s1: usize = (me.skin & 0x01) as usize;
    let f: usize = if me.reserved2[10] & 0x800000 > 0 { 1 } else { 0 };
    let m3: usize = (me.skin % 3) as usize;
    assert(descs(ret@) =~= Seq::<EnemyDesc>::empty());
    assert(s1 as int == crate::block::partyhandler::enemygen::skin_bit(*me));
    assert(f as int == alt_flag(*me));
    match me.base {
        0x0040 => {
            push_one(&mut ret, 0x49 + s1, 0x01 + s1, "Hildebear/Hildetorr");
        },
        0x0041 => {
            if episode == 3 {
                if alt_enemies {
                    push_one(&mut ret, 0x17 + s1, 0x11 + s1, "Sand/Del Rappy (Desert)");
                } else {
                    push_one(&mut ret, 0x05 + s1, 0x11 + (me.skin + 0x01) as usize, "Sand/Del Rappy (Wilds/Crater)");
                }
            } else if episode == 1 {
                push_one(&mut ret, 0x18 + s1, 0x11 + (me.skin + 0x01) as usize, "Rappy");
            } else {
                let rt: usize = if me.skin & 0x01 > 0 {
                    if event == Event::Christmas.code() {
                        79
                    } else if event == Event::Easter.code() {
                        81
                    } else if event == Event::Halloween.code() {
                        80
                    } else {
                        51
                    }
                } else {
                    0x05
                };
                push_one(&mut ret, 0x18 + s1, rt, "Rappy");
            }
        },
        0x0042 => {
            push_one(&mut ret, 0x01, 0x04, "Monest");
            push_many(&mut ret, 30, 0x00, 0x03, "Mothmant");
        },
        0x0043 => {
            push_one(&mut ret, 0x02 + f, 0x07 + f, "Savage/Barbarous Wolf");
        },
        0x0044 => {
            push_one(&mut ret, 0x48 + m3, 0x09 + m3, "Booma");
        },
        0x0060 => {
            push_one(&mut ret, 0x4E, 0x0C, "Grass Assassin");
        },
        0x0061 => {
            if episode == 2 && alt_enemies {
                push_one(&mut ret, 0x25, 0x53, "Del Lily");
            } else {
                push_one(&mut ret, 0x04 + f, 0x0D + f, "Poison/Nar Lily");
            }
        },
        0x0062 => {
            push_one(&mut ret, 0x1A, 0x0F, "Nano Dragon");
        },
        0x0063 => {
            push_one(&mut ret, 0x4F + m3, 0x10 + m3, "Shark");
        },
        0x0064 => {
            push_one(&mut ret, 0x30 - f, 0x13 + f, "Slime");
            push_many(&mut ret, 4, 0x30, 0x13, "Slime");
        },
        0x0065 => {
            push_one(&mut ret, 0x31, 0x15, "Pan Arms");
            push_one(&mut ret, 0x32, 0x16, "Pan Arms");
            push_one(&mut ret, 0x33, 0x17, "Pan Arms");
        },
        0x0080 => {
            push_one(&mut ret, 0x1B + s1, 0x18 + s1, "Dubchic/Gilchic");
        },
        0x0081 => {
            push_one(&mut ret, 0x1D, 0x19, "Garanz");
        },
        0x0082 => {
            if f == 1 {
                push_many(&mut ret, me.num_clones as usize, 0x13, 0x1B, "Sinow Beat/Gold");
            } else {
                push_many(&mut ret, me.num_clones as usize, 0x06, 0x1A, "Sinow Beat/Gold");
            }
        },
        0x0083 => {
            push_one(&mut ret, 0x07, 0x1C, "Canadine (Solo)");
        },
        0x0084 => {
            push_one(&mut ret, 0x09, 0x1D, "Canadine Leader");
            push_many(&mut ret, 8, 0x08, 0x1C, "Canadine Squadmate");
        },
        0x0085 => {
            push_one(&mut ret, INVALID_ENTRY, INVALID_ENTRY, "Dubwitch");
        },
        0x00A0 => {
            push_one(&mut ret, 0x52, 0x1E, "Delsaber");
        },
        0x00A1 => {
            push_one(&mut ret, 0x0A, 0x1F, "Chaos Sorcerer");
            push_one(&mut ret, 0x0B, 0x00, "Bee L");
            push_one(&mut ret, 0x0C, 0x00, "Bee R");
        },
        0x00A2 => {
            push_one(&mut ret, 0x1E, 0x22, "Dark Gunner");
        },
        0x00A3 => {
            push_one(&mut ret, INVALID_ENTRY, INVALID_ENTRY, "Death Gunner (INVALID)");
        },
        0x00A4 => {
            push_one(&mut ret, 0x0D, 0x24, "Chaos Bringer");
        },
        0x00A5 => {
            push_one(&mut ret, 0x0E, 0x25, "Dark Belra");
        },
        0x00A6 => {
            push_one(&mut ret, 0x53 + m3, 0x29 + m3, "Dimenian");
        },
        0x00A7 => {
            push_one(&mut ret, 0x1F, 0x28, "Bulclaw");
            push_many(&mut ret, 4, 0x20, 0x26, "Claw (Bulclaw minion)");
        },
        0x00A8 => {
            push_one(&mut ret, 0x20, 0x26, "Claw");
        },
        0x00C0 => {
            if episode == 1 {
                push_one(&mut ret, 0x12, 0x2C, "Dragon");
            } else {
                push_one(&mut ret, 0x1E, 0x4D, "Gal Gryphon");
            }
        },
        0x00C1 => {
            push_one(&mut ret, 0x0F, 0x2D, "De Rol Le");
        },
        0x00C2 => {
            push_one(&mut ret, INVALID_ENTRY, INVALID_ENTRY, "Vol Opt Phase 1 (INVALID)");
        },
        0x00C5 => {
            push_one(&mut ret, 0x25, 0x2E, "Vol Opt Phase 2");
        },
        0x00C8 => {
            // Darvants, the spinning hazards before the fight, then the
            // three phases.
            push_many(&mut ret, 510, 0x35, 0x00, "Darvant (Falz Minion)");
            push_one(&mut ret, 0x38, 0x2F, "Dark Falz Phase 3");
            push_one(&mut ret, 0x37, 0x2F, "Dark Falz Phase 2");
            push_one(&mut ret, 0x36, 0x2F, "Dark Falz Phase 1");
        },
        0x00CA => {
            push_one(&mut ret, 0x2C, 0x4E, "Olga Flow");
            push_many(&mut ret, 512, INVALID_ENTRY, INVALID_ENTRY, "Olga Flow Extra (INVALID)");
        },
        0x00CB => {
            push_one(&mut ret, 0x0F, 0x49, "Barba Ray");
            push_many(&mut ret, 47, INVALID_ENTRY, INVALID_ENTRY, "Barba Ray Extra (INVALID)");
        },
        0x00CC => {
            push_one(&mut ret, 0x12, 0x4C, "Gol Dragon");
            push_many(&mut ret, 5, INVALID_ENTRY, INVALID_ENTRY, "Barba Ray Extra (INVALID)");
        },
        0x00D4 => {
            if me.skin > 0 {
                push_one(&mut ret, 0x13, 0x3F, "Sinow Spigell");
            } else {
                push_one(&mut ret, 0x06, 0x3E, "Sinow Berill");
            }
            push_many(&mut ret, 4, INVALID_ENTRY, INVALID_ENTRY, "Unused (INVALID)");
        },
        0x00D5 => {
            push_one(&mut ret, 0x4B + s1, 0x34 + s1, "Merillia/Meriltas");
        },
        0x00D6 => {
            if m3 == 2 {
                push_one(&mut ret, 0x44 + 2, 0x38 + 2, "Mericarol");
            } else if m3 == 1 {
                push_one(&mut ret, 0x44 + 1, 0x38 + 1, "Merikle");
            } else {
                push_one(&mut ret, 0x3A, 0x38, "Mericus");
            }
        },
        0x00D7 => {
            push_one(&mut ret, 0x3B + s1, 0x3B + s1, "Gibbon");
        },
        0x00D8 => {
            push_one(&mut ret, 0x3D, 0x3D, "Gibbles");
        },
        0x00D9 => {
            push_one(&mut ret, 0x07, 0x36, "Gee");
        },
        0x00DA => {
            push_one(&mut ret, 0x1A, 0x37, "Gi Gue");
        },
        0x00DB => {
            push_one(&mut ret, 0x30, 0x47, "Deldepth");
        },
        0x00DC => {
            push_one(&mut ret, 0x0D, 0x48, "Delbiter");
        },
        0x00DD => {
            push_one(&mut ret, 0x4F + s1, 0x40 + s1, "Dolmolm/Domldarl");
        },
        0x00DE => {
            push_one(&mut ret, 0x41, 0x42, "Morfos");
        },
        0x00DF => {
            push_one(&mut ret, 0x41, 0x43, "Recobox");
            push_many(&mut ret, me.num_clones as usize, 0x42, 0x44, "Recon (Recobox Minion)");
        },
        0x00E0 => {
            if episode == 2 && alt_enemies {
                push_one(&mut ret, 0x23, 0x54, "Zele");
                push_many(&mut ret, 4, INVALID_ENTRY, INVALID_ENTRY, "Empty");
            } else {
                push_one(&mut ret, 0x43 + s1, 0x45 + s1, "Epsilon/Sinow Zoa");
            }
        },
        0x00E1 => {
            push_one(&mut ret, 0x26, 0x52, "Ill Gill");
        },
        0x0110 => {
            push_one(&mut ret, 0x09, 0x01, "Astark");
        },
        0x0111 => {
            let bp: usize = if alt_enemies { 0x0D + f + 0x10 } else { 0x0D + f };
            push_one(&mut ret, bp, 0x02 + f, "Satellite Lizard/Yowie");
        },
        0x0112 => {
            push_one(&mut ret, 0x19 + s1, 0x04 + s1, "Merissa");
        },
        0x0113 => {
            push_one(&mut ret, 0x1F, 0x06, "Girtablulu");
        },
        0x0114 => {
            let bp: usize = if alt_enemies { 0x07 + s1 + 0x14 } else { 0x07 + s1 };
            push_one(&mut ret, bp, 0x07 + s1, "Zu/Pazuzu");
        },
        0x0115 => {
            let bp: usize = if me.skin & 0x02 > 0 { 0x03 } else { m3 };
            push_one(&mut ret, bp, 0x09 + m3, "Boota");
        },
        0x0116 => {
            push_one(&mut ret, 0x0F + s1, 0x0C + s1, "Dorphon/Eclair");
        },
        0x0117 => {
            let bp: usize = 0x11 + (me.skin & 0x03) as usize;
            let rt: usize = if me.skin & 0x02 > 0 {
                0x0F
            } else if me.skin & 0x01 > 0 {
                0x10
            } else {
                0x0E
            };
            push_one(&mut ret, bp, rt, "Goran");
        },
        0x0119 => {
            let rt: usize = if f == 1 { 0x15 } else { 0x13 + s1 };
            push_one(&mut ret, 0x22, rt, "Saint Milion/Shambertin/Kondrieu");
        },
        _ => {
            // The official map data has some entries of unknown kind at the
            // top of the enemy lists; they are not counted.
            push_one(&mut ret, INVALID_ENTRY, INVALID_ENTRY, "Unknown");
        },
    };
    assert(descs(ret@) =~= spec_convert_enemy(*me, episode, event, alt_enemies));
    ret
}

} // verus!
