//! Experience awards and level-ups.

use vstd::prelude::*;

verus! {

/// The highest level index a character can reach (level 200 in game).
pub const MAX_LEVEL: u32 = 199;

/// One level's entry of a class's level table: the experience total the
/// level needs and the stat increases it grants.
#[derive(Clone, Copy, Debug)]
pub struct LevelEntry {
    pub atp: u8,
    pub mst: u8,
    pub evp: u8,
    pub hp: u8,
    pub dfp: u8,
    pub ata: u8,
    pub exp: u32,
}

/// Level tables of every class: `levels[class][level]`, and each class's
/// starting stats.
#[derive(Clone, Debug)]
pub struct LevelTable {
    pub levels: Vec<Vec<LevelEntry>>,
    pub start_stats: Vec<Stats>,
}

/// A character's stats.
#[derive(Clone, Copy, Debug, PartialEq, Eq, Structural)]
pub struct Stats {
    pub atp: u16,
    pub mst: u16,
    pub evp: u16,
    pub hp: u16,
    pub dfp: u16,
    pub ata: u16,
    pub lck: u16,
}

/// What experience awards read and change of a character.
#[derive(Clone, Copy, Debug, PartialEq, Eq, Structural)]
pub struct CharProgress {
    pub class: u8,
    pub level: u32,
    pub exp: u32,
    pub stats: Stats,
}

/// The result of an award: the experience given and, when the character
/// leveled up, the new stats and level.
#[derive(Clone, Copy, Debug, PartialEq, Eq, Structural)]
pub struct ExpAward {
    pub exp: u32,
    pub leveled_up: bool,
    pub stats: Stats,
    pub level: u32,
}

/// All-zero stats.
pub open spec fn zero_stats() -> Stats {
    Stats { atp: 0, mst: 0, evp: 0, hp: 0, dfp: 0, ata: 0, lck: 0 }
}

/// The stat increases of a level fit into the stats.
pub open spec fn stats_fit(s: Stats, e: LevelEntry) -> bool {
    &&& s.atp + e.atp <= u16::MAX
    &&& s.mst + e.mst <= u16::MAX
    &&& s.evp + e.evp <= u16::MAX
    &&& s.hp + e.hp <= u16::MAX
    &&& s.dfp + e.dfp <= u16::MAX
    &&& s.ata + e.ata <= u16::MAX
}

/// The stats after a level's increases.
pub open spec fn add_level(s: Stats, e: LevelEntry) -> Stats {
    Stats {
        atp: (s.atp + e.atp) as u16,
        mst: (s.mst + e.mst) as u16,
        evp: (s.evp + e.evp) as u16,
        hp: (s.hp + e.hp) as u16,
        dfp: (s.dfp + e.dfp) as u16,
        ata: (s.ata + e.ata) as u16,
        lck: s.lck,
    }
}

/// Leveling up from `level` with the experience total `total` reads only
/// entries of `row` that exist and overflows no stat.
pub open spec fn award_ok(row: Seq<LevelEntry>, level: int, total: int, s: Stats) -> bool
    decreases 199 - level,
{
    if level >= 199 {
        true
    } else if level + 1 >= row.len() {
        false
    } else if total >= row[level + 1].exp {
        stats_fit(s, row[level + 1]) && award_ok(row, level + 1, total, add_level(s, row[level + 1]))
    } else {
        true
    }
}

/// The level and stats reached from `level` and `s` with the experience
/// total `total`: every next level whose requirement the total meets is
/// gained, up to the highest level.
pub open spec fn award_result(row: Seq<LevelEntry>, level: int, total: int, s: Stats) -> (int, Stats)
    decreases 199 - level,
{
    if level >= 199 {
        (level, s)
    } else if level + 1 < row.len() && total >= row[level + 1].exp {
        award_result(row, level + 1, total, add_level(s, row[level + 1]))
    } else {
        (level, s)
    }
}

/// An award of `exp` to `c` can be made without a missing table entry or
/// an overflow.
pub open spec fn award_defined(c: CharProgress, table: Seq<Seq<LevelEntry>>, exp: u32) -> bool {
    c.level < 199 ==> {
        &&& c.class < table.len()
        &&& award_ok(table[c.class as int], c.level as int, c.exp + exp, c.stats)
        &&& c.exp + exp <= u32::MAX
    }
}

/// The level tables as nested sequences.
pub open spec fn table_view(t: LevelTable) -> Seq<Seq<LevelEntry>> {
    t.levels@.map_values(|r: Vec<LevelEntry>| r@)
}

/// `after` is `before` once awarded `exp` experience with `table`, and
/// `r` is the award to announce: a character at the highest level gains
/// nothing and nothing is announced.
pub open spec fn awarded(
    before: CharProgress,
    after: CharProgress,
    table: Seq<Seq<LevelEntry>>,
    exp: u32,
    r: Option<ExpAward>,
) -> bool {
    &&& before.level >= 199 ==> r is None && after == before
    &&& before.level < 199 ==> {
        let row = table[before.class as int];
        let (lvl, st) = award_result(row, before.level as int, before.exp + exp, before.stats);
        &&& after.exp == before.exp + exp
        &&& after.level == lvl
        &&& after.stats == st
        &&& after.class == before.class
        &&& r == Some(
            ExpAward {
                exp,
                leveled_up: lvl > before.level,
                stats: if lvl > before.level {
                    st
                } else {
                    zero_stats()
                },
                level: lvl as u32,
            },
        )
    }
}

/// The experience a hit on an enemy with `bp_exp` experience earns.
pub open spec fn hit_exp(bp_exp: u32, last_hitter: u8) -> u32 {
    if last_hitter == 1 {
        bp_exp
    } else {
        (bp_exp * 80 / 100) as u32
    }
}

/// Awards `exp` experience to the character. A character at the highest
/// level gains nothing and nothing is announced (`None`). Otherwise the
/// experience is added, every level whose requirement the new total meets
/// is gained with its stat increases, and the award is returned for the
/// party to announce.
pub fn award_exp(chara: &mut CharProgress, table: &LevelTable, exp: u32) -> (r: Option<ExpAward>)
    requires
        award_defined(*old(chara), table_view(*table), exp),
    ensures
        awarded(*old(chara), *final(chara), table_view(*table), exp, r),
{
    if chara.level >= MAX_LEVEL {
        return None;
    }
    let ghost row = table_view(*table)[chara.class as int];
    let row_v = &table.levels[chara.class as usize];
    assert(row_v@ == row);
    let total: u64 = chara.exp as u64 + exp as u64;
    let mut current_level: u32 = chara.level;
    let mut leveled_up = false;
    let mut stats = Stats { atp: 0, mst: 0, evp: 0, hp: 0, dfp: 0, ata: 0, lck: 0 };
    let ghost start_level = chara.level as int;
    let ghost start_stats = chara.stats;
    loop
        invariant_except_break
            start_level <= current_level <= 199,
            award_ok(row, current_level as int, total as int, chara.stats),
            award_result(row, current_level as int, total as int, chara.stats)
                == award_result(row, start_level, total as int, start_stats),
            leveled_up == (current_level > start_level),
            leveled_up ==> stats == chara.stats,
            !leveled_up ==> stats == zero_stats(),
            chara.exp == old(chara).exp,
            chara.class == old(chara).class,
            row_v@ == row,
        ensures
            award_result(row, current_level as int, total as int, chara.stats)
                == (current_level as int, chara.stats),
            award_result(row, current_level as int, total as int, chara.stats)
                == award_result(row, start_level, total as int, start_stats),
            leveled_up == (current_level > start_level),
            leveled_up ==> stats == chara.stats,
            !leveled_up ==> stats == zero_stats(),
            chara.exp == old(chara).exp,
            chara.class == old(chara).class,
            start_level <= current_level <= 199,
        decreases 199 - current_level,
    {
        if current_level >= MAX_LEVEL {
            break;
        }
        let lte = row_v[(current_level + 1) as usize];
        if total >= lte.exp as u64 {
            leveled_up = true;
            chara.stats.atp = chara.stats.atp + lte.atp as u16;
            chara.stats.mst = chara.stats.mst + lte.mst as u16;
            chara.stats.evp = chara.stats.evp + lte.evp as u16;
            chara.stats.hp = chara.stats.hp + lte.hp as u16;
            chara.stats.dfp = chara.stats.dfp + lte.dfp as u16;
            chara.stats.ata = chara.stats.ata + lte.ata as u16;
            current_level = current_level + 1;
            stats = chara.stats;
        } else {
            break;
        }
    }
    chara.exp = chara.exp + exp;
    chara.level = current_level;
    Some(ExpAward { exp, leveled_up, stats, level: current_level })
}

/// The experience a hit on an enemy earns: the enemy's full experience for
/// the last hit, 80 percent (rounded down) for an assist.
pub fn exp_for_hit(bp_exp: u32, last_hitter: u8) -> (r: u32)
    requires
        last_hitter != 1 ==> bp_exp * 80 <= u32::MAX,
    ensures
        r == hit_exp(bp_exp, last_hitter),
{
    if last_hitter == 1 {
        bp_exp
    } else {
        bp_exp * 80 / 100
    }
}

/// An award never lowers the level and never passes the highest level.
pub proof fn law_award_level_bounds(row: Seq<LevelEntry>, level: int, total: int, s: Stats)
    requires
        level <= 199,
    ensures
        level <= award_result(row, level, total, s).0 <= 199,
    decreases 199 - level,
{
    if level < 199 && level + 1 < row.len() && total >= row[level + 1].exp {
        law_award_level_bounds(row, level + 1, total, add_level(s, row[level + 1]));
    }
}

/// More experience never reaches a lower level.
pub proof fn law_award_monotonic(row: Seq<LevelEntry>, level: int, t1: int, t2: int, s: Stats)
    requires
        t1 <= t2,
    ensures
        award_result(row, level, t1, s).0 <= award_result(row, level, t2, s).0,
    decreases 199 - level,
{
    if level < 199 && level + 1 < row.len() {
        if t1 >= row[level + 1].exp {
            law_award_monotonic(row, level + 1, t1, t2, add_level(s, row[level + 1]));
        } else if t2 >= row[level + 1].exp {
            law_award_level_bounds(row, level + 1, t2, add_level(s, row[level + 1]));
        }
    }
}

} // verus!
