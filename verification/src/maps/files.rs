//! Which map files hold each area's variations, in the order the server
//! loads them, and how the loaded variations make up an episode's areas.

use vstd::prelude::*;

use super::{KeyedVariation, VariationData, keys_distinct};
use super::ep1::Ep1Areas;
use super::ep2::Ep2Areas;
use super::ep4::Ep4Areas;

verus! {

/// A pair of map files: the area whose variation they hold (its index in
/// the episode's order of areas), the layout numbers the variation is kept
/// under (for an area with one layout number, its position and 0), and the
/// names of the enemy and object files.
#[derive(Clone, Copy, Debug)]
pub struct MapFile {
    pub area: u8,
    pub major: u32,
    pub minor: u32,
    pub enemies: &'static str,
    pub objects: &'static str,
}

/// The keyed variations made of the variations `ds`, each under the layout
/// numbers of the file pair it was loaded from.
pub open spec fn keyed_from(fs: Seq<MapFile>, ds: Seq<VariationData>) -> Seq<KeyedVariation> {
    Seq::new(ds.len(), |i: int| KeyedVariation { major: fs[i].major, minor: fs[i].minor, data: ds[i] })
}

/// Takes the first variation of `src`.
fn take_one(src: &mut Vec<VariationData>) -> (r: VariationData)
    requires
        old(src)@.len() > 0,
    ensures
        r == old(src)@[0],
        final(src)@ == old(src)@.subrange(1, old(src)@.len() as int),
{
    src.remove(0)
}

/// Takes the first `n` variations of `src`, in order.
fn take_front(src: &mut Vec<VariationData>, n: usize) -> (r: Vec<VariationData>)
    requires
        n <= old(src)@.len(),
    ensures
        r@ == old(src)@.subrange(0, n as int),
        final(src)@ == old(src)@.subrange(n as int, old(src)@.len() as int),
{
    let ghost start = src@;
    let mut r: Vec<VariationData> = Vec::new();
    let mut i: usize = 0;
    while i < n
        invariant
            i <= n,
            n <= start.len(),
            r@ == start.subrange(0, i as int),
            src@ == start.subrange(i as int, start.len() as int),
        decreases n - i,
    {
        let d = src.remove(0);
        r.push(d);
        proof {
            assert(r@ =~= start.subrange(0, i + 1));
            assert(src@ =~= start.subrange(i + 1, start.len() as int));
        }
        i = i + 1;
    }
    r
}

/// The variations `data`, each keyed by the layout numbers of the file pair
/// at the same place in `files` from `start` on.
fn keyed(files: &Vec<MapFile>, start: usize, data: Vec<VariationData>) -> (r: Vec<KeyedVariation>)
    requires
        start + data@.len() <= files@.len(),
    ensures
        r@ == keyed_from(files@.subrange(start as int, start + data@.len()), data@),
{
    let ghost all = data@;
    let n = data.len();
    let mut data = data;
    let mut r: Vec<KeyedVariation> = Vec::new();
    let mut i: usize = 0;
    while i < n
        invariant
            i <= n,
            n == all.len(),
            start + n <= files.len(),
            data@ == all.subrange(i as int, n as int),
            r@ == keyed_from(files@.subrange(start as int, start + i), all.subrange(0, i as int)),
        decreases n - i,
    {
        let d = data.remove(0);
        let f = files[start + i];
        r.push(KeyedVariation { major: f.major, minor: f.minor, data: d });
        proof {
            assert(r@ =~= keyed_from(files@.subrange(start as int, start + i + 1), all.subrange(0, i + 1)));
            assert(data@ =~= all.subrange(i + 1, n as int));
        }
        i = i + 1;
    }
    proof {
        assert(all.subrange(0, n as int) =~= all);
    }
    r
}

/// The map file pairs of Episode 1, area by area, in the order the server
/// loads them.
pub open spec fn ep1_map_table() -> Seq<MapFile> {
    seq![
        MapFile { area: 0, major: 0, minor: 0, enemies: "map_city00_00e.dat", objects: "map_city00_00o.dat" },
        MapFile { area: 1, major: 0, minor: 0, enemies: "map_forest01_00e.dat", objects: "map_forest01_00o.dat" },
        MapFile { area: 1, major: 1, minor: 0, enemies: "map_forest01_01e.dat", objects: "map_forest01_01o.dat" },
        MapFile { area: 1, major: 2, minor: 0, enemies: "map_forest01_02e.dat", objects: "map_forest01_02o.dat" },
        MapFile { area: 1, major: 3, minor: 0, enemies: "map_forest01_03e.dat", objects: "map_forest01_03o.dat" },
        MapFile { area: 1, major: 4, minor: 0, enemies: "map_forest01_04e.dat", objects: "map_forest01_04o.dat" },
        MapFile { area: 2, major: 0, minor: 0, enemies: "map_forest02_00e.dat", objects: "map_forest02_00o.dat" },
        MapFile { area: 2, major: 1, minor: 0, enemies: "map_forest02_01e.dat", objects: "map_forest02_01o.dat" },
        MapFile { area: 2, major: 2, minor: 0, enemies: "map_forest02_02e.dat", objects: "map_forest02_02o.dat" },
        MapFile { area: 2, major: 3, minor: 0, enemies: "map_forest02_03e.dat", objects: "map_forest02_03o.dat" },
        MapFile { area: 2, major: 4, minor: 0, enemies: "map_forest02_04e.dat", objects: "map_forest02_04o.dat" },
        MapFile { area: 3, major: 0, minor: 0, enemies: "map_cave01_00_00e.dat", objects: "map_cave01_00_00o.dat" },
        MapFile { area: 3, major: 0, minor: 1, enemies: "map_cave01_00_01e.dat", objects: "map_cave01_00_01o.dat" },
        MapFile { area: 3, major: 1, minor: 0, enemies: "map_cave01_01_00e.dat", objects: "map_cave01_01_00o.dat" },
        MapFile { area: 3, major: 1, minor: 1, enemies: "map_cave01_01_01e.dat", objects: "map_cave01_01_01o.dat" },
        MapFile { area: 3, major: 2, minor: 0, enemies: "map_cave01_02_00e.dat", objects: "map_cave01_02_00o.dat" },
        MapFile { area: 3, major: 2, minor: 1, enemies: "map_cave01_02_01e.dat", objects: "map_cave01_02_01o.dat" },
        MapFile { area: 4, major: 0, minor: 0, enemies: "map_cave02_00_00e.dat", objects: "map_cave02_00_00o.dat" },
        MapFile { area: 4, major: 0, minor: 1, enemies: "map_cave02_00_01e.dat", objects: "map_cave02_00_01o.dat" },
        MapFile { area: 4, major: 1, minor: 0, enemies: "map_cave02_01_00e.dat", objects: "map_cave02_01_00o.dat" },
        MapFile { area: 4, major: 1, minor: 1, enemies: "map_cave02_01_01e.dat", objects: "map_cave02_01_01o.dat" },
        MapFile { area: 4, major: 2, minor: 0, enemies: "map_cave02_02_00e.dat", objects: "map_cave02_02_00o.dat" },
        MapFile { area: 4, major: 2, minor: 1, enemies: "map_cave02_02_01e.dat", objects: "map_cave02_02_01o.dat" },
        MapFile { area: 5, major: 0, minor: 0, enemies: "map_cave03_00_00e.dat", objects: "map_cave03_00_00o.dat" },
        MapFile { area: 5, major: 0, minor: 1, enemies: "map_cave03_00_01e.dat", objects: "map_cave03_00_01o.dat" },
        MapFile { area: 5, major: 1, minor: 0, enemies: "map_cave03_01_00e.dat", objects: "map_cave03_01_00o.dat" },
        MapFile { area: 5, major: 1, minor: 1, enemies: "map_cave03_01_01e.dat", objects: "map_cave03_01_01o.dat" },
        MapFile { area: 5, major: 2, minor: 0, enemies: "map_cave03_02_00e.dat", objects: "map_cave03_02_00o.dat" },
        MapFile { area: 5, major: 2, minor: 1, enemies: "map_cave03_02_01e.dat", objects: "map_cave03_02_01o.dat" },
        MapFile { area: 6, major: 0, minor: 0, enemies: "map_machine01_00_00e.dat", objects: "map_machine01_00_00o.dat" },
        MapFile { area: 6, major: 0, minor: 1, enemies: "map_machine01_00_01e.dat", objects: "map_machine01_00_01o.dat" },
        MapFile { area: 6, major: 1, minor: 0, enemies: "map_machine01_01_00e.dat", objects: "map_machine01_01_00o.dat" },
        MapFile { area: 6, major: 1, minor: 1, enemies: "map_machine01_01_01e.dat", objects: "map_machine01_01_01o.dat" },
        MapFile { area: 6, major: 2, minor: 0, enemies: "map_machine01_02_00e.dat", objects: "map_machine01_02_00o.dat" },
        MapFile { area: 6, major: 2, minor: 1, enemies: "map_machine01_02_01e.dat", objects: "map_machine01_02_01o.dat" },
        MapFile { area: 7, major: 0, minor: 0, enemies: "map_machine02_00_00e.dat", objects: "map_machine02_00_00o.dat" },
        MapFile { area: 7, major: 0, minor: 1, enemies: "map_machine02_00_01e.dat", objects: "map_machine02_00_01o.dat" },
        MapFile { area: 7, major: 1, minor: 0, enemies: "map_machine02_01_00e.dat", objects: "map_machine02_01_00o.dat" },
        MapFile { area: 7, major: 1, minor: 1, enemies: "map_machine02_01_01e.dat", objects: "map_machine02_01_01o.dat" },
        MapFile { area: 7, major: 2, minor: 0, enemies: "map_machine02_02_00e.dat", objects: "map_machine02_02_00o.dat" },
        MapFile { area: 7, major: 2, minor: 1, enemies: "map_machine02_02_01e.dat", objects: "map_machine02_02_01o.dat" },
        MapFile { area: 8, major: 0, minor: 0, enemies: "map_ancient01_00_00e.dat", objects: "map_ancient01_00_00o.dat" },
        MapFile { area: 8, major: 0, minor: 1, enemies: "map_ancient01_00_01e.dat", objects: "map_ancient01_00_01o.dat" },
        MapFile { area: 8, major: 1, minor: 0, enemies: "map_ancient01_01_00e.dat", objects: "map_ancient01_01_00o.dat" },
        MapFile { area: 8, major: 1, minor: 1, enemies: "map_ancient01_01_01e.dat", objects: "map_ancient01_01_01o.dat" },
        MapFile { area: 8, major: 2, minor: 0, enemies: "map_ancient01_02_00e.dat", objects: "map_ancient01_02_00o.dat" },
        MapFile { area: 8, major: 2, minor: 1, enemies: "map_ancient01_02_01e.dat", objects: "map_ancient01_02_01o.dat" },
        MapFile { area: 9, major: 0, minor: 0, enemies: "map_ancient02_00_00e.dat", objects: "map_ancient02_00_00o.dat" },
        MapFile { area: 9, major: 0, minor: 1, enemies: "map_ancient02_00_01e.dat", objects: "map_ancient02_00_01o.dat" },
        MapFile { area: 9, major: 1, minor: 0, enemies: "map_ancient02_01_00e.dat", objects: "map_ancient02_01_00o.dat" },
        MapFile { area: 9, major: 1, minor: 1, enemies: "map_ancient02_01_01e.dat", objects: "map_ancient02_01_01o.dat" },
        MapFile { area: 9, major: 2, minor: 0, enemies: "map_ancient02_02_00e.dat", objects: "map_ancient02_02_00o.dat" },
        MapFile { area: 9, major: 2, minor: 1, enemies: "map_ancient02_02_01e.dat", objects: "map_ancient02_02_01o.dat" },
        MapFile { area: 10, major: 0, minor: 0, enemies: "map_ancient03_00_00e.dat", objects: "map_ancient03_00_00o.dat" },
        MapFile { area: 10, major: 0, minor: 1, enemies: "map_ancient03_00_01e.dat", objects: "map_ancient03_00_01o.dat" },
        MapFile { area: 10, major: 1, minor: 0, enemies: "map_ancient03_01_00e.dat", objects: "map_ancient03_01_00o.dat" },
        MapFile { area: 10, major: 1, minor: 1, enemies: "map_ancient03_01_01e.dat", objects: "map_ancient03_01_01o.dat" },
        MapFile { area: 10, major: 2, minor: 0, enemies: "map_ancient03_02_00e.dat", objects: "map_ancient03_02_00o.dat" },
        MapFile { area: 10, major: 2, minor: 1, enemies: "map_ancient03_02_01e.dat", objects: "map_ancient03_02_01o.dat" },
        MapFile { area: 11, major: 0, minor: 0, enemies: "map_boss01e.dat", objects: "map_boss01e.dat" },
        MapFile { area: 12, major: 0, minor: 0, enemies: "map_boss02e.dat", objects: "map_boss02e.dat" },
        MapFile { area: 13, major: 0, minor: 0, enemies: "map_boss03e.dat", objects: "map_boss03e.dat" },
        MapFile { area: 14, major: 0, minor: 0, enemies: "map_boss04e.dat", objects: "map_boss04e.dat" },
    ]
}

/// The map file pairs of Episode 1, area by area, in the order the server
/// loads them.
pub fn ep1_map_files() -> (r: Vec<MapFile>)
    ensures
        r@ == ep1_map_table(),
{
    let mut r: Vec<MapFile> = Vec::new();
    r.push(MapFile { area: 0, major: 0, minor: 0, enemies: "map_city00_00e.dat", objects: "map_city00_00o.dat" });
    r.push(MapFile { area: 1, major: 0, minor: 0, enemies: "map_forest01_00e.dat", objects: "map_forest01_00o.dat" });
    r.push(MapFile { area: 1, major: 1, minor: 0, enemies: "map_forest01_01e.dat", objects: "map_forest01_01o.dat" });
    r.push(MapFile { area: 1, major: 2, minor: 0, enemies: "map_forest01_02e.dat", objects: "map_forest01_02o.dat" });
    r.push(MapFile { area: 1, major: 3, minor: 0, enemies: "map_forest01_03e.dat", objects: "map_forest01_03o.dat" });
    r.push(MapFile { area: 1, major: 4, minor: 0, enemies: "map_forest01_04e.dat", objects: "map_forest01_04o.dat" });
    r.push(MapFile { area: 2, major: 0, minor: 0, enemies: "map_forest02_00e.dat", objects: "map_forest02_00o.dat" });
    r.push(MapFile { area: 2, major: 1, minor: 0, enemies: "map_forest02_01e.dat", objects: "map_forest02_01o.dat" });
    r.push(MapFile { area: 2, major: 2, minor: 0, enemies: "map_forest02_02e.dat", objects: "map_forest02_02o.dat" });
    r.push(MapFile { area: 2, major: 3, minor: 0, enemies: "map_forest02_03e.dat", objects: "map_forest02_03o.dat" });
    r.push(MapFile { area: 2, major: 4, minor: 0, enemies: "map_forest02_04e.dat", objects: "map_forest02_04o.dat" });
    r.push(MapFile { area: 3, major: 0, minor: 0, enemies: "map_cave01_00_00e.dat", objects: "map_cave01_00_00o.dat" });
    r.push(MapFile { area: 3, major: 0, minor: 1, enemies: "map_cave01_00_01e.dat", objects: "map_cave01_00_01o.dat" });
    r.push(MapFile { area: 3, major: 1, minor: 0, enemies: "map_cave01_01_00e.dat", objects: "map_cave01_01_00o.dat" });
    r.push(MapFile { area: 3, major: 1, minor: 1, enemies: "map_cave01_01_01e.dat", objects: "map_cave01_01_01o.dat" });
    r.push(MapFile { area: 3, major: 2, minor: 0, enemies: "map_cave01_02_00e.dat", objects: "map_cave01_02_00o.dat" });
    r.push(MapFile { area: 3, major: 2, minor: 1, enemies: "map_cave01_02_01e.dat", objects: "map_cave01_02_01o.dat" });
    r.push(MapFile { area: 4, major: 0, minor: 0, enemies: "map_cave02_00_00e.dat", objects: "map_cave02_00_00o.dat" });
    r.push(MapFile { area: 4, major: 0, minor: 1, enemies: "map_cave02_00_01e.dat", objects: "map_cave02_00_01o.dat" });
    r.push(MapFile { area: 4, major: 1, minor: 0, enemies: "map_cave02_01_00e.dat", objects: "map_cave02_01_00o.dat" });
    r.push(MapFile { area: 4, major: 1, minor: 1, enemies: "map_cave02_01_01e.dat", objects: "map_cave02_01_01o.dat" });
    r.push(MapFile { area: 4, major: 2, minor: 0, enemies: "map_cave02_02_00e.dat", objects: "map_cave02_02_00o.dat" });
    r.push(MapFile { area: 4, major: 2, minor: 1, enemies: "map_cave02_02_01e.dat", objects: "map_cave02_02_01o.dat" });
    r.push(MapFile { area: 5, major: 0, minor: 0, enemies: "map_cave03_00_00e.dat", objects: "map_cave03_00_00o.dat" });
    r.push(MapFile { area: 5, major: 0, minor: 1, enemies: "map_cave03_00_01e.dat", objects: "map_cave03_00_01o.dat" });
    r.push(MapFile { area: 5, major: 1, minor: 0, enemies: "map_cave03_01_00e.dat", objects: "map_cave03_01_00o.dat" });
    r.push(MapFile { area: 5, major: 1, minor: 1, enemies: "map_cave03_01_01e.dat", objects: "map_cave03_01_01o.dat" });
    r.push(MapFile { area: 5, major: 2, minor: 0, enemies: "map_cave03_02_00e.dat", objects: "map_cave03_02_00o.dat" });
    r.push(MapFile { area: 5, major: 2, minor: 1, enemies: "map_cave03_02_01e.dat", objects: "map_cave03_02_01o.dat" });
    r.push(MapFile { area: 6, major: 0, minor: 0, enemies: "map_machine01_00_00e.dat", objects: "map_machine01_00_00o.dat" });
    r.push(MapFile { area: 6, major: 0, minor: 1, enemies: "map_machine01_00_01e.dat", objects: "map_machine01_00_01o.dat" });
    r.push(MapFile { area: 6, major: 1, minor: 0, enemies: "map_machine01_01_00e.dat", objects: "map_machine01_01_00o.dat" });
    r.push(MapFile { area: 6, major: 1, minor: 1, enemies: "map_machine01_01_01e.dat", objects: "map_machine01_01_01o.dat" });
    r.push(MapFile { area: 6, major: 2, minor: 0, enemies: "map_machine01_02_00e.dat", objects: "map_machine01_02_00o.dat" });
    r.push(MapFile { area: 6, major: 2, minor: 1, enemies: "map_machine01_02_01e.dat", objects: "map_machine01_02_01o.dat" });
    r.push(MapFile { area: 7, major: 0, minor: 0, enemies: "map_machine02_00_00e.dat", objects: "map_machine02_00_00o.dat" });
    r.push(MapFile { area: 7, major: 0, minor: 1, enemies: "map_machine02_00_01e.dat", objects: "map_machine02_00_01o.dat" });
    r.push(MapFile { area: 7, major: 1, minor: 0, enemies: "map_machine02_01_00e.dat", objects: "map_machine02_01_00o.dat" });
    r.push(MapFile { area: 7, major: 1, minor: 1, enemies: "map_machine02_01_01e.dat", objects: "map_machine02_01_01o.dat" });
    r.push(MapFile { area: 7, major: 2, minor: 0, enemies: "map_machine02_02_00e.dat", objects: "map_machine02_02_00o.dat" });
    r.push(MapFile { area: 7, major: 2, minor: 1, enemies: "map_machine02_02_01e.dat", objects: "map_machine02_02_01o.dat" });
    r.push(MapFile { area: 8, major: 0, minor: 0, enemies: "map_ancient01_00_00e.dat", objects: "map_ancient01_00_00o.dat" });
    r.push(MapFile { area: 8, major: 0, minor: 1, enemies: "map_ancient01_00_01e.dat", objects: "map_ancient01_00_01o.dat" });
    r.push(MapFile { area: 8, major: 1, minor: 0, enemies: "map_ancient01_01_00e.dat", objects: "map_ancient01_01_00o.dat" });
    r.push(MapFile { area: 8, major: 1, minor: 1, enemies: "map_ancient01_01_01e.dat", objects: "map_ancient01_01_01o.dat" });
    r.push(MapFile { area: 8, major: 2, minor: 0, enemies: "map_ancient01_02_00e.dat", objects: "map_ancient01_02_00o.dat" });
    r.push(MapFile { area: 8, major: 2, minor: 1, enemies: "map_ancient01_02_01e.dat", objects: "map_ancient01_02_01o.dat" });
    r.push(MapFile { area: 9, major: 0, minor: 0, enemies: "map_ancient02_00_00e.dat", objects: "map_ancient02_00_00o.dat" });
    r.push(MapFile { area: 9, major: 0, minor: 1, enemies: "map_ancient02_00_01e.dat", objects: "map_ancient02_00_01o.dat" });
    r.push(MapFile { area: 9, major: 1, minor: 0, enemies: "map_ancient02_01_00e.dat", objects: "map_ancient02_01_00o.dat" });
    r.push(MapFile { area: 9, major: 1, minor: 1, enemies: "map_ancient02_01_01e.dat", objects: "map_ancient02_01_01o.dat" });
    r.push(MapFile { area: 9, major: 2, minor: 0, enemies: "map_ancient02_02_00e.dat", objects: "map_ancient02_02_00o.dat" });
    r.push(MapFile { area: 9, major: 2, minor: 1, enemies: "map_ancient02_02_01e.dat", objects: "map_ancient02_02_01o.dat" });
    r.push(MapFile { area: 10, major: 0, minor: 0, enemies: "map_ancient03_00_00e.dat", objects: "map_ancient03_00_00o.dat" });
    r.push(MapFile { area: 10, major: 0, minor: 1, enemies: "map_ancient03_00_01e.dat", objects: "map_ancient03_00_01o.dat" });
    r.push(MapFile { area: 10, major: 1, minor: 0, enemies: "map_ancient03_01_00e.dat", objects: "map_ancient03_01_00o.dat" });
    r.push(MapFile { area: 10, major: 1, minor: 1, enemies: "map_ancient03_01_01e.dat", objects: "map_ancient03_01_01o.dat" });
    r.push(MapFile { area: 10, major: 2, minor: 0, enemies: "map_ancient03_02_00e.dat", objects: "map_ancient03_02_00o.dat" });
    r.push(MapFile { area: 10, major: 2, minor: 1, enemies: "map_ancient03_02_01e.dat", objects: "map_ancient03_02_01o.dat" });
    r.push(MapFile { area: 11, major: 0, minor: 0, enemies: "map_boss01e.dat", objects: "map_boss01e.dat" });
    r.push(MapFile { area: 12, major: 0, minor: 0, enemies: "map_boss02e.dat", objects: "map_boss02e.dat" });
    r.push(MapFile { area: 13, major: 0, minor: 0, enemies: "map_boss03e.dat", objects: "map_boss03e.dat" });
    r.push(MapFile { area: 14, major: 0, minor: 0, enemies: "map_boss04e.dat", objects: "map_boss04e.dat" });
    r
}

/// `a` is made of the variations `d`, loaded from the file pairs of
/// [`ep1_map_table`] in order.
pub open spec fn ep1_assembled(a: Ep1Areas, d: Seq<VariationData>) -> bool {
    &&& a.city == d[0]
    &&& a.forest1@ == d.subrange(1, 6)
    &&& a.forest2@ == d.subrange(6, 11)
    &&& a.cave1@ == keyed_from(ep1_map_table().subrange(11, 17), d.subrange(11, 17))
    &&& a.cave2@ == keyed_from(ep1_map_table().subrange(17, 23), d.subrange(17, 23))
    &&& a.cave3@ == keyed_from(ep1_map_table().subrange(23, 29), d.subrange(23, 29))
    &&& a.machine1@ == keyed_from(ep1_map_table().subrange(29, 35), d.subrange(29, 35))
    &&& a.machine2@ == keyed_from(ep1_map_table().subrange(35, 41), d.subrange(35, 41))
    &&& a.ancient1@ == keyed_from(ep1_map_table().subrange(41, 47), d.subrange(41, 47))
    &&& a.ancient2@ == keyed_from(ep1_map_table().subrange(47, 53), d.subrange(47, 53))
    &&& a.ancient3@ == keyed_from(ep1_map_table().subrange(53, 59), d.subrange(53, 59))
    &&& a.boss1 == d[59]
    &&& a.boss2 == d[60]
    &&& a.boss3 == d[61]
    &&& a.boss4 == d[62]
}

/// The areas of Episode 1 made of the variations `loaded`, loaded from the
/// file pairs of [`ep1_map_files`] in order.
#[verifier::rlimit(40)]
pub fn ep1_areas_from(loaded: Vec<VariationData>) -> (r: Ep1Areas)
    requires
        loaded@.len() == 63,
    ensures
        ep1_assembled(r, loaded@),
        keys_distinct(r.cave1@),
        keys_distinct(r.cave2@),
        keys_distinct(r.cave3@),
        keys_distinct(r.machine1@),
        keys_distinct(r.machine2@),
        keys_distinct(r.ancient1@),
        keys_distinct(r.ancient2@),
        keys_distinct(r.ancient3@),
{
    let ghost d = loaded@;
    let files = ep1_map_files();
    let mut src = loaded;
    let city = take_one(&mut src);
    assert(src@ =~= d.subrange(1, 63));
    let forest1 = take_front(&mut src, 5);
    assert(forest1@ =~= d.subrange(1, 6));
    assert(src@ =~= d.subrange(6, 63));
    let forest2 = take_front(&mut src, 5);
    assert(forest2@ =~= d.subrange(6, 11));
    assert(src@ =~= d.subrange(11, 63));
    let cave1_data = take_front(&mut src, 6);
    assert(cave1_data@ =~= d.subrange(11, 17));
    let cave1 = keyed(&files, 11, cave1_data);
    assert(src@ =~= d.subrange(17, 63));
    let cave2_data = take_front(&mut src, 6);
    assert(cave2_data@ =~= d.subrange(17, 23));
    let cave2 = keyed(&files, 17, cave2_data);
    assert(src@ =~= d.subrange(23, 63));
    let cave3_data = take_front(&mut src, 6);
    assert(cave3_data@ =~= d.subrange(23, 29));
    let cave3 = keyed(&files, 23, cave3_data);
    assert(src@ =~= d.subrange(29, 63));
    let machine1_data = take_front(&mut src, 6);
    assert(machine1_data@ =~= d.subrange(29, 35));
    let machine1 = keyed(&files, 29, machine1_data);
    assert(src@ =~= d.subrange(35, 63));
    let machine2_data = take_front(&mut src, 6);
    assert(machine2_data@ =~= d.subrange(35, 41));
    let machine2 = keyed(&files, 35, machine2_data);
    assert(src@ =~= d.subrange(41, 63));
    let ancient1_data = take_front(&mut src, 6);
    assert(ancient1_data@ =~= d.subrange(41, 47));
    let ancient1 = keyed(&files, 41, ancient1_data);
    assert(src@ =~= d.subrange(47, 63));
    let ancient2_data = take_front(&mut src, 6);
    assert(ancient2_data@ =~= d.subrange(47, 53));
    let ancient2 = keyed(&files, 47, ancient2_data);
    assert(src@ =~= d.subrange(53, 63));
    let ancient3_data = take_front(&mut src, 6);
    assert(ancient3_data@ =~= d.subrange(53, 59));
    let ancient3 = keyed(&files, 53, ancient3_data);
    assert(src@ =~= d.subrange(59, 63));
    let boss1 = take_one(&mut src);
    assert(src@ =~= d.subrange(60, 63));
    let boss2 = take_one(&mut src);
    assert(src@ =~= d.subrange(61, 63));
    let boss3 = take_one(&mut src);
    assert(src@ =~= d.subrange(62, 63));
    let boss4 = take_one(&mut src);
    assert(src@ =~= d.subrange(63, 63));
    Ep1Areas { city, forest1, forest2, cave1, cave2, cave3, machine1, machine2, ancient1, ancient2, ancient3, boss1, boss2, boss3, boss4 }
}

/// The map file pairs of Episode 2, area by area, in the order the server
/// loads them.
pub open spec fn ep2_map_table() -> Seq<MapFile> {
    seq![
        MapFile { area: 0, major: 0, minor: 0, enemies: "map_labo00_00e.dat", objects: "map_labo00_00o.dat" },
        MapFile { area: 1, major: 0, minor: 0, enemies: "map_ruins01_00_00e.dat", objects: "map_ruins01_00_00e.dat" },
        MapFile { area: 1, major: 1, minor: 0, enemies: "map_ruins01_01_00e.dat", objects: "map_ruins01_01_00e.dat" },
        MapFile { area: 2, major: 0, minor: 0, enemies: "map_ruins02_00_00e.dat", objects: "map_ruins02_00_00e.dat" },
        MapFile { area: 2, major: 1, minor: 0, enemies: "map_ruins02_01_00e.dat", objects: "map_ruins02_01_00e.dat" },
        MapFile { area: 3, major: 0, minor: 0, enemies: "map_space01_00_00e.dat", objects: "map_space01_00_00e.dat" },
        MapFile { area: 3, major: 1, minor: 0, enemies: "map_space01_01_00e.dat", objects: "map_space01_01_00e.dat" },
        MapFile { area: 4, major: 0, minor: 0, enemies: "map_space02_00_00e.dat", objects: "map_space02_00_00e.dat" },
        MapFile { area: 4, major: 1, minor: 0, enemies: "map_space02_01_00e.dat", objects: "map_space02_01_00e.dat" },
        MapFile { area: 5, major: 0, minor: 0, enemies: "map_jungle01_00e.dat", objects: "map_jungle01_00o.dat" },
        MapFile { area: 5, major: 1, minor: 0, enemies: "map_jungle01_01e.dat", objects: "map_jungle01_01o.dat" },
        MapFile { area: 5, major: 2, minor: 0, enemies: "map_jungle01_02e.dat", objects: "map_jungle01_02o.dat" },
        MapFile { area: 6, major: 0, minor: 0, enemies: "map_jungle02_00e.dat", objects: "map_jungle02_00o.dat" },
        MapFile { area: 6, major: 1, minor: 0, enemies: "map_jungle02_01e.dat", objects: "map_jungle02_01o.dat" },
        MapFile { area: 6, major: 2, minor: 0, enemies: "map_jungle02_02e.dat", objects: "map_jungle02_02o.dat" },
        MapFile { area: 7, major: 0, minor: 0, enemies: "map_jungle03_00e.dat", objects: "map_jungle03_00o.dat" },
        MapFile { area: 7, major: 1, minor: 0, enemies: "map_jungle03_01e.dat", objects: "map_jungle03_01o.dat" },
        MapFile { area: 7, major: 2, minor: 0, enemies: "map_jungle03_02e.dat", objects: "map_jungle03_02o.dat" },
        MapFile { area: 8, major: 0, minor: 0, enemies: "map_jungle04_00_00e.dat", objects: "map_jungle04_00_00o.dat" },
        MapFile { area: 8, major: 0, minor: 1, enemies: "map_jungle04_00_01e.dat", objects: "map_jungle04_00_01o.dat" },
        MapFile { area: 8, major: 1, minor: 0, enemies: "map_jungle04_01_00e.dat", objects: "map_jungle04_01_00o.dat" },
        MapFile { area: 8, major: 1, minor: 1, enemies: "map_jungle04_01_01e.dat", objects: "map_jungle04_01_01o.dat" },
        MapFile { area: 9, major: 0, minor: 0, enemies: "map_jungle05_00e.dat", objects: "map_jungle05_00o.dat" },
        MapFile { area: 9, major: 1, minor: 0, enemies: "map_jungle05_01e.dat", objects: "map_jungle05_01o.dat" },
        MapFile { area: 9, major: 2, minor: 0, enemies: "map_jungle05_02e.dat", objects: "map_jungle05_02o.dat" },
        MapFile { area: 10, major: 0, minor: 0, enemies: "map_seabed01_00_00e.dat", objects: "map_seabed01_00_00o.dat" },
        MapFile { area: 10, major: 0, minor: 1, enemies: "map_seabed01_00_01e.dat", objects: "map_seabed01_00_01o.dat" },
        MapFile { area: 10, major: 1, minor: 0, enemies: "map_seabed01_01_00e.dat", objects: "map_seabed01_01_00o.dat" },
        MapFile { area: 10, major: 1, minor: 1, enemies: "map_seabed01_01_01e.dat", objects: "map_seabed01_01_01o.dat" },
        MapFile { area: 11, major: 0, minor: 0, enemies: "map_seabed02_00_00e.dat", objects: "map_seabed02_00_00o.dat" },
        MapFile { area: 11, major: 0, minor: 1, enemies: "map_seabed02_00_01e.dat", objects: "map_seabed02_00_01o.dat" },
        MapFile { area: 11, major: 1, minor: 0, enemies: "map_seabed02_01_00e.dat", objects: "map_seabed02_01_00o.dat" },
        MapFile { area: 11, major: 1, minor: 1, enemies: "map_seabed02_01_01e.dat", objects: "map_seabed02_01_01o.dat" },
        MapFile { area: 12, major: 0, minor: 0, enemies: "map_boss05e.dat", objects: "map_boss05o.dat" },
        MapFile { area: 13, major: 0, minor: 0, enemies: "map_boss06e.dat", objects: "map_boss06o.dat" },
        MapFile { area: 14, major: 0, minor: 0, enemies: "map_boss07e.dat", objects: "map_boss07o.dat" },
        MapFile { area: 15, major: 0, minor: 0, enemies: "map_boss08e.dat", objects: "map_boss08o.dat" },
    ]
}

/// The map file pairs of Episode 2, area by area, in the order the server
/// loads them.
pub fn ep2_map_files() -> (r: Vec<MapFile>)
    ensures
        r@ == ep2_map_table(),
{
    let mut r: Vec<MapFile> = Vec::new();
    r.push(MapFile { area: 0, major: 0, minor: 0, enemies: "map_labo00_00e.dat", objects: "map_labo00_00o.dat" });
    r.push(MapFile { area: 1, major: 0, minor: 0, enemies: "map_ruins01_00_00e.dat", objects: "map_ruins01_00_00e.dat" });
    r.push(MapFile { area: 1, major: 1, minor: 0, enemies: "map_ruins01_01_00e.dat", objects: "map_ruins01_01_00e.dat" });
    r.push(MapFile { area: 2, major: 0, minor: 0, enemies: "map_ruins02_00_00e.dat", objects: "map_ruins02_00_00e.dat" });
    r.push(MapFile { area: 2, major: 1, minor: 0, enemies: "map_ruins02_01_00e.dat", objects: "map_ruins02_01_00e.dat" });
    r.push(MapFile { area: 3, major: 0, minor: 0, enemies: "map_space01_00_00e.dat", objects: "map_space01_00_00e.dat" });
    r.push(MapFile { area: 3, major: 1, minor: 0, enemies: "map_space01_01_00e.dat", objects: "map_space01_01_00e.dat" });
    r.push(MapFile { area: 4, major: 0, minor: 0, enemies: "map_space02_00_00e.dat", objects: "map_space02_00_00e.dat" });
    r.push(MapFile { area: 4, major: 1, minor: 0, enemies: "map_space02_01_00e.dat", objects: "map_space02_01_00e.dat" });
    r.push(MapFile { area: 5, major: 0, minor: 0, enemies: "map_jungle01_00e.dat", objects: "map_jungle01_00o.dat" });
    r.push(MapFile { area: 5, major: 1, minor: 0, enemies: "map_jungle01_01e.dat", objects: "map_jungle01_01o.dat" });
    r.push(MapFile { area: 5, major: 2, minor: 0, enemies: "map_jungle01_02e.dat", objects: "map_jungle01_02o.dat" });
    r.push(MapFile { area: 6, major: 0, minor: 0, enemies: "map_jungle02_00e.dat", objects: "map_jungle02_00o.dat" });
    r.push(MapFile { area: 6, major: 1, minor: 0, enemies: "map_jungle02_01e.dat", objects: "map_jungle02_01o.dat" });
    r.push(MapFile { area: 6, major: 2, minor: 0, enemies: "map_jungle02_02e.dat", objects: "map_jungle02_02o.dat" });
    r.push(MapFile { area: 7, major: 0, minor: 0, enemies: "map_jungle03_00e.dat", objects: "map_jungle03_00o.dat" });
    r.push(MapFile { area: 7, major: 1, minor: 0, enemies: "map_jungle03_01e.dat", objects: "map_jungle03_01o.dat" });
    r.push(MapFile { area: 7, major: 2, minor: 0, enemies: "map_jungle03_02e.dat", objects: "map_jungle03_02o.dat" });
    r.push(MapFile { area: 8, major: 0, minor: 0, enemies: "map_jungle04_00_00e.dat", objects: "map_jungle04_00_00o.dat" });
    r.push(MapFile { area: 8, major: 0, minor: 1, enemies: "map_jungle04_00_01e.dat", objects: "map_jungle04_00_01o.dat" });
    r.push(MapFile { area: 8, major: 1, minor: 0, enemies: "map_jungle04_01_00e.dat", objects: "map_jungle04_01_00o.dat" });
    r.push(MapFile { area: 8, major: 1, minor: 1, enemies: "map_jungle04_01_01e.dat", objects: "map_jungle04_01_01o.dat" });
    r.push(MapFile { area: 9, major: 0, minor: 0, enemies: "map_jungle05_00e.dat", objects: "map_jungle05_00o.dat" });
    r.push(MapFile { area: 9, major: 1, minor: 0, enemies: "map_jungle05_01e.dat", objects: "map_jungle05_01o.dat" });
    r.push(MapFile { area: 9, major: 2, minor: 0, enemies: "map_jungle05_02e.dat", objects: "map_jungle05_02o.dat" });
    r.push(MapFile { area: 10, major: 0, minor: 0, enemies: "map_seabed01_00_00e.dat", objects: "map_seabed01_00_00o.dat" });
    r.push(MapFile { area: 10, major: 0, minor: 1, enemies: "map_seabed01_00_01e.dat", objects: "map_seabed01_00_01o.dat" });
    r.push(MapFile { area: 10, major: 1, minor: 0, enemies: "map_seabed01_01_00e.dat", objects: "map_seabed01_01_00o.dat" });
    r.push(MapFile { area: 10, major: 1, minor: 1, enemies: "map_seabed01_01_01e.dat", objects: "map_seabed01_01_01o.dat" });
    r.push(MapFile { area: 11, major: 0, minor: 0, enemies: "map_seabed02_00_00e.dat", objects: "map_seabed02_00_00o.dat" });
    r.push(MapFile { area: 11, major: 0, minor: 1, enemies: "map_seabed02_00_01e.dat", objects: "map_seabed02_00_01o.dat" });
    r.push(MapFile { area: 11, major: 1, minor: 0, enemies: "map_seabed02_01_00e.dat", objects: "map_seabed02_01_00o.dat" });
    r.push(MapFile { area: 11, major: 1, minor: 1, enemies: "map_seabed02_01_01e.dat", objects: "map_seabed02_01_01o.dat" });
    r.push(MapFile { area: 12, major: 0, minor: 0, enemies: "map_boss05e.dat", objects: "map_boss05o.dat" });
    r.push(MapFile { area: 13, major: 0, minor: 0, enemies: "map_boss06e.dat", objects: "map_boss06o.dat" });
    r.push(MapFile { area: 14, major: 0, minor: 0, enemies: "map_boss07e.dat", objects: "map_boss07o.dat" });
    r.push(MapFile { area: 15, major: 0, minor: 0, enemies: "map_boss08e.dat", objects: "map_boss08o.dat" });
    r
}

/// `a` is made of the variations `d`, loaded from the file pairs of
/// [`ep2_map_table`] in order.
pub open spec fn ep2_assembled(a: Ep2Areas, d: Seq<VariationData>) -> bool {
    &&& a.city == d[0]
    &&& a.ruins1@ == keyed_from(ep2_map_table().subrange(1, 3), d.subrange(1, 3))
    &&& a.ruins2@ == keyed_from(ep2_map_table().subrange(3, 5), d.subrange(3, 5))
    &&& a.space1@ == keyed_from(ep2_map_table().subrange(5, 7), d.subrange(5, 7))
    &&& a.space2@ == keyed_from(ep2_map_table().subrange(7, 9), d.subrange(7, 9))
    &&& a.jungle1@ == d.subrange(9, 12)
    &&& a.jungle2@ == d.subrange(12, 15)
    &&& a.jungle3@ == d.subrange(15, 18)
    &&& a.jungle4@ == keyed_from(ep2_map_table().subrange(18, 22), d.subrange(18, 22))
    &&& a.jungle5@ == d.subrange(22, 25)
    &&& a.seabed1@ == keyed_from(ep2_map_table().subrange(25, 29), d.subrange(25, 29))
    &&& a.seabed2@ == keyed_from(ep2_map_table().subrange(29, 33), d.subrange(29, 33))
    &&& a.boss5 == d[33]
    &&& a.boss6 == d[34]
    &&& a.boss7 == d[35]
    &&& a.boss8 == d[36]
}

/// The areas of Episode 2 made of the variations `loaded`, loaded from the
/// file pairs of [`ep2_map_files`] in order.
#[verifier::rlimit(40)]
pub fn ep2_areas_from(loaded: Vec<VariationData>) -> (r: Ep2Areas)
    requires
        loaded@.len() == 37,
    ensures
        ep2_assembled(r, loaded@),
        keys_distinct(r.ruins1@),
        keys_distinct(r.ruins2@),
        keys_distinct(r.space1@),
        keys_distinct(r.space2@),
        keys_distinct(r.jungle4@),
        keys_distinct(r.seabed1@),
        keys_distinct(r.seabed2@),
{
    let ghost d = loaded@;
    let files = ep2_map_files();
    let mut src = loaded;
    let city = take_one(&mut src);
    assert(src@ =~= d.subrange(1, 37));
    let ruins1_data = take_front(&mut src, 2);
    assert(ruins1_data@ =~= d.subrange(1, 3));
    let ruins1 = keyed(&files, 1, ruins1_data);
    assert(src@ =~= d.subrange(3, 37));
    let ruins2_data = take_front(&mut src, 2);
    assert(ruins2_data@ =~= d.subrange(3, 5));
    let ruins2 = keyed(&files, 3, ruins2_data);
    assert(src@ =~= d.subrange(5, 37));
    let space1_data = take_front(&mut src, 2);
    assert(space1_data@ =~= d.subrange(5, 7));
    let space1 = keyed(&files, 5, space1_data);
    assert(src@ =~= d.subrange(7, 37));
    let space2_data = take_front(&mut src, 2);
    assert(space2_data@ =~= d.subrange(7, 9));
    let space2 = keyed(&files, 7, space2_data);
    assert(src@ =~= d.subrange(9, 37));
    let jungle1 = take_front(&mut src, 3);
    assert(jungle1@ =~= d.subrange(9, 12));
    assert(src@ =~= d.subrange(12, 37));
    let jungle2 = take_front(&mut src, 3);
    assert(jungle2@ =~= d.subrange(12, 15));
    assert(src@ =~= d.subrange(15, 37));
    let jungle3 = take_front(&mut src, 3);
    assert(jungle3@ =~= d.subrange(15, 18));
    assert(src@ =~= d.subrange(18, 37));
    let jungle4_data = take_front(&mut src, 4);
    assert(jungle4_data@ =~= d.subrange(18, 22));
    let jungle4 = keyed(&files, 18, jungle4_data);
    assert(src@ =~= d.subrange(22, 37));
    let jungle5 = take_front(&mut src, 3);
    assert(jungle5@ =~= d.subrange(22, 25));
    assert(src@ =~= d.subrange(25, 37));
    let seabed1_data = take_front(&mut src, 4);
    assert(seabed1_data@ =~= d.subrange(25, 29));
    let seabed1 = keyed(&files, 25, seabed1_data);
    assert(src@ =~= d.subrange(29, 37));
    let seabed2_data = take_front(&mut src, 4);
    assert(seabed2_data@ =~= d.subrange(29, 33));
    let seabed2 = keyed(&files, 29, seabed2_data);
    assert(src@ =~= d.subrange(33, 37));
    let boss5 = take_one(&mut src);
    assert(src@ =~= d.subrange(34, 37));
    let boss6 = take_one(&mut src);
    assert(src@ =~= d.subrange(35, 37));
    let boss7 = take_one(&mut src);
    assert(src@ =~= d.subrange(36, 37));
    let boss8 = take_one(&mut src);
    assert(src@ =~= d.subrange(37, 37));
    Ep2Areas { city, ruins1, ruins2, space1, space2, jungle1, jungle2, jungle3, jungle4, jungle5, seabed1, seabed2, boss5, boss6, boss7, boss8 }
}

/// The map file pairs of Episode 4, area by area, in the order the server
/// loads them.
pub open spec fn ep4_map_table() -> Seq<MapFile> {
    seq![
        MapFile { area: 0, major: 0, minor: 0, enemies: "map_city02_00_00e.dat", objects: "map_city02_00_00o.dat" },
        MapFile { area: 1, major: 0, minor: 0, enemies: "map_wilds01_00_00e.dat", objects: "map_wilds01_00_00o.dat" },
        MapFile { area: 1, major: 1, minor: 0, enemies: "map_wilds01_00_01e.dat", objects: "map_wilds01_00_01o.dat" },
        MapFile { area: 1, major: 2, minor: 0, enemies: "map_wilds01_00_02e.dat", objects: "map_wilds01_00_02o.dat" },
        MapFile { area: 2, major: 0, minor: 0, enemies: "map_wilds01_01_00e.dat", objects: "map_wilds01_01_00o.dat" },
        MapFile { area: 2, major: 1, minor: 0, enemies: "map_wilds01_01_01e.dat", objects: "map_wilds01_01_01o.dat" },
        MapFile { area: 2, major: 2, minor: 0, enemies: "map_wilds01_01_02e.dat", objects: "map_wilds01_01_02o.dat" },
        MapFile { area: 3, major: 0, minor: 0, enemies: "map_wilds01_02_00e.dat", objects: "map_wilds01_02_00o.dat" },
        MapFile { area: 3, major: 1, minor: 0, enemies: "map_wilds01_02_01e.dat", objects: "map_wilds01_02_01o.dat" },
        MapFile { area: 3, major: 2, minor: 0, enemies: "map_wilds01_02_02e.dat", objects: "map_wilds01_02_02o.dat" },
        MapFile { area: 4, major: 0, minor: 0, enemies: "map_wilds01_03_00e.dat", objects: "map_wilds01_03_00o.dat" },
        MapFile { area: 4, major: 1, minor: 0, enemies: "map_wilds01_03_01e.dat", objects: "map_wilds01_03_01o.dat" },
        MapFile { area: 4, major: 2, minor: 0, enemies: "map_wilds01_03_02e.dat", objects: "map_wilds01_03_02o.dat" },
        MapFile { area: 5, major: 0, minor: 0, enemies: "map_crater01_00_00e.dat", objects: "map_crater01_00_00o.dat" },
        MapFile { area: 5, major: 1, minor: 0, enemies: "map_crater01_00_01e.dat", objects: "map_crater01_00_01o.dat" },
        MapFile { area: 5, major: 2, minor: 0, enemies: "map_crater01_00_02e.dat", objects: "map_crater01_00_02o.dat" },
        MapFile { area: 6, major: 0, minor: 0, enemies: "map_desert01_00_00e.dat", objects: "map_desert01_00_00o.dat" },
        MapFile { area: 6, major: 1, minor: 0, enemies: "map_desert01_01_00e.dat", objects: "map_desert01_01_00o.dat" },
        MapFile { area: 6, major: 2, minor: 0, enemies: "map_desert01_02_00e.dat", objects: "map_desert01_02_00o.dat" },
        MapFile { area: 7, major: 0, minor: 0, enemies: "map_desert02_00_00e.dat", objects: "map_desert02_00_00o.dat" },
        MapFile { area: 7, major: 1, minor: 0, enemies: "map_desert02_00_01e.dat", objects: "map_desert02_00_01o.dat" },
        MapFile { area: 7, major: 2, minor: 0, enemies: "map_desert02_00_02e.dat", objects: "map_desert02_00_02o.dat" },
        MapFile { area: 8, major: 0, minor: 0, enemies: "map_desert03_00_00e.dat", objects: "map_desert03_00_00o.dat" },
        MapFile { area: 8, major: 1, minor: 0, enemies: "map_desert03_01_00e.dat", objects: "map_desert03_01_00o.dat" },
        MapFile { area: 8, major: 2, minor: 0, enemies: "map_desert03_02_00e.dat", objects: "map_desert03_02_00o.dat" },
        MapFile { area: 9, major: 0, minor: 0, enemies: "map_boss09_00_00e.dat", objects: "map_boss09_00_00o.dat" },
    ]
}

/// The map file pairs of Episode 4, area by area, in the order the server
/// loads them.
pub fn ep4_map_files() -> (r: Vec<MapFile>)
    ensures
        r@ == ep4_map_table(),
{
    let mut r: Vec<MapFile> = Vec::new();
    r.push(MapFile { area: 0, major: 0, minor: 0, enemies: "map_city02_00_00e.dat", objects: "map_city02_00_00o.dat" });
    r.push(MapFile { area: 1, major: 0, minor: 0, enemies: "map_wilds01_00_00e.dat", objects: "map_wilds01_00_00o.dat" });
    r.push(MapFile { area: 1, major: 1, minor: 0, enemies: "map_wilds01_00_01e.dat", objects: "map_wilds01_00_01o.dat" });
    r.push(MapFile { area: 1, major: 2, minor: 0, enemies: "map_wilds01_00_02e.dat", objects: "map_wilds01_00_02o.dat" });
    r.push(MapFile { area: 2, major: 0, minor: 0, enemies: "map_wilds01_01_00e.dat", objects: "map_wilds01_01_00o.dat" });
    r.push(MapFile { area: 2, major: 1, minor: 0, enemies: "map_wilds01_01_01e.dat", objects: "map_wilds01_01_01o.dat" });
    r.push(MapFile { area: 2, major: 2, minor: 0, enemies: "map_wilds01_01_02e.dat", objects: "map_wilds01_01_02o.dat" });
    r.push(MapFile { area: 3, major: 0, minor: 0, enemies: "map_wilds01_02_00e.dat", objects: "map_wilds01_02_00o.dat" });
    r.push(MapFile { area: 3, major: 1, minor: 0, enemies: "map_wilds01_02_01e.dat", objects: "map_wilds01_02_01o.dat" });
    r.push(MapFile { area: 3, major: 2, minor: 0, enemies: "map_wilds01_02_02e.dat", objects: "map_wilds01_02_02o.dat" });
    r.push(MapFile { area: 4, major: 0, minor: 0, enemies: "map_wilds01_03_00e.dat", objects: "map_wilds01_03_00o.dat" });
    r.push(MapFile { area: 4, major: 1, minor: 0, enemies: "map_wilds01_03_01e.dat", objects: "map_wilds01_03_01o.dat" });
    r.push(MapFile { area: 4, major: 2, minor: 0, enemies: "map_wilds01_03_02e.dat", objects: "map_wilds01_03_02o.dat" });
    r.push(MapFile { area: 5, major: 0, minor: 0, enemies: "map_crater01_00_00e.dat", objects: "map_crater01_00_00o.dat" });
    r.push(MapFile { area: 5, major: 1, minor: 0, enemies: "map_crater01_00_01e.dat", objects: "map_crater01_00_01o.dat" });
    r.push(MapFile { area: 5, major: 2, minor: 0, enemies: "map_crater01_00_02e.dat", objects: "map_crater01_00_02o.dat" });
    r.push(MapFile { area: 6, major: 0, minor: 0, enemies: "map_desert01_00_00e.dat", objects: "map_desert01_00_00o.dat" });
    r.push(MapFile { area: 6, major: 1, minor: 0, enemies: "map_desert01_01_00e.dat", objects: "map_desert01_01_00o.dat" });
    r.push(MapFile { area: 6, major: 2, minor: 0, enemies: "map_desert01_02_00e.dat", objects: "map_desert01_02_00o.dat" });
    r.push(MapFile { area: 7, major: 0, minor: 0, enemies: "map_desert02_00_00e.dat", objects: "map_desert02_00_00o.dat" });
    r.push(MapFile { area: 7, major: 1, minor: 0, enemies: "map_desert02_00_01e.dat", objects: "map_desert02_00_01o.dat" });
    r.push(MapFile { area: 7, major: 2, minor: 0, enemies: "map_desert02_00_02e.dat", objects: "map_desert02_00_02o.dat" });
    r.push(MapFile { area: 8, major: 0, minor: 0, enemies: "map_desert03_00_00e.dat", objects: "map_desert03_00_00o.dat" });
    r.push(MapFile { area: 8, major: 1, minor: 0, enemies: "map_desert03_01_00e.dat", objects: "map_desert03_01_00o.dat" });
    r.push(MapFile { area: 8, major: 2, minor: 0, enemies: "map_desert03_02_00e.dat", objects: "map_desert03_02_00o.dat" });
    r.push(MapFile { area: 9, major: 0, minor: 0, enemies: "map_boss09_00_00e.dat", objects: "map_boss09_00_00o.dat" });
    r
}

/// The map file pairs of Episode 4 offline: those of
/// [`ep4_map_files`], but for the city, which has files of its own.
pub fn ep4_offline_map_files() -> (r: Vec<MapFile>)
    ensures
        r@ == ep4_map_table().update(
            0,
            (MapFile {
                area: 0,
                major: 0,
                minor: 0,
                enemies: "map_city02_00_00e_s.dat",
                objects: "map_city02_00_00o_s.dat",
            }),
        ),
{
    let mut r = ep4_map_files();
    r.set(0, MapFile { area: 0, major: 0, minor: 0, enemies: "map_city02_00_00e_s.dat", objects: "map_city02_00_00o_s.dat" });
    r
}

/// `a` is made of the variations `d`, loaded from the file pairs of
/// [`ep4_map_table`] in order.
pub open spec fn ep4_assembled(a: Ep4Areas, d: Seq<VariationData>) -> bool {
    &&& a.city == d[0]
    &&& a.wilds1@ == d.subrange(1, 4)
    &&& a.wilds2@ == d.subrange(4, 7)
    &&& a.wilds3@ == d.subrange(7, 10)
    &&& a.wilds4@ == d.subrange(10, 13)
    &&& a.crater@ == d.subrange(13, 16)
    &&& a.desert1@ == d.subrange(16, 19)
    &&& a.desert2@ == d.subrange(19, 22)
    &&& a.desert3@ == d.subrange(22, 25)
    &&& a.boss9 == d[25]
}

/// The areas of Episode 4 made of the variations `loaded`, loaded from the
/// file pairs of [`ep4_map_files`] in order.
#[verifier::rlimit(40)]
pub fn ep4_areas_from(loaded: Vec<VariationData>) -> (r: Ep4Areas)
    requires
        loaded@.len() == 26,
    ensures
        ep4_assembled(r, loaded@),
{
    let ghost d = loaded@;
    let files = ep4_map_files();
    let mut src = loaded;
    let city = take_one(&mut src);
    assert(src@ =~= d.subrange(1, 26));
    let wilds1 = take_front(&mut src, 3);
    assert(wilds1@ =~= d.subrange(1, 4));
    assert(src@ =~= d.subrange(4, 26));
    let wilds2 = take_front(&mut src, 3);
    assert(wilds2@ =~= d.subrange(4, 7));
    assert(src@ =~= d.subrange(7, 26));
    let wilds3 = take_front(&mut src, 3);
    assert(wilds3@ =~= d.subrange(7, 10));
    assert(src@ =~= d.subrange(10, 26));
    let wilds4 = take_front(&mut src, 3);
    assert(wilds4@ =~= d.subrange(10, 13));
    assert(src@ =~= d.subrange(13, 26));
    let crater = take_front(&mut src, 3);
    assert(crater@ =~= d.subrange(13, 16));
    assert(src@ =~= d.subrange(16, 26));
    let desert1 = take_front(&mut src, 3);
    assert(desert1@ =~= d.subrange(16, 19));
    assert(src@ =~= d.subrange(19, 26));
    let desert2 = take_front(&mut src, 3);
    assert(desert2@ =~= d.subrange(19, 22));
    assert(src@ =~= d.subrange(22, 26));
    let desert3 = take_front(&mut src, 3);
    assert(desert3@ =~= d.subrange(22, 25));
    assert(src@ =~= d.subrange(25, 26));
    let boss9 = take_one(&mut src);
    assert(src@ =~= d.subrange(26, 26));
    Ep4Areas { city, wilds1, wilds2, wilds3, wilds4, crater, desert1, desert2, desert3, boss9 }
}

} // verus!
