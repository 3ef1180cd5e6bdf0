//! Map data of the free-exploration areas, and the enemies instantiated
//! from it.

use vstd::prelude::*;

pub mod ep1;
pub mod ep2;
pub mod ep4;
pub mod files;

pub use self::ep1::Ep1Areas;
pub use self::ep2::Ep2Areas;
pub use self::ep4::Ep4Areas;

verus! {

/// In-game area IDs for Episode 1.
#[derive(Clone, Copy, PartialEq, Eq, Debug, Hash, Structural)]
pub enum Ep1AreaCode {
    City,
    Forest1,
    Forest2,
    Cave1,
    Cave2,
    Cave3,
    Mine1,
    Mine2,
    Ruins1,
    Ruins2,
    Ruins3,
    Dragon,
    DeRolLe,
    VolOpt,
    DarkFalz,
    Lobby,
    Temple,
    Spaceship,
}

/// The in-game area ID of each area.
pub open spec fn ep1_area_id(a: Ep1AreaCode) -> u8 {
    match a {
        Ep1AreaCode::City => 0,
        Ep1AreaCode::Forest1 => 1,
        Ep1AreaCode::Forest2 => 2,
        Ep1AreaCode::Cave1 => 3,
        Ep1AreaCode::Cave2 => 4,
        Ep1AreaCode::Cave3 => 5,
        Ep1AreaCode::Mine1 => 6,
        Ep1AreaCode::Mine2 => 7,
        Ep1AreaCode::Ruins1 => 8,
        Ep1AreaCode::Ruins2 => 9,
        Ep1AreaCode::Ruins3 => 10,
        Ep1AreaCode::Dragon => 11,
        Ep1AreaCode::DeRolLe => 12,
        Ep1AreaCode::VolOpt => 13,
        Ep1AreaCode::DarkFalz => 14,
        Ep1AreaCode::Lobby => 15,
        Ep1AreaCode::Temple => 16,
        Ep1AreaCode::Spaceship => 17,
    }
}

impl Ep1AreaCode {
    /// The in-game area ID.
    pub fn code(self) -> (r: u8)
        ensures
            r == ep1_area_id(self),
    {
        match self {
            Ep1AreaCode::City => 0,
            Ep1AreaCode::Forest1 => 1,
            Ep1AreaCode::Forest2 => 2,
            Ep1AreaCode::Cave1 => 3,
            Ep1AreaCode::Cave2 => 4,
            Ep1AreaCode::Cave3 => 5,
            Ep1AreaCode::Mine1 => 6,
            Ep1AreaCode::Mine2 => 7,
            Ep1AreaCode::Ruins1 => 8,
            Ep1AreaCode::Ruins2 => 9,
            Ep1AreaCode::Ruins3 => 10,
            Ep1AreaCode::Dragon => 11,
            Ep1AreaCode::DeRolLe => 12,
            Ep1AreaCode::VolOpt => 13,
            Ep1AreaCode::DarkFalz => 14,
            Ep1AreaCode::Lobby => 15,
            Ep1AreaCode::Temple => 16,
            Ep1AreaCode::Spaceship => 17,
        }
    }

    /// The area with the given in-game ID, if there is one.
    pub fn from_code(code: u8) -> (r: Option<Ep1AreaCode>)
        ensures
            r matches Some(a) ==> ep1_area_id(a) == code,
            r is None <==> code >= 18,
    {
        match code {
            0 => Some(Ep1AreaCode::City),
            1 => Some(Ep1AreaCode::Forest1),
            2 => Some(Ep1AreaCode::Forest2),
            3 => Some(Ep1AreaCode::Cave1),
            4 => Some(Ep1AreaCode::Cave2),
            5 => Some(Ep1AreaCode::Cave3),
            6 => Some(Ep1AreaCode::Mine1),
            7 => Some(Ep1AreaCode::Mine2),
            8 => Some(Ep1AreaCode::Ruins1),
            9 => Some(Ep1AreaCode::Ruins2),
            10 => Some(Ep1AreaCode::Ruins3),
            11 => Some(Ep1AreaCode::Dragon),
            12 => Some(Ep1AreaCode::DeRolLe),
            13 => Some(Ep1AreaCode::VolOpt),
            14 => Some(Ep1AreaCode::DarkFalz),
            15 => Some(Ep1AreaCode::Lobby),
            16 => Some(Ep1AreaCode::Temple),
            17 => Some(Ep1AreaCode::Spaceship),
            _ => None,
        }
    }
}

/// In-game area IDs for Episode 2.
#[derive(Clone, Copy, PartialEq, Eq, Debug, Hash, Structural)]
pub enum Ep2AreaCode {
    City,
    TempleAlpha,
    TempleBeta,
    SpaceshipAlpha,
    SpaceshipBeta,
    CentralControlArea,
    JungleNorth,
    JungleEast,
    Mountain,
    Seaside,
    SeabedUpper,
    SeabedLower,
    GalGryphon,
    OlgaFlow,
    BarbaRay,
    GolDragon,
    SeasideNight,
    Tower,
}

/// The in-game area ID of each area.
pub open spec fn ep2_area_id(a: Ep2AreaCode) -> u8 {
    match a {
        Ep2AreaCode::City => 0,
        Ep2AreaCode::TempleAlpha => 1,
        Ep2AreaCode::TempleBeta => 2,
        Ep2AreaCode::SpaceshipAlpha => 3,
        Ep2AreaCode::SpaceshipBeta => 4,
        Ep2AreaCode::CentralControlArea => 5,
        Ep2AreaCode::JungleNorth => 6,
        Ep2AreaCode::JungleEast => 7,
        Ep2AreaCode::Mountain => 8,
        Ep2AreaCode::Seaside => 9,
        Ep2AreaCode::SeabedUpper => 10,
        Ep2AreaCode::SeabedLower => 11,
        Ep2AreaCode::GalGryphon => 12,
        Ep2AreaCode::OlgaFlow => 13,
        Ep2AreaCode::BarbaRay => 14,
        Ep2AreaCode::GolDragon => 15,
        Ep2AreaCode::SeasideNight => 16,
        Ep2AreaCode::Tower => 17,
    }
}

impl Ep2AreaCode {
    /// The in-game area ID.
    pub fn code(self) -> (r: u8)
        ensures
            r == ep2_area_id(self),
    {
        match self {
            Ep2AreaCode::City => 0,
            Ep2AreaCode::TempleAlpha => 1,
            Ep2AreaCode::TempleBeta => 2,
            Ep2AreaCode::SpaceshipAlpha => 3,
            Ep2AreaCode::SpaceshipBeta => 4,
            Ep2AreaCode::CentralControlArea => 5,
            Ep2AreaCode::JungleNorth => 6,
            Ep2AreaCode::JungleEast => 7,
            Ep2AreaCode::Mountain => 8,
            Ep2AreaCode::Seaside => 9,
            Ep2AreaCode::SeabedUpper => 10,
            Ep2AreaCode::SeabedLower => 11,
            Ep2AreaCode::GalGryphon => 12,
            Ep2AreaCode::OlgaFlow => 13,
            Ep2AreaCode::BarbaRay => 14,
            Ep2AreaCode::GolDragon => 15,
            Ep2AreaCode::SeasideNight => 16,
            Ep2AreaCode::Tower => 17,
        }
    }

    /// The area with the given in-game ID, if there is one.
    pub fn from_code(code: u8) -> (r: Option<Ep2AreaCode>)
        ensures
            r matches Some(a) ==> ep2_area_id(a) == code,
            r is None <==> code >= 18,
    {
        match code {
            0 => Some(Ep2AreaCode::City),
            1 => Some(Ep2AreaCode::TempleAlpha),
            2 => Some(Ep2AreaCode::TempleBeta),
            3 => Some(Ep2AreaCode::SpaceshipAlpha),
            4 => Some(Ep2AreaCode::SpaceshipBeta),
            5 => Some(Ep2AreaCode::CentralControlArea),
            6 => Some(Ep2AreaCode::JungleNorth),
            7 => Some(Ep2AreaCode::JungleEast),
            8 => Some(Ep2AreaCode::Mountain),
            9 => Some(Ep2AreaCode::Seaside),
            10 => Some(Ep2AreaCode::SeabedUpper),
            11 => Some(Ep2AreaCode::SeabedLower),
            12 => Some(Ep2AreaCode::GalGryphon),
            13 => Some(Ep2AreaCode::OlgaFlow),
            14 => Some(Ep2AreaCode::BarbaRay),
            15 => Some(Ep2AreaCode::GolDragon),
            16 => Some(Ep2AreaCode::SeasideNight),
            17 => Some(Ep2AreaCode::Tower),
            _ => None,
        }
    }
}

/// In-game area IDs for Episode 4.
#[derive(Clone, Copy, PartialEq, Eq, Debug, Hash, Structural)]
pub enum Ep4AreaCode {
    City,
    CraterEast,
    CraterWest,
    CraterSouth,
    CraterNorth,
    CraterInterior,
    Desert1,
    Desert2,
    Desert3,
    SaintMilion,
}

/// The in-game area ID of each area.
pub open spec fn ep4_area_id(a: Ep4AreaCode) -> u8 {
    match a {
        Ep4AreaCode::City => 0,
        Ep4AreaCode::CraterEast => 1,
        Ep4AreaCode::CraterWest => 2,
        Ep4AreaCode::CraterSouth => 3,
        Ep4AreaCode::CraterNorth => 4,
        Ep4AreaCode::CraterInterior => 5,
        Ep4AreaCode::Desert1 => 6,
        Ep4AreaCode::Desert2 => 7,
        Ep4AreaCode::Desert3 => 8,
        Ep4AreaCode::SaintMilion => 9,
    }
}

impl Ep4AreaCode {
    /// The in-game area ID.
    pub fn code(self) -> (r: u8)
        ensures
            r == ep4_area_id(self),
    {
        match self {
            Ep4AreaCode::City => 0,
            Ep4AreaCode::CraterEast => 1,
            Ep4AreaCode::CraterWest => 2,
            Ep4AreaCode::CraterSouth => 3,
            Ep4AreaCode::CraterNorth => 4,
            Ep4AreaCode::CraterInterior => 5,
            Ep4AreaCode::Desert1 => 6,
            Ep4AreaCode::Desert2 => 7,
            Ep4AreaCode::Desert3 => 8,
            Ep4AreaCode::SaintMilion => 9,
        }
    }

    /// The area with the given in-game ID, if there is one.
    pub fn from_code(code: u8) -> (r: Option<Ep4AreaCode>)
        ensures
            r matches Some(a) ==> ep4_area_id(a) == code,
            r is None <==> code >= 10,
    {
        match code {
            0 => Some(Ep4AreaCode::City),
            1 => Some(Ep4AreaCode::CraterEast),
            2 => Some(Ep4AreaCode::CraterWest),
            3 => Some(Ep4AreaCode::CraterSouth),
            4 => Some(Ep4AreaCode::CraterNorth),
            5 => Some(Ep4AreaCode::CraterInterior),
            6 => Some(Ep4AreaCode::Desert1),
            7 => Some(Ep4AreaCode::Desert2),
            8 => Some(Ep4AreaCode::Desert3),
            9 => Some(Ep4AreaCode::SaintMilion),
            _ => None,
        }
    }
}

/// An enemy in a party instance: the entries it uses in the battle
/// parameter table and in the rare table, and a name for the logs.
#[derive(Clone, Copy, Debug)]
pub struct InstanceEnemy {
    pub param_entry: usize,
    pub rt_entry: usize,
    pub name: &'static str,
}

/// What an instance enemy is, as plain values.
pub type EnemyDesc = (int, int, Seq<char>);

/// The description of one instance enemy.
pub open spec fn desc(e: InstanceEnemy) -> EnemyDesc {
    (e.param_entry as int, e.rt_entry as int, e.name@)
}

/// The descriptions of a sequence of instance enemies.
pub open spec fn descs(s: Seq<InstanceEnemy>) -> Seq<EnemyDesc> {
    s.map_values(|e: InstanceEnemy| desc(e))
}

/// An enemy placement record of a map file, as far as enemy generation
/// reads it: the enemy's base type, its clone count, its skin and the
/// reserved words, of which word 10 carries the alternate-form flag.
#[derive(Clone, Copy, Debug)]
pub struct MapEnemy {
    pub base: u32,
    pub num_clones: u16,
    pub skin: u32,
    pub reserved2: [u32; 11],
}

/// The maps of every area of the three episodes.
#[derive(Clone, Debug)]
pub struct Areas {
    pub ep1: Ep1Areas,
    pub ep2: Ep2Areas,
    pub ep4: Ep4Areas,
}

/// One variation of an area's map: its enemy placements.
#[derive(Clone, Debug)]
pub struct VariationData {
    pub enemies: Vec<MapEnemy>,
}

/// A variation of an area that is chosen by two numbers (major and minor
/// layout).
#[derive(Clone, Debug)]
pub struct KeyedVariation {
    pub major: u32,
    pub minor: u32,
    pub data: VariationData,
}

/// Two variations are kept under the same layout numbers.
pub open spec fn same_key(a: KeyedVariation, b: KeyedVariation) -> bool {
    a.major == b.major && a.minor == b.minor
}

/// No two of the variations `vs` are kept under the same layout numbers:
/// each pair of layout numbers picks one variation at most.
pub open spec fn keys_distinct(vs: Seq<KeyedVariation>) -> bool {
    forall|a: int, b: int| 0 <= a < b < vs.len() ==> !same_key(#[trigger] vs[a], #[trigger] vs[b])
}

} // verus!
