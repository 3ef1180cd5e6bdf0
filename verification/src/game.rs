//! Versions of the game and the playable character classes.

use vstd::prelude::*;
use vstd::string::StringExecFns;

verus! {

/// An enumeration of PSO versions.
#[derive(Clone, Copy, Debug, PartialEq, Eq, Structural)]
pub enum Version {
    /// Phantasy Star Online: Blue Burst
    BlueBurst,
    /// Phantasy Star Online Episodes I & II
    Gamecube,
    /// Phantasy Star Online Episode III: C.A.R.D. Revolution
    Episode3,
    /// Phantasy Star Online PC
    PC,
    /// Phantasy Star Online ver. 2
    DCV2,
    /// Phantasy Star Online
    DCV1,
}

/// The version named by `s`, if it names one.
pub open spec fn version_named(s: Seq<char>) -> Option<Version> {
    if s == "BlueBurst"@ {
        Some(Version::BlueBurst)
    } else if s == "Gamecube"@ {
        Some(Version::Gamecube)
    } else if s == "Episode3"@ {
        Some(Version::Episode3)
    } else if s == "PC"@ {
        Some(Version::PC)
    } else if s == "DCV2"@ {
        Some(Version::DCV2)
    } else if s == "DCV1"@ {
        Some(Version::DCV1)
    } else {
        None
    }
}

impl Version {
    /// Parses a version from its name. An unknown name yields the message
    /// `Unknown version <name>`.
    pub fn from_str(s: &str) -> (r: Result<Version, String>)
        ensures
            version_named(s@) matches Some(v) ==> r == Ok::<Version, String>(v),
            version_named(s@) is None ==> (r matches Err(e) && e@ == "Unknown version "@ + s@),
    {
        let owned = s.to_owned();
        if owned == String::from_str("BlueBurst") {
            Ok(Version::BlueBurst)
        } else if owned == String::from_str("Gamecube") {
            Ok(Version::Gamecube)
        } else if owned == String::from_str("Episode3") {
            Ok(Version::Episode3)
        } else if owned == String::from_str("PC") {
            Ok(Version::PC)
        } else if owned == String::from_str("DCV2") {
            Ok(Version::DCV2)
        } else if owned == String::from_str("DCV1") {
            Ok(Version::DCV1)
        } else {
            Err(String::from_str("Unknown version ").concat(s))
        }
    }
}


/// The playable character classes, in the order of their class codes.
#[derive(Clone, Copy, Debug, PartialEq, Eq, Hash, Structural)]
pub enum CharClass {
    HUmar,
    HUnewearl,
    HUcast,
    RAmar,
    RAcast,
    RAcaseal,
    FOmarl,
    FOnewm,
    FOnewearl,
    HUcaseal,
    FOmar,
    RAmarl,
}

/// The class code of each class.
pub open spec fn class_code(c: CharClass) -> u8 {
    match c {
        CharClass::HUmar => 0,
        CharClass::HUnewearl => 1,
        CharClass::HUcast => 2,
        CharClass::RAmar => 3,
        CharClass::RAcast => 4,
        CharClass::RAcaseal => 5,
        CharClass::FOmarl => 6,
        CharClass::FOnewm => 7,
        CharClass::FOnewearl => 8,
        CharClass::HUcaseal => 9,
        CharClass::FOmar => 10,
        CharClass::RAmarl => 11,
    }
}

/// The name of each class, as the server writes it.
pub open spec fn class_name(c: CharClass) -> Seq<char> {
    match c {
        CharClass::HUmar => "HUmar"@,
        CharClass::HUnewearl => "HUnewearl"@,
        CharClass::HUcast => "HUcast"@,
        CharClass::RAmar => "RAmar"@,
        CharClass::RAcast => "RAcast"@,
        CharClass::RAcaseal => "RAcaseal"@,
        CharClass::FOmarl => "FOmarl"@,
        CharClass::FOnewm => "FOnewm"@,
        CharClass::FOnewearl => "FOnewearl"@,
        CharClass::HUcaseal => "HUcaseal"@,
        CharClass::FOmar => "FOmar"@,
        CharClass::RAmarl => "RAmarl"@,
    }
}

impl CharClass {
    /// The class code.
    pub fn code(self) -> (r: u8)
        ensures
            r == class_code(self),
    {
        match self {
            CharClass::HUmar => 0,
            CharClass::HUnewearl => 1,
            CharClass::HUcast => 2,
            CharClass::RAmar => 3,
            CharClass::RAcast => 4,
            CharClass::RAcaseal => 5,
            CharClass::FOmarl => 6,
            CharClass::FOnewm => 7,
            CharClass::FOnewearl => 8,
            CharClass::HUcaseal => 9,
            CharClass::FOmar => 10,
            CharClass::RAmarl => 11,
        }
    }

    /// The class with the given code, if there is one.
    pub fn from_code(code: u8) -> (r: Option<CharClass>)
        ensures
            r matches Some(c) ==> class_code(c) == code,
            r is None <==> code >= 12,
    {
        match code {
            0 => Some(CharClass::HUmar),
            1 => Some(CharClass::HUnewearl),
            2 => Some(CharClass::HUcast),
            3 => Some(CharClass::RAmar),
            4 => Some(CharClass::RAcast),
            5 => Some(CharClass::RAcaseal),
            6 => Some(CharClass::FOmarl),
            7 => Some(CharClass::FOnewm),
            8 => Some(CharClass::FOnewearl),
            9 => Some(CharClass::HUcaseal),
            10 => Some(CharClass::FOmar),
            11 => Some(CharClass::RAmarl),
            _ => None,
        }
    }

    /// The class's name.
    pub fn to_string(&self) -> (r: String)
        ensures
            r@ == class_name(*self),
    {
        match self {
            CharClass::HUmar => String::from_str("HUmar"),
            CharClass::HUnewearl => String::from_str("HUnewearl"),
            CharClass::HUcast => String::from_str("HUcast"),
            CharClass::RAmar => String::from_str("RAmar"),
            CharClass::RAcast => String::from_str("RAcast"),
            CharClass::RAcaseal => String::from_str("RAcaseal"),
            CharClass::FOmarl => String::from_str("FOmarl"),
            CharClass::FOnewm => String::from_str("FOnewm"),
            CharClass::FOnewearl => String::from_str("FOnewearl"),
            CharClass::HUcaseal => String::from_str("HUcaseal"),
            CharClass::FOmar => String::from_str("FOmar"),
            CharClass::RAmarl => String::from_str("RAmarl"),
        }
    }
}

} // verus!
