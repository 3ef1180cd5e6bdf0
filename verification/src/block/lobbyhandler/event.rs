//! Seasonal events.

use vstd::prelude::*;

verus! {

/// Seasonal events a lobby can show. Each has a numeric code (see
/// [`event_code`]); codes 2 and 15 and above name no event.
#[derive(Clone, Copy, Debug, PartialEq, Eq, Hash, Structural)]
pub enum Event {
    Normal,
    Christmas,
    Valentines,
    Easter,
    Halloween,
    Sonic,
    NewYears,
    Spring,
    WhiteDay,
    Wedding,
    Autumn,
    Flags,
    SpringFlag,
    AltNormal,
}

/// The code the client knows each event by.
pub open spec fn event_code(e: Event) -> u16 {
    match e {
        Event::Normal => 0,
        Event::Christmas => 1,
        Event::Valentines => 3,
        Event::Easter => 4,
        Event::Halloween => 5,
        Event::Sonic => 6,
        Event::NewYears => 7,
        Event::Spring => 8,
        Event::WhiteDay => 9,
        Event::Wedding => 10,
        Event::Autumn => 11,
        Event::Flags => 12,
        Event::SpringFlag => 13,
        Event::AltNormal => 14,
    }
}

impl Event {
    /// The event's code.
    pub fn code(self) -> (r: u16)
        ensures
            r == event_code(self),
    {
        match self {
            Event::Normal => 0,
            Event::Christmas => 1,
            Event::Valentines => 3,
            Event::Easter => 4,
            Event::Halloween => 5,
            Event::Sonic => 6,
            Event::NewYears => 7,
            Event::Spring => 8,
            Event::WhiteDay => 9,
            Event::Wedding => 10,
            Event::Autumn => 11,
            Event::Flags => 12,
            Event::SpringFlag => 13,
            Event::AltNormal => 14,
        }
    }

    /// The event with the given code, if there is one.
    pub fn from_code(code: u16) -> (r: Option<Event>)
        ensures
            r matches Some(e) ==> event_code(e) == code,
            r is None <==> (code == 2 || code >= 15),
    {
        match code {
            0 => Some(Event::Normal),
            1 => Some(Event::Christmas),
            3 => Some(Event::Valentines),
            4 => Some(Event::Easter),
            5 => Some(Event::Halloween),
            6 => Some(Event::Sonic),
            7 => Some(Event::NewYears),
            8 => Some(Event::Spring),
            9 => Some(Event::WhiteDay),
            10 => Some(Event::Wedding),
            11 => Some(Event::Autumn),
            12 => Some(Event::Flags),
            13 => Some(Event::SpringFlag),
            14 => Some(Event::AltNormal),
            _ => None,
        }
    }
}

} // verus!
