//! Information about passenger trains and routes of JSCo "RZD".
//!
//! A search is described by a value that knows how to phrase its requests and
//! how to read the replies; the client decides, reply by reply, what has to be
//! sent next and what the search has found.

use vstd::prelude::*;

pub mod client;
pub mod cookies;
pub mod date;
pub mod error;
pub mod format;
pub mod json;
pub mod list;
pub mod reply;
pub mod station_codes;
pub mod messages;
pub mod query;
pub mod text;
pub mod train_info;
pub mod train_schedule;
pub mod trip_info;

pub use crate::client::{RzdClient, RzdClientInterface, RzdQueryType, RzdRequestId};
pub use crate::date::{parse_train_date, parse_train_time, TrainDate, TrainTime};
pub use crate::error::{Error, RzdErrors};
pub use crate::format::Text;
pub use crate::list::ResultList;
pub use crate::reply::ReplyResult;
pub use crate::station_codes::{StationCodeSearch, StationItem};
pub use crate::train_info::{TrainItem, TrainSearch};
pub use crate::train_schedule::{Route, TrainScheduleSearch};
pub use crate::trip_info::{TripStations, TripStopsSearch};

verus! {

/// Direction of the route.
#[derive(Copy, Clone, PartialEq, Eq, Structural)]
pub enum RouteDirection {
    OneWay,
    RoundTrip,
}

impl RouteDirection {
    /// The number by which the server knows the direction.
    pub open spec fn spec_code(self) -> u8 {
        match self {
            RouteDirection::OneWay => 0,
            RouteDirection::RoundTrip => 1,
        }
    }

    /// The number by which the server knows the direction.
    #[verifier::when_used_as_spec(spec_code)]
    pub fn code(self) -> (r: u8)
        ensures
            r == self.spec_code(),
    {
        match self {
            RouteDirection::OneWay => 0,
            RouteDirection::RoundTrip => 1,
        }
    }
}

/// Type of the trains.
#[derive(Copy, Clone, PartialEq, Eq, Structural)]
pub enum TrainType {
    /// Long-distance trains.
    Train,
    /// Suburban electric trains.
    ElectricTrain,
    /// All kinds of the trains.
    AllTrains,
}

impl TrainType {
    /// The number by which the server knows the type.
    pub open spec fn spec_code(self) -> u8 {
        match self {
            TrainType::Train => 1,
            TrainType::ElectricTrain => 2,
            TrainType::AllTrains => 3,
        }
    }

    /// The number by which the server knows the type.
    #[verifier::when_used_as_spec(spec_code)]
    pub fn code(self) -> (r: u8)
        ensures
            r == self.spec_code(),
    {
        match self {
            TrainType::Train => 1,
            TrainType::ElectricTrain => 2,
            TrainType::AllTrains => 3,
        }
    }
}

/// What trains should it search, with free seats only or any train?
#[derive(Copy, Clone, PartialEq, Eq, Structural)]
pub enum ShowSeats {
    /// Trains with free seats only.
    FreeOnly,
    /// All trains.
    All,
}

/// The list of stations that a search for station codes finds.
pub type StationList = ResultList<StationItem>;

/// The list of routes that a search for a schedule finds.
pub type RouteList = ResultList<Route>;

/// The list of trains that a search for a train finds.
pub type TrainInfoList = ResultList<TrainItem>;

/// A digital designation of the station used by RZD.
#[derive(Debug, Copy, Clone, PartialEq, Eq, Structural)]
pub struct RzdStationCode(pub u32);

impl RzdStationCode {
    /// Creates a new item from the digits.
    pub fn new(code: u32) -> (r: Self)
        ensures
            r.0 == code,
    {
        RzdStationCode(code)
    }

    /// Performs the conversion into digits.
    pub fn to_uint(&self) -> (r: u32)
        ensures
            r == self.0,
    {
        self.0
    }

    /// The code in decimal digits.
    pub fn to_string(&self) -> (r: String)
        ensures
            r@ == crate::text::digits_of(self.0 as nat),
    {
        crate::text::number_to_string(self.0 as u64)
    }

    /// Reads a code written in decimal digits.
    pub fn parse(s: &str) -> (r: Result<Self, Error>)
        ensures
            match crate::text::parsed_u32(s@) {
                Some(n) => r == Ok::<Self, Error>(RzdStationCode(n)),
                None => r matches Err(Error::ParseStationCodeError(t)) && t@ == s@,
            },
    {
        match crate::text::parse_u32(s) {
            Some(n) => Ok(RzdStationCode(n)),
            None => Err(Error::ParseStationCodeError(String::from_str(s))),
        }
    }
}

impl core::str::FromStr for RzdStationCode {
    type Err = Error;

    /// Reads a code written in decimal digits, as `RzdStationCode::parse`
    /// does.
    fn from_str(s: &str) -> (r: Result<Self, Error>)
        ensures
            match crate::text::parsed_u32(s@) {
                Some(n) => r == Ok::<Self, Error>(RzdStationCode(n)),
                None => r matches Err(Error::ParseStationCodeError(t)) && t@ == s@,
            },
    {
        RzdStationCode::parse(s)
    }
}

impl Default for RzdStationCode {
    fn default() -> (r: Self)
        ensures
            r.0 == 0,
    {
        RzdStationCode(0)
    }
}

/// The code that `s` writes in decimal digits; the code 0 where it writes none.
pub open spec fn station_code_of(s: Seq<char>) -> RzdStationCode {
    match crate::text::parsed_u32(s) {
        Some(n) => RzdStationCode(n),
        None => RzdStationCode(0),
    }
}

/// Reads a code as `RzdStationCode::parse` does; the code 0 where that fails.
pub fn parse_station_code(s: &str) -> (r: RzdStationCode)
    ensures
        r == station_code_of(s@),
{
    match RzdStationCode::parse(s) {
        Ok(c) => c,
        Err(_) => RzdStationCode(0),
    }
}

} // verus!
