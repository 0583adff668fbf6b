//! The schedule of the trains between two stations on a date.

use crate::client::{asks_again, RzdClientInterface, RzdQueryType, RzdRequestId};
use crate::date::{date_text, parse_train_date, parse_train_time, TrainDate, TrainTime};
use crate::error::{Error, RzdErrors};
use crate::format::{
    all_lines, date_or_nothing, push_date, push_lines, push_time, texts_of, time_or_nothing, Text,
};
use crate::json::{
    is_shape_error, list_at, list_field, number_at, number_field, parsed_json, text_at,
    text_field, Json,
};
use crate::list::ResultList;
use crate::messages::{
    all_kept_messages, append_kept, are_messages, kept_messages, messages_of, read_messages,
};
use crate::reply::{id_outcome, list_outcome, ReplyResult};
use crate::text::{digits_of, number_to_string, push_number, views_of};
use crate::{RouteDirection, RzdStationCode, ShowSeats, TrainType};
use vstd::prelude::*;

verus! {

/// Number of free seats on the train and seat type info.
#[derive(Debug, Clone, PartialEq)]
pub struct SeatsInfo {
    pub free_seats: u32,
    pub seats_type: String,
}

impl SeatsInfo {
    /// Returns the number of free seats.
    pub fn free_seats_number(&self) -> (r: u32)
        ensures
            r == self.free_seats,
    {
        self.free_seats
    }

    /// Returns the seat type.
    pub fn seats_type(&self) -> (r: &str)
        ensures
            r@ == self.seats_type@,
    {
        self.seats_type.as_str()
    }
}

/// Train info.
#[derive(Debug, Clone, PartialEq)]
pub struct TrainInfo {
    pub train_number: String,
    pub train_brand: String,
    pub train_type: String,
    pub leaving_route: String,
    pub leaving_route_code: RzdStationCode,
    pub arriving_route: String,
    pub arriving_route_code: RzdStationCode,
    pub leaving_station: String,
    pub leaving_date: Option<TrainDate>,
    pub leaving_time: Option<TrainTime>,
    pub arriving_station: String,
    pub arriving_date: Option<TrainDate>,
    pub arriving_time: Option<TrainTime>,
    pub trip_duration: Option<TrainTime>,
    pub stops: String,
    pub seats: ResultList<SeatsInfo>,
}

impl TrainInfo {
    /// Returns the train number.
    pub fn train_number(&self) -> (r: &str)
        ensures
            r@ == self.train_number@,
    {
        self.train_number.as_str()
    }

    /// Returns the brand name of the train.
    pub fn brand(&self) -> (r: &str)
        ensures
            r@ == self.train_brand@,
    {
        self.train_brand.as_str()
    }

    /// Returns the train type.
    pub fn train_type(&self) -> (r: &str)
        ensures
            r@ == self.train_type@,
    {
        self.train_type.as_str()
    }

    /// Returns the name of the departure station along the train route.
    pub fn leaving_route(&self) -> (r: &str)
        ensures
            r@ == self.leaving_route@,
    {
        self.leaving_route.as_str()
    }

    /// Returns the RZD code of the departure station along the train route.
    pub fn leaving_route_code(&self) -> (r: RzdStationCode)
        ensures
            r == self.leaving_route_code,
    {
        self.leaving_route_code
    }

    /// Returns the name of the arrival station along the train route.
    pub fn arriving_route(&self) -> (r: &str)
        ensures
            r@ == self.arriving_route@,
    {
        self.arriving_route.as_str()
    }

    /// Returns the RZD code of the arrival station along the train route.
    pub fn arriving_route_code(&self) -> (r: RzdStationCode)
        ensures
            r == self.arriving_route_code,
    {
        self.arriving_route_code
    }

    /// Returns the name of the departure station.
    pub fn leaving_station(&self) -> (r: &str)
        ensures
            r@ == self.leaving_station@,
    {
        self.leaving_station.as_str()
    }

    /// Returns the departure date of the train.
    pub fn leaving_date(&self) -> (r: Option<TrainDate>)
        ensures
            r == self.leaving_date,
    {
        self.leaving_date
    }

    /// Returns the departure time of the train.
    pub fn leaving_time(&self) -> (r: Option<TrainTime>)
        ensures
            r == self.leaving_time,
    {
        self.leaving_time
    }

    /// Returns the name of the arrival station.
    pub fn arriving_station(&self) -> (r: &str)
        ensures
            r@ == self.arriving_station@,
    {
        self.arriving_station.as_str()
    }

    /// Returns the arrival date of the train.
    pub fn arriving_date(&self) -> (r: Option<TrainDate>)
        ensures
            r == self.arriving_date,
    {
        self.arriving_date
    }

    /// Returns the arrival time of the train.
    pub fn arriving_time(&self) -> (r: Option<TrainTime>)
        ensures
            r == self.arriving_time,
    {
        self.arriving_time
    }

    /// Returns the duration of the trip.
    pub fn trip_duration(&self) -> (r: Option<TrainTime>)
        ensures
            r == self.trip_duration,
    {
        self.trip_duration
    }

    /// Returns the train stops.
    pub fn stops(&self) -> (r: &str)
        ensures
            r@ == self.stops@,
    {
        self.stops.as_str()
    }

    /// Returns the immutable list of seats on the train.
    pub fn seats(&self) -> (r: &ResultList<SeatsInfo>)
        ensures
            *r == self.seats,
    {
        &self.seats
    }

    /// Returns the mutable list of seats on the train.
    pub fn seats_mut(&mut self) -> (r: &mut ResultList<SeatsInfo>)
        ensures
            *r == old(self).seats,
            *final(self) == (TrainInfo { seats: *final(r), ..*old(self) }),
    {
        &mut self.seats
    }
}

/// Info about the route and available trains.
#[derive(Debug, Clone, PartialEq)]
pub struct Route {
    pub leaving_name: String,
    pub leaving_code: RzdStationCode,
    pub arriving_name: String,
    pub arriving_code: RzdStationCode,
    pub trains: ResultList<TrainInfo>,
}

impl Route {
    /// Returns the name of the departure station.
    pub fn leaving_station_name(&self) -> (r: &str)
        ensures
            r@ == self.leaving_name@,
    {
        self.leaving_name.as_str()
    }

    /// Returns the RZD code of the departure station.
    pub fn leaving_station_code(&self) -> (r: RzdStationCode)
        ensures
            r == self.leaving_code,
    {
        self.leaving_code
    }

    /// Returns the name of the arrival station.
    pub fn arriving_station_name(&self) -> (r: &str)
        ensures
            r@ == self.arriving_name@,
    {
        self.arriving_name.as_str()
    }

    /// Returns the RZD code of the arrival station.
    pub fn arriving_station_code(&self) -> (r: RzdStationCode)
        ensures
            r == self.arriving_code,
    {
        self.arriving_code
    }

    /// Returns the immutable list of trains.
    pub fn trains(&self) -> (r: &ResultList<TrainInfo>)
        ensures
            *r == self.trains,
    {
        &self.trains
    }

    /// Returns the mutable list of trains.
    pub fn trains_mut(&mut self) -> (r: &mut ResultList<TrainInfo>)
        ensures
            *r == old(self).trains,
            *final(self) == (Route { trains: *final(r), ..*old(self) }),
    {
        &mut self.trains
    }
}

impl Default for Route {
    fn default() -> (r: Self)
        ensures
            r.leaving_name@.len() == 0,
            r.leaving_code.0 == 0,
            r.arriving_name@.len() == 0,
            r.arriving_code.0 == 0,
            r.trains.items().len() == 0,
    {
        Route {
            leaving_name: String::new(),
            leaving_code: RzdStationCode(0),
            arriving_name: String::new(),
            arriving_code: RzdStationCode(0),
            trains: ResultList(Vec::new()),
        }
    }
}

impl Text for SeatsInfo {
    /// The number of the free seats and their kind.
    open spec fn text(&self) -> Seq<char> {
        digits_of(self.free_seats as nat) + " "@ + self.seats_type@
    }

    fn to_text(&self) -> (r: String) {
        let mut out = number_to_string(self.free_seats as u64);
        out.append(" ");
        out.append(self.seats_type.as_str());
        out
    }
}

impl Text for TrainInfo {
    /// The train, its route, its departure and arrival, and its seats, line by line.
    open spec fn text(&self) -> Seq<char> {
        "Поезд № \""@ + self.train_number@ + "\" "@ + self.train_brand@ + " "@ + self.train_type@ + "\n"@ + "по маршруту \""@ + self.leaving_route@ + "\" "@ + digits_of(self.leaving_route_code.0 as nat) + " - \""@ + self.arriving_route@ + "\" "@ + digits_of(self.arriving_route_code.0 as nat) + "\n"@ + "\tотправление от \""@ + self.leaving_station@ + "\": "@ + date_or_nothing(self.leaving_date) + " "@ + time_or_nothing(self.leaving_time) + "\n"@ + "\tприбытие в \""@ + self.arriving_station@ + "\": "@ + date_or_nothing(self.arriving_date) + " "@ + time_or_nothing(self.arriving_time) + "\n"@ + "\tвремя в пути: "@ + time_or_nothing(self.trip_duration) + "\n"@ + "\tостановки: "@ + self.stops@ + "\n"@ + "\tместа:\n"@ + all_lines(texts_of(self.seats.items()), "\t\t"@, "\n"@)
    }

    fn to_text(&self) -> (r: String) {
        let mut out = String::from_str("Поезд № \"");
        out.append(self.train_number.as_str());
        out.append("\" ");
        out.append(self.train_brand.as_str());
        out.append(" ");
        out.append(self.train_type.as_str());
        out.append("\n");
        out.append("по маршруту \"");
        out.append(self.leaving_route.as_str());
        out.append("\" ");
        push_number(&mut out, self.leaving_route_code.0 as u64);
        out.append(" - \"");
        out.append(self.arriving_route.as_str());
        out.append("\" ");
        push_number(&mut out, self.arriving_route_code.0 as u64);
        out.append("\n");
        out.append("\tотправление от \"");
        out.append(self.leaving_station.as_str());
        out.append("\": ");
        push_date(&mut out, self.leaving_date);
        out.append(" ");
        push_time(&mut out, self.leaving_time);
        out.append("\n");
        out.append("\tприбытие в \"");
        out.append(self.arriving_station.as_str());
        out.append("\": ");
        push_date(&mut out, self.arriving_date);
        out.append(" ");
        push_time(&mut out, self.arriving_time);
        out.append("\n");
        out.append("\tвремя в пути: ");
        push_time(&mut out, self.trip_duration);
        out.append("\n");
        out.append("\tостановки: ");
        out.append(self.stops.as_str());
        out.append("\n");
        out.append("\tместа:\n");
        push_lines(&mut out, &self.seats.0, "\t\t", "\n");
        out
    }
}

impl Text for Route {
    /// The two stations of the route, and its trains, each followed by an empty line.
    open spec fn text(&self) -> Seq<char> {
        "Маршрут из \""@ + self.leaving_name@ + "\" "@ + digits_of(self.leaving_code.0 as nat) + " в \""@ + self.arriving_name@ + "\" "@ + digits_of(self.arriving_code.0 as nat) + "\n\n"@ + all_lines(texts_of(self.trains.items()), ""@, "\n"@)
    }

    fn to_text(&self) -> (r: String) {
        let mut out = String::from_str("Маршрут из \"");
        out.append(self.leaving_name.as_str());
        out.append("\" ");
        push_number(&mut out, self.leaving_code.0 as u64);
        out.append(" в \"");
        out.append(self.arriving_name.as_str());
        out.append("\" ");
        push_number(&mut out, self.arriving_code.0 as u64);
        out.append("\n\n");
        push_lines(&mut out, &self.trains.0, "", "\n");
        out
    }
}

/// Whether `j` is laid out as a kind of seats of a train: an object with the
/// texts and numbers that `is_seats` reads.
pub open spec fn seats_shape(j: Json) -> bool {
    &&& j.fields() matches Some(f)
    &&& text_at(f, "car_type"@, "typeLoc"@) is Some
    &&& number_at(f, "free_seats"@, "freeSeats"@, u32::MAX as u64) is Some
}

/// Whether `s` is what `j` says of a kind of seats.
pub open spec fn is_seats(j: Json, s: SeatsInfo) -> bool {
    let f = j.fields().unwrap();
    &&& s.seats_type@ == text_at(f, "car_type"@, "typeLoc"@).unwrap()
    &&& s.free_seats == number_at(f, "free_seats"@, "freeSeats"@, u32::MAX as u64).unwrap()
}

/// Reads a kind of seats of a train.
pub fn read_seats(j: &Json) -> (r: Result<SeatsInfo, Error>)
    ensures
        if seats_shape(*j) {
            r matches Ok(s) && is_seats(*j, s)
        } else {
            r matches Err(e) && is_shape_error(e)
        },
{
    let f = j.as_object()?;
    let seats_type = text_field(f, "car_type", "typeLoc")?;
    let free_seats = number_field(f, "free_seats", "freeSeats", 0xffff_ffff)?;
    Ok(SeatsInfo { free_seats: free_seats as u32, seats_type })
}


/// Whether each item is laid out as a kind of seats.
pub open spec fn each_seats_shape(items: Seq<Json>) -> bool {
    forall|i: int| 0 <= i < items.len() ==> seats_shape(#[trigger] items[i])
}

/// Whether `out` is what the items say of the kinds of seats, item by item.
pub open spec fn are_seats(items: Seq<Json>, out: Seq<SeatsInfo>) -> bool {
    &&& out.len() == items.len()
    &&& forall|i: int| 0 <= i < items.len() ==> is_seats(items[i], #[trigger] out[i])
}

/// Reads the kinds of seats of a train.
pub fn read_seats_list(items: Option<&Vec<Json>>) -> (r: Result<Vec<SeatsInfo>, Error>)
    ensures
        match items {
            Some(v) => if each_seats_shape(v@) {
                r matches Ok(out) && are_seats(v@, out@)
            } else {
                r matches Err(e) && is_shape_error(e)
            },
            None => r matches Ok(out) && out@.len() == 0,
        },
{
    let mut out: Vec<SeatsInfo> = Vec::new();
    match items {
        None => {},
        Some(v) => {
            let n: usize = v.len();
            let mut i: usize = 0;
            while i < n
                invariant
                    n == v@.len(),
                    i <= n,
                    items == Some(v),
                    out@.len() == i,
                    forall|k: int| 0 <= k < i ==> seats_shape(#[trigger] v@[k]),
                    forall|k: int| 0 <= k < i ==> is_seats(v@[k], #[trigger] out@[k]),
                decreases n - i,
            {
                let x = match read_seats(&v[i]) {
                    Ok(x) => x,
                    Err(e) => {
                        return Err(e);
                    },
                };
                out.push(x);
                i += 1;
            }
        },
    }
    Ok(out)
}

/// Whether `j` is laid out as a train of the schedule: an object with the
/// texts, numbers and seats that `is_train` reads.
pub open spec fn train_shape(j: Json) -> bool {
    &&& j.fields() matches Some(f)
    &&& text_at(f, "number"@, "number"@) is Some
    &&& text_at(f, "brand"@, "brand"@) is Some
    &&& text_at(f, "carrier"@, "carrier"@) is Some
    &&& text_at(f, "route0"@, "route0"@) is Some
    &&& text_at(f, "route1"@, "route1"@) is Some
    &&& number_at(f, "route_code0"@, "routeCode0"@, u32::MAX as u64) is Some
    &&& number_at(f, "route_code1"@, "routeCode1"@, u32::MAX as u64) is Some
    &&& text_at(f, "station0"@, "station0"@) is Some
    &&& text_at(f, "station1"@, "station1"@) is Some
    &&& text_at(f, "date0"@, "date0"@) is Some
    &&& text_at(f, "time0"@, "time0"@) is Some
    &&& text_at(f, "date1"@, "date1"@) is Some
    &&& text_at(f, "time1"@, "time1"@) is Some
    &&& text_at(f, "trip_duration"@, "timeInWay"@) is Some
    &&& text_at(f, "st_list"@, "stList"@) is Some
    &&& list_at(f, "cars"@, "cars"@) matches Some(cars)
    &&& each_seats_shape(cars)
}

/// Whether `t` is what `j` says of a train of the schedule. The dates and
/// times are read from their texts.
pub open spec fn is_train(j: Json, t: TrainInfo) -> bool {
    let f = j.fields().unwrap();
    &&& t.train_number@ == text_at(f, "number"@, "number"@).unwrap()
    &&& t.train_brand@ == text_at(f, "brand"@, "brand"@).unwrap()
    &&& t.train_type@ == text_at(f, "carrier"@, "carrier"@).unwrap()
    &&& t.leaving_route@ == text_at(f, "route0"@, "route0"@).unwrap()
    &&& t.arriving_route@ == text_at(f, "route1"@, "route1"@).unwrap()
    &&& t.leaving_route_code.0 == number_at(f, "route_code0"@, "routeCode0"@, u32::MAX as u64).unwrap()
    &&& t.arriving_route_code.0 == number_at(f, "route_code1"@, "routeCode1"@, u32::MAX as u64).unwrap()
    &&& t.leaving_station@ == text_at(f, "station0"@, "station0"@).unwrap()
    &&& t.arriving_station@ == text_at(f, "station1"@, "station1"@).unwrap()
    &&& TrainDate::is_parsed(text_at(f, "date0"@, "date0"@).unwrap(), t.leaving_date)
    &&& TrainTime::is_parsed(text_at(f, "time0"@, "time0"@).unwrap(), t.leaving_time)
    &&& TrainDate::is_parsed(text_at(f, "date1"@, "date1"@).unwrap(), t.arriving_date)
    &&& TrainTime::is_parsed(text_at(f, "time1"@, "time1"@).unwrap(), t.arriving_time)
    &&& TrainTime::is_parsed(text_at(f, "trip_duration"@, "timeInWay"@).unwrap(), t.trip_duration)
    &&& t.stops@ == text_at(f, "st_list"@, "stList"@).unwrap()
    &&& are_seats(list_at(f, "cars"@, "cars"@).unwrap(), t.seats.items())
}

/// Reads a train of the schedule.
pub fn read_train(j: &Json) -> (r: Result<TrainInfo, Error>)
    ensures
        if train_shape(*j) {
            r matches Ok(t) && is_train(*j, t)
        } else {
            r matches Err(e) && is_shape_error(e)
        },
{
    let f = j.as_object()?;
    let train_number = text_field(f, "number", "number")?;
    let train_brand = text_field(f, "brand", "brand")?;
    let train_type = text_field(f, "carrier", "carrier")?;
    let leaving_route = text_field(f, "route0", "route0")?;
    let arriving_route = text_field(f, "route1", "route1")?;
    let code0 = number_field(f, "route_code0", "routeCode0", 0xffff_ffff)?;
    let code1 = number_field(f, "route_code1", "routeCode1", 0xffff_ffff)?;
    let leaving_station = text_field(f, "station0", "station0")?;
    let arriving_station = text_field(f, "station1", "station1")?;
    let date0 = text_field(f, "date0", "date0")?;
    let time0 = text_field(f, "time0", "time0")?;
    let date1 = text_field(f, "date1", "date1")?;
    let time1 = text_field(f, "time1", "time1")?;
    let duration = text_field(f, "trip_duration", "timeInWay")?;
    let stops = text_field(f, "st_list", "stList")?;
    let cars = list_field(f, "cars", "cars")?;
    let seats = read_seats_list(cars)?;
    Ok(
        TrainInfo {
            train_number,
            train_brand,
            train_type,
            leaving_route,
            leaving_route_code: RzdStationCode(code0 as u32),
            arriving_route,
            arriving_route_code: RzdStationCode(code1 as u32),
            leaving_station,
            leaving_date: parse_train_date(date0.as_str()),
            leaving_time: parse_train_time(time0.as_str()),
            arriving_station,
            arriving_date: parse_train_date(date1.as_str()),
            arriving_time: parse_train_time(time1.as_str()),
            trip_duration: parse_train_time(duration.as_str()),
            stops,
            seats: ResultList(seats),
        },
    )
}

/// Whether each item is laid out as a train of the schedule.
pub open spec fn each_train_shape(items: Seq<Json>) -> bool {
    forall|i: int| 0 <= i < items.len() ==> train_shape(#[trigger] items[i])
}

/// Whether `out` is what the items say of the trains, item by item.
pub open spec fn are_trains(items: Seq<Json>, out: Seq<TrainInfo>) -> bool {
    &&& out.len() == items.len()
    &&& forall|i: int| 0 <= i < items.len() ==> is_train(items[i], #[trigger] out[i])
}

/// Reads the trains of a route.
pub fn read_trains(items: Option<&Vec<Json>>) -> (r: Result<Vec<TrainInfo>, Error>)
    ensures
        match items {
            Some(v) => if each_train_shape(v@) {
                r matches Ok(out) && are_trains(v@, out@)
            } else {
                r matches Err(e) && is_shape_error(e)
            },
            None => r matches Ok(out) && out@.len() == 0,
        },
{
    let mut out: Vec<TrainInfo> = Vec::new();
    match items {
        None => {},
        Some(v) => {
            let n: usize = v.len();
            let mut i: usize = 0;
            while i < n
                invariant
                    n == v@.len(),
                    i <= n,
                    items == Some(v),
                    out@.len() == i,
                    forall|k: int| 0 <= k < i ==> train_shape(#[trigger] v@[k]),
                    forall|k: int| 0 <= k < i ==> is_train(v@[k], #[trigger] out@[k]),
                decreases n - i,
            {
                let x = match read_train(&v[i]) {
                    Ok(x) => x,
                    Err(e) => {
                        return Err(e);
                    },
                };
                out.push(x);
                i += 1;
            }
        },
    }
    Ok(out)
}


/// One entry of a reply with the schedule: a route with its trains, and the
/// messages that the server gave in place of trains or beside them.
#[derive(Debug, PartialEq)]
pub struct RouteGroup {
    pub route: Route,
    pub messages: Vec<String>,
}

/// Whether `j` is laid out as an entry of a reply with the schedule.
pub open spec fn group_shape(j: Json) -> bool {
    &&& j.fields() matches Some(f)
    &&& text_at(f, "from_name"@, "from"@) is Some
    &&& number_at(f, "from_code"@, "fromCode"@, u32::MAX as u64) is Some
    &&& text_at(f, "to_name"@, "where"@) is Some
    &&& number_at(f, "to_code"@, "whereCode"@, u32::MAX as u64) is Some
    &&& list_at(f, "list"@, "list"@) matches Some(trains)
    &&& each_train_shape(trains)
    &&& list_at(f, "messages"@, "msgList"@) matches Some(messages)
    &&& are_messages(messages)
}

/// Whether `g` is what `j` says of a route, its trains and its messages.
pub open spec fn is_group(j: Json, g: RouteGroup) -> bool {
    let f = j.fields().unwrap();
    &&& g.route.leaving_name@ == text_at(f, "from_name"@, "from"@).unwrap()
    &&& g.route.leaving_code.0 == number_at(f, "from_code"@, "fromCode"@, u32::MAX as u64).unwrap()
    &&& g.route.arriving_name@ == text_at(f, "to_name"@, "where"@).unwrap()
    &&& g.route.arriving_code.0 == number_at(f, "to_code"@, "whereCode"@, u32::MAX as u64).unwrap()
    &&& are_trains(list_at(f, "list"@, "list"@).unwrap(), g.route.trains.items())
    &&& views_of(g.messages@) == messages_of(list_at(f, "messages"@, "msgList"@).unwrap())
}

/// Reads an entry of a reply with the schedule.
pub fn read_group(j: &Json) -> (r: Result<RouteGroup, Error>)
    ensures
        if group_shape(*j) {
            r matches Ok(g) && is_group(*j, g)
        } else {
            r matches Err(e) && is_shape_error(e)
        },
{
    let f = j.as_object()?;
    let leaving_name = text_field(f, "from_name", "from")?;
    let leaving_code = number_field(f, "from_code", "fromCode", 0xffff_ffff)?;
    let arriving_name = text_field(f, "to_name", "where")?;
    let arriving_code = number_field(f, "to_code", "whereCode", 0xffff_ffff)?;
    let list = list_field(f, "list", "list")?;
    let trains = read_trains(list)?;
    let msg_list = list_field(f, "messages", "msgList")?;
    let messages = read_messages(msg_list)?;
    proof {
        if msg_list is None {
            assert(views_of(messages@) =~= messages_of(
                list_at(f@, "messages"@, "msgList"@).unwrap(),
            ));
        }
    }
    Ok(
        RouteGroup {
            route: Route {
                leaving_name,
                leaving_code: RzdStationCode(leaving_code as u32),
                arriving_name,
                arriving_code: RzdStationCode(arriving_code as u32),
                trains: ResultList(trains),
            },
            messages,
        },
    )
}

/// A reply with the schedule, as the server laid it out: what it says of its
/// own outcome, and its entries.
#[derive(Debug, PartialEq)]
pub struct ScheduleAnswer {
    pub result: String,
    pub groups: Vec<RouteGroup>,
}

/// Whether each item is laid out as an entry of a reply with the schedule.
pub open spec fn each_group_shape(items: Seq<Json>) -> bool {
    forall|i: int| 0 <= i < items.len() ==> group_shape(#[trigger] items[i])
}

/// Whether `out` is what the items say of the entries, item by item.
pub open spec fn are_groups(items: Seq<Json>, out: Seq<RouteGroup>) -> bool {
    &&& out.len() == items.len()
    &&& forall|i: int| 0 <= i < items.len() ==> is_group(items[i], #[trigger] out[i])
}

/// Whether `j` is laid out as a reply with the schedule.
pub open spec fn answer_shape(j: Json) -> bool {
    &&& j.fields() matches Some(f)
    &&& text_at(f, "result"@, "result"@) is Some
    &&& list_at(f, "tp"@, "tp"@) matches Some(groups)
    &&& each_group_shape(groups)
}

/// Whether `a` is what `j` says as a reply with the schedule.
pub open spec fn is_answer(j: Json, a: ScheduleAnswer) -> bool {
    let f = j.fields().unwrap();
    &&& a.result@ == text_at(f, "result"@, "result"@).unwrap()
    &&& are_groups(list_at(f, "tp"@, "tp"@).unwrap(), a.groups@)
}

/// Reads a reply with the schedule as the server laid it out.
pub fn read_answer(j: &Json) -> (r: Result<ScheduleAnswer, Error>)
    ensures
        if answer_shape(*j) {
            r matches Ok(a) && is_answer(*j, a)
        } else {
            r matches Err(e) && is_shape_error(e)
        },
{
    let f = j.as_object()?;
    let result = text_field(f, "result", "result")?;
    let tp = list_field(f, "tp", "tp")?;
    let mut groups: Vec<RouteGroup> = Vec::new();
    match tp {
        None => {},
        Some(v) => {
            let n: usize = v.len();
            let mut i: usize = 0;
            while i < n
                invariant
                    n == v@.len(),
                    i <= n,
                    list_at(f@, "tp"@, "tp"@) == Some(v@),
                    j.fields() == Some(f@),
                    groups@.len() == i,
                    forall|k: int| 0 <= k < i ==> group_shape(#[trigger] v@[k]),
                    forall|k: int| 0 <= k < i ==> is_group(v@[k], #[trigger] groups@[k]),
                decreases n - i,
            {
                let x = match read_group(&v[i]) {
                    Ok(x) => x,
                    Err(e) => {
                        return Err(e);
                    },
                };
                groups.push(x);
                i += 1;
            }
        },
    }
    Ok(ScheduleAnswer { result, groups })
}

/// The first entry at or after `i` that has no trains; the number of entries
/// where each has some.
pub open spec fn first_failed(groups: Seq<RouteGroup>, i: int) -> int
    decreases groups.len() - i,
{
    if 0 <= i < groups.len() && groups[i].route.trains.items().len() > 0 {
        first_failed(groups, i + 1)
    } else {
        i
    }
}

/// The lists of messages of the entries, entry by entry.
pub open spec fn group_messages(groups: Seq<RouteGroup>) -> Seq<Seq<Seq<char>>> {
    Seq::new(groups.len(), |i: int| views_of(groups[i].messages@))
}

/// The routes of the entries, entry by entry.
pub open spec fn group_routes(groups: Seq<RouteGroup>) -> Seq<Route> {
    Seq::new(groups.len(), |i: int| groups[i].route)
}

/// What a reply with the schedule comes to.
///
/// A reply that calls itself `RID` brings an identifier again in place of the
/// data: the answer is not ready. Any other reply that does not call itself
/// `OK` is a bad reply. One that does brings
/// its routes, if each of its entries has trains. If not, the first entry
/// without trains makes the whole reply an error: the routes are dropped, also
/// those before it, and the error carries the messages that are kept of that
/// entry and of all that follow it.
pub open spec fn is_schedule_reply(a: ScheduleAnswer, r: ReplyResult<Vec<Route>>) -> bool {
    if a.result@ == "RID"@ {
        r matches ReplyResult::Fail(Error::RzdReplyNotReady)
    } else if a.result@ != "OK"@ {
        r matches ReplyResult::Fail(Error::FailRzdResponse)
    } else {
        let k = first_failed(a.groups@, 0);
        if k >= a.groups@.len() {
            r matches ReplyResult::Success(v) && v@ == group_routes(a.groups@)
        } else {
            r matches ReplyResult::Fail(Error::RzdError(e)) && e.messages() == all_kept_messages(
                group_messages(a.groups@).skip(k),
            )
        }
    }
}

pub proof fn lemma_first_failed_bounds(groups: Seq<RouteGroup>, i: int)
    requires
        0 <= i <= groups.len(),
    ensures
        i <= first_failed(groups, i) <= groups.len(),
    decreases groups.len() - i,
{
    if i < groups.len() && groups[i].route.trains.items().len() > 0 {
        lemma_first_failed_bounds(groups, i + 1);
    }
}

/// Says what a reply with the schedule comes to.
pub fn schedule_reply(answer: ScheduleAnswer) -> (r: ReplyResult<Vec<Route>>)
    ensures
        is_schedule_reply(answer, r),
{
    let ok = String::from_str("OK");
    if answer.result == String::from_str("RID") {
        return ReplyResult::Fail(Error::RzdReplyNotReady);
    }
    if answer.result != ok {
        return ReplyResult::Fail(Error::FailRzdResponse);
    }
    let ghost all = answer.groups@;
    let ghost lists = group_messages(all);
    let mut routes: Vec<Route> = Vec::new();
    let mut errors: Vec<String> = Vec::new();
    let mut is_error = false;
    let ghost mut k: int = 0;
    proof {
        assert(lists.subrange(0, 0) =~= Seq::<Seq<Seq<char>>>::empty());
    }
    for g in it: answer.groups
        invariant
            all == answer.groups@,
            lists == group_messages(all),
            0 <= it.index@ <= all.len(),
            !is_error ==> {
                &&& first_failed(all, 0) == first_failed(all, it.index@ as int)
                &&& routes@ == group_routes(all).take(it.index@ as int)
            },
            is_error ==> {
                &&& k == first_failed(all, 0)
                &&& 0 <= k < it.index@
                &&& views_of(errors@) == all_kept_messages(lists.subrange(k, it.index@ as int))
            },
            !is_error ==> errors@.len() == 0,
    {
        let ghost i = it.index@ as int;
        assert(g == all[i]);
        if is_error || g.route.trains.is_empty() {
            proof {
                if !is_error {
                    k = i;
                    assert(lists.subrange(k, i) =~= Seq::<Seq<Seq<char>>>::empty());
                    assert(views_of(errors@) =~= Seq::<Seq<char>>::empty());
                }
                assert(lists.subrange(k, i + 1).drop_last() =~= lists.subrange(k, i));
                assert(lists.subrange(k, i + 1).last() == views_of(g.messages@));
            }
            append_kept(&mut errors, &g.messages);
            is_error = true;
            assert(all_kept_messages(lists.subrange(k, i + 1)) == all_kept_messages(
                lists.subrange(k, i + 1).drop_last(),
            ) + kept_messages(lists.subrange(k, i + 1).last()));
        } else {
            routes.push(g.route);
            assert(routes@ =~= group_routes(all).take(i + 1));
        }
    }
    proof {
        lemma_first_failed_bounds(all, 0);
    }
    if is_error {
        assert(lists.subrange(k, all.len() as int) =~= lists.skip(k));
        ReplyResult::Fail(Error::RzdError(RzdErrors(errors)))
    } else {
        assert(group_routes(all).take(all.len() as int) =~= group_routes(all));
        ReplyResult::Success(routes)
    }
}


/// What reading a text as a reply with the schedule gives: the error of
/// serde_json where the text is no JSON, the error of an unexpected layout
/// where the JSON is no such reply, and else what the reply comes to.
pub open spec fn is_schedule_reply_of(
    text: Seq<char>,
    r: Result<ReplyResult<Vec<Route>>, Error>,
) -> bool {
    match parsed_json(text) {
        Ok(j) => if answer_shape(j) {
            r matches Ok(reply) && exists|a: ScheduleAnswer|
                is_answer(j, a) && is_schedule_reply(a, reply)
        } else {
            r matches Err(e) && is_shape_error(e)
        },
        Err(m) => r matches Err(Error::DeserializeError(s)) && s@ == m,
    }
}

/// Reads a text as a reply with the schedule.
pub fn read_schedule_reply(text: &str) -> (r: Result<ReplyResult<Vec<Route>>, Error>)
    ensures
        is_schedule_reply_of(text@, r),
{
    let j = Json::parse(text)?;
    let answer = read_answer(&j)?;
    Ok(schedule_reply(answer))
}

/// The reply to a request for the identifier of a schedule, as the server
/// laid it out: what it says of its own outcome, the identifier, and the
/// lists of messages.
#[derive(Debug, PartialEq)]
pub struct RidAnswer {
    pub result: String,
    pub rid: RzdRequestId,
    pub lists: Vec<Vec<String>>,
}

/// Whether `j` is laid out as a list of messages inside such a reply.
pub open spec fn message_list_shape(j: Json) -> bool {
    &&& j.fields() matches Some(f)
    &&& list_at(f, "msg_list"@, "msgList"@) matches Some(messages)
    &&& are_messages(messages)
}

/// The messages of a list of messages inside such a reply.
pub open spec fn message_list_of(j: Json) -> Seq<Seq<char>> {
    messages_of(list_at(j.fields().unwrap(), "msg_list"@, "msgList"@).unwrap())
}

/// Reads a list of messages inside such a reply.
pub fn read_message_list(j: &Json) -> (r: Result<Vec<String>, Error>)
    ensures
        if message_list_shape(*j) {
            r matches Ok(m) && views_of(m@) == message_list_of(*j)
        } else {
            r matches Err(e) && is_shape_error(e)
        },
{
    let f = j.as_object()?;
    let msg_list = list_field(f, "msg_list", "msgList")?;
    let messages = read_messages(msg_list)?;
    proof {
        if msg_list is None {
            assert(views_of(messages@) =~= message_list_of(*j));
        }
    }
    Ok(messages)
}

/// Whether each item is laid out as a list of messages inside such a reply.
pub open spec fn each_message_list_shape(items: Seq<Json>) -> bool {
    forall|i: int| 0 <= i < items.len() ==> message_list_shape(#[trigger] items[i])
}

/// Whether `j` is laid out as a reply to a request for an identifier.
pub open spec fn rid_answer_shape(j: Json) -> bool {
    &&& j.fields() matches Some(f)
    &&& text_at(f, "result"@, "result"@) is Some
    &&& number_at(f, "rid"@, "RID"@, u64::MAX) is Some
    &&& list_at(f, "tp"@, "tp"@) matches Some(lists)
    &&& each_message_list_shape(lists)
}

/// The lists of messages of a sequence of lists, by their characters.
pub open spec fn list_views(lists: Seq<Vec<String>>) -> Seq<Seq<Seq<char>>> {
    Seq::new(lists.len(), |i: int| views_of(lists[i]@))
}

/// Whether `a` is what `j` says as a reply to a request for an identifier.
pub open spec fn is_rid_answer(j: Json, a: RidAnswer) -> bool {
    let f = j.fields().unwrap();
    let lists = list_at(f, "tp"@, "tp"@).unwrap();
    &&& a.result@ == text_at(f, "result"@, "result"@).unwrap()
    &&& a.rid.0 == number_at(f, "rid"@, "RID"@, u64::MAX).unwrap()
    &&& list_views(a.lists@) == Seq::new(lists.len(), |i: int| message_list_of(lists[i]))
}

/// Reads a reply to a request for an identifier as the server laid it out.
pub fn read_rid_answer(j: &Json) -> (r: Result<RidAnswer, Error>)
    ensures
        if rid_answer_shape(*j) {
            r matches Ok(a) && is_rid_answer(*j, a)
        } else {
            r matches Err(e) && is_shape_error(e)
        },
{
    let f = j.as_object()?;
    let result = text_field(f, "result", "result")?;
    let rid = number_field(f, "rid", "RID", 0xffff_ffff_ffff_ffff)?;
    let tp = list_field(f, "tp", "tp")?;
    let mut lists: Vec<Vec<String>> = Vec::new();
    let ghost items = list_at(f@, "tp"@, "tp"@).unwrap();
    match tp {
        None => {},
        Some(v) => {
            let n: usize = v.len();
            let mut i: usize = 0;
            while i < n
                invariant
                    n == v@.len(),
                    i <= n,
                    list_at(f@, "tp"@, "tp"@) == Some(v@),
                    j.fields() == Some(f@),
                    lists@.len() == i,
                    forall|k: int| 0 <= k < i ==> message_list_shape(#[trigger] v@[k]),
                    forall|k: int|
                        0 <= k < i ==> views_of((#[trigger] lists@[k])@) == message_list_of(v@[k]),
                decreases n - i,
            {
                let messages = match read_message_list(&v[i]) {
                    Ok(m) => m,
                    Err(e) => {
                        return Err(e);
                    },
                };
                lists.push(messages);
                i += 1;
            }
        },
    }
    proof {
        assert(list_views(lists@) =~= Seq::new(items.len(), |i: int| message_list_of(items[i])));
    }
    Ok(RidAnswer { result, rid: RzdRequestId(rid), lists })
}

/// What a reply to a request for the identifier of a schedule comes to.
///
/// A reply that calls itself `RID` brings the identifier. One that calls
/// itself `OK` brings none: it is an error that carries the messages that are
/// kept of all its lists. Any other is a bad reply.
pub open spec fn is_rid_reply(a: RidAnswer, r: ReplyResult<RzdRequestId>) -> bool {
    if a.result@ == "RID"@ {
        r == ReplyResult::Success(a.rid)
    } else if a.result@ == "OK"@ {
        r matches ReplyResult::Fail(Error::RzdError(e)) && e.messages() == all_kept_messages(
            list_views(a.lists@),
        )
    } else {
        r matches ReplyResult::Fail(Error::FailRzdResponse)
    }
}

/// Says what a reply to a request for the identifier of a schedule comes to.
pub fn rid_reply(answer: RidAnswer) -> (r: ReplyResult<RzdRequestId>)
    ensures
        is_rid_reply(answer, r),
{
    if answer.result == String::from_str("RID") {
        ReplyResult::Success(answer.rid)
    } else if answer.result == String::from_str("OK") {
        let mut errors: Vec<String> = Vec::new();
        let n: usize = answer.lists.len();
        let mut i: usize = 0;
        let ghost all = list_views(answer.lists@);
        proof {
            assert(all.take(0) =~= Seq::<Seq<Seq<char>>>::empty());
            assert(views_of(errors@) =~= Seq::<Seq<char>>::empty());
        }
        while i < n
            invariant
                n == answer.lists@.len(),
                i <= n,
                all == list_views(answer.lists@),
                views_of(errors@) == all_kept_messages(all.take(i as int)),
            decreases n - i,
        {
            proof {
                assert(all.take(i + 1).drop_last() =~= all.take(i as int));
                assert(all.take(i + 1).last() == views_of(answer.lists@[i as int]@));
            }
            append_kept(&mut errors, &answer.lists[i]);
            i += 1;
        }
        proof {
            assert(all.take(n as int) =~= all);
        }
        ReplyResult::Fail(Error::RzdError(RzdErrors(errors)))
    } else {
        ReplyResult::Fail(Error::FailRzdResponse)
    }
}

/// What reading a text as a reply to a request for the identifier of a
/// schedule gives.
pub open spec fn is_rid_reply_of(text: Seq<char>, r: Result<ReplyResult<RzdRequestId>, Error>) -> bool {
    match parsed_json(text) {
        Ok(j) => if rid_answer_shape(j) {
            r matches Ok(reply) && exists|a: RidAnswer| is_rid_answer(j, a) && is_rid_reply(a, reply)
        } else {
            r matches Err(e) && is_shape_error(e)
        },
        Err(m) => r matches Err(Error::DeserializeError(s)) && s@ == m,
    }
}

/// Reads a text as a reply to a request for the identifier of a schedule.
pub fn read_rid_reply(text: &str) -> (r: Result<ReplyResult<RzdRequestId>, Error>)
    ensures
        is_rid_reply_of(text@, r),
{
    let j = Json::parse(text)?;
    let answer = read_rid_answer(&j)?;
    Ok(rid_reply(answer))
}


/// A reply to a request for the data that calls itself `RID` is read as an
/// answer that is not ready, whatever search it is read for, so that a client
/// that asks by identifier asks again.
pub proof fn lemma_identifier_again_is_not_ready(
    search: TrainScheduleSearch,
    body: Seq<char>,
    r: Result<Option<ResultList<Route>>, Error>,
)
    requires
        parsed_json(body) matches Ok(j) && answer_shape(j) && text_at(
            j.fields().unwrap(),
            "result"@,
            "result"@,
        ) == Some("RID"@),
        search.is_reply_data(body, r),
    ensures
        r matches Err(Error::RzdReplyNotReady),
        asks_again(r),
{
}

/// Schedule of trains search by departure and arrival station codes
/// and departure date.
pub struct TrainScheduleSearch {
    pub leaving_code: RzdStationCode,
    pub arriving_code: RzdStationCode,
    pub leaving_date: TrainDate,
    pub train_type: TrainType,
    pub check_seats: ShowSeats,
}

impl TrainScheduleSearch {
    /// Takes departure and arrival station codes, departure date.
    /// It needs to specify a train type, especially, for suburban trains searching.
    /// Search not all but only free seats would be preferred.
    pub fn new(
        leaving_code: RzdStationCode,
        arriving_code: RzdStationCode,
        leaving_date: TrainDate,
        train_type: TrainType,
        free_seats_only: bool,
    ) -> (r: Self)
        ensures
            r.leaving_code == leaving_code,
            r.arriving_code == arriving_code,
            r.leaving_date == leaving_date,
            r.train_type == train_type,
            r.check_seats == (if free_seats_only {
                ShowSeats::FreeOnly
            } else {
                ShowSeats::All
            }),
    {
        let check_seats = if free_seats_only {
            ShowSeats::FreeOnly
        } else {
            ShowSeats::All
        };
        TrainScheduleSearch { leaving_code, arriving_code, leaving_date, train_type, check_seats }
    }

    /// The departure date as the requests write it.
    pub open spec fn date(self) -> Seq<char> {
        date_text(self.leaving_date.year(), self.leaving_date.month(), self.leaving_date.day())
    }
}

impl RzdClientInterface<ResultList<Route>> for TrainScheduleSearch {
    /// Suburban trains are answered at once, the others after a request for
    /// an identifier.
    open spec fn spec_query_type(&self) -> RzdQueryType {
        match self.train_type {
            TrainType::ElectricTrain => RzdQueryType::Simple,
            _ => RzdQueryType::WithId,
        }
    }

    open spec fn spec_request_id(&self) -> Seq<char> {
        "https://pass.rzd.ru/timetable/public/ru?layer_id=5827&dir="@ + digits_of(RouteDirection::OneWay.spec_code() as nat) + "&tfl="@
            + digits_of(self.train_type.spec_code() as nat) + "&checkSeats="@ + (
        match self.check_seats {
            ShowSeats::All => "0&withoutSeats=y"@,
            ShowSeats::FreeOnly => "1"@,
        }) + "&code0="@ + digits_of(self.leaving_code.0 as nat) + "&dt0="@ + self.date()
            + "&code1="@ + digits_of(self.arriving_code.0 as nat)
    }

    open spec fn spec_request_data(&self, id: RzdRequestId) -> Seq<char> {
        if self.spec_query_type() == RzdQueryType::Simple {
            "https://pass.rzd.ru/timetable/public/ru?layer_id=5827&dir="@ + digits_of(RouteDirection::OneWay.spec_code() as nat)
                + "&tfl="@ + digits_of(self.train_type.spec_code() as nat) + "&code0="@
                + digits_of(self.leaving_code.0 as nat) + "&dt0="@ + self.date() + "&code1="@
                + digits_of(self.arriving_code.0 as nat)
        } else {
            "https://pass.rzd.ru/timetable/public/ru?layer_id=5827&rid="@ + digits_of(
                id.0 as nat,
            )
        }
    }

    open spec fn is_reply_id(&self, body: Seq<char>, r: Result<Option<RzdRequestId>, Error>) -> bool {
        if self.spec_query_type() == RzdQueryType::Simple {
            r matches Err(Error::UnsupportedOperation)
        } else {
            exists|x: Result<ReplyResult<RzdRequestId>, Error>| #[trigger]
                is_rid_reply_of(body, x) && match x {
                    Ok(reply) => id_outcome(reply, r),
                    Err(e) => r == Err::<Option<RzdRequestId>, Error>(e),
                }
        }
    }

    open spec fn is_reply_data(
        &self,
        body: Seq<char>,
        r: Result<Option<ResultList<Route>>, Error>,
    ) -> bool {
        exists|x: Result<ReplyResult<Vec<Route>>, Error>| #[trigger]
            is_schedule_reply_of(body, x) && match x {
                Ok(reply) => list_outcome(reply, r),
                Err(e) => r == Err::<Option<ResultList<Route>>, Error>(e),
            }
    }

    fn query_type(&self) -> (r: RzdQueryType) {
        match self.train_type {
            TrainType::ElectricTrain => RzdQueryType::Simple,
            _ => RzdQueryType::WithId,
        }
    }

    fn request_id(&self) -> (r: String) {
        let mut out = String::from_str("https://pass.rzd.ru/timetable/public/ru?layer_id=5827&dir=");
        push_number(&mut out, RouteDirection::OneWay.code() as u64);
        out.append("&tfl=");
        push_number(&mut out, self.train_type.code() as u64);
        out.append("&checkSeats=");
        match self.check_seats {
            ShowSeats::All => out.append("0&withoutSeats=y"),
            ShowSeats::FreeOnly => out.append("1"),
        }
        out.append("&code0=");
        push_number(&mut out, self.leaving_code.0 as u64);
        out.append("&dt0=");
        let date = self.leaving_date.to_string();
        out.append(date.as_str());
        out.append("&code1=");
        push_number(&mut out, self.arriving_code.0 as u64);
        out
    }

    fn request_data(&self, id: RzdRequestId) -> (r: String) {
        match self.query_type() {
            RzdQueryType::Simple => {
                let mut out = String::from_str(
                    "https://pass.rzd.ru/timetable/public/ru?layer_id=5827&dir=",
                );
                push_number(&mut out, RouteDirection::OneWay.code() as u64);
                out.append("&tfl=");
                push_number(&mut out, self.train_type.code() as u64);
                out.append("&code0=");
                push_number(&mut out, self.leaving_code.0 as u64);
                out.append("&dt0=");
                let date = self.leaving_date.to_string();
                out.append(date.as_str());
                out.append("&code1=");
                push_number(&mut out, self.arriving_code.0 as u64);
                out
            },
            RzdQueryType::WithId => {
                let mut out = String::from_str(
                    "https://pass.rzd.ru/timetable/public/ru?layer_id=5827&rid=",
                );
                push_number(&mut out, id.0);
                out
            },
        }
    }

    fn deserialize_reply_id(&self, body: &str) -> (r: Result<Option<RzdRequestId>, Error>) {
        match self.query_type() {
            RzdQueryType::Simple => Err(Error::UnsupportedOperation),
            RzdQueryType::WithId => {
                let x = read_rid_reply(body);
                let ghost gx = x;
                let r = match x {
                    Ok(reply) => reply.into_some(),
                    Err(e) => Err(e),
                };
                assert(is_rid_reply_of(body@, gx));
                r
            },
        }
    }

    fn deserialize_reply_data(&self, body: &str) -> (r: Result<
        Option<ResultList<Route>>,
        Error,
    >) {
        let x = read_schedule_reply(body);
        let ghost gx = x;
        let r = match x {
            Ok(reply) => reply.into_list(),
            Err(e) => Err(e),
        };
        assert(is_schedule_reply_of(body@, gx));
        r
    }
}

} // verus!
