//! The stops that a train makes on its way.

use crate::client::{asks_again, RzdClientInterface, RzdQueryType, RzdRequestId};
use crate::date::{date_text, parse_train_time, time_text, TrainDate, TrainTime};
use crate::error::{Error, RzdErrors};
use crate::json::{
    is_shape_error, list_at, list_field, number_at, number_field, object_at, object_field,
    parsed_json, text_at, text_field, Json,
};
use crate::format::{all_lines, push_lines, texts_of, Text};
use crate::list::ResultList;
use crate::query::{form_urlencode, query_text};
use crate::reply::{id_outcome, ReplyResult};
use crate::text::{
    digits_of, lowercase_of, normalize_message, normalized, parse_u32, parsed_u32, push_number,
    to_lowercase, to_uppercase, trim, trimmed, uppercase_of, views_of,
};
use crate::RzdStationCode;
use vstd::prelude::*;

verus! {

/// Info about railway stops.
#[derive(Debug, Clone, PartialEq)]
pub struct TripStop {
    pub station: String,
    pub code: RzdStationCode,
    pub trip_days: u32,
    pub leaving_time: Option<TrainTime>,
    pub arriving_time: Option<TrainTime>,
}

impl TripStop {
    /// Returns the name of the railway stop.
    pub fn station(&self) -> (r: &str)
        ensures
            r@ == self.station@,
    {
        self.station.as_str()
    }

    /// Returns RZD code of the railway stop.
    pub fn code(&self) -> (r: RzdStationCode)
        ensures
            r == self.code,
    {
        self.code
    }

    /// Returns how many days will pass by the time the train arrive at the stopping station.
    pub fn trip_days(&self) -> (r: u32)
        ensures
            r == self.trip_days,
    {
        self.trip_days
    }

    /// Returns the departure time of the train.
    pub fn leaving_time(&self) -> (r: Option<TrainTime>)
        ensures
            r == self.leaving_time,
    {
        self.leaving_time
    }

    /// Returns the arrival time of the train.
    pub fn arriving_time(&self) -> (r: Option<TrainTime>)
        ensures
            r == self.arriving_time,
    {
        self.arriving_time
    }

}

/// Info about the stops the train makes.
#[derive(Debug, Clone, PartialEq)]
pub struct TripStations {
    pub train_number: String,
    pub stations: ResultList<TripStop>,
}

impl TripStations {
    /// Returns the train number.
    pub fn train_number(&self) -> (r: &str)
        ensures
            r@ == self.train_number@,
    {
        self.train_number.as_str()
    }

    /// Returns the immutable list of stopping stations.
    pub fn stations(&self) -> (r: &ResultList<TripStop>)
        ensures
            *r == self.stations,
    {
        &self.stations
    }

    /// Returns the mutable list of stopping stations.
    pub fn stations_mut(&mut self) -> (r: &mut ResultList<TripStop>)
        ensures
            *r == old(self).stations,
            *final(self) == (TripStations { stations: *final(r), ..*old(self) }),
    {
        &mut self.stations
    }

    /// Returns true if the list of stops is empty.
    pub fn is_empty(&self) -> (r: bool)
        ensures
            r == (self.stations.items().len() == 0),
    {
        self.stations.is_empty()
    }
}

impl Default for TripStations {
    fn default() -> (r: Self)
        ensures
            r.train_number@.len() == 0,
            r.stations.items().len() == 0,
    {
        TripStations { train_number: String::new(), stations: ResultList(Vec::new()) }
    }
}

/// A time with the word that goes before it, where there is one.
pub open spec fn time_clause(word: Seq<char>, t: Option<TrainTime>) -> Seq<char> {
    match t {
        Some(t) => word + time_text(t.hours(), t.minutes()) + ","@,
        None => Seq::empty(),
    }
}

/// Appends a time with the word that goes before it to `out`, where there is one.
pub fn push_time_clause(out: &mut String, word: &str, t: Option<TrainTime>)
    ensures
        final(out)@ == old(out)@ + time_clause(word@, t),
{
    match t {
        Some(t) => {
            let mut piece = String::from_str(word);
            let time = t.to_string();
            piece.append(time.as_str());
            piece.append(",");
            out.append(piece.as_str());
        },
        None => {
            assert(out@ + Seq::<char>::empty() =~= out@);
        },
    }
}

impl Text for TripStop {
    /// The stop, its code, when the train leaves and arrives, and the days on the way.
    open spec fn text(&self) -> Seq<char> {
        "\t\""@ + self.station@ + "\" "@ + digits_of(self.code.0 as nat) + ","@ + time_clause(" отправление - "@, self.leaving_time) + time_clause(" прибытие - "@, self.arriving_time) + " в пути "@ + digits_of(self.trip_days as nat) + " дн."@
    }

    fn to_text(&self) -> (r: String) {
        let mut out = String::from_str("\t\"");
        out.append(self.station.as_str());
        out.append("\" ");
        push_number(&mut out, self.code.0 as u64);
        out.append(",");
        push_time_clause(&mut out, " отправление - ", self.leaving_time);
        push_time_clause(&mut out, " прибытие - ", self.arriving_time);
        out.append(" в пути ");
        push_number(&mut out, self.trip_days as u64);
        out.append(" дн.");
        out
    }
}

impl Text for TripStations {
    /// The train, and its stops, each on a line of its own.
    open spec fn text(&self) -> Seq<char> {
        "Остановки поезда № \""@ + self.train_number@ + "\":\n"@ + all_lines(texts_of(self.stations.items()), ""@, "\n"@)
    }

    fn to_text(&self) -> (r: String) {
        let mut out = String::from_str("Остановки поезда № \"");
        out.append(self.train_number.as_str());
        out.append("\":\n");
        push_lines(&mut out, &self.stations.0, "", "\n");
        out
    }
}

/// The number of days that `s` writes, white space around it aside; 0 where
/// it writes none.
pub open spec fn days_of(s: Seq<char>) -> u32 {
    match parsed_u32(trimmed(s)) {
        Some(n) => n,
        None => 0,
    }
}

/// Whether `j` is laid out as a stop of a train.
pub open spec fn stop_shape(j: Json) -> bool {
    &&& j.fields() matches Some(f)
    &&& text_at(f, "station"@, "Station"@) is Some
    &&& text_at(f, "days"@, "Days"@) is Some
    &&& text_at(f, "dep_time"@, "DepTime"@) is Some
    &&& text_at(f, "arv_time"@, "ArvTime"@) is Some
    &&& number_at(f, "code"@, "Code"@, u32::MAX as u64) is Some
}

/// Whether `s` is what `j` says of a stop of a train. The days and the times
/// are read from their texts.
pub open spec fn is_stop(j: Json, s: TripStop) -> bool {
    let f = j.fields().unwrap();
    &&& s.station@ == text_at(f, "station"@, "Station"@).unwrap()
    &&& s.code.0 == number_at(f, "code"@, "Code"@, u32::MAX as u64).unwrap()
    &&& s.trip_days == days_of(text_at(f, "days"@, "Days"@).unwrap())
    &&& TrainTime::is_parsed(text_at(f, "dep_time"@, "DepTime"@).unwrap(), s.leaving_time)
    &&& TrainTime::is_parsed(text_at(f, "arv_time"@, "ArvTime"@).unwrap(), s.arriving_time)
}

/// Reads a stop of a train.
pub fn read_stop(j: &Json) -> (r: Result<TripStop, Error>)
    ensures
        if stop_shape(*j) {
            r matches Ok(s) && is_stop(*j, s)
        } else {
            r matches Err(e) && is_shape_error(e)
        },
{
    let f = j.as_object()?;
    let station = text_field(f, "station", "Station")?;
    let days = text_field(f, "days", "Days")?;
    let dep_time = text_field(f, "dep_time", "DepTime")?;
    let arv_time = text_field(f, "arv_time", "ArvTime")?;
    let code = number_field(f, "code", "Code", 0xffff_ffff)?;
    let days = trim(days.as_str());
    let trip_days = match parse_u32(days.as_str()) {
        Some(n) => n,
        None => 0,
    };
    Ok(
        TripStop {
            station,
            code: RzdStationCode(code as u32),
            trip_days,
            leaving_time: parse_train_time(dep_time.as_str()),
            arriving_time: parse_train_time(arv_time.as_str()),
        },
    )
}

/// Whether each item is laid out as a stop of a train.
pub open spec fn each_stop_shape(items: Seq<Json>) -> bool {
    forall|i: int| 0 <= i < items.len() ==> stop_shape(#[trigger] items[i])
}

/// Whether `out` is what the items say, item by item.
pub open spec fn are_stops(items: Seq<Json>, out: Seq<TripStop>) -> bool {
    &&& out.len() == items.len()
    &&& forall|i: int| 0 <= i < items.len() ==> is_stop(items[i], #[trigger] out[i])
}

/// Reads the stops of a train.
pub fn read_stops(items: Option<&Vec<Json>>) -> (r: Result<Vec<TripStop>, Error>)
    ensures
        match items {
            Some(v) => if each_stop_shape(v@) {
                r matches Ok(out) && are_stops(v@, out@)
            } else {
                r matches Err(e) && is_shape_error(e)
            },
            None => r matches Ok(out) && out@.len() == 0,
        },
{
    let mut out: Vec<TripStop> = Vec::new();
    match items {
        None => {},
        Some(v) => {
            let n: usize = v.len();
            let mut i: usize = 0;
            while i < n
                invariant
                    n == v@.len(),
                    i <= n,
                    items == Some(v),
                    out@.len() == i,
                    forall|k: int| 0 <= k < i ==> stop_shape(#[trigger] v@[k]),
                    forall|k: int| 0 <= k < i ==> is_stop(v@[k], #[trigger] out@[k]),
                decreases n - i,
            {
                let x = match read_stop(&v[i]) {
                    Ok(x) => x,
                    Err(e) => {
                        return Err(e);
                    },
                };
                out.push(x);
                i += 1;
            }
        },
    }
    Ok(out)
}


/// A reply about the stops of a train, as the server laid it out.
#[derive(Debug, PartialEq)]
pub struct TripAnswer {
    /// The kind that the reply names: `REQUEST_ID` where it brings an
    /// identifier; empty in a reply with data.
    pub kind: String,
    /// The message of the error at the top of the reply.
    pub error: String,
    /// The message of the error inside the reply.
    pub inner_error: String,
    pub stations: TripStations,
}

/// The text `content` of an error of the server.
pub open spec fn error_content(fields: Seq<(String, Json)>) -> Option<Seq<char>> {
    match object_at(fields, "error"@, "Error"@) {
        Some(e) => text_at(e, "content"@, "content"@),
        None => None,
    }
}

/// Whether `j` is laid out as a reply about the stops of a train.
pub open spec fn answer_shape(j: Json) -> bool {
    &&& j.fields() matches Some(f)
    &&& text_at(f, "fst_reply_result"@, "type"@) is Some
    &&& error_content(f) is Some
    &&& object_at(f, "result"@, "GtExpress_Response"@) matches Some(g)
    &&& error_content(g) is Some
    &&& object_at(g, "train"@, "Train"@) matches Some(t)
    &&& text_at(t, "train_number"@, "Number"@) is Some
    &&& object_at(g, "routes"@, "Routes"@) matches Some(r)
    &&& list_at(r, "stops"@, "Stop"@) matches Some(stops)
    &&& each_stop_shape(stops)
}

/// Whether `a` is what `j` says as a reply about the stops of a train.
pub open spec fn is_answer(j: Json, a: TripAnswer) -> bool {
    let f = j.fields().unwrap();
    let g = object_at(f, "result"@, "GtExpress_Response"@).unwrap();
    let t = object_at(g, "train"@, "Train"@).unwrap();
    let r = object_at(g, "routes"@, "Routes"@).unwrap();
    &&& a.kind@ == text_at(f, "fst_reply_result"@, "type"@).unwrap()
    &&& a.error@ == error_content(f).unwrap()
    &&& a.inner_error@ == error_content(g).unwrap()
    &&& a.stations.train_number@ == text_at(t, "train_number"@, "Number"@).unwrap()
    &&& are_stops(list_at(r, "stops"@, "Stop"@).unwrap(), a.stations.stations.items())
}

/// Reads the text `content` of an error of the server.
pub fn read_error_content(fields: &Vec<(String, Json)>) -> (r: Result<String, Error>)
    ensures
        match error_content(fields@) {
            Some(s) => r matches Ok(v) && v@ == s,
            None => r matches Err(e) && is_shape_error(e),
        },
{
    let none: Vec<(String, Json)> = Vec::new();
    let e = match object_field(fields, "error", "Error")? {
        Some(e) => e,
        None => &none,
    };
    assert(e@ =~= object_at(fields@, "error"@, "Error"@).unwrap());
    text_field(e, "content", "content")
}

/// Reads a reply about the stops of a train as the server laid it out.
pub fn read_answer(j: &Json) -> (r: Result<TripAnswer, Error>)
    ensures
        if answer_shape(*j) {
            r matches Ok(a) && is_answer(*j, a)
        } else {
            r matches Err(e) && is_shape_error(e)
        },
{
    let none: Vec<(String, Json)> = Vec::new();
    let f = j.as_object()?;
    let kind = text_field(f, "fst_reply_result", "type")?;
    let error = read_error_content(f)?;
    let g = match object_field(f, "result", "GtExpress_Response")? {
        Some(g) => g,
        None => &none,
    };
    assert(g@ =~= object_at(f@, "result"@, "GtExpress_Response"@).unwrap());
    let inner_error = read_error_content(g)?;
    let t = match object_field(g, "train", "Train")? {
        Some(t) => t,
        None => &none,
    };
    assert(t@ =~= object_at(g@, "train"@, "Train"@).unwrap());
    let train_number = text_field(t, "train_number", "Number")?;
    let r = match object_field(g, "routes", "Routes")? {
        Some(r) => r,
        None => &none,
    };
    assert(r@ =~= object_at(g@, "routes"@, "Routes"@).unwrap());
    let stops = read_stops(list_field(r, "stops", "Stop")?)?;
    Ok(
        TripAnswer {
            kind,
            error,
            inner_error,
            stations: TripStations { train_number, stations: ResultList(stops) },
        },
    )
}

/// Whether a message of the server says anything: it does unless it is empty
/// once the white space around it is dropped and it is put in lower case.
pub open spec fn says_something(message: Seq<char>) -> bool {
    lowercase_of(trimmed(message)).len() > 0
}

/// What a reply about the stops of a train comes to.
///
/// A reply of the kind `REQUEST_ID` brings an identifier again in place of the
/// data: the answer is not ready. A reply that names any other kind is a bad
/// reply. Of the two messages the one at the top counts, and the
/// one inside where that says nothing. A message that says something makes
/// the reply an error, which carries it in the form in which messages are
/// kept. Without one the reply brings the stops.
pub open spec fn is_trip_reply(a: TripAnswer, r: ReplyResult<TripStations>) -> bool {
    if a.kind@ == "REQUEST_ID"@ {
        r matches ReplyResult::Fail(Error::RzdReplyNotReady)
    } else if a.kind@.len() > 0 {
        r matches ReplyResult::Fail(Error::FailRzdResponse)
    } else if says_something(a.error@) {
        r matches ReplyResult::Fail(Error::RzdError(e)) && e.messages() == seq![normalized(a.error@)]
    } else if says_something(a.inner_error@) {
        r matches ReplyResult::Fail(Error::RzdError(e)) && e.messages() == seq![
            normalized(a.inner_error@),
        ]
    } else {
        r == ReplyResult::Success(a.stations)
    }
}

/// Whether a message of the server says anything.
pub fn has_message(message: &str) -> (r: bool)
    ensures
        r == says_something(message@),
{
    let t = trim(message);
    let l = to_lowercase(t.as_str());
    !l.as_str().is_empty()
}

/// The error that carries one message of the server, in the form in which
/// messages are kept.
pub fn message_error(message: &str) -> (e: Error)
    ensures
        e matches Error::RzdError(m) && m.messages() == seq![normalized(message@)],
{
    let mut errors: Vec<String> = Vec::new();
    errors.push(normalize_message(message));
    assert(views_of(errors@) =~= seq![normalized(message@)]);
    Error::RzdError(RzdErrors(errors))
}

/// Says what a reply about the stops of a train comes to.
pub fn trip_reply(answer: TripAnswer) -> (r: ReplyResult<TripStations>)
    ensures
        is_trip_reply(answer, r),
{
    if answer.kind == String::from_str("REQUEST_ID") {
        ReplyResult::Fail(Error::RzdReplyNotReady)
    } else if !answer.kind.as_str().is_empty() {
        ReplyResult::Fail(Error::FailRzdResponse)
    } else if has_message(answer.error.as_str()) {
        ReplyResult::Fail(message_error(answer.error.as_str()))
    } else if has_message(answer.inner_error.as_str()) {
        ReplyResult::Fail(message_error(answer.inner_error.as_str()))
    } else {
        ReplyResult::Success(answer.stations)
    }
}

/// What reading a text as a reply about the stops of a train gives: the error
/// of serde_json where the text is no JSON, the error of an unexpected layout
/// where the JSON is no such reply, and else what the reply comes to.
pub open spec fn is_trip_reply_of(text: Seq<char>, r: Result<ReplyResult<TripStations>, Error>) -> bool {
    match parsed_json(text) {
        Ok(j) => if answer_shape(j) {
            r matches Ok(reply) && exists|a: TripAnswer| is_answer(j, a) && is_trip_reply(a, reply)
        } else {
            r matches Err(e) && is_shape_error(e)
        },
        Err(m) => r matches Err(Error::DeserializeError(s)) && s@ == m,
    }
}

/// Reads a text as a reply about the stops of a train.
pub fn read_trip_reply(text: &str) -> (r: Result<ReplyResult<TripStations>, Error>)
    ensures
        is_trip_reply_of(text@, r),
{
    let j = Json::parse(text)?;
    let answer = read_answer(&j)?;
    Ok(trip_reply(answer))
}

/// Whether `j` is laid out as a reply to a request for the identifier of a
/// search for stops.
pub open spec fn rid_shape(j: Json) -> bool {
    &&& j.fields() matches Some(f)
    &&& text_at(f, "result"@, "type"@) is Some
    &&& number_at(f, "rid"@, "rid"@, u64::MAX) is Some
}

/// What such a reply comes to: the identifier where the reply calls itself
/// `REQUEST_ID`, a bad reply where it does not.
pub open spec fn rid_reply_of(j: Json) -> ReplyResult<RzdRequestId> {
    let f = j.fields().unwrap();
    if text_at(f, "result"@, "type"@).unwrap() == "REQUEST_ID"@ {
        ReplyResult::Success(RzdRequestId(number_at(f, "rid"@, "rid"@, u64::MAX).unwrap()))
    } else {
        ReplyResult::Fail(Error::FailRzdResponse)
    }
}

/// Says what a reply to a request for the identifier of a search for stops
/// comes to.
pub fn rid_reply(j: &Json) -> (r: Result<ReplyResult<RzdRequestId>, Error>)
    ensures
        if rid_shape(*j) {
            r == Ok::<ReplyResult<RzdRequestId>, Error>(rid_reply_of(*j))
        } else {
            r matches Err(e) && is_shape_error(e)
        },
{
    let f = j.as_object()?;
    let result = text_field(f, "result", "type")?;
    let rid = number_field(f, "rid", "rid", 0xffff_ffff_ffff_ffff)?;
    if result == String::from_str("REQUEST_ID") {
        Ok(ReplyResult::Success(RzdRequestId(rid)))
    } else {
        Ok(ReplyResult::Fail(Error::FailRzdResponse))
    }
}

/// What reading a text as a reply to a request for the identifier of a search
/// for stops gives.
pub open spec fn is_rid_reply_of(text: Seq<char>, r: Result<ReplyResult<RzdRequestId>, Error>) -> bool {
    match parsed_json(text) {
        Ok(j) => if rid_shape(j) {
            r == Ok::<ReplyResult<RzdRequestId>, Error>(rid_reply_of(j))
        } else {
            r matches Err(e) && is_shape_error(e)
        },
        Err(m) => r matches Err(Error::DeserializeError(s)) && s@ == m,
    }
}

/// Reads a text as a reply to a request for the identifier of a search for
/// stops.
pub fn read_rid_reply(text: &str) -> (r: Result<ReplyResult<RzdRequestId>, Error>)
    ensures
        is_rid_reply_of(text@, r),
{
    let j = Json::parse(text)?;
    rid_reply(&j)
}

/// What a reply about the stops comes to for the client: the error that it
/// reported, nothing where it has no stops, else the stops.
pub open spec fn stops_outcome(
    reply: ReplyResult<TripStations>,
    r: Result<Option<TripStations>, Error>,
) -> bool {
    match reply {
        ReplyResult::Fail(e) => r == Err::<Option<TripStations>, Error>(e),
        ReplyResult::Success(v) => if v.stations.items().len() == 0 {
            r == Ok::<Option<TripStations>, Error>(None)
        } else {
            r == Ok::<Option<TripStations>, Error>(Some(v))
        },
    }
}

/// A reply to a request for the data that names the kind `REQUEST_ID` is read
/// as an answer that is not ready, whatever search it is read for, so that a
/// client that asks by identifier asks again.
pub proof fn lemma_identifier_again_is_not_ready(
    search: TripStopsSearch,
    body: Seq<char>,
    r: Result<Option<TripStations>, Error>,
)
    requires
        parsed_json(body) matches Ok(j) && answer_shape(j) && text_at(
            j.fields().unwrap(),
            "fst_reply_result"@,
            "type"@,
        ) == Some("REQUEST_ID"@),
        search.is_reply_data(body, r),
    ensures
        r matches Err(Error::RzdReplyNotReady),
        asks_again(r),
{
}

/// Train stops search.
pub struct TripStopsSearch {
    pub train_number: String,
    pub train_date: TrainDate,
}

impl TripStopsSearch {
    /// Takes a number and a date of the train and creates a new search query.
    /// The number is kept without white space around it and in upper case.
    ///
    /// # Errors
    ///
    /// The method fails if the train number is empty.
    pub fn new(train_number: &str, train_date: TrainDate) -> (r: Result<Self, Error>)
        ensures
            match r {
                Ok(s) => {
                    &&& s.train_date == train_date
                    &&& s.train_number@ == uppercase_of(trimmed(train_number@))
                    &&& s.train_number@.len() > 0
                },
                Err(e) => e matches Error::EmptyTrainNumber && uppercase_of(
                    trimmed(train_number@),
                ).len() == 0,
            },
    {
        let t = trim(train_number);
        let train_number = to_uppercase(t.as_str());
        if train_number.as_str().is_empty() {
            return Err(Error::EmptyTrainNumber);
        }
        Ok(TripStopsSearch { train_number, train_date })
    }
}

impl RzdClientInterface<TripStations> for TripStopsSearch {
    open spec fn spec_query_type(&self) -> RzdQueryType {
        RzdQueryType::WithId
    }

    open spec fn spec_request_id(&self) -> Seq<char> {
        "https://pass.rzd.ru/timetable/public/ru?layer_id=5804&date="@ + date_text(
            self.train_date.year(),
            self.train_date.month(),
            self.train_date.day(),
        ) + "&train_num="@ + query_text(self.train_number@) + "&json=y&format=array"@
    }

    open spec fn spec_request_data(&self, id: RzdRequestId) -> Seq<char> {
        "https://pass.rzd.ru/timetable/public/ru?layer_id=5804&rid="@ + digits_of(id.0 as nat)
            + "&json=y&format=array"@
    }

    open spec fn is_reply_id(&self, body: Seq<char>, r: Result<Option<RzdRequestId>, Error>) -> bool {
        exists|x: Result<ReplyResult<RzdRequestId>, Error>| #[trigger]
            is_rid_reply_of(body, x) && match x {
                Ok(reply) => id_outcome(reply, r),
                Err(e) => r == Err::<Option<RzdRequestId>, Error>(e),
            }
    }

    open spec fn is_reply_data(&self, body: Seq<char>, r: Result<Option<TripStations>, Error>) -> bool {
        exists|x: Result<ReplyResult<TripStations>, Error>| #[trigger]
            is_trip_reply_of(body, x) && match x {
                Ok(reply) => stops_outcome(reply, r),
                Err(e) => r == Err::<Option<TripStations>, Error>(e),
            }
    }

    fn query_type(&self) -> (r: RzdQueryType) {
        RzdQueryType::WithId
    }

    fn request_id(&self) -> (r: String) {
        let mut out = String::from_str(
            "https://pass.rzd.ru/timetable/public/ru?layer_id=5804&date=",
        );
        let date = self.train_date.to_string();
        out.append(date.as_str());
        out.append("&train_num=");
        let train = form_urlencode(self.train_number.as_str());
        out.append(train.as_str());
        out.append("&json=y&format=array");
        out
    }

    fn request_data(&self, id: RzdRequestId) -> (r: String) {
        let mut out = String::from_str("https://pass.rzd.ru/timetable/public/ru?layer_id=5804&rid=");
        push_number(&mut out, id.0);
        out.append("&json=y&format=array");
        out
    }

    fn deserialize_reply_id(&self, body: &str) -> (r: Result<Option<RzdRequestId>, Error>) {
        let x = read_rid_reply(body);
        let ghost gx = x;
        let r = match x {
            Ok(reply) => reply.into_some(),
            Err(e) => Err(e),
        };
        assert(is_rid_reply_of(body@, gx));
        r
    }

    fn deserialize_reply_data(&self, body: &str) -> (r: Result<Option<TripStations>, Error>) {
        let x = read_trip_reply(body);
        let ghost gx = x;
        let r = match x {
            Ok(ReplyResult::Fail(e)) => Err(e),
            Ok(ReplyResult::Success(v)) => {
                if v.is_empty() {
                    Ok(None)
                } else {
                    Ok(Some(v))
                }
            },
            Err(e) => Err(e),
        };
        assert(is_trip_reply_of(body@, gx));
        r
    }
}

} // verus!
