//! The search for the code of a station by a part of its name.

use crate::client::{RzdClientInterface, RzdQueryType, RzdRequestId};
use crate::error::Error;
use crate::json::{is_shape_error, number_at, number_field, parsed_json, text_at, text_field, Json};
use crate::format::Text;
use crate::list::ResultList;
use crate::query::{form_urlencode, query_text};
use crate::text::{
    chars_of, digits_of, is_white_space, is_whitespace, to_uppercase, trim, trimmed, uppercase_of,
};
use crate::RzdStationCode;
use vstd::prelude::*;

verus! {

/// Info about the correlation of the name and the station code returned by RZD.
#[derive(Debug, Clone, PartialEq)]
pub struct StationItem {
    pub name: String,
    pub code: RzdStationCode,
}

impl StationItem {
    /// Takes a name and a code of the station and creates a new item.
    pub fn new(name: String, code: RzdStationCode) -> (r: Self)
        ensures
            r.name == name,
            r.code == code,
    {
        StationItem { name, code }
    }

    /// Returns the name of the station.
    pub fn name(&self) -> (r: &str)
        ensures
            r@ == self.name@,
    {
        self.name.as_str()
    }

    /// Returns the code of the station.
    pub fn code(&self) -> (r: RzdStationCode)
        ensures
            r == self.code,
    {
        self.code
    }

}

impl Text for StationItem {
    /// The code of the station and its name.
    open spec fn text(&self) -> Seq<char> {
        digits_of(self.code.0 as nat) + " - "@ + self.name@
    }

    fn to_text(&self) -> (r: String) {
        let mut out = self.code.to_string();
        out.append(" - ");
        out.append(self.name.as_str());
        out
    }
}

/// Whether `part` stands in `text` at the position `at`.
pub open spec fn occurs_at(text: Seq<char>, at: int, part: Seq<char>) -> bool {
    &&& 0 <= at
    &&& at + part.len() <= text.len()
    &&& text.subrange(at, at + part.len()) == part
}

/// Whether a word begins at the position `at` of `text`: a word is a run of
/// characters between white space.
pub open spec fn begins_word(text: Seq<char>, at: int) -> bool {
    at == 0 || (0 < at <= text.len() && is_white_space(text[at - 1]))
}

/// Whether a part between hyphens begins at the position `at` of `text`.
pub open spec fn begins_part(text: Seq<char>, at: int) -> bool {
    at == 0 || (0 < at <= text.len() && text[at - 1] == '-')
}

/// Whether `s` holds white space.
pub open spec fn has_white_space(s: Seq<char>) -> bool {
    exists|i: int| 0 <= i < s.len() && is_white_space(#[trigger] s[i])
}

/// Whether `s` holds a hyphen.
pub open spec fn has_hyphen(s: Seq<char>) -> bool {
    exists|i: int| 0 <= i < s.len() && #[trigger] s[i] == '-'
}

/// Whether a word of `text` starts with `letters`.
pub open spec fn starts_a_word(text: Seq<char>, letters: Seq<char>) -> bool {
    !has_white_space(letters) && exists|at: int|
        #[trigger] begins_word(text, at) && occurs_at(text, at, letters)
}

/// Whether a part of `text` between hyphens starts with `letters`.
pub open spec fn starts_a_part(text: Seq<char>, letters: Seq<char>) -> bool {
    !has_hyphen(letters) && exists|at: int|
        #[trigger] begins_part(text, at) && occurs_at(text, at, letters)
}

/// Whether the name `text` answers the query `letters`: both are taken
/// without the white space around them and in upper case, neither may be
/// empty, and a word of the name, or a part of it between hyphens, must start
/// with the query.
pub open spec fn is_found(text: Seq<char>, letters: Seq<char>) -> bool {
    let t = uppercase_of(trimmed(text));
    let l = uppercase_of(trimmed(letters));
    t.len() > 0 && l.len() > 0 && (starts_a_word(t, l) || starts_a_part(t, l))
}

/// Whether `part` stands in `text` at the position `at`.
fn occurs(text: &Vec<char>, at: usize, part: &Vec<char>) -> (r: bool)
    requires
        at <= text@.len(),
    ensures
        r == occurs_at(text@, at as int, part@),
{
    let n: usize = part.len();
    if n > text.len() - at {
        return false;
    }
    let mut i: usize = 0;
    while i < n
        invariant
            n == part@.len(),
            at + n <= text@.len() <= usize::MAX,
            i <= n,
            text@.subrange(at as int, at + i) == part@.take(i as int),
        decreases n - i,
    {
        if text[at + i] != part[i] {
            proof {
                if text@.subrange(at as int, at + n) == part@ {
                    assert(text@.subrange(at as int, at + n)[i as int] == part@[i as int]);
                }
            }
            return false;
        }
        i += 1;
        assert(text@.subrange(at as int, at + i) =~= part@.take(i as int));
    }
    assert(part@.take(n as int) == part@);
    true
}

/// Whether `s` holds white space.
fn holds_white_space(s: &Vec<char>) -> (r: bool)
    ensures
        r == has_white_space(s@),
{
    let n: usize = s.len();
    let mut i: usize = 0;
    while i < n
        invariant
            n == s@.len(),
            i <= n,
            forall|k: int| 0 <= k < i ==> !is_white_space(#[trigger] s@[k]),
        decreases n - i,
    {
        if is_whitespace(s[i]) {
            return true;
        }
        i += 1;
    }
    false
}

/// Whether `s` holds a hyphen.
fn holds_hyphen(s: &Vec<char>) -> (r: bool)
    ensures
        r == has_hyphen(s@),
{
    let n: usize = s.len();
    let mut i: usize = 0;
    while i < n
        invariant
            n == s@.len(),
            i <= n,
            forall|k: int| 0 <= k < i ==> #[trigger] s@[k] != '-',
        decreases n - i,
    {
        if s[i] == '-' {
            return true;
        }
        i += 1;
    }
    false
}

/// Whether a word of `text` starts with `letters`.
fn word_starts_with(text: &Vec<char>, letters: &Vec<char>) -> (r: bool)
    ensures
        r == starts_a_word(text@, letters@),
{
    if holds_white_space(letters) {
        return false;
    }
    if letters.len() == 0 {
        assert(text@.subrange(0, 0) =~= letters@);
        assert(begins_word(text@, 0) && occurs_at(text@, 0, letters@));
        return true;
    }
    let n: usize = text.len();
    let mut at: usize = 0;
    while at < n
        invariant
            n == text@.len(),
            at <= n,
            letters@.len() > 0,
            !has_white_space(letters@),
            forall|k: int|
                0 <= k < at ==> !(#[trigger] begins_word(text@, k) && occurs_at(
                    text@,
                    k,
                    letters@,
                )),
        decreases n - at,
    {
        if (at == 0 || is_whitespace(text[at - 1])) && occurs(text, at, letters) {
            assert(begins_word(text@, at as int) && occurs_at(text@, at as int, letters@));
            return true;
        }
        at += 1;
    }
    proof {
        assert forall|k: int| !(#[trigger] begins_word(text@, k) && occurs_at(text@, k, letters@)) by {
            if 0 <= k < n {
            }
        }
    }
    false
}

/// Whether a part of `text` between hyphens starts with `letters`.
fn part_starts_with(text: &Vec<char>, letters: &Vec<char>) -> (r: bool)
    ensures
        r == starts_a_part(text@, letters@),
{
    if holds_hyphen(letters) {
        return false;
    }
    if letters.len() == 0 {
        assert(text@.subrange(0, 0) =~= letters@);
        assert(begins_part(text@, 0) && occurs_at(text@, 0, letters@));
        return true;
    }
    let n: usize = text.len();
    let mut at: usize = 0;
    while at < n
        invariant
            n == text@.len(),
            at <= n,
            letters@.len() > 0,
            !has_hyphen(letters@),
            forall|k: int|
                0 <= k < at ==> !(#[trigger] begins_part(text@, k) && occurs_at(
                    text@,
                    k,
                    letters@,
                )),
        decreases n - at,
    {
        if (at == 0 || text[at - 1] == '-') && occurs(text, at, letters) {
            assert(begins_part(text@, at as int) && occurs_at(text@, at as int, letters@));
            return true;
        }
        at += 1;
    }
    proof {
        assert forall|k: int| !(#[trigger] begins_part(text@, k) && occurs_at(text@, k, letters@)) by {
            if 0 <= k < n {
            }
        }
    }
    false
}

/// Whether the name `text` answers the query `letters`.
///
/// The server looks at the first two letters of a query only, so the names
/// that it returns are held against the whole query here.
pub fn is_first_letters_found(text: &str, letters: &str) -> (r: bool)
    ensures
        r == is_found(text@, letters@),
{
    let t = trim(text);
    let t = to_uppercase(t.as_str());
    let l = trim(letters);
    let l = to_uppercase(l.as_str());
    if l.as_str().is_empty() || t.as_str().is_empty() {
        return false;
    }
    let t = chars_of(t.as_str());
    let l = chars_of(l.as_str());
    word_starts_with(&t, &l) || part_starts_with(&t, &l)
}

/// Whether `j` is laid out as a station of a reply.
pub open spec fn station_shape(j: Json) -> bool {
    &&& j.fields() matches Some(f)
    &&& text_at(f, "name"@, "n"@) is Some
    &&& number_at(f, "code"@, "c"@, u32::MAX as u64) is Some
}

/// Whether `s` is what `j` says of a station.
pub open spec fn is_station(j: Json, s: StationItem) -> bool {
    let f = j.fields().unwrap();
    &&& s.name@ == text_at(f, "name"@, "n"@).unwrap()
    &&& s.code.0 == number_at(f, "code"@, "c"@, u32::MAX as u64).unwrap()
}

/// Reads a station of a reply.
pub fn read_station(j: &Json) -> (r: Result<StationItem, Error>)
    ensures
        if station_shape(*j) {
            r matches Ok(s) && is_station(*j, s)
        } else {
            r matches Err(e) && is_shape_error(e)
        },
{
    let f = j.as_object()?;
    let name = text_field(f, "name", "n")?;
    let code = number_field(f, "code", "c", 0xffff_ffff)?;
    Ok(StationItem { name, code: RzdStationCode(code as u32) })
}

/// Whether each item is laid out as a station of a reply.
pub open spec fn each_station_shape(items: Seq<Json>) -> bool {
    forall|i: int| 0 <= i < items.len() ==> station_shape(#[trigger] items[i])
}

/// Whether `out` is what the items say, item by item.
pub open spec fn are_stations(items: Seq<Json>, out: Seq<StationItem>) -> bool {
    &&& out.len() == items.len()
    &&& forall|i: int| 0 <= i < items.len() ==> is_station(items[i], #[trigger] out[i])
}

/// Reads the stations of a reply.
pub fn read_station_list(items: Option<&Vec<Json>>) -> (r: Result<Vec<StationItem>, Error>)
    ensures
        match items {
            Some(v) => if each_station_shape(v@) {
                r matches Ok(out) && are_stations(v@, out@)
            } else {
                r matches Err(e) && is_shape_error(e)
            },
            None => r matches Ok(out) && out@.len() == 0,
        },
{
    let mut out: Vec<StationItem> = Vec::new();
    match items {
        None => {},
        Some(v) => {
            let n: usize = v.len();
            let mut i: usize = 0;
            while i < n
                invariant
                    n == v@.len(),
                    i <= n,
                    items == Some(v),
                    out@.len() == i,
                    forall|k: int| 0 <= k < i ==> station_shape(#[trigger] v@[k]),
                    forall|k: int| 0 <= k < i ==> is_station(v@[k], #[trigger] out@[k]),
                decreases n - i,
            {
                let x = match read_station(&v[i]) {
                    Ok(x) => x,
                    Err(e) => {
                        return Err(e);
                    },
                };
                out.push(x);
                i += 1;
            }
        },
    }
    Ok(out)
}


/// What reading a text as a reply with stations gives: the error of
/// serde_json where the text is no JSON, the error of an unexpected layout
/// where the JSON is no list of stations, and else the stations.
pub open spec fn are_stations_of(text: Seq<char>, r: Result<Vec<StationItem>, Error>) -> bool {
    match parsed_json(text) {
        Ok(j) => if j.items() matches Some(items) && each_station_shape(items) {
            r matches Ok(v) && are_stations(j.items().unwrap(), v@)
        } else {
            r matches Err(e) && is_shape_error(e)
        },
        Err(m) => r matches Err(Error::DeserializeError(s)) && s@ == m,
    }
}

/// Reads a text as a reply with stations.
pub fn read_stations(text: &str) -> (r: Result<Vec<StationItem>, Error>)
    ensures
        are_stations_of(text@, r),
{
    let j = Json::parse(text)?;
    let items = j.as_array()?;
    read_station_list(Some(items))
}

/// The stations whose names answer the query, in their order.
pub open spec fn answering(stations: Seq<StationItem>, query: Seq<char>) -> Seq<StationItem>
    decreases stations.len(),
{
    if stations.len() == 0 {
        Seq::empty()
    } else {
        let rest = answering(stations.drop_last(), query);
        if is_found(stations.last().name@, query) {
            rest.push(stations.last())
        } else {
            rest
        }
    }
}

/// Keeps the stations whose names answer the query, in their order.
pub fn select_stations(stations: Vec<StationItem>, query: &str) -> (r: Vec<StationItem>)
    ensures
        r@ == answering(stations@, query@),
{
    let ghost all = stations@;
    let mut out: Vec<StationItem> = Vec::new();
    for s in it: stations
        invariant
            all == stations@,
            0 <= it.index@ <= all.len(),
            out@ == answering(all.take(it.index@ as int), query@),
    {
        let ghost i = it.index@ as int;
        proof {
            assert(s == all[i]);
            assert(all.take(i + 1).drop_last() == all.take(i));
            assert(all.take(i + 1).last() == all[i]);
        }
        if is_first_letters_found(s.name.as_str(), query) {
            out.push(s);
        }
    }
    assert(all.take(all.len() as int) == all);
    out
}

/// Minimal number of characters of a query.
pub const MIN_QUERY_LENGTH: usize = 2;

/// Station code search by part of the name.
pub struct StationCodeSearch {
    pub query: String,
}

impl StationCodeSearch {
    /// Takes part of the station name and creates a new search query. The
    /// part is kept without white space around it and in upper case.
    ///
    /// # Errors
    ///
    /// The method fails if the query has less than 2 characters.
    pub fn new(query: &str) -> (r: Result<Self, Error>)
        ensures
            match r {
                Ok(s) => s.query@ == uppercase_of(trimmed(query@)) && s.query@.len() >= 2,
                Err(e) => e matches Error::TooShortQuery && uppercase_of(trimmed(query@)).len() < 2,
            },
    {
        let t = trim(query);
        let query = to_uppercase(t.as_str());
        if query.as_str().unicode_len() < MIN_QUERY_LENGTH {
            return Err(Error::TooShortQuery);
        }
        Ok(StationCodeSearch { query })
    }
}

impl RzdClientInterface<ResultList<StationItem>> for StationCodeSearch {
    open spec fn spec_query_type(&self) -> RzdQueryType {
        RzdQueryType::Simple
    }

    open spec fn spec_request_id(&self) -> Seq<char> {
        Seq::empty()
    }

    open spec fn spec_request_data(&self, id: RzdRequestId) -> Seq<char> {
        "https://pass.rzd.ru/suggester?stationNamePart="@ + query_text(self.query@)
            + "&lang=ru&compactMode=y"@
    }

    /// The search has no request for an identifier, and no reply to one.
    open spec fn is_reply_id(&self, body: Seq<char>, r: Result<Option<RzdRequestId>, Error>) -> bool {
        r matches Err(Error::UnsupportedOperation)
    }

    /// Of the stations of the reply those are kept whose names answer the
    /// query; where none is left, the reply holds no data.
    open spec fn is_reply_data(
        &self,
        body: Seq<char>,
        r: Result<Option<ResultList<StationItem>>, Error>,
    ) -> bool {
        exists|x: Result<Vec<StationItem>, Error>| #[trigger]
            are_stations_of(body, x) && match x {
                Ok(v) => {
                    let kept = answering(v@, self.query@);
                    if kept.len() == 0 {
                        r matches Ok(None)
                    } else {
                        r matches Ok(Some(list)) && list.items() == kept
                    }
                },
                Err(e) => r == Err::<Option<ResultList<StationItem>>, Error>(e),
            }
    }

    fn query_type(&self) -> (r: RzdQueryType) {
        RzdQueryType::Simple
    }

    fn request_id(&self) -> (r: String) {
        String::new()
    }

    fn request_data(&self, _id: RzdRequestId) -> (r: String) {
        let mut out = String::from_str("https://pass.rzd.ru/suggester?stationNamePart=");
        let query = form_urlencode(self.query.as_str());
        out.append(query.as_str());
        out.append("&lang=ru&compactMode=y");
        out
    }

    fn deserialize_reply_id(&self, _body: &str) -> (r: Result<Option<RzdRequestId>, Error>) {
        Err(Error::UnsupportedOperation)
    }

    fn deserialize_reply_data(&self, body: &str) -> (r: Result<
        Option<ResultList<StationItem>>,
        Error,
    >) {
        let x = read_stations(body);
        let ghost gx = x;
        let r = match x {
            Ok(v) => {
                let stations = select_stations(v, self.query.as_str());
                if stations.len() == 0 {
                    Ok(None)
                } else {
                    Ok(Some(ResultList(stations)))
                }
            },
            Err(e) => Err(e),
        };
        assert(are_stations_of(body@, gx));
        r
    }
}

} // verus!
