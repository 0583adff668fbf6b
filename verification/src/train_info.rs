//! The cars and seats of one train.

use crate::client::{asks_again, RzdClientInterface, RzdQueryType, RzdRequestId};
use crate::date::{date_text, parse_train_date, parse_train_time, time_text, TrainDate, TrainTime};
use crate::error::{Error, RzdErrors};
use crate::json::{
    is_shape_error, list_at, list_field, nullable_text_at, nullable_text_field, number_at,
    number_field, parsed_json, text_at, text_field, Json,
};
use crate::format::{all_lines, push_lines, texts_of, Text};
use crate::list::ResultList;
use crate::query::{form_urlencode, query_text};
use crate::reply::{id_outcome, list_outcome, ReplyResult};
use crate::text::{
    digits_of, normalize_message, normalized, number_to_string, push_number, to_uppercase, trim,
    trimmed, uppercase_of, views_of,
};
use crate::{parse_station_code, station_code_of, RouteDirection, RzdStationCode};
use vstd::prelude::*;

verus! {

/// Number of free seats on the train car, seat type and price info.
#[derive(Debug, Clone, PartialEq)]
pub struct SeatsInfo {
    pub free_seats: u32,
    pub seats_type: String,
    pub price: String,
}

impl SeatsInfo {
    /// Returns the number of free seats.
    pub fn free_seats_number(&self) -> (r: u32)
        ensures
            r == self.free_seats,
    {
        self.free_seats
    }

    /// Returns the seat type.
    pub fn seats_type(&self) -> (r: &str)
        ensures
            r@ == self.seats_type@,
    {
        self.seats_type.as_str()
    }

    /// Returns the seat price.
    pub fn price(&self) -> (r: &str)
        ensures
            r@ == self.price@,
    {
        self.price.as_str()
    }

}

/// Name, URL and cost of insurance.
#[derive(Debug, Clone, PartialEq)]
pub struct InsuranceInfo {
    pub name: String,
    pub url: String,
    pub price: String,
}

impl InsuranceInfo {
    /// Returns the short name of insurance.
    pub fn name(&self) -> (r: &str)
        ensures
            r@ == self.name@,
    {
        self.name.as_str()
    }

    /// Returns URL with insurance info.
    pub fn url(&self) -> (r: &str)
        ensures
            r@ == self.url@,
    {
        self.url.as_str()
    }

    /// Returns the insurance price.
    pub fn price(&self) -> (r: &str)
        ensures
            r@ == self.price@,
    {
        self.price.as_str()
    }

}

/// Train car info.
#[derive(Debug, Clone, PartialEq)]
pub struct TrainCar {
    pub number: String,
    pub type_loc: String,
    pub service_class: String,
    pub services: ResultList<String>,
    pub tariff1: String,
    pub tariff2: String,
    pub tariff_service: String,
    pub carrier: String,
    pub insurance: Option<InsuranceInfo>,
    pub seats: ResultList<SeatsInfo>,
    pub places: String,
}

impl TrainCar {
    /// Returns the number of the train car.
    pub fn number(&self) -> (r: &str)
        ensures
            r@ == self.number@,
    {
        self.number.as_str()
    }

    /// Returns the seat type.
    pub fn type_loc(&self) -> (r: &str)
        ensures
            r@ == self.type_loc@,
    {
        self.type_loc.as_str()
    }

    /// Returns the class of service.
    pub fn service_class(&self) -> (r: &str)
        ensures
            r@ == self.service_class@,
    {
        self.service_class.as_str()
    }

    /// Returns the immutable list of available services.
    pub fn services(&self) -> (r: &ResultList<String>)
        ensures
            *r == self.services,
    {
        &self.services
    }

    /// Returns the mutable list of available services.
    pub fn services_mut(&mut self) -> (r: &mut ResultList<String>)
        ensures
            *r == old(self).services,
            *final(self) == (TrainCar { services: *final(r), ..*old(self) }),
    {
        &mut self.services
    }

    /// Returns the price of a seat.
    pub fn price1(&self) -> (r: &str)
        ensures
            r@ == self.tariff1@,
    {
        self.tariff1.as_str()
    }

    /// Returns the price of a seat.
    pub fn price2(&self) -> (r: &str)
        ensures
            r@ == self.tariff2@,
    {
        self.tariff2.as_str()
    }

    /// Returns the price of services.
    pub fn price_service(&self) -> (r: &str)
        ensures
            r@ == self.tariff_service@,
    {
        self.tariff_service.as_str()
    }

    /// Returns the carrier.
    pub fn carrier(&self) -> (r: &str)
        ensures
            r@ == self.carrier@,
    {
        self.carrier.as_str()
    }

    /// Returns insurance info of a seat.
    pub fn insurance(&self) -> (r: &Option<InsuranceInfo>)
        ensures
            *r == self.insurance,
    {
        &self.insurance
    }

    /// Returns the immutable list of seats.
    pub fn seats(&self) -> (r: &ResultList<SeatsInfo>)
        ensures
            *r == self.seats,
    {
        &self.seats
    }

    /// Returns the mutable list of seats.
    pub fn seats_mut(&mut self) -> (r: &mut ResultList<SeatsInfo>)
        ensures
            *r == old(self).seats,
            *final(self) == (TrainCar { seats: *final(r), ..*old(self) }),
    {
        &mut self.seats
    }

    /// Returns the available places.
    pub fn places(&self) -> (r: &str)
        ensures
            r@ == self.places@,
    {
        self.places.as_str()
    }

}

/// Info about the train.
#[derive(Debug, Clone, PartialEq)]
pub struct TrainItem {
    pub train_number: String,
    pub leaving_date: Option<TrainDate>,
    pub leaving_time: Option<TrainTime>,
    pub arriving_date: Option<TrainDate>,
    pub arriving_time: Option<TrainTime>,
    pub leaving_station_name: String,
    pub arriving_station_name: String,
    pub leaving_station_code: RzdStationCode,
    pub arriving_station_code: RzdStationCode,
    pub cars: ResultList<TrainCar>,
}

impl TrainItem {
    /// Returns the train number.
    pub fn train_number(&self) -> (r: &str)
        ensures
            r@ == self.train_number@,
    {
        self.train_number.as_str()
    }

    /// Returns the departure date of the train.
    pub fn leaving_date(&self) -> (r: Option<TrainDate>)
        ensures
            r == self.leaving_date,
    {
        self.leaving_date
    }

    /// Returns the departure time of the train.
    pub fn leaving_time(&self) -> (r: Option<TrainTime>)
        ensures
            r == self.leaving_time,
    {
        self.leaving_time
    }

    /// Returns the arrival date of the train.
    pub fn arriving_date(&self) -> (r: Option<TrainDate>)
        ensures
            r == self.arriving_date,
    {
        self.arriving_date
    }

    /// Returns the arrival time of the train.
    pub fn arriving_time(&self) -> (r: Option<TrainTime>)
        ensures
            r == self.arriving_time,
    {
        self.arriving_time
    }

    /// Returns the name of the departure station.
    pub fn leaving_station_name(&self) -> (r: &str)
        ensures
            r@ == self.leaving_station_name@,
    {
        self.leaving_station_name.as_str()
    }

    /// Returns the name of the arrival station.
    pub fn arriving_station_name(&self) -> (r: &str)
        ensures
            r@ == self.arriving_station_name@,
    {
        self.arriving_station_name.as_str()
    }

    /// Returns the RZD code of the departure station.
    pub fn leaving_station_code(&self) -> (r: RzdStationCode)
        ensures
            r == self.leaving_station_code,
    {
        self.leaving_station_code
    }

    /// Returns the RZD code of the arrival station.
    pub fn arriving_station_code(&self) -> (r: RzdStationCode)
        ensures
            r == self.arriving_station_code,
    {
        self.arriving_station_code
    }

    /// Returns the immutable list of train cars.
    pub fn cars(&self) -> (r: &ResultList<TrainCar>)
        ensures
            *r == self.cars,
    {
        &self.cars
    }

    /// Returns the mutable list of train cars.
    pub fn cars_mut(&mut self) -> (r: &mut ResultList<TrainCar>)
        ensures
            *r == old(self).cars,
            *final(self) == (TrainItem { cars: *final(r), ..*old(self) }),
    {
        &mut self.cars
    }

}

impl Default for TrainItem {
    fn default() -> (r: Self)
        ensures
            r.train_number@.len() == 0,
            r.leaving_date is None,
            r.leaving_time is None,
            r.arriving_date is None,
            r.arriving_time is None,
            r.leaving_station_name@.len() == 0,
            r.arriving_station_name@.len() == 0,
            r.leaving_station_code.0 == 0,
            r.arriving_station_code.0 == 0,
            r.cars.items().len() == 0,
    {
        TrainItem {
            train_number: String::new(),
            leaving_date: None,
            leaving_time: None,
            arriving_date: None,
            arriving_time: None,
            leaving_station_name: String::new(),
            arriving_station_name: String::new(),
            leaving_station_code: RzdStationCode(0),
            arriving_station_code: RzdStationCode(0),
            cars: ResultList(Vec::new()),
        }
    }
}

impl Text for SeatsInfo {
    /// The number of the free seats, their kind and their price.
    open spec fn text(&self) -> Seq<char> {
        digits_of(self.free_seats as nat) + " "@ + self.seats_type@ + " по "@ + self.price@
    }

    fn to_text(&self) -> (r: String) {
        let mut out = number_to_string(self.free_seats as u64);
        out.append(" ");
        out.append(self.seats_type.as_str());
        out.append(" по ");
        out.append(self.price.as_str());
        out
    }
}

impl Text for InsuranceInfo {
    /// The name of the insurance, its price and where to read about it.
    open spec fn text(&self) -> Seq<char> {
        self.name@ + ", "@ + self.price@ + " р. ("@ + self.url@ + ")"@
    }

    fn to_text(&self) -> (r: String) {
        let mut out = self.name.clone();
        out.append(", ");
        out.append(self.price.as_str());
        out.append(" р. (");
        out.append(self.url.as_str());
        out.append(")");
        out
    }
}

/// The text of an insurance, on a line of its own, where there is one.
pub open spec fn insurance_line(insurance: Option<InsuranceInfo>) -> Seq<char> {
    match insurance {
        Some(i) => "\tстраховка: "@ + i.text() + "\n"@,
        None => Seq::empty(),
    }
}

/// Appends the line of an insurance to `out`, where there is one.
pub fn push_insurance(out: &mut String, insurance: &Option<InsuranceInfo>)
    ensures
        final(out)@ == old(out)@ + insurance_line(*insurance),
{
    match insurance {
        Some(i) => {
            let mut piece = String::from_str("\tстраховка: ");
            let text = i.to_text();
            piece.append(text.as_str());
            piece.append("\n");
            out.append(piece.as_str());
        },
        None => {
            assert(out@ + Seq::<char>::empty() =~= out@);
        },
    }
}

impl Text for TrainCar {
    /// The car, its services, its prices, its insurance and its seats.
    open spec fn text(&self) -> Seq<char> {
        "Вагон "@ + self.number@ + ", "@ + self.type_loc@ + ", класс "@ + self.service_class@ + ":\n"@ + (if self.services.items().len() > 0 {
            "\tуслуги: "@ + self.services.text() + "\n"@
        } else {
            Seq::empty()
        }) + "\tтарифы:"@ + (if self.tariff1@.len() > 0 {
            "\t\t"@ + self.tariff1@ + " (билет)\n"@
        } else {
            Seq::empty()
        }) + (if self.tariff2@.len() > 0 {
            "\t\t"@ + self.tariff2@ + " (плацкарта)\n"@
        } else {
            Seq::empty()
        }) + (if self.tariff_service@.len() > 0 {
            "\t\t"@ + self.tariff_service@ + " (сервис)\n"@
        } else {
            Seq::empty()
        }) + insurance_line(self.insurance) + "\tместа: "@ + self.places@ + "\n"@ + "\tвсего мест:"@ + all_lines(texts_of(self.seats.items()), "\t\t"@, "\n"@)
    }

    fn to_text(&self) -> (r: String) {
        let mut out = String::from_str("Вагон ");
        out.append(self.number.as_str());
        out.append(", ");
        out.append(self.type_loc.as_str());
        out.append(", класс ");
        out.append(self.service_class.as_str());
        out.append(":\n");
        if !self.services.is_empty() {
            let mut piece = String::from_str("\tуслуги: ");
            let inner = self.services.to_text();
            piece.append(inner.as_str());
            piece.append("\n");
            out.append(piece.as_str());
        } else {
            assert(out@ + Seq::<char>::empty() =~= out@);
        }
        out.append("\tтарифы:");
        if !self.tariff1.as_str().is_empty() {
            let mut piece = String::from_str("\t\t");
            piece.append(self.tariff1.as_str());
            piece.append(" (билет)\n");
            out.append(piece.as_str());
        } else {
            assert(out@ + Seq::<char>::empty() =~= out@);
        }
        if !self.tariff2.as_str().is_empty() {
            let mut piece = String::from_str("\t\t");
            piece.append(self.tariff2.as_str());
            piece.append(" (плацкарта)\n");
            out.append(piece.as_str());
        } else {
            assert(out@ + Seq::<char>::empty() =~= out@);
        }
        if !self.tariff_service.as_str().is_empty() {
            let mut piece = String::from_str("\t\t");
            piece.append(self.tariff_service.as_str());
            piece.append(" (сервис)\n");
            out.append(piece.as_str());
        } else {
            assert(out@ + Seq::<char>::empty() =~= out@);
        }
        push_insurance(&mut out, &self.insurance);
        out.append("\tместа: ");
        out.append(self.places.as_str());
        out.append("\n");
        out.append("\tвсего мест:");
        push_lines(&mut out, &self.seats.0, "\t\t", "\n");
        out
    }
}

impl Text for TrainItem {
    /// The train, its two stations, and its cars.
    open spec fn text(&self) -> Seq<char> {
        "Поезд № \""@ + self.train_number@ + "\"\n"@ + "Станция отправления: \""@ + self.leaving_station_name@ + "\" "@ + digits_of(self.leaving_station_code.0 as nat) + "\n"@ + "Станция прибытия: \""@ + self.arriving_station_name@ + "\" "@ + digits_of(self.arriving_station_code.0 as nat) + "\n"@ + all_lines(texts_of(self.cars.items()), ""@, ""@)
    }

    fn to_text(&self) -> (r: String) {
        let mut out = String::from_str("Поезд № \"");
        out.append(self.train_number.as_str());
        out.append("\"\n");
        out.append("Станция отправления: \"");
        out.append(self.leaving_station_name.as_str());
        out.append("\" ");
        push_number(&mut out, self.leaving_station_code.0 as u64);
        out.append("\n");
        out.append("Станция прибытия: \"");
        out.append(self.arriving_station_name.as_str());
        out.append("\" ");
        push_number(&mut out, self.arriving_station_code.0 as u64);
        out.append("\n");
        push_lines(&mut out, &self.cars.0, "", "");
        out
    }
}

/// Whether `j` is laid out as the seats of one kind in a car.
pub open spec fn seats_shape(j: Json) -> bool {
    &&& j.fields() matches Some(f)
    &&& number_at(f, "free_seats"@, "free"@, u32::MAX as u64) is Some
    &&& text_at(f, "type_seats"@, "label"@) is Some
    &&& text_at(f, "tariff"@, "tariff"@) is Some
}

/// Whether `s` is what `j` says of the seats of one kind in a car.
pub open spec fn is_seats(j: Json, s: SeatsInfo) -> bool {
    let f = j.fields().unwrap();
    &&& s.free_seats == number_at(f, "free_seats"@, "free"@, u32::MAX as u64).unwrap()
    &&& s.seats_type@ == text_at(f, "type_seats"@, "label"@).unwrap()
    &&& s.price@ == text_at(f, "tariff"@, "tariff"@).unwrap()
}

/// Reads the seats of one kind in a car.
pub fn read_seats(j: &Json) -> (r: Result<SeatsInfo, Error>)
    ensures
        if seats_shape(*j) {
            r matches Ok(s) && is_seats(*j, s)
        } else {
            r matches Err(e) && is_shape_error(e)
        },
{
    let f = j.as_object()?;
    let free_seats = number_field(f, "free_seats", "free", 0xffff_ffff)?;
    let seats_type = text_field(f, "type_seats", "label")?;
    let price = text_field(f, "tariff", "tariff")?;
    Ok(SeatsInfo { free_seats: free_seats as u32, seats_type, price })
}

/// Whether each item is laid out as the seats of one kind in a car.
pub open spec fn each_seats_shape(items: Seq<Json>) -> bool {
    forall|i: int| 0 <= i < items.len() ==> seats_shape(#[trigger] items[i])
}

/// Whether `out` is what the items say, item by item.
pub open spec fn are_seats(items: Seq<Json>, out: Seq<SeatsInfo>) -> bool {
    &&& out.len() == items.len()
    &&& forall|i: int| 0 <= i < items.len() ==> is_seats(items[i], #[trigger] out[i])
}

/// Reads the seats of a car, kind by kind.
pub fn read_seats_list(items: Option<&Vec<Json>>) -> (r: Result<Vec<SeatsInfo>, Error>)
    ensures
        match items {
            Some(v) => if each_seats_shape(v@) {
                r matches Ok(out) && are_seats(v@, out@)
            } else {
                r matches Err(e) && is_shape_error(e)
            },
            None => r matches Ok(out) && out@.len() == 0,
        },
{
    let mut out: Vec<SeatsInfo> = Vec::new();
    match items {
        None => {},
        Some(v) => {
            let n: usize = v.len();
            let mut i: usize = 0;
            while i < n
                invariant
                    n == v@.len(),
                    i <= n,
                    items == Some(v),
                    out@.len() == i,
                    forall|k: int| 0 <= k < i ==> seats_shape(#[trigger] v@[k]),
                    forall|k: int| 0 <= k < i ==> is_seats(v@[k], #[trigger] out@[k]),
                decreases n - i,
            {
                let x = match read_seats(&v[i]) {
                    Ok(x) => x,
                    Err(e) => {
                        return Err(e);
                    },
                };
                out.push(x);
                i += 1;
            }
        },
    }
    Ok(out)
}


/// Whether `j` is laid out as a service of a car: an object with a number and
/// a description.
pub open spec fn service_shape(j: Json) -> bool {
    &&& j.fields() matches Some(f)
    &&& number_at(f, "id"@, "id"@, u32::MAX as u64) is Some
    &&& text_at(f, "description"@, "description"@) is Some
}

/// Whether `s` is the description that `j` gives of a service.
pub open spec fn is_service(j: Json, s: String) -> bool {
    s@ == text_at(j.fields().unwrap(), "description"@, "description"@).unwrap()
}

/// Reads the description of a service of a car.
pub fn read_service(j: &Json) -> (r: Result<String, Error>)
    ensures
        if service_shape(*j) {
            r matches Ok(s) && is_service(*j, s)
        } else {
            r matches Err(e) && is_shape_error(e)
        },
{
    let f = j.as_object()?;
    let _id = number_field(f, "id", "id", 0xffff_ffff)?;
    text_field(f, "description", "description")
}

/// Whether each item is laid out as a service of a car.
pub open spec fn each_service_shape(items: Seq<Json>) -> bool {
    forall|i: int| 0 <= i < items.len() ==> service_shape(#[trigger] items[i])
}

/// Whether `out` is what the items say, item by item.
pub open spec fn are_services(items: Seq<Json>, out: Seq<String>) -> bool {
    &&& out.len() == items.len()
    &&& forall|i: int| 0 <= i < items.len() ==> is_service(items[i], #[trigger] out[i])
}

/// Reads the descriptions of the services of a car.
pub fn read_services(items: Option<&Vec<Json>>) -> (r: Result<Vec<String>, Error>)
    ensures
        match items {
            Some(v) => if each_service_shape(v@) {
                r matches Ok(out) && are_services(v@, out@)
            } else {
                r matches Err(e) && is_shape_error(e)
            },
            None => r matches Ok(out) && out@.len() == 0,
        },
{
    let mut out: Vec<String> = Vec::new();
    match items {
        None => {},
        Some(v) => {
            let n: usize = v.len();
            let mut i: usize = 0;
            while i < n
                invariant
                    n == v@.len(),
                    i <= n,
                    items == Some(v),
                    out@.len() == i,
                    forall|k: int| 0 <= k < i ==> service_shape(#[trigger] v@[k]),
                    forall|k: int| 0 <= k < i ==> is_service(v@[k], #[trigger] out@[k]),
                decreases n - i,
            {
                let x = match read_service(&v[i]) {
                    Ok(x) => x,
                    Err(e) => {
                        return Err(e);
                    },
                };
                out.push(x);
                i += 1;
            }
        },
    }
    Ok(out)
}


/// An insurance that the reply offers, under the number by which the cars
/// refer to it.
#[derive(Debug, PartialEq)]
pub struct InsuranceOffer {
    pub id: u32,
    pub name: String,
    pub url: String,
    pub cost: u32,
}

/// Whether `j` is laid out as an insurance that the reply offers.
pub open spec fn offer_shape(j: Json) -> bool {
    &&& j.fields() matches Some(f)
    &&& number_at(f, "id"@, "id"@, u32::MAX as u64) is Some
    &&& text_at(f, "short_name"@, "shortName"@) is Some
    &&& text_at(f, "offer_url"@, "offerUrl"@) is Some
    &&& number_at(f, "insurance_cost"@, "insuranceCost"@, u32::MAX as u64) is Some
}

/// Whether `o` is what `j` says of an insurance that the reply offers.
pub open spec fn is_offer(j: Json, o: InsuranceOffer) -> bool {
    let f = j.fields().unwrap();
    &&& o.id == number_at(f, "id"@, "id"@, u32::MAX as u64).unwrap()
    &&& o.name@ == text_at(f, "short_name"@, "shortName"@).unwrap()
    &&& o.url@ == text_at(f, "offer_url"@, "offerUrl"@).unwrap()
    &&& o.cost == number_at(f, "insurance_cost"@, "insuranceCost"@, u32::MAX as u64).unwrap()
}

/// Reads an insurance that the reply offers.
pub fn read_offer(j: &Json) -> (r: Result<InsuranceOffer, Error>)
    ensures
        if offer_shape(*j) {
            r matches Ok(o) && is_offer(*j, o)
        } else {
            r matches Err(e) && is_shape_error(e)
        },
{
    let f = j.as_object()?;
    let id = number_field(f, "id", "id", 0xffff_ffff)?;
    let name = text_field(f, "short_name", "shortName")?;
    let url = text_field(f, "offer_url", "offerUrl")?;
    let cost = number_field(f, "insurance_cost", "insuranceCost", 0xffff_ffff)?;
    Ok(InsuranceOffer { id: id as u32, name, url, cost: cost as u32 })
}

/// Whether each item is laid out as an insurance that the reply offers.
pub open spec fn each_offer_shape(items: Seq<Json>) -> bool {
    forall|i: int| 0 <= i < items.len() ==> offer_shape(#[trigger] items[i])
}

/// Whether `out` is what the items say, item by item.
pub open spec fn are_offers(items: Seq<Json>, out: Seq<InsuranceOffer>) -> bool {
    &&& out.len() == items.len()
    &&& forall|i: int| 0 <= i < items.len() ==> is_offer(items[i], #[trigger] out[i])
}

/// Reads the insurances that the reply offers.
pub fn read_offers(items: Option<&Vec<Json>>) -> (r: Result<Vec<InsuranceOffer>, Error>)
    ensures
        match items {
            Some(v) => if each_offer_shape(v@) {
                r matches Ok(out) && are_offers(v@, out@)
            } else {
                r matches Err(e) && is_shape_error(e)
            },
            None => r matches Ok(out) && out@.len() == 0,
        },
{
    let mut out: Vec<InsuranceOffer> = Vec::new();
    match items {
        None => {},
        Some(v) => {
            let n: usize = v.len();
            let mut i: usize = 0;
            while i < n
                invariant
                    n == v@.len(),
                    i <= n,
                    items == Some(v),
                    out@.len() == i,
                    forall|k: int| 0 <= k < i ==> offer_shape(#[trigger] v@[k]),
                    forall|k: int| 0 <= k < i ==> is_offer(v@[k], #[trigger] out@[k]),
                decreases n - i,
            {
                let x = match read_offer(&v[i]) {
                    Ok(x) => x,
                    Err(e) => {
                        return Err(e);
                    },
                };
                out.push(x);
                i += 1;
            }
        },
    }
    Ok(out)
}


/// The first offer at or after `i` that goes by the number `id`; the number of
/// offers where none does.
pub open spec fn first_offer(offers: Seq<InsuranceOffer>, id: u32, i: int) -> int
    decreases offers.len() - i,
{
    if 0 <= i < offers.len() && offers[i].id != id {
        first_offer(offers, id, i + 1)
    } else {
        i
    }
}

/// Whether `r` is the insurance of a car that refers to the number `id`: the
/// first offer under that number, with its cost in decimal digits, or nothing
/// where no offer goes by that number.
pub open spec fn is_insurance(offers: Seq<InsuranceOffer>, id: u32, r: Option<InsuranceInfo>) -> bool {
    let k = first_offer(offers, id, 0);
    if 0 <= k < offers.len() {
        &&& r matches Some(info)
        &&& info.name@ == offers[k].name@
        &&& info.url@ == offers[k].url@
        &&& info.price@ == digits_of(offers[k].cost as nat)
    } else {
        r is None
    }
}

/// Looks up the insurance of a car that refers to the number `id`.
pub fn find_insurance(offers: &Vec<InsuranceOffer>, id: u32) -> (r: Option<InsuranceInfo>)
    ensures
        is_insurance(offers@, id, r),
{
    let n: usize = offers.len();
    let mut i: usize = 0;
    while i < n
        invariant
            n == offers@.len(),
            i <= n,
            first_offer(offers@, id, 0) == first_offer(offers@, id, i as int),
        decreases n - i,
    {
        if offers[i].id == id {
            return Some(
                InsuranceInfo {
                    name: offers[i].name.clone(),
                    url: offers[i].url.clone(),
                    price: number_to_string(offers[i].cost as u64),
                },
            );
        }
        i += 1;
    }
    None
}

/// Whether `j` is laid out as a car of a train. The two prices `tariff2` and
/// `tariffServ` must be there, and may be `null`.
pub open spec fn car_shape(j: Json) -> bool {
    &&& j.fields() matches Some(f)
    &&& text_at(f, "cnumber"@, "cnumber"@) is Some
    &&& text_at(f, "type_loc"@, "typeLoc"@) is Some
    &&& text_at(f, "cls_type"@, "clsType"@) is Some
    &&& list_at(f, "services"@, "services"@) matches Some(services)
    &&& each_service_shape(services)
    &&& text_at(f, "tariff"@, "tariff"@) is Some
    &&& nullable_text_at(f, "tariff2"@, "tariff2"@) is Some
    &&& nullable_text_at(f, "tariff_serv"@, "tariffServ"@) is Some
    &&& text_at(f, "carrier"@, "carrier"@) is Some
    &&& number_at(f, "insurance_id"@, "insuranceTypeId"@, u32::MAX as u64) is Some
    &&& list_at(f, "seats"@, "seats"@) matches Some(seats)
    &&& each_seats_shape(seats)
    &&& text_at(f, "places"@, "places"@) is Some
}

/// Whether `c` is what `j` says of a car, with its insurance looked up among
/// the offers.
pub open spec fn is_car(j: Json, offers: Seq<InsuranceOffer>, c: TrainCar) -> bool {
    let f = j.fields().unwrap();
    &&& c.number@ == text_at(f, "cnumber"@, "cnumber"@).unwrap()
    &&& c.type_loc@ == text_at(f, "type_loc"@, "typeLoc"@).unwrap()
    &&& c.service_class@ == text_at(f, "cls_type"@, "clsType"@).unwrap()
    &&& are_services(list_at(f, "services"@, "services"@).unwrap(), c.services.items())
    &&& c.tariff1@ == text_at(f, "tariff"@, "tariff"@).unwrap()
    &&& c.tariff2@ == nullable_text_at(f, "tariff2"@, "tariff2"@).unwrap()
    &&& c.tariff_service@ == nullable_text_at(f, "tariff_serv"@, "tariffServ"@).unwrap()
    &&& c.carrier@ == text_at(f, "carrier"@, "carrier"@).unwrap()
    &&& is_insurance(
        offers,
        number_at(f, "insurance_id"@, "insuranceTypeId"@, u32::MAX as u64).unwrap() as u32,
        c.insurance,
    )
    &&& are_seats(list_at(f, "seats"@, "seats"@).unwrap(), c.seats.items())
    &&& c.places@ == text_at(f, "places"@, "places"@).unwrap()
}

/// Reads a car of a train.
pub fn read_car(j: &Json, offers: &Vec<InsuranceOffer>) -> (r: Result<TrainCar, Error>)
    ensures
        if car_shape(*j) {
            r matches Ok(c) && is_car(*j, offers@, c)
        } else {
            r matches Err(e) && is_shape_error(e)
        },
{
    let f = j.as_object()?;
    let number = text_field(f, "cnumber", "cnumber")?;
    let type_loc = text_field(f, "type_loc", "typeLoc")?;
    let service_class = text_field(f, "cls_type", "clsType")?;
    let services = read_services(list_field(f, "services", "services")?)?;
    let tariff1 = text_field(f, "tariff", "tariff")?;
    let tariff2 = nullable_text_field(f, "tariff2", "tariff2")?;
    let tariff_service = nullable_text_field(f, "tariff_serv", "tariffServ")?;
    let carrier = text_field(f, "carrier", "carrier")?;
    let insurance_id = number_field(f, "insurance_id", "insuranceTypeId", 0xffff_ffff)?;
    let seats = read_seats_list(list_field(f, "seats", "seats")?)?;
    let places = text_field(f, "places", "places")?;
    Ok(
        TrainCar {
            number,
            type_loc,
            service_class,
            services: ResultList(services),
            tariff1,
            tariff2,
            tariff_service,
            carrier,
            insurance: find_insurance(offers, insurance_id as u32),
            seats: ResultList(seats),
            places,
        },
    )
}

/// Whether each item is laid out as a car of a train.
pub open spec fn each_car_shape(items: Seq<Json>) -> bool {
    forall|i: int| 0 <= i < items.len() ==> car_shape(#[trigger] items[i])
}

/// Whether `out` is what the items say, item by item.
pub open spec fn are_cars(items: Seq<Json>, offers: Seq<InsuranceOffer>, out: Seq<TrainCar>) -> bool {
    &&& out.len() == items.len()
    &&& forall|i: int| 0 <= i < items.len() ==> is_car(items[i], offers, #[trigger] out[i])
}

/// Reads the cars of a train.
pub fn read_cars(items: Option<&Vec<Json>>, offers: &Vec<InsuranceOffer>) -> (r: Result<Vec<TrainCar>, Error>)
    ensures
        match items {
            Some(v) => if each_car_shape(v@) {
                r matches Ok(out) && are_cars(v@, offers@, out@)
            } else {
                r matches Err(e) && is_shape_error(e)
            },
            None => r matches Ok(out) && out@.len() == 0,
        },
{
    let mut out: Vec<TrainCar> = Vec::new();
    match items {
        None => {},
        Some(v) => {
            let n: usize = v.len();
            let mut i: usize = 0;
            while i < n
                invariant
                    n == v@.len(),
                    i <= n,
                    items == Some(v),
                    out@.len() == i,
                    forall|k: int| 0 <= k < i ==> car_shape(#[trigger] v@[k]),
                    forall|k: int| 0 <= k < i ==> is_car(v@[k], offers@, #[trigger] out@[k]),
                decreases n - i,
            {
                let x = match read_car(&v[i], offers) {
                    Ok(x) => x,
                    Err(e) => {
                        return Err(e);
                    },
                };
                out.push(x);
                i += 1;
            }
        },
    }
    Ok(out)
}


/// One entry of a reply about a train: what the server says of its outcome,
/// the message that it gives where that is no success, and the train.
#[derive(Debug, PartialEq)]
pub struct TrainEntry {
    pub result: String,
    pub error: String,
    pub item: TrainItem,
}

/// Whether `j` is laid out as an entry of a reply about a train.
pub open spec fn entry_shape(j: Json) -> bool {
    &&& j.fields() matches Some(f)
    &&& text_at(f, "result"@, "result"@) is Some
    &&& text_at(f, "number"@, "number"@) is Some
    &&& text_at(f, "date0"@, "date0"@) is Some
    &&& text_at(f, "time0"@, "time0"@) is Some
    &&& text_at(f, "date1"@, "date1"@) is Some
    &&& text_at(f, "time1"@, "time1"@) is Some
    &&& text_at(f, "station0"@, "station0"@) is Some
    &&& text_at(f, "station1"@, "station1"@) is Some
    &&& text_at(f, "code0"@, "code0"@) is Some
    &&& text_at(f, "code1"@, "code1"@) is Some
    &&& list_at(f, "cars"@, "cars"@) matches Some(cars)
    &&& each_car_shape(cars)
    &&& text_at(f, "error"@, "error"@) is Some
}

/// Whether `t` is what `j` says as an entry of a reply about a train. The
/// dates, the times and the codes of the stations are read from their texts.
pub open spec fn is_entry(j: Json, offers: Seq<InsuranceOffer>, t: TrainEntry) -> bool {
    let f = j.fields().unwrap();
    &&& t.result@ == text_at(f, "result"@, "result"@).unwrap()
    &&& t.error@ == text_at(f, "error"@, "error"@).unwrap()
    &&& t.item.train_number@ == text_at(f, "number"@, "number"@).unwrap()
    &&& TrainDate::is_parsed(text_at(f, "date0"@, "date0"@).unwrap(), t.item.leaving_date)
    &&& TrainTime::is_parsed(text_at(f, "time0"@, "time0"@).unwrap(), t.item.leaving_time)
    &&& TrainDate::is_parsed(text_at(f, "date1"@, "date1"@).unwrap(), t.item.arriving_date)
    &&& TrainTime::is_parsed(text_at(f, "time1"@, "time1"@).unwrap(), t.item.arriving_time)
    &&& t.item.leaving_station_name@ == text_at(f, "station0"@, "station0"@).unwrap()
    &&& t.item.arriving_station_name@ == text_at(f, "station1"@, "station1"@).unwrap()
    &&& t.item.leaving_station_code == station_code_of(text_at(f, "code0"@, "code0"@).unwrap())
    &&& t.item.arriving_station_code == station_code_of(text_at(f, "code1"@, "code1"@).unwrap())
    &&& are_cars(list_at(f, "cars"@, "cars"@).unwrap(), offers, t.item.cars.items())
}

/// Reads an entry of a reply about a train.
pub fn read_entry(j: &Json, offers: &Vec<InsuranceOffer>) -> (r: Result<TrainEntry, Error>)
    ensures
        if entry_shape(*j) {
            r matches Ok(t) && is_entry(*j, offers@, t)
        } else {
            r matches Err(e) && is_shape_error(e)
        },
{
    let f = j.as_object()?;
    let result = text_field(f, "result", "result")?;
    let train_number = text_field(f, "number", "number")?;
    let date0 = text_field(f, "date0", "date0")?;
    let time0 = text_field(f, "time0", "time0")?;
    let date1 = text_field(f, "date1", "date1")?;
    let time1 = text_field(f, "time1", "time1")?;
    let leaving_station_name = text_field(f, "station0", "station0")?;
    let arriving_station_name = text_field(f, "station1", "station1")?;
    let code0 = text_field(f, "code0", "code0")?;
    let code1 = text_field(f, "code1", "code1")?;
    let cars = read_cars(list_field(f, "cars", "cars")?, offers)?;
    let error = text_field(f, "error", "error")?;
    Ok(
        TrainEntry {
            result,
            error,
            item: TrainItem {
                train_number,
                leaving_date: parse_train_date(date0.as_str()),
                leaving_time: parse_train_time(time0.as_str()),
                arriving_date: parse_train_date(date1.as_str()),
                arriving_time: parse_train_time(time1.as_str()),
                leaving_station_name,
                arriving_station_name,
                leaving_station_code: parse_station_code(code0.as_str()),
                arriving_station_code: parse_station_code(code1.as_str()),
                cars: ResultList(cars),
            },
        },
    )
}

/// Whether each item is laid out as an entry of a reply about a train.
pub open spec fn each_entry_shape(items: Seq<Json>) -> bool {
    forall|i: int| 0 <= i < items.len() ==> entry_shape(#[trigger] items[i])
}

/// Whether `out` is what the items say, item by item.
pub open spec fn are_entries(items: Seq<Json>, offers: Seq<InsuranceOffer>, out: Seq<TrainEntry>) -> bool {
    &&& out.len() == items.len()
    &&& forall|i: int| 0 <= i < items.len() ==> is_entry(items[i], offers, #[trigger] out[i])
}

/// Reads the entries of a reply about a train.
pub fn read_entries(items: Option<&Vec<Json>>, offers: &Vec<InsuranceOffer>) -> (r: Result<Vec<TrainEntry>, Error>)
    ensures
        match items {
            Some(v) => if each_entry_shape(v@) {
                r matches Ok(out) && are_entries(v@, offers@, out@)
            } else {
                r matches Err(e) && is_shape_error(e)
            },
            None => r matches Ok(out) && out@.len() == 0,
        },
{
    let mut out: Vec<TrainEntry> = Vec::new();
    match items {
        None => {},
        Some(v) => {
            let n: usize = v.len();
            let mut i: usize = 0;
            while i < n
                invariant
                    n == v@.len(),
                    i <= n,
                    items == Some(v),
                    out@.len() == i,
                    forall|k: int| 0 <= k < i ==> entry_shape(#[trigger] v@[k]),
                    forall|k: int| 0 <= k < i ==> is_entry(v@[k], offers@, #[trigger] out@[k]),
                decreases n - i,
            {
                let x = match read_entry(&v[i], offers) {
                    Ok(x) => x,
                    Err(e) => {
                        return Err(e);
                    },
                };
                out.push(x);
                i += 1;
            }
        },
    }
    Ok(out)
}


/// A reply about a train, as the server laid it out: what it says of its own
/// outcome, and its entries.
#[derive(Debug, PartialEq)]
pub struct TrainAnswer {
    pub result: String,
    pub entries: Vec<TrainEntry>,
}

/// Whether `j` is laid out as a reply about a train.
pub open spec fn answer_shape(j: Json) -> bool {
    &&& j.fields() matches Some(f)
    &&& text_at(f, "result"@, "result"@) is Some
    &&& list_at(f, "insurance"@, "insuranceCompany"@) matches Some(offers)
    &&& each_offer_shape(offers)
    &&& list_at(f, "lst"@, "lst"@) matches Some(entries)
    &&& each_entry_shape(entries)
}

/// Whether `a` is what `j` says as a reply about a train: for some reading
/// `offers` of the insurances that it offers, the entries are read with them.
pub open spec fn is_answer(j: Json, a: TrainAnswer) -> bool {
    let f = j.fields().unwrap();
    &&& a.result@ == text_at(f, "result"@, "result"@).unwrap()
    &&& exists|offers: Seq<InsuranceOffer>|
        {
            &&& #[trigger] are_offers(
                list_at(f, "insurance"@, "insuranceCompany"@).unwrap(),
                offers,
            )
            &&& are_entries(list_at(f, "lst"@, "lst"@).unwrap(), offers, a.entries@)
        }
}

/// Reads a reply about a train as the server laid it out.
pub fn read_answer(j: &Json) -> (r: Result<TrainAnswer, Error>)
    ensures
        if answer_shape(*j) {
            r matches Ok(a) && is_answer(*j, a)
        } else {
            r matches Err(e) && is_shape_error(e)
        },
{
    let f = j.as_object()?;
    let result = text_field(f, "result", "result")?;
    let offers = read_offers(list_field(f, "insurance", "insuranceCompany")?)?;
    let entries = read_entries(list_field(f, "lst", "lst")?, &offers)?;
    proof {
        assert(are_offers(list_at(f@, "insurance"@, "insuranceCompany"@).unwrap(), offers@));
        assert(are_entries(list_at(f@, "lst"@, "lst"@).unwrap(), offers@, entries@));
    }
    Ok(TrainAnswer { result, entries })
}

/// The first entry at or after `i` that does not call itself `OK`; the number
/// of entries where each does.
pub open spec fn first_refused(entries: Seq<TrainEntry>, i: int) -> int
    decreases entries.len() - i,
{
    if 0 <= i < entries.len() && entries[i].result@ == "OK"@ {
        first_refused(entries, i + 1)
    } else {
        i
    }
}

/// The trains of the entries, entry by entry.
pub open spec fn entry_items(entries: Seq<TrainEntry>) -> Seq<TrainItem> {
    Seq::new(entries.len(), |i: int| entries[i].item)
}

/// What a reply about a train comes to.
///
/// A reply that calls itself `RID` brings an identifier again in place of the
/// data: the answer is not ready. Any other reply that does not call itself
/// `OK` is a bad reply. One that does brings its trains, if each entry calls
/// itself `OK` too. If not, the first entry that does not makes the reply an
/// error, which carries the message of that entry alone, in the form in which
/// messages are kept.
pub open spec fn is_train_reply(a: TrainAnswer, r: ReplyResult<Vec<TrainItem>>) -> bool {
    if a.result@ == "RID"@ {
        r matches ReplyResult::Fail(Error::RzdReplyNotReady)
    } else if a.result@ != "OK"@ {
        r matches ReplyResult::Fail(Error::FailRzdResponse)
    } else {
        let k = first_refused(a.entries@, 0);
        if k >= a.entries@.len() {
            r matches ReplyResult::Success(v) && v@ == entry_items(a.entries@)
        } else {
            r matches ReplyResult::Fail(Error::RzdError(e)) && e.messages() == seq![
                normalized(a.entries@[k].error@),
            ]
        }
    }
}

/// Says what a reply about a train comes to.
pub fn train_reply(answer: TrainAnswer) -> (r: ReplyResult<Vec<TrainItem>>)
    ensures
        is_train_reply(answer, r),
{
    let ok = String::from_str("OK");
    if answer.result == String::from_str("RID") {
        return ReplyResult::Fail(Error::RzdReplyNotReady);
    }
    if answer.result != ok {
        return ReplyResult::Fail(Error::FailRzdResponse);
    }
    let ghost all = answer.entries@;
    let mut trains: Vec<TrainItem> = Vec::new();
    for t in it: answer.entries
        invariant
            all == answer.entries@,
            ok@ == "OK"@,
            answer.result@ == "OK"@,
            answer.result@ != "RID"@,
            0 <= it.index@ <= all.len(),
            first_refused(all, 0) == first_refused(all, it.index@ as int),
            trains@ == entry_items(all).take(it.index@ as int),
    {
        let ghost i = it.index@ as int;
        assert(t == all[i]);
        if t.result != ok {
            let message = normalize_message(t.error.as_str());
            let mut errors: Vec<String> = Vec::new();
            errors.push(message);
            assert(views_of(errors@) =~= seq![normalized(all[i].error@)]);
            return ReplyResult::Fail(Error::RzdError(RzdErrors(errors)));
        }
        trains.push(t.item);
        assert(trains@ =~= entry_items(all).take(i + 1));
    }
    assert(entry_items(all).take(all.len() as int) =~= entry_items(all));
    ReplyResult::Success(trains)
}

/// What reading a text as a reply about a train gives: the error of
/// serde_json where the text is no JSON, the error of an unexpected layout
/// where the JSON is no such reply, and else what the reply comes to.
pub open spec fn is_train_reply_of(
    text: Seq<char>,
    r: Result<ReplyResult<Vec<TrainItem>>, Error>,
) -> bool {
    match parsed_json(text) {
        Ok(j) => if answer_shape(j) {
            r matches Ok(reply) && exists|a: TrainAnswer| is_answer(j, a) && is_train_reply(a, reply)
        } else {
            r matches Err(e) && is_shape_error(e)
        },
        Err(m) => r matches Err(Error::DeserializeError(s)) && s@ == m,
    }
}

/// Reads a text as a reply about a train.
pub fn read_train_reply(text: &str) -> (r: Result<ReplyResult<Vec<TrainItem>>, Error>)
    ensures
        is_train_reply_of(text@, r),
{
    let j = Json::parse(text)?;
    let answer = read_answer(&j)?;
    Ok(train_reply(answer))
}

/// Whether `j` is laid out as a reply to a request for the identifier of a
/// search for a train.
pub open spec fn rid_shape(j: Json) -> bool {
    &&& j.fields() matches Some(f)
    &&& text_at(f, "result"@, "result"@) is Some
    &&& number_at(f, "rid"@, "RID"@, u64::MAX) is Some
}

/// What such a reply comes to: the identifier where the reply calls itself
/// `RID`, a bad reply where it does not.
pub open spec fn rid_reply_of(j: Json) -> ReplyResult<RzdRequestId> {
    let f = j.fields().unwrap();
    if text_at(f, "result"@, "result"@).unwrap() == "RID"@ {
        ReplyResult::Success(RzdRequestId(number_at(f, "rid"@, "RID"@, u64::MAX).unwrap()))
    } else {
        ReplyResult::Fail(Error::FailRzdResponse)
    }
}

/// Says what a reply to a request for the identifier of a search for a train
/// comes to.
pub fn rid_reply(j: &Json) -> (r: Result<ReplyResult<RzdRequestId>, Error>)
    ensures
        if rid_shape(*j) {
            r == Ok::<ReplyResult<RzdRequestId>, Error>(rid_reply_of(*j))
        } else {
            r matches Err(e) && is_shape_error(e)
        },
{
    let f = j.as_object()?;
    let result = text_field(f, "result", "result")?;
    let rid = number_field(f, "rid", "RID", 0xffff_ffff_ffff_ffff)?;
    if result == String::from_str("RID") {
        Ok(ReplyResult::Success(RzdRequestId(rid)))
    } else {
        Ok(ReplyResult::Fail(Error::FailRzdResponse))
    }
}

/// What reading a text as a reply to a request for the identifier of a search
/// for a train gives.
pub open spec fn is_rid_reply_of(text: Seq<char>, r: Result<ReplyResult<RzdRequestId>, Error>) -> bool {
    match parsed_json(text) {
        Ok(j) => if rid_shape(j) {
            r == Ok::<ReplyResult<RzdRequestId>, Error>(rid_reply_of(j))
        } else {
            r matches Err(e) && is_shape_error(e)
        },
        Err(m) => r matches Err(Error::DeserializeError(s)) && s@ == m,
    }
}

/// Reads a text as a reply to a request for the identifier of a search for a
/// train.
pub fn read_rid_reply(text: &str) -> (r: Result<ReplyResult<RzdRequestId>, Error>)
    ensures
        is_rid_reply_of(text@, r),
{
    let j = Json::parse(text)?;
    rid_reply(&j)
}

/// A reply to a request for the data that calls itself `RID` is read as an
/// answer that is not ready, whatever search it is read for, so that a client
/// that asks by identifier asks again.
pub proof fn lemma_identifier_again_is_not_ready(
    search: TrainSearch,
    body: Seq<char>,
    r: Result<Option<ResultList<TrainItem>>, Error>,
)
    requires
        parsed_json(body) matches Ok(j) && answer_shape(j) && text_at(
            j.fields().unwrap(),
            "result"@,
            "result"@,
        ) == Some("RID"@),
        search.is_reply_data(body, r),
    ensures
        r matches Err(Error::RzdReplyNotReady),
        asks_again(r),
{
}

/// Train info search.
pub struct TrainSearch {
    pub leaving_code: RzdStationCode,
    pub leaving_date: TrainDate,
    pub leaving_time: TrainTime,
    pub arriving_code: RzdStationCode,
    pub train_number: String,
}

impl TrainSearch {
    /// Takes departure and arrival station codes, departure and arrival date,
    /// departure time and train number. The number is kept without white
    /// space around it and in upper case.
    ///
    /// # Errors
    ///
    /// The method fails if the train number is empty.
    pub fn new(
        leaving_code: RzdStationCode,
        arriving_code: RzdStationCode,
        leaving_date: TrainDate,
        leaving_time: TrainTime,
        train_number: &str,
    ) -> (r: Result<Self, Error>)
        ensures
            match r {
                Ok(s) => {
                    &&& s.leaving_code == leaving_code
                    &&& s.arriving_code == arriving_code
                    &&& s.leaving_date == leaving_date
                    &&& s.leaving_time == leaving_time
                    &&& s.train_number@ == uppercase_of(trimmed(train_number@))
                    &&& s.train_number@.len() > 0
                },
                Err(e) => e matches Error::EmptyTrainNumber && uppercase_of(
                    trimmed(train_number@),
                ).len() == 0,
            },
    {
        let t = trim(train_number);
        let train_number = to_uppercase(t.as_str());
        if train_number.as_str().is_empty() {
            return Err(Error::EmptyTrainNumber);
        }
        Ok(TrainSearch { leaving_code, leaving_date, leaving_time, arriving_code, train_number })
    }
}

impl RzdClientInterface<ResultList<TrainItem>> for TrainSearch {
    open spec fn spec_query_type(&self) -> RzdQueryType {
        RzdQueryType::WithId
    }

    open spec fn spec_request_id(&self) -> Seq<char> {
        "https://pass.rzd.ru/timetable/public/ru?layer_id=5764&dir="@ + digits_of(RouteDirection::OneWay.spec_code() as nat)
            + "&code0="@ + digits_of(self.leaving_code.0 as nat) + "&dt0="@ + date_text(
            self.leaving_date.year(),
            self.leaving_date.month(),
            self.leaving_date.day(),
        ) + "&time0="@ + time_text(self.leaving_time.hours(), self.leaving_time.minutes())
            + "&code1="@ + digits_of(self.arriving_code.0 as nat) + "&tnum0="@ + query_text(
            self.train_number@,
        )
    }

    open spec fn spec_request_data(&self, id: RzdRequestId) -> Seq<char> {
        "https://pass.rzd.ru/timetable/public/ru?layer_id=5764&rid="@ + digits_of(id.0 as nat)
    }

    open spec fn is_reply_id(&self, body: Seq<char>, r: Result<Option<RzdRequestId>, Error>) -> bool {
        exists|x: Result<ReplyResult<RzdRequestId>, Error>| #[trigger]
            is_rid_reply_of(body, x) && match x {
                Ok(reply) => id_outcome(reply, r),
                Err(e) => r == Err::<Option<RzdRequestId>, Error>(e),
            }
    }

    open spec fn is_reply_data(
        &self,
        body: Seq<char>,
        r: Result<Option<ResultList<TrainItem>>, Error>,
    ) -> bool {
        exists|x: Result<ReplyResult<Vec<TrainItem>>, Error>| #[trigger]
            is_train_reply_of(body, x) && match x {
                Ok(reply) => list_outcome(reply, r),
                Err(e) => r == Err::<Option<ResultList<TrainItem>>, Error>(e),
            }
    }

    fn query_type(&self) -> (r: RzdQueryType) {
        RzdQueryType::WithId
    }

    fn request_id(&self) -> (r: String) {
        let mut out = String::from_str("https://pass.rzd.ru/timetable/public/ru?layer_id=5764&dir=");
        push_number(&mut out, RouteDirection::OneWay.code() as u64);
        out.append("&code0=");
        push_number(&mut out, self.leaving_code.0 as u64);
        out.append("&dt0=");
        let date = self.leaving_date.to_string();
        out.append(date.as_str());
        out.append("&time0=");
        let time = self.leaving_time.to_string();
        out.append(time.as_str());
        out.append("&code1=");
        push_number(&mut out, self.arriving_code.0 as u64);
        out.append("&tnum0=");
        let train = form_urlencode(self.train_number.as_str());
        out.append(train.as_str());
        out
    }

    fn request_data(&self, id: RzdRequestId) -> (r: String) {
        let mut out = String::from_str("https://pass.rzd.ru/timetable/public/ru?layer_id=5764&rid=");
        push_number(&mut out, id.0);
        out
    }

    fn deserialize_reply_id(&self, body: &str) -> (r: Result<Option<RzdRequestId>, Error>) {
        let x = read_rid_reply(body);
        let ghost gx = x;
        let r = match x {
            Ok(reply) => reply.into_some(),
            Err(e) => Err(e),
        };
        assert(is_rid_reply_of(body@, gx));
        r
    }

    fn deserialize_reply_data(&self, body: &str) -> (r: Result<
        Option<ResultList<TrainItem>>,
        Error,
    >) {
        let x = read_train_reply(body);
        let ghost gx = x;
        let r = match x {
            Ok(reply) => reply.into_list(),
            Err(e) => Err(e),
        };
        assert(is_train_reply_of(body@, gx));
        r
    }
}

} // verus!
