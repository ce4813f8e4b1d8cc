//! The request to the weather service and what its answer amounts to.

use crate::decimal::Decimal;
use crate::location::GeoLocation;
use crate::weather::{Weather, WeatherResponse, WeatherUnits};
use nonempty::NonEmpty;
use vstd::prelude::*;
use vstd::string::*;

verus! {

/// The list type of the `nonempty` crate: a first item and those after it.
#[verifier::external_type_specification]
#[verifier::external_body]
#[verifier::reject_recursive_types(T)]
pub struct ExNonEmpty<T>(NonEmpty<T>);

/// The texts that a list of conditions holds, the first item first.
pub uninterp spec fn listed(list: NonEmpty<String>) -> Seq<Seq<char>>;

/// The texts of some strings, in their order.
pub open spec fn texts(items: Seq<String>) -> Seq<Seq<char>> {
    Seq::new(items.len(), |i: int| items[i]@)
}

/// `NonEmpty::from_vec`: nothing for no items; for one or more, the list
/// that holds them in their order.
#[verifier::external_body]
fn conditions_from_vec(items: Vec<String>) -> (list: Option<NonEmpty<String>>)
    ensures
        list is Some <==> items@.len() > 0,
        list is Some ==> listed(list.unwrap()) == texts(items@),
{
    NonEmpty::from_vec(items)
}

/// `NonEmpty::first`: the item that the list begins with.
#[verifier::external_body]
fn first_condition(list: &NonEmpty<String>) -> (head: &String)
    ensures
        head@ == listed(*list)[0],
{
    list.first()
}

/// The conditions of a report in words, in their order.
pub open spec fn descriptions(weather: Seq<Weather>) -> Seq<Seq<char>> {
    Seq::new(weather.len(), |i: int| weather[i].description@)
}

/// What one successful request told: the part of a report that is shown or
/// kept.
#[derive(Debug)]
pub struct WeatherSnapshot {
    /// The number under which the service knows the place.
    pub id: i32,
    /// The name of the place.
    pub name: String,
    pub temp: Decimal,
    pub feels_like: Decimal,
    /// Relative humidity in percent.
    pub humidity: i32,
    /// Air pressure in hectopascal.
    pub pressure: i32,
    /// The conditions in words, the most relevant first.
    pub conditions: NonEmpty<String>,
}

/// A snapshot as plain values.
pub struct SnapshotView {
    pub id: i32,
    pub name: Seq<char>,
    pub temp: Decimal,
    pub feels_like: Decimal,
    pub humidity: i32,
    pub pressure: i32,
    pub conditions: Seq<Seq<char>>,
}

impl View for WeatherSnapshot {
    type V = SnapshotView;

    open spec fn view(&self) -> SnapshotView {
        SnapshotView {
            id: self.id,
            name: self.name@,
            temp: self.temp,
            feels_like: self.feels_like,
            humidity: self.humidity,
            pressure: self.pressure,
            conditions: listed(self.conditions),
        }
    }
}

/// The snapshot that a report amounts to: nothing where the report names no
/// condition, else its values as they stand.
pub open spec fn snapshot_of(report: WeatherResponse) -> Option<SnapshotView> {
    if report.weather@.len() == 0 {
        None
    } else {
        Some(
            SnapshotView {
                id: report.id,
                name: report.name@,
                temp: report.main.temp,
                feels_like: report.main.feels_like,
                humidity: report.main.humidity,
                pressure: report.main.pressure,
                conditions: descriptions(report.weather@),
            },
        )
    }
}

impl WeatherSnapshot {
    /// Takes from a report what is shown or kept. A report without a
    /// condition is refused.
    pub fn from_response(report: WeatherResponse) -> (snapshot: Option<WeatherSnapshot>)
        ensures
            snapshot is Some <==> report.weather@.len() > 0,
            match snapshot {
                Some(taken) => Some(taken@) == snapshot_of(report),
                None => snapshot_of(report) is None,
            },
    {
        let mut words: Vec<String> = Vec::new();
        let mut i: usize = 0;
        while i < report.weather.len()
            invariant
                i <= report.weather@.len(),
                words@.len() == i,
                forall|j: int| 0 <= j < i ==> words@[j]@ == report.weather@[j].description@,
            decreases report.weather@.len() - i,
        {
            words.push(report.weather[i].description.clone());
            i += 1;
        }
        assert(texts(words@) =~= descriptions(report.weather@));
        match conditions_from_vec(words) {
            Some(conditions) => Some(
                WeatherSnapshot {
                    id: report.id,
                    name: report.name,
                    temp: report.main.temp,
                    feels_like: report.main.feels_like,
                    humidity: report.main.humidity,
                    pressure: report.main.pressure,
                    conditions,
                },
            ),
            None => None,
        }
    }

    /// The condition that is shown: the first.
    pub fn condition(&self) -> (words: &String)
        ensures
            words@ == self@.conditions[0],
    {
        first_condition(&self.conditions)
    }
}

/// How a request to the weather service ended, as the caller that made it
/// saw it.
#[derive(Debug)]
pub enum FetchReply {
    /// No answer came: the connection failed or timed out.
    Unreachable,
    /// An answer came that is no report.
    Unreadable,
    /// An answer came and was read as a report.
    Body(WeatherResponse),
}

/// What a query about the weather came to.
#[derive(Debug)]
pub enum WeatherOutcome {
    Success(WeatherSnapshot),
    /// The service could not be reached.
    TransportFailure,
    /// The service answered with something that is no usable report.
    DecodeFailure,
    /// There are no settings to ask under.
    ConfigUnavailable,
}

/// An outcome as plain values.
pub enum OutcomeView {
    Success(SnapshotView),
    TransportFailure,
    DecodeFailure,
    ConfigUnavailable,
}

impl View for WeatherOutcome {
    type V = OutcomeView;

    open spec fn view(&self) -> OutcomeView {
        match self {
            WeatherOutcome::Success(snapshot) => OutcomeView::Success(snapshot@),
            WeatherOutcome::TransportFailure => OutcomeView::TransportFailure,
            WeatherOutcome::DecodeFailure => OutcomeView::DecodeFailure,
            WeatherOutcome::ConfigUnavailable => OutcomeView::ConfigUnavailable,
        }
    }
}

/// The outcome that a reply amounts to. No answer is a failure of
/// transport. An answer that is no report, or a report without a condition,
/// is a failure to decode. Any other report succeeds, with its values as
/// they stand.
pub open spec fn outcome_of(reply: FetchReply) -> OutcomeView {
    match reply {
        FetchReply::Unreachable => OutcomeView::TransportFailure,
        FetchReply::Unreadable => OutcomeView::DecodeFailure,
        FetchReply::Body(report) => match snapshot_of(report) {
            Some(snapshot) => OutcomeView::Success(snapshot),
            None => OutcomeView::DecodeFailure,
        },
    }
}

/// Sorts a reply into one of the outcomes.
pub fn classify(reply: FetchReply) -> (outcome: WeatherOutcome)
    ensures
        outcome@ == outcome_of(reply),
{
    match reply {
        FetchReply::Unreachable => WeatherOutcome::TransportFailure,
        FetchReply::Unreadable => WeatherOutcome::DecodeFailure,
        FetchReply::Body(report) => match WeatherSnapshot::from_response(report) {
            Some(snapshot) => WeatherOutcome::Success(snapshot),
            None => WeatherOutcome::DecodeFailure,
        },
    }
}

/// The address that the weather at `place` is asked from: the place, the
/// caller's key, the measurement system and the language, each as the
/// service's parameter of that name. Nothing is escaped.
pub open spec fn request_url_text(
    place: GeoLocation,
    key: Seq<char>,
    units: WeatherUnits,
    lang: Seq<char>,
) -> Seq<char> {
    "https://api.openweathermap.org/data/2.5/weather?lat="@ + place.lat.text() + "&lon="@
        + place.lon.text() + "&appid="@ + key + "&units="@ + units.query_param() + "&lang="@ + lang
}

/// Writes the address that the weather at `place` is asked from.
pub fn request_url(place: &GeoLocation, key: &str, units: &WeatherUnits, lang: &str) -> (url: String)
    ensures
        url@ == request_url_text(*place, key@, *units, lang@),
{
    let mut url = String::from_str("https://api.openweathermap.org/data/2.5/weather?lat=");
    url.append(place.lat.to_string().as_str());
    url.append("&lon=");
    url.append(place.lon.to_string().as_str());
    url.append("&appid=");
    url.append(key);
    url.append("&units=");
    url.append(units.to_string().as_str());
    url.append("&lang=");
    url.append(lang);
    url
}

} // verus!
