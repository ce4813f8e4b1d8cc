//! What is shown for each outcome of a query.

use crate::catalog::{label, Catalog};
use crate::client::{OutcomeView, SnapshotView, WeatherOutcome, WeatherSnapshot};
use crate::decimal::{int_text, push_int};
use crate::weather::WeatherUnits;
use vstd::prelude::*;
use vstd::string::*;

verus! {

/// One line of the launcher's list.
#[derive(Debug)]
pub struct Entry {
    pub title: String,
    /// The name of an icon of the icon theme.
    pub icon: String,
    pub description: Option<String>,
}

/// An entry as plain values.
pub struct EntryView {
    pub title: Seq<char>,
    pub icon: Seq<char>,
    pub description: Option<Seq<char>>,
}

impl View for Entry {
    type V = EntryView;

    open spec fn view(&self) -> EntryView {
        EntryView {
            title: self.title@,
            icon: self.icon@,
            description: match self.description {
                Some(text) => Some(text@),
                None => None,
            },
        }
    }
}

/// The icon beside a weather report.
pub open spec fn weather_icon() -> Seq<char> {
    "weather"@
}

/// The icon beside an error.
pub open spec fn error_icon() -> Seq<char> {
    "dialog-error"@
}

/// The title of a report: the temperature, rounded to one place after the
/// point, and the symbol of its scale.
pub open spec fn success_title(snapshot: SnapshotView, units: WeatherUnits) -> Seq<char> {
    snapshot.temp.rounded_text() + units.suffix()
}

/// The description of a report: the first condition; the felt temperature,
/// the humidity and the pressure, each on a line of its own after its
/// label; an empty line; the place's name after its label.
pub open spec fn success_description(
    snapshot: SnapshotView,
    units: WeatherUnits,
    catalog: Map<Seq<char>, Seq<char>>,
) -> Seq<char> {
    snapshot.conditions[0] + "\n"@ + label(catalog, "feels_like"@) + ": "@
        + snapshot.feels_like.text() + " "@ + units.suffix() + "\n"@ + label(catalog, "humidity"@)
        + ": "@ + int_text(snapshot.humidity as int) + " %\n"@ + label(catalog, "pressure"@) + ": "@
        + int_text(snapshot.pressure as int) + " hPa\n\n"@ + label(catalog, "data_for"@) + ": "@
        + snapshot.name
}

/// The entry that is shown for an outcome.
pub open spec fn entry_for(
    outcome: OutcomeView,
    units: WeatherUnits,
    catalog: Map<Seq<char>, Seq<char>>,
) -> EntryView {
    match outcome {
        OutcomeView::Success(snapshot) => EntryView {
            title: success_title(snapshot, units),
            icon: weather_icon(),
            description: Some(success_description(snapshot, units, catalog)),
        },
        OutcomeView::TransportFailure | OutcomeView::DecodeFailure => EntryView {
            title: label(catalog, "error_getting_weather"@),
            icon: error_icon(),
            description: Some(label(catalog, "error_openweather_api"@)),
        },
        OutcomeView::ConfigUnavailable => EntryView {
            title: label(catalog, "config_not_loaded"@),
            icon: error_icon(),
            description: Some(label(catalog, "config_malformed"@)),
        },
    }
}

/// The keys of all the words that an entry may hold.
pub open spec fn label_key_texts() -> Seq<Seq<char>> {
    seq![
        "feels_like"@,
        "humidity"@,
        "pressure"@,
        "data_for"@,
        "error_getting_weather"@,
        "error_openweather_api"@,
        "config_not_loaded"@,
        "config_malformed"@,
    ]
}

/// Lists the keys of all the words that an entry may hold, for whoever
/// fills a catalog.
pub fn label_keys() -> (keys: Vec<String>)
    ensures
        keys@.len() == label_key_texts().len(),
        forall|i: int| 0 <= i < keys@.len() ==> (#[trigger] keys@[i])@ == label_key_texts()[i],
{
    vec![
        String::from_str("feels_like"),
        String::from_str("humidity"),
        String::from_str("pressure"),
        String::from_str("data_for"),
        String::from_str("error_getting_weather"),
        String::from_str("error_openweather_api"),
        String::from_str("config_not_loaded"),
        String::from_str("config_malformed"),
    ]
}

/// Writes the title of a report.
pub fn title_of(snapshot: &WeatherSnapshot, units: &WeatherUnits) -> (title: String)
    ensures
        title@ == success_title(snapshot@, *units),
{
    let mut title = snapshot.temp.to_rounded_string();
    title.append(units.unit_suffix().as_str());
    title
}

/// Writes the description of a report.
pub fn description_of(snapshot: &WeatherSnapshot, units: &WeatherUnits, catalog: &Catalog) -> (text:
    String)
    ensures
        text@ == success_description(snapshot@, *units, catalog@),
{
    let mut text = snapshot.condition().clone();
    text.append("\n");
    text.append(catalog.translate("feels_like").as_str());
    text.append(": ");
    text.append(snapshot.feels_like.to_string().as_str());
    text.append(" ");
    text.append(units.unit_suffix().as_str());
    text.append("\n");
    text.append(catalog.translate("humidity").as_str());
    text.append(": ");
    push_int(&mut text, snapshot.humidity);
    text.append(" %\n");
    text.append(catalog.translate("pressure").as_str());
    text.append(": ");
    push_int(&mut text, snapshot.pressure);
    text.append(" hPa\n\n");
    text.append(catalog.translate("data_for").as_str());
    text.append(": ");
    text.append(snapshot.name.as_str());
    text
}

/// Writes the entry that tells of an error, with the words for the two keys.
pub fn error_entry(catalog: &Catalog, title_key: &str, description_key: &str) -> (entry: Entry)
    ensures
        entry@ == (EntryView {
            title: label(catalog@, title_key@),
            icon: error_icon(),
            description: Some(label(catalog@, description_key@)),
        }),
{
    Entry {
        title: catalog.translate(title_key),
        icon: String::from_str("dialog-error"),
        description: Some(catalog.translate(description_key)),
    }
}

/// Writes what is shown for an outcome: always one entry. Words that the
/// catalog lacks are shown as their keys.
pub fn format(outcome: &WeatherOutcome, units: &WeatherUnits, catalog: &Catalog) -> (entries: Vec<
    Entry,
>)
    ensures
        entries@.len() == 1,
        entries@[0]@ == entry_for(outcome@, *units, catalog@),
{
    let entry = match outcome {
        WeatherOutcome::Success(snapshot) => Entry {
            title: title_of(snapshot, units),
            icon: String::from_str("weather"),
            description: Some(description_of(snapshot, units, catalog)),
        },
        WeatherOutcome::TransportFailure | WeatherOutcome::DecodeFailure => error_entry(
            catalog,
            "error_getting_weather",
            "error_openweather_api",
        ),
        WeatherOutcome::ConfigUnavailable => error_entry(
            catalog,
            "config_not_loaded",
            "config_malformed",
        ),
    };
    vec![entry]
}

} // verus!
