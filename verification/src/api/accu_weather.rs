//! AccuWeather: places by its city search, weather by the place's key, in
//! degrees Celsius.

use crate::api::request::{
    constructed, construct_url, pair_texts, text_of_result, texts, ParseError,
};
use crate::api::{has_valid_status_code, Api, REFERENCE_CITY};
use crate::data;
use crate::data::{Provider, Scale};
use crate::error::{Error, Failure};
use url::Url;
use vstd::prelude::*;
use vstd::std_specs::convert::FromSpecImpl;

verus! {

/// Where the provider's API is reached.
pub const HOST: &'static str = "https://dataservice.accuweather.com";

/// The adapter for AccuWeather, bound to a key.
pub struct AccuWeather {
    api_key: String,
}

impl AccuWeather {
    pub fn new(api_key: String) -> (adapter: Self)
        ensures
            adapter.kind() == Provider::AccuWeather,
            adapter.key() == api_key@,
    {
        Self { api_key }
    }

    /// Brings the entries of a search's answer into the shared model, in
    /// their order.
    pub fn search_location(found: Vec<Location>) -> (places: Vec<data::Location>)
        ensures
            places@.len() == found@.len(),
            forall|i: int|
                0 <= i < found@.len() ==> #[trigger] places@[i] == located(found@[i]),
            forall|i: int|
                0 <= i < places@.len() ==> (#[trigger] places@[i])@.serves(Provider::AccuWeather),
    {
        let mut places: Vec<data::Location> = Vec::new();
        for entry in it: found
            invariant
                places@.len() == it.index(),
                it.seq() == found@,
                forall|i: int|
                    0 <= i < places@.len() ==> #[trigger] places@[i] == located(found@[i]),
        {
            places.push(data::Location::from(entry));
        }
        places
    }

    /// Reads the answer to a call for current conditions: the last of its
    /// reports, and a bad response where it holds none.
    pub fn get_weather(reports: Vec<Weather>) -> (weather: Result<data::Weather, Error>)
        ensures
            weather == if reports@.len() == 0 {
                Err::<data::Weather, Error>(Error::BadResponse)
            } else {
                Ok::<data::Weather, Error>(reported(reports@.last()))
            },
    {
        let mut reports = reports;
        match reports.pop() {
            Some(report) => Ok(data::Weather::from(report)),
            None => Err(Error::BadResponse),
        }
    }
}

impl Api for AccuWeather {
    open spec fn kind(&self) -> Provider {
        Provider::AccuWeather
    }

    closed spec fn key(&self) -> Seq<char> {
        self.api_key@
    }

    fn provider(&self) -> (kind: Provider) {
        Provider::AccuWeather
    }

    fn validation_url(&self) -> (address: Result<Url, ParseError>) {
        locations_cities_search(self.api_key.as_str(), REFERENCE_CITY)
    }

    fn is_valid(&self, outcome: Result<(), Failure>) -> (valid: Result<bool, Error>) {
        has_valid_status_code(outcome)
    }

    fn search_url(&self, q: &str) -> (address: Result<Url, ParseError>) {
        locations_cities_search(self.api_key.as_str(), q)
    }

    fn weather_url(&self, location: &data::Location) -> (address: Result<Url, ParseError>) {
        let id = location.id.as_ref().unwrap();
        current_conditions(self.api_key.as_str(), id.as_str())
    }
}

/// One entry of the answer to a city search.
#[derive(Debug)]
pub struct Location {
    pub key: String,
    pub localized_name: String,
    pub country: Country,
    pub administrative_area: AdministrativeArea,
}

#[derive(Debug)]
pub struct Country {
    pub localized_name: String,
}

#[derive(Debug)]
pub struct AdministrativeArea {
    pub localized_name: String,
}

/// The place that an entry stands for, found by its key.
pub open spec fn located(entry: Location) -> data::Location {
    data::Location {
        id: Some(entry.key),
        name: entry.localized_name,
        state: Some(entry.administrative_area.localized_name),
        country: entry.country.localized_name,
        lat: None,
        lon: None,
    }
}

impl From<Location> for data::Location {
    fn from(value: Location) -> (place: Self) {
        Self {
            id: Some(value.key),
            name: value.localized_name,
            state: Some(value.administrative_area.localized_name),
            country: value.country.localized_name,
            lat: None,
            lon: None,
        }
    }
}

impl FromSpecImpl<Location> for data::Location {
    open spec fn obeys_from_spec() -> bool {
        true
    }

    open spec fn from_spec(value: Location) -> Self {
        located(value)
    }
}

/// The address of the city search for `q`.
pub open spec fn locations_cities_search_address(api_key: Seq<char>, q: Seq<char>) -> Result<
    Seq<char>,
    ParseError,
> {
    constructed(
        HOST@,
        seq!["locations"@, "v1"@, "cities"@, "search"@],
        seq![("apikey"@, api_key), ("q"@, q)],
    )
}

/// Builds the address of the city search.
pub fn locations_cities_search(api_key: &str, q: &str) -> (address: Result<Url, ParseError>)
    ensures
        text_of_result(address) == locations_cities_search_address(api_key@, q@),
{
    let segments: [&str; 4] = ["locations", "v1", "cities", "search"];
    let pairs: [(&str, &str); 2] = [("apikey", api_key), ("q", q)];
    assert(texts(segments@) =~= seq!["locations"@, "v1"@, "cities"@, "search"@]);
    assert(pair_texts(pairs@) =~= seq![("apikey"@, api_key@), ("q"@, q@)]);
    construct_url(HOST, segments.as_slice(), pairs.as_slice())
}

/// One report of current conditions.
#[derive(Debug)]
pub struct Weather {
    pub weather_text: String,
    pub temperature: Temperature,
}

#[derive(Debug)]
pub struct Temperature {
    pub metric: Metric,
}

#[derive(Debug)]
pub struct Metric {
    pub value: String,
}

/// The conditions that a report stands for: its metric temperature, in
/// degrees Celsius, with its text.
pub open spec fn reported(report: Weather) -> data::Weather {
    data::Weather {
        temperature: data::Temperature {
            value: report.temperature.metric.value,
            scale: Scale::Celsius,
        },
        description: report.weather_text,
    }
}

impl From<Weather> for data::Weather {
    fn from(value: Weather) -> (weather: Self) {
        Self {
            temperature: data::Temperature {
                value: value.temperature.metric.value,
                scale: Scale::Celsius,
            },
            description: value.weather_text,
        }
    }
}

impl FromSpecImpl<Weather> for data::Weather {
    open spec fn obeys_from_spec() -> bool {
        true
    }

    open spec fn from_spec(value: Weather) -> Self {
        reported(value)
    }
}

/// The address of the call for the conditions at the place with the key
/// `location_key`.
pub open spec fn current_conditions_address(api_key: Seq<char>, location_key: Seq<char>) -> Result<
    Seq<char>,
    ParseError,
> {
    constructed(
        HOST@,
        seq!["currentconditions"@, "v1"@, location_key],
        seq![("apikey"@, api_key)],
    )
}

/// Builds the address of the call for the conditions at one place.
pub fn current_conditions(api_key: &str, location_key: &str) -> (address: Result<Url, ParseError>)
    ensures
        text_of_result(address) == current_conditions_address(api_key@, location_key@),
{
    let segments: [&str; 3] = ["currentconditions", "v1", location_key];
    let pairs: [(&str, &str); 1] = [("apikey", api_key)];
    assert(texts(segments@) =~= seq!["currentconditions"@, "v1"@, location_key@]);
    assert(pair_texts(pairs@) =~= seq![("apikey"@, api_key@)]);
    construct_url(HOST, segments.as_slice(), pairs.as_slice())
}

} // verus!
