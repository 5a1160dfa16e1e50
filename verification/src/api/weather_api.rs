//! WeatherApi: places by its search, weather by coordinates, in degrees
//! Celsius.

use crate::api::request::{
    constructed, construct_url, pair_texts, text_of_result, texts, ParseError,
};
use crate::api::{has_valid_status_code, Api, REFERENCE_CITY};
use crate::data;
use crate::data::{Provider, Scale};
use crate::error::{Error, Failure};
use url::Url;
use vstd::prelude::*;
use vstd::std_specs::convert::FromSpecImpl;
use vstd::string::*;

verus! {

/// Where the provider's API is reached.
pub const HOST: &'static str = "https://api.weatherapi.com";

/// The adapter for WeatherApi, bound to a key.
pub struct WeatherApi {
    api_key: String,
}

impl WeatherApi {
    pub fn new(api_key: String) -> (adapter: Self)
        ensures
            adapter.kind() == Provider::WeatherApi,
            adapter.key() == api_key@,
    {
        Self { api_key }
    }

    /// Brings the entries of a search's answer into the shared model, in
    /// their order.
    pub fn search_location(found: Vec<Location>) -> (places: Vec<data::Location>)
        ensures
            places@.len() == found@.len(),
            forall|i: int|
                0 <= i < found@.len() ==> #[trigger] places@[i] == located(found@[i]),
            forall|i: int|
                0 <= i < places@.len() ==> (#[trigger] places@[i])@.serves(Provider::WeatherApi),
    {
        let mut places: Vec<data::Location> = Vec::new();
        for entry in it: found
            invariant
                places@.len() == it.index(),
                it.seq() == found@,
                forall|i: int|
                    0 <= i < places@.len() ==> #[trigger] places@[i] == located(found@[i]),
        {
            places.push(data::Location::from(entry));
        }
        places
    }

    /// Reads a report of current conditions.
    pub fn get_weather(report: Weather) -> (weather: Result<data::Weather, Error>)
        ensures
            weather == Ok::<data::Weather, Error>(reported(report)),
    {
        Ok(data::Weather::from(report))
    }
}

impl Api for WeatherApi {
    open spec fn kind(&self) -> Provider {
        Provider::WeatherApi
    }

    closed spec fn key(&self) -> Seq<char> {
        self.api_key@
    }

    fn provider(&self) -> (kind: Provider) {
        Provider::WeatherApi
    }

    fn validation_url(&self) -> (address: Result<Url, ParseError>) {
        search(self.api_key.as_str(), REFERENCE_CITY)
    }

    fn is_valid(&self, outcome: Result<(), Failure>) -> (valid: Result<bool, Error>) {
        has_valid_status_code(outcome)
    }

    fn search_url(&self, q: &str) -> (address: Result<Url, ParseError>) {
        search(self.api_key.as_str(), q)
    }

    fn weather_url(&self, location: &data::Location) -> (address: Result<Url, ParseError>) {
        let lat = location.lat.as_ref().unwrap();
        let lon = location.lon.as_ref().unwrap();
        current(self.api_key.as_str(), lat.as_str(), lon.as_str())
    }
}

/// One entry of the answer to a place search.
#[derive(Debug)]
pub struct Location {
    pub name: String,
    pub region: String,
    pub country: String,
    pub lat: String,
    pub lon: String,
}

/// The place that an entry stands for, found by its coordinates.
pub open spec fn located(entry: Location) -> data::Location {
    data::Location {
        id: None,
        name: entry.name,
        state: Some(entry.region),
        country: entry.country,
        lat: Some(entry.lat),
        lon: Some(entry.lon),
    }
}

impl From<Location> for data::Location {
    fn from(value: Location) -> (place: Self) {
        Self {
            id: None,
            name: value.name,
            state: Some(value.region),
            country: value.country,
            lat: Some(value.lat),
            lon: Some(value.lon),
        }
    }
}

impl FromSpecImpl<Location> for data::Location {
    open spec fn obeys_from_spec() -> bool {
        true
    }

    open spec fn from_spec(value: Location) -> Self {
        located(value)
    }
}

/// The address of the search for `q`.
pub open spec fn search_address(api_key: Seq<char>, q: Seq<char>) -> Result<Seq<char>, ParseError> {
    constructed(HOST@, seq!["v1"@, "search.json"@], seq![("key"@, api_key), ("q"@, q)])
}

/// Builds the address of the search.
pub fn search(api_key: &str, q: &str) -> (address: Result<Url, ParseError>)
    ensures
        text_of_result(address) == search_address(api_key@, q@),
{
    let segments: [&str; 2] = ["v1", "search.json"];
    let pairs: [(&str, &str); 2] = [("key", api_key), ("q", q)];
    assert(texts(segments@) =~= seq!["v1"@, "search.json"@]);
    assert(pair_texts(pairs@) =~= seq![("key"@, api_key@), ("q"@, q@)]);
    construct_url(HOST, segments.as_slice(), pairs.as_slice())
}

/// A report of current conditions.
#[derive(Debug)]
pub struct Weather {
    pub current: Current,
}

#[derive(Debug)]
pub struct Current {
    pub temp_c: String,
    pub condition: Condition,
}

#[derive(Debug)]
pub struct Condition {
    pub text: String,
}

/// The conditions that a report stands for: its temperature, in degrees
/// Celsius, with its description.
pub open spec fn reported(report: Weather) -> data::Weather {
    data::Weather {
        temperature: data::Temperature { value: report.current.temp_c, scale: Scale::Celsius },
        description: report.current.condition.text,
    }
}

impl From<Weather> for data::Weather {
    fn from(value: Weather) -> (weather: Self) {
        Self {
            temperature: data::Temperature { value: value.current.temp_c, scale: Scale::Celsius },
            description: value.current.condition.text,
        }
    }
}

impl FromSpecImpl<Weather> for data::Weather {
    open spec fn obeys_from_spec() -> bool {
        true
    }

    open spec fn from_spec(value: Weather) -> Self {
        reported(value)
    }
}

/// The address of the call for the conditions at a pair of coordinates,
/// which go into one parameter with a comma between them.
pub open spec fn current_address(api_key: Seq<char>, lat: Seq<char>, lon: Seq<char>) -> Result<
    Seq<char>,
    ParseError,
> {
    constructed(
        HOST@,
        seq!["v1"@, "current.json"@],
        seq![("key"@, api_key), ("q"@, lat + seq![','] + lon)],
    )
}

/// Builds the address of the call for the conditions at a pair of
/// coordinates.
pub fn current(api_key: &str, lat: &str, lon: &str) -> (address: Result<Url, ParseError>)
    ensures
        text_of_result(address) == current_address(api_key@, lat@, lon@),
{
    proof {
        reveal_strlit(",");
        assert(","@ =~= seq![',']);
    }
    let mut q = String::from_str(lat);
    q.append(",");
    q.append(lon);
    let segments: [&str; 2] = ["v1", "current.json"];
    let pairs: [(&str, &str); 2] = [("key", api_key), ("q", q.as_str())];
    assert(texts(segments@) =~= seq!["v1"@, "current.json"@]);
    assert(pair_texts(pairs@) =~= seq![("key"@, api_key@), ("q"@, lat@ + seq![','] + lon@)]);
    construct_url(HOST, segments.as_slice(), pairs.as_slice())
}

} // verus!
