//! OpenWeather: places by the geocoding API, weather by coordinates, in
//! kelvin.

use crate::api::request::{
    constructed, construct_url, pair_texts, text_of_result, texts, ParseError,
};
use crate::api::{has_valid_status_code, Api, REFERENCE_CITY};
use crate::data;
use crate::data::{Provider, Scale};
use crate::error::{Error, Failure};
use url::Url;
use vstd::prelude::*;
use vstd::std_specs::convert::{FromSpecImpl, TryFromSpecImpl};

verus! {

/// Where the provider's API is reached.
pub const HOST: &'static str = "https://api.openweathermap.org";

/// The adapter for OpenWeather, bound to a key.
pub struct OpenWeather {
    api_key: String,
}

impl OpenWeather {
    pub fn new(api_key: String) -> (adapter: Self)
        ensures
            adapter.kind() == Provider::OpenWeather,
            adapter.key() == api_key@,
    {
        Self { api_key }
    }

    /// Brings the entries of a search's answer into the shared model, in
    /// their order.
    pub fn search_location(found: Vec<Location>) -> (places: Vec<data::Location>)
        ensures
            places@.len() == found@.len(),
            forall|i: int|
                0 <= i < found@.len() ==> #[trigger] places@[i] == located(found@[i]),
            forall|i: int|
                0 <= i < places@.len() ==> (#[trigger] places@[i])@.serves(Provider::OpenWeather),
    {
        let mut places: Vec<data::Location> = Vec::new();
        for entry in it: found
            invariant
                places@.len() == it.index(),
                it.seq() == found@,
                forall|i: int|
                    0 <= i < places@.len() ==> #[trigger] places@[i] == located(found@[i]),
        {
            places.push(data::Location::from(entry));
        }
        places
    }

    /// Reads a report of current conditions.
    pub fn get_weather(report: Weather) -> (weather: Result<data::Weather, Error>)
        ensures
            weather == reported(report),
    {
        data::Weather::try_from(report)
    }
}

impl Api for OpenWeather {
    open spec fn kind(&self) -> Provider {
        Provider::OpenWeather
    }

    closed spec fn key(&self) -> Seq<char> {
        self.api_key@
    }

    fn provider(&self) -> (kind: Provider) {
        Provider::OpenWeather
    }

    fn validation_url(&self) -> (address: Result<Url, ParseError>) {
        geo_direct(self.api_key.as_str(), REFERENCE_CITY, true)
    }

    fn is_valid(&self, outcome: Result<(), Failure>) -> (valid: Result<bool, Error>) {
        has_valid_status_code(outcome)
    }

    fn search_url(&self, q: &str) -> (address: Result<Url, ParseError>) {
        geo_direct(self.api_key.as_str(), q, false)
    }

    fn weather_url(&self, location: &data::Location) -> (address: Result<Url, ParseError>) {
        let lat = location.lat.as_ref().unwrap();
        let lon = location.lon.as_ref().unwrap();
        data_weather(self.api_key.as_str(), lat.as_str(), lon.as_str())
    }
}

/// One entry of the answer to a place search.
#[derive(Debug)]
pub struct Location {
    pub name: String,
    pub lat: String,
    pub lon: String,
    pub country: String,
    pub state: Option<String>,
}

/// The place that an entry stands for, found by its coordinates.
pub open spec fn located(entry: Location) -> data::Location {
    data::Location {
        id: None,
        name: entry.name,
        state: entry.state,
        country: entry.country,
        lat: Some(entry.lat),
        lon: Some(entry.lon),
    }
}

impl From<Location> for data::Location {
    fn from(value: Location) -> (place: Self) {
        Self {
            id: None,
            name: value.name,
            state: value.state,
            country: value.country,
            lat: Some(value.lat),
            lon: Some(value.lon),
        }
    }
}

impl FromSpecImpl<Location> for data::Location {
    open spec fn obeys_from_spec() -> bool {
        true
    }

    open spec fn from_spec(value: Location) -> Self {
        located(value)
    }
}

/// The address of the geocoding call for `q`, with the limit that a trial
/// call sets.
pub open spec fn geo_direct_address(api_key: Seq<char>, q: Seq<char>, limit: bool) -> Result<
    Seq<char>,
    ParseError,
> {
    constructed(
        HOST@,
        seq!["geo"@, "1.0"@, "direct"@],
        seq![("appid"@, api_key), ("q"@, q), ("limit"@, if limit { "1"@ } else { "0"@ })],
    )
}

/// Builds the address of the geocoding call.
pub fn geo_direct(api_key: &str, q: &str, limit: bool) -> (address: Result<Url, ParseError>)
    ensures
        text_of_result(address) == geo_direct_address(api_key@, q@, limit),
{
    let segments: [&str; 3] = ["geo", "1.0", "direct"];
    let pairs: [(&str, &str); 3] = [
        ("appid", api_key),
        ("q", q),
        ("limit", if limit { "1" } else { "0" }),
    ];
    assert(texts(segments@) =~= seq!["geo"@, "1.0"@, "direct"@]);
    assert(pair_texts(pairs@) =~= seq![
        ("appid"@, api_key@),
        ("q"@, q@),
        ("limit"@, if limit { "1"@ } else { "0"@ }),
    ]);
    construct_url(HOST, segments.as_slice(), pairs.as_slice())
}

/// A report of current conditions.
#[derive(Debug)]
pub struct Weather {
    pub weather: Vec<WeatherData>,
    pub main: Temperature,
}

#[derive(Debug)]
pub struct WeatherData {
    pub main: String,
}

#[derive(Debug)]
pub struct Temperature {
    pub temp: String,
}

/// The conditions that a report stands for: its temperature, in kelvin, with
/// the last of its descriptions; a bad response where it holds no
/// description.
pub open spec fn reported(report: Weather) -> Result<data::Weather, Error> {
    if report.weather@.len() == 0 {
        Err(Error::BadResponse)
    } else {
        Ok(
            data::Weather {
                temperature: data::Temperature { value: report.main.temp, scale: Scale::Kelvin },
                description: report.weather@.last().main,
            },
        )
    }
}

impl TryFrom<Weather> for data::Weather {
    type Error = Error;

    fn try_from(value: Weather) -> (weather: Result<Self, Error>) {
        let mut value = value;
        match value.weather.pop() {
            Some(last) => Ok(
                Self {
                    temperature: data::Temperature { value: value.main.temp, scale: Scale::Kelvin },
                    description: last.main,
                },
            ),
            None => Err(Error::BadResponse),
        }
    }
}

impl TryFromSpecImpl<Weather> for data::Weather {
    open spec fn obeys_try_from_spec() -> bool {
        true
    }

    open spec fn try_from_spec(value: Weather) -> Result<Self, Error> {
        reported(value)
    }
}

/// The address of the call for the conditions at a pair of coordinates.
pub open spec fn data_weather_address(api_key: Seq<char>, lat: Seq<char>, lon: Seq<char>) -> Result<
    Seq<char>,
    ParseError,
> {
    constructed(
        HOST@,
        seq!["data"@, "2.5"@, "weather"@],
        seq![("appid"@, api_key), ("lat"@, lat), ("lon"@, lon)],
    )
}

/// Builds the address of the call for the conditions at a pair of
/// coordinates.
pub fn data_weather(api_key: &str, lat: &str, lon: &str) -> (address: Result<Url, ParseError>)
    ensures
        text_of_result(address) == data_weather_address(api_key@, lat@, lon@),
{
    let segments: [&str; 3] = ["data", "2.5", "weather"];
    let pairs: [(&str, &str); 3] = [("appid", api_key), ("lat", lat), ("lon", lon)];
    assert(texts(segments@) =~= seq!["data"@, "2.5"@, "weather"@]);
    assert(pair_texts(pairs@) =~= seq![("appid"@, api_key@), ("lat"@, lat@), ("lon"@, lon@)]);
    construct_url(HOST, segments.as_slice(), pairs.as_slice())
}

} // verus!
