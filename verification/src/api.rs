//! The providers behind one contract.
//!
//! An adapter says which address to call for each operation and how to read
//! the outcome. Making the call is the caller's part.

use crate::api::request::{text_of_result, ParseError};
use crate::data::{Location, LocationView, Provider};
use crate::error::{Error, Failure};
use url::Url;
use vstd::prelude::*;

pub mod accu_weather;
pub mod open_weather;
pub mod request;
pub mod weather_api;

pub use accu_weather::AccuWeather;
pub use open_weather::OpenWeather;
pub use weather_api::WeatherApi;

verus! {

/// The place that a key is tried on: one that every provider knows.
pub const REFERENCE_CITY: &'static str = "Kyiv";

/// The address of `kind`'s place search for `q`. With `probe` set the call
/// is the one that tries a key, and asks for as little as the provider lets
/// it.
pub open spec fn search_address(kind: Provider, key: Seq<char>, q: Seq<char>, probe: bool) -> Result<
    Seq<char>,
    ParseError,
> {
    match kind {
        Provider::OpenWeather => open_weather::geo_direct_address(key, q, probe),
        Provider::WeatherApi => weather_api::search_address(key, q),
        Provider::AccuWeather => accu_weather::locations_cities_search_address(key, q),
    }
}

/// The address of `kind`'s current conditions at `location`: by coordinates
/// for OpenWeather and WeatherApi, by identifier for AccuWeather.
pub open spec fn weather_address(kind: Provider, key: Seq<char>, location: LocationView) -> Result<
    Seq<char>,
    ParseError,
> {
    match kind {
        Provider::OpenWeather => open_weather::data_weather_address(
            key,
            location.lat.unwrap(),
            location.lon.unwrap(),
        ),
        Provider::WeatherApi => weather_api::current_address(
            key,
            location.lat.unwrap(),
            location.lon.unwrap(),
        ),
        Provider::AccuWeather => accu_weather::current_conditions_address(
            key,
            location.id.unwrap(),
        ),
    }
}

/// What the outcome of the trial call says of the key: accepted where the
/// call went through, turned down where the provider answered 401 or 403,
/// and unknown, the failure handed on, in every other case.
pub open spec fn verdict(outcome: Result<(), Failure>) -> Result<bool, Error> {
    match outcome {
        Ok(_) => Ok(true),
        Err(failure) => if failure.denied() {
            Ok(false)
        } else {
            Err(Error::Reqwest(failure))
        },
    }
}

/// Reads the outcome of the trial call.
pub fn has_valid_status_code(outcome: Result<(), Failure>) -> (valid: Result<bool, Error>)
    ensures
        valid == verdict(outcome),
{
    match outcome {
        Ok(_) => Ok(true),
        Err(failure) => {
            match failure.status {
                Some(code) => {
                    if code == 401 || code == 403 {
                        return Ok(false);
                    }
                },
                None => {},
            }
            Err(Error::Reqwest(failure))
        },
    }
}

/// One provider, bound to a key.
pub trait Api {
    /// The provider that the adapter speaks to.
    spec fn kind(&self) -> Provider;

    /// The key that the adapter signs its calls with.
    spec fn key(&self) -> Seq<char>;

    /// The adapter's own kind.
    fn provider(&self) -> (kind: Provider)
        ensures
            kind == self.kind(),
    ;

    /// The address of the call that tries the key: a search for
    /// `REFERENCE_CITY`.
    fn validation_url(&self) -> (address: Result<Url, ParseError>)
        ensures
            text_of_result(address) == search_address(
                self.kind(),
                self.key(),
                REFERENCE_CITY@,
                true,
            ),
    ;

    /// Says whether the key holds, from the outcome of the call to
    /// `validation_url`.
    fn is_valid(&self, outcome: Result<(), Failure>) -> (valid: Result<bool, Error>)
        ensures
            valid == verdict(outcome),
    ;

    /// The address of the search for the places that `q` may mean.
    fn search_url(&self, q: &str) -> (address: Result<Url, ParseError>)
        ensures
            text_of_result(address) == search_address(self.kind(), self.key(), q@, false),
    ;

    /// The address of the current conditions at `location`.
    fn weather_url(&self, location: &Location) -> (address: Result<Url, ParseError>)
        requires
            location@.serves(self.kind()),
        ensures
            text_of_result(address) == weather_address(self.kind(), self.key(), location@),
    ;
}

/// Makes the adapter for `provider`, bound to `api_key`.
pub fn new(provider: Provider, api_key: String) -> (adapter: Box<dyn Api>)
    ensures
        adapter.kind() == provider,
        adapter.key() == api_key@,
{
    match provider {
        Provider::OpenWeather => {
            let adapter: Box<OpenWeather> = Box::new(OpenWeather::new(api_key));
            return adapter;
        },
        Provider::WeatherApi => {
            let adapter: Box<WeatherApi> = Box::new(WeatherApi::new(api_key));
            return adapter;
        },
        Provider::AccuWeather => {
            let adapter: Box<AccuWeather> = Box::new(AccuWeather::new(api_key));
            return adapter;
        },
    };
}

} // verus!
