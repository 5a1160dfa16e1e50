//! The shared model that every provider's answers are brought into.

use vstd::prelude::*;
use vstd::string::*;

verus! {

/// The weather services that the library knows how to talk to.
#[derive(Copy, Clone, Debug, PartialEq, Eq, Structural)]
pub enum Provider {
    OpenWeather,
    WeatherApi,
    AccuWeather,
}

/// The unit that a temperature was reported in.
#[derive(Copy, Clone, Debug, PartialEq, Eq, Structural)]
pub enum Scale {
    Kelvin,
    Celsius,
}

/// A temperature as a provider reported it: the number in decimal notation,
/// and the unit it is to be read in.
#[derive(Debug)]
pub struct Temperature {
    pub value: String,
    pub scale: Scale,
}

pub struct TemperatureView {
    pub value: Seq<char>,
    pub scale: Scale,
}

impl View for Temperature {
    type V = TemperatureView;

    open spec fn view(&self) -> TemperatureView {
        TemperatureView { value: self.value@, scale: self.scale }
    }
}

/// Current conditions at one place.
#[derive(Debug)]
pub struct Weather {
    pub temperature: Temperature,
    pub description: String,
}

pub struct WeatherView {
    pub temperature: TemperatureView,
    pub description: Seq<char>,
}

impl View for Weather {
    type V = WeatherView;

    open spec fn view(&self) -> WeatherView {
        WeatherView { temperature: self.temperature@, description: self.description@ }
    }
}

/// A place that a provider resolved a query to.
///
/// `lat` and `lon` are degrees in decimal notation, as they are written into
/// a request. A provider fills in either `id` or both coordinates, whichever
/// its own weather look-up goes by.
#[derive(Debug)]
pub struct Location {
    pub id: Option<String>,
    pub name: String,
    pub state: Option<String>,
    pub country: String,
    pub lat: Option<String>,
    pub lon: Option<String>,
}

pub struct LocationView {
    pub id: Option<Seq<char>>,
    pub name: Seq<char>,
    pub state: Option<Seq<char>>,
    pub country: Seq<char>,
    pub lat: Option<Seq<char>>,
    pub lon: Option<Seq<char>>,
}

/// The characters of an optional string.
pub open spec fn text_of(text: Option<String>) -> Option<Seq<char>> {
    match text {
        Some(text) => Some(text@),
        None => None,
    }
}

impl View for Location {
    type V = LocationView;

    open spec fn view(&self) -> LocationView {
        LocationView {
            id: text_of(self.id),
            name: self.name@,
            state: text_of(self.state),
            country: self.country@,
            lat: text_of(self.lat),
            lon: text_of(self.lon),
        }
    }
}

impl LocationView {
    /// Whether the place carries what `kind` needs to look its weather up:
    /// the identifier for AccuWeather, both coordinates for the other two.
    pub open spec fn serves(self, kind: Provider) -> bool {
        match kind {
            Provider::AccuWeather => self.id is Some,
            Provider::OpenWeather | Provider::WeatherApi => self.lat is Some && self.lon is Some,
        }
    }

    /// The one-line form shown to a user: name, state and country, the state
    /// left out where it is missing or empty.
    pub open spec fn display(self) -> Seq<char> {
        match self.state {
            Some(state) if state.len() > 0 => self.name + seq![',', ' '] + state + seq![',', ' ']
                + self.country,
            _ => self.name + seq![',', ' '] + self.country,
        }
    }
}

impl Location {
    /// Tells whether `kind` can look up the weather at this place.
    pub fn serves(&self, kind: Provider) -> (yes: bool)
        ensures
            yes == self@.serves(kind),
    {
        match kind {
            Provider::AccuWeather => self.id.is_some(),
            Provider::OpenWeather | Provider::WeatherApi => self.lat.is_some()
                && self.lon.is_some(),
        }
    }

    /// Renders the place on one line.
    pub fn to_string(&self) -> (line: String)
        ensures
            line@ == self@.display(),
    {
        proof {
            reveal_strlit(", ");
            assert(", "@ =~= seq![',', ' ']);
        }
        let mut line = self.name.clone();
        match &self.state {
            Some(state) => {
                if !state.as_str().is_empty() {
                    line.append(", ");
                    line.append(state.as_str());
                }
            },
            None => {},
        }
        line.append(", ");
        line.append(self.country.as_str());
        line
    }
}

} // verus!
