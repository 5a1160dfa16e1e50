use weather::api::{accu_weather, new, open_weather, weather_api};
use weather::api::{has_valid_status_code, AccuWeather, Api, OpenWeather, WeatherApi};
use weather::data::Provider;
use weather::data::{Location, Scale};
use weather::error::{Error, Failure};

const KINDS: [Provider; 3] = [Provider::OpenWeather, Provider::WeatherApi, Provider::AccuWeather];

fn at(lat: &str, lon: &str) -> Location {
    Location {
        id: None,
        name: "Kyiv".to_string(),
        state: None,
        country: "UA".to_string(),
        lat: Some(lat.to_string()),
        lon: Some(lon.to_string()),
    }
}

#[test]
fn factory_makes_the_adapter_asked_for() {
    for kind in KINDS {
        assert_eq!(new(kind, "key".to_string()).provider(), kind);
    }
    assert_eq!(OpenWeather::new("key".to_string()).provider(), Provider::OpenWeather);
    assert_eq!(WeatherApi::new("key".to_string()).provider(), Provider::WeatherApi);
    assert_eq!(AccuWeather::new("key".to_string()).provider(), Provider::AccuWeather);
}

#[test]
fn refused_key_is_invalid_not_an_error() {
    for kind in KINDS {
        let api = new(kind, "wrong key".to_string());
        assert_eq!(api.is_valid(Err(Failure { status: Some(401) })), Ok(false));
        assert_eq!(api.is_valid(Err(Failure { status: Some(403) })), Ok(false));
    }
}

#[test]
fn accepted_key_is_valid() {
    for kind in KINDS {
        assert_eq!(new(kind, "key".to_string()).is_valid(Ok(())), Ok(true));
    }
}

#[test]
fn other_failures_are_handed_on() {
    for kind in KINDS {
        let api = new(kind, "key".to_string());
        for status in [Some(400), Some(404), Some(429), Some(500), Some(503), None] {
            assert_eq!(
                api.is_valid(Err(Failure { status })),
                Err(Error::Reqwest(Failure { status }))
            );
        }
    }
}

#[test]
fn status_code_verdicts() {
    assert_eq!(has_valid_status_code(Ok(())), Ok(true));
    assert_eq!(has_valid_status_code(Err(Failure { status: Some(401) })), Ok(false));
    assert_eq!(has_valid_status_code(Err(Failure { status: Some(403) })), Ok(false));
    assert_eq!(
        has_valid_status_code(Err(Failure { status: Some(402) })),
        Err(Error::Reqwest(Failure { status: Some(402) }))
    );
    assert_eq!(
        has_valid_status_code(Err(Failure { status: None })),
        Err(Error::Reqwest(Failure { status: None }))
    );
}

#[test]
fn validation_urls() {
    let urls: Vec<String> = KINDS
        .iter()
        .map(|kind| new(*kind, "secret".to_string()).validation_url().unwrap().to_string())
        .collect();
    assert_eq!(
        urls,
        vec![
            "https://api.openweathermap.org/geo/1.0/direct?appid=secret&q=Kyiv&limit=1",
            "https://api.weatherapi.com/v1/search.json?key=secret&q=Kyiv",
            "https://dataservice.accuweather.com/locations/v1/cities/search?apikey=secret&q=Kyiv",
        ]
    );
}

#[test]
fn search_urls() {
    let urls: Vec<String> = KINDS
        .iter()
        .map(|kind| new(*kind, "secret".to_string()).search_url("New York").unwrap().to_string())
        .collect();
    assert_eq!(
        urls,
        vec![
            "https://api.openweathermap.org/geo/1.0/direct?appid=secret&q=New+York&limit=0",
            "https://api.weatherapi.com/v1/search.json?key=secret&q=New+York",
            "https://dataservice.accuweather.com/locations/v1/cities/search?apikey=secret&q=New+York",
        ]
    );
}

#[test]
fn weather_urls() {
    let place = at("50.45", "30.5241361");
    assert_eq!(
        new(Provider::OpenWeather, "secret".to_string()).weather_url(&place).unwrap().as_str(),
        "https://api.openweathermap.org/data/2.5/weather?appid=secret&lat=50.45&lon=30.5241361"
    );
    assert_eq!(
        new(Provider::WeatherApi, "secret".to_string()).weather_url(&place).unwrap().as_str(),
        "https://api.weatherapi.com/v1/current.json?key=secret&q=50.45%2C30.5241361"
    );
    let place = Location { id: Some("324505".to_string()), lat: None, lon: None, ..place };
    assert_eq!(
        new(Provider::AccuWeather, "secret".to_string()).weather_url(&place).unwrap().as_str(),
        "https://dataservice.accuweather.com/currentconditions/v1/324505?apikey=secret"
    );
}

#[test]
fn address_builders() {
    assert_eq!(
        open_weather::geo_direct("k", "Lviv", true).unwrap().as_str(),
        "https://api.openweathermap.org/geo/1.0/direct?appid=k&q=Lviv&limit=1"
    );
    assert_eq!(
        open_weather::geo_direct("k", "Lviv", false).unwrap().as_str(),
        "https://api.openweathermap.org/geo/1.0/direct?appid=k&q=Lviv&limit=0"
    );
    assert_eq!(
        open_weather::data_weather("k", "-33.87", "151.21").unwrap().as_str(),
        "https://api.openweathermap.org/data/2.5/weather?appid=k&lat=-33.87&lon=151.21"
    );
    assert_eq!(
        weather_api::search("k", "Lviv").unwrap().as_str(),
        "https://api.weatherapi.com/v1/search.json?key=k&q=Lviv"
    );
    assert_eq!(
        weather_api::current("k", "-33.87", "151.21").unwrap().as_str(),
        "https://api.weatherapi.com/v1/current.json?key=k&q=-33.87%2C151.21"
    );
    assert_eq!(
        accu_weather::locations_cities_search("k", "Lviv").unwrap().as_str(),
        "https://dataservice.accuweather.com/locations/v1/cities/search?apikey=k&q=Lviv"
    );
    assert_eq!(
        accu_weather::current_conditions("k", "1/2").unwrap().as_str(),
        "https://dataservice.accuweather.com/currentconditions/v1/1%2F2?apikey=k"
    );
}

#[test]
fn open_weather_places() {
    let found = vec![
        open_weather::Location {
            name: "London".to_string(),
            lat: "51.5073219".to_string(),
            lon: "-0.1276474".to_string(),
            country: "GB".to_string(),
            state: Some("England".to_string()),
        },
        open_weather::Location {
            name: "London".to_string(),
            lat: "42.9832406".to_string(),
            lon: "-81.243372".to_string(),
            country: "CA".to_string(),
            state: None,
        },
    ];
    let places = OpenWeather::search_location(found);

    assert_eq!(places.len(), 2);
    assert_eq!(places[0].id, None);
    assert_eq!(places[0].name, "London");
    assert_eq!(places[0].state.as_deref(), Some("England"));
    assert_eq!(places[0].country, "GB");
    assert_eq!(places[0].lat.as_deref(), Some("51.5073219"));
    assert_eq!(places[0].lon.as_deref(), Some("-0.1276474"));
    assert_eq!(places[1].state, None);
    assert_eq!(places[1].country, "CA");
    assert_eq!(places[1].lat.as_deref(), Some("42.9832406"));
    assert!(places.iter().all(|place| place.serves(Provider::OpenWeather)));
}

#[test]
fn weather_api_places() {
    let found = vec![weather_api::Location {
        name: "Ternopil".to_string(),
        region: "Ternopil's'ka Oblast'".to_string(),
        country: "Ukraine".to_string(),
        lat: "49.55".to_string(),
        lon: "25.58".to_string(),
    }];
    let places = WeatherApi::search_location(found);

    assert_eq!(places.len(), 1);
    assert_eq!(places[0].id, None);
    assert_eq!(places[0].name, "Ternopil");
    assert_eq!(places[0].state.as_deref(), Some("Ternopil's'ka Oblast'"));
    assert_eq!(places[0].country, "Ukraine");
    assert_eq!(places[0].lat.as_deref(), Some("49.55"));
    assert_eq!(places[0].lon.as_deref(), Some("25.58"));
    assert!(places[0].serves(Provider::WeatherApi));
}

#[test]
fn accu_weather_places() {
    let found = vec![accu_weather::Location {
        key: "325343".to_string(),
        localized_name: "Ternopil".to_string(),
        country: accu_weather::Country { localized_name: "Ukraine".to_string() },
        administrative_area: accu_weather::AdministrativeArea {
            localized_name: "Ternopil".to_string(),
        },
    }];
    let places = AccuWeather::search_location(found);

    assert_eq!(places.len(), 1);
    assert_eq!(places[0].id.as_deref(), Some("325343"));
    assert_eq!(places[0].name, "Ternopil");
    assert_eq!(places[0].state.as_deref(), Some("Ternopil"));
    assert_eq!(places[0].country, "Ukraine");
    assert_eq!(places[0].lat, None);
    assert_eq!(places[0].lon, None);
    assert!(places[0].serves(Provider::AccuWeather));
}

#[test]
fn no_match_is_an_empty_list() {
    assert!(OpenWeather::search_location(vec![]).is_empty());
    assert!(WeatherApi::search_location(vec![]).is_empty());
    assert!(AccuWeather::search_location(vec![]).is_empty());
}

#[test]
fn open_weather_report_is_in_kelvin() {
    let report = open_weather::Weather {
        weather: vec![
            open_weather::WeatherData { main: "Mist".to_string() },
            open_weather::WeatherData { main: "Clouds".to_string() },
        ],
        main: open_weather::Temperature { temp: "300".to_string() },
    };
    let weather = OpenWeather::get_weather(report).unwrap();

    assert_eq!(weather.temperature.value, "300");
    assert_eq!(weather.temperature.scale, Scale::Kelvin);
    assert_eq!(weather.description, "Clouds");
}

#[test]
fn open_weather_report_without_conditions_is_bad() {
    let report = open_weather::Weather {
        weather: vec![],
        main: open_weather::Temperature { temp: "300".to_string() },
    };
    let weather = OpenWeather::get_weather(report);

    assert_eq!(weather.unwrap_err(), Error::BadResponse);
}

#[test]
fn weather_api_report_is_in_celsius() {
    let report = weather_api::Weather {
        current: weather_api::Current {
            temp_c: "26.85".to_string(),
            condition: weather_api::Condition { text: "Partly cloudy".to_string() },
        },
    };
    let weather = WeatherApi::get_weather(report).unwrap();

    assert_eq!(weather.temperature.value, "26.85");
    assert_eq!(weather.temperature.scale, Scale::Celsius);
    assert_eq!(weather.description, "Partly cloudy");
}

fn accu_report(text: &str, value: &str) -> accu_weather::Weather {
    accu_weather::Weather {
        weather_text: text.to_string(),
        temperature: accu_weather::Temperature {
            metric: accu_weather::Metric { value: value.to_string() },
        },
    }
}

#[test]
fn accu_weather_report_is_in_celsius() {
    let reports = vec![accu_report("Sunny", "21.1"), accu_report("Light rain", "26.85")];
    let weather = AccuWeather::get_weather(reports).unwrap();

    assert_eq!(weather.temperature.value, "26.85");
    assert_eq!(weather.temperature.scale, Scale::Celsius);
    assert_eq!(weather.description, "Light rain");
}

#[test]
fn accu_weather_answer_without_reports_is_bad() {
    let weather = AccuWeather::get_weather(vec![]);

    assert_eq!(weather.unwrap_err(), Error::BadResponse);
}
