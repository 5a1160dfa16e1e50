use weather::command::{
    choose_active_provider, choose_location, configure_provider as take_up_key, narrow, pick, Found,
    Plan, Refusal,
};
use weather::data::Provider::{AccuWeather, OpenWeather, WeatherApi};
use weather::data::Location;
use weather::storage::{Config, Storage};

fn place(name: &str) -> Location {
    Location {
        id: None,
        name: name.to_string(),
        state: None,
        country: String::new(),
        lat: None,
        lon: None,
    }
}

fn with_two_providers() -> Storage {
    let mut storage = Storage::load(Config::default());
    storage.configure_provider(OpenWeather, "one".to_string());
    storage.configure_provider(WeatherApi, "two".to_string());
    Storage::load(storage.store().unwrap())
}

#[test]
fn refusal_messages() {
    assert_eq!(Refusal::NoProviderConfigured.message(), "None of the providers is configured.");
    assert_eq!(Refusal::ProviderNotConfigured.message(), "Provider is not configured.");
    assert_eq!(Refusal::NoSavedLocation.message(), "No saved location for active provider.");
    assert_eq!(
        Refusal::LocationNotFound.message(),
        "Sorry, cannot find any location for the given input."
    );
    assert_eq!(Refusal::IncorrectApiKey.message(), "Incorrect provider API key.");
}

#[test]
fn no_provider_to_choose() {
    let mut storage = Storage::load(Config::default());

    assert_eq!(choose_active_provider(&mut storage, None), Err(Refusal::NoProviderConfigured));
    assert_eq!(
        choose_active_provider(&mut storage, Some(OpenWeather)),
        Err(Refusal::ProviderNotConfigured)
    );
    assert!(!storage.is_changed());
}

#[test]
fn active_provider_is_chosen_without_a_wish() {
    let mut storage = with_two_providers();

    assert_eq!(choose_active_provider(&mut storage, None), Ok(WeatherApi));
    assert!(!storage.is_changed());
}

#[test]
fn wished_provider_becomes_active() {
    let mut storage = with_two_providers();

    assert_eq!(choose_active_provider(&mut storage, Some(OpenWeather)), Ok(OpenWeather));
    assert_eq!(storage.get_active_provider(), Some(OpenWeather));
    assert!(storage.is_changed());
}

#[test]
fn wish_for_the_active_provider_changes_nothing() {
    let mut storage = with_two_providers();

    assert_eq!(choose_active_provider(&mut storage, Some(WeatherApi)), Ok(WeatherApi));
    assert!(!storage.is_changed());
}

#[test]
fn wish_for_an_unconfigured_provider_is_refused() {
    let mut storage = with_two_providers();

    assert_eq!(
        choose_active_provider(&mut storage, Some(AccuWeather)),
        Err(Refusal::ProviderNotConfigured)
    );
    assert_eq!(storage.get_active_provider(), Some(WeatherApi));
    assert!(!storage.is_changed());
}

#[test]
fn valid_key_is_taken_up() {
    let mut storage = with_two_providers();

    assert_eq!(take_up_key(&mut storage, AccuWeather, "three".to_string(), true), Ok(()));
    assert_eq!(storage.get_api_key(AccuWeather), "three");
    assert_eq!(storage.get_active_provider(), Some(AccuWeather));
    assert!(storage.is_changed());
}

#[test]
fn invalid_key_is_refused() {
    let mut storage = with_two_providers();

    assert_eq!(
        take_up_key(&mut storage, OpenWeather, "wrong key".to_string(), false),
        Err(Refusal::IncorrectApiKey)
    );
    assert_eq!(storage.get_api_key(OpenWeather), "one");
    assert_eq!(storage.get_active_provider(), Some(WeatherApi));
    assert!(!storage.is_changed());
}

#[test]
fn query_is_searched_for() {
    let mut storage = with_two_providers();
    storage.save_location(WeatherApi, place("Ternopil"));

    match choose_location(&storage, WeatherApi, Some("London".to_string())) {
        Ok(Plan::Search(query)) => assert_eq!(query, "London"),
        other => panic!("{other:?}"),
    }
}

#[test]
fn saved_location_is_used_without_a_query() {
    let mut storage = with_two_providers();
    storage.save_location(WeatherApi, place("Ternopil"));

    match choose_location(&storage, WeatherApi, None) {
        Ok(Plan::Saved(location)) => assert_eq!(location.name, "Ternopil"),
        other => panic!("{other:?}"),
    }
}

#[test]
fn missing_saved_location_is_refused() {
    let mut storage = with_two_providers();
    storage.save_location(WeatherApi, place("Ternopil"));

    assert!(matches!(
        choose_location(&storage, OpenWeather, None),
        Err(Refusal::NoSavedLocation)
    ));
    assert!(matches!(
        choose_location(&storage, AccuWeather, None),
        Err(Refusal::NoSavedLocation)
    ));
}

#[test]
fn search_without_match_is_refused() {
    assert!(matches!(narrow(vec![]), Err(Refusal::LocationNotFound)));
}

#[test]
fn single_match_is_taken() {
    match narrow(vec![place("Ternopil")]) {
        Ok(Found::One(location)) => assert_eq!(location.name, "Ternopil"),
        other => panic!("{other:?}"),
    }
}

#[test]
fn several_matches_are_handed_back_in_order() {
    match narrow(vec![place("London, GB"), place("London, CA"), place("London, US")]) {
        Ok(Found::Several(locations)) => {
            let names: Vec<&str> = locations.iter().map(|l| l.name.as_str()).collect();
            assert_eq!(names, vec!["London, GB", "London, CA", "London, US"]);
        },
        other => panic!("{other:?}"),
    }
}

#[test]
fn chosen_match_is_picked() {
    let list = || vec![place("London, GB"), place("London, CA"), place("London, US")];

    assert_eq!(pick(list(), 0).name, "London, GB");
    assert_eq!(pick(list(), 1).name, "London, CA");
    assert_eq!(pick(list(), 2).name, "London, US");
}
