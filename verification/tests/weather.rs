use weather_discord_bot::weather::{
    begin, resolve_with, CouldNotFindLocation, Country, FetchFailure, Forecast, Headline,
    Location, ResolveError, DAILY_FORECAST_REQUEST, LOCATION_REQUEST, MISSING_KEY,
};

fn location(key: &str, name: &str, country: &str) -> Location {
    Location::new(
        key.to_string(),
        name.to_string(),
        Country {
            id: country.to_string(),
        },
    )
}

fn forecast(overview: &str) -> Forecast {
    Forecast {
        headline: Headline {
            overview: overview.to_string(),
        },
    }
}

#[test]
fn location_is_shown_as_name_and_country_code() {
    assert_eq!(location("623", "Paris", "FR").to_string(), "Paris, FR");
    assert_eq!(location("1", "", "").to_string(), ", ");
    assert_eq!(
        location("328328", "London", "GB").to_string(),
        "London, GB"
    );
}

#[test]
fn location_hands_out_what_it_was_made_of() {
    let paris = location("623", "Paris", "FR");
    assert_eq!(paris.key(), "623");
    assert_eq!(paris.localized_name(), "Paris");
    assert_eq!(paris.country().id, "FR");
}

#[test]
fn not_found_names_the_place() {
    let failure = CouldNotFindLocation::new("Nowhereville".to_string());
    assert_eq!(failure.place(), "Nowhereville");
    assert_eq!(
        failure.to_string(),
        "Could not find location 'Nowhereville'"
    );
    assert_eq!(
        CouldNotFindLocation::new(String::new()).to_string(),
        "Could not find location ''"
    );
}

#[test]
fn endpoints_are_those_of_the_provider() {
    assert_eq!(
        LOCATION_REQUEST,
        "http://dataservice.accuweather.com/locations/v1/cities/search"
    );
    assert_eq!(
        DAILY_FORECAST_REQUEST,
        "http://dataservice.accuweather.com/forecasts/v1/daily/1day/"
    );
}

#[test]
fn search_address_carries_key_and_place() {
    let (_, url) = begin("Paris", "SECRET");
    assert_eq!(
        url,
        "http://dataservice.accuweather.com/locations/v1/cities/search?apikey=SECRET&q=Paris"
    );
}

#[test]
fn search_address_passes_the_place_on_as_it_is() {
    let (_, url) = begin("New York & more", "k");
    assert_eq!(
        url,
        "http://dataservice.accuweather.com/locations/v1/cities/search?apikey=k&q=New York & more"
    );
}

#[test]
fn forecast_address_carries_location_key_and_key() {
    let (pending, _) = begin("Paris", "SECRET");
    let (_, url) = pending
        .candidates(Ok(vec![location("623", "Paris", "FR")]))
        .unwrap();
    assert_eq!(
        url,
        "http://dataservice.accuweather.com/forecasts/v1/daily/1day/623?apikey=SECRET"
    );
}

#[test]
fn lookup_takes_the_first_candidate_only() {
    let (pending, _) = begin("Springfield", "k");
    let candidates = vec![
        location("10", "Springfield", "US"),
        location("20", "Springfield", "CA"),
        location("30", "Springfield", "AU"),
    ];
    let (pending, url) = pending.candidates(Ok(candidates)).unwrap();
    assert_eq!(
        url,
        "http://dataservice.accuweather.com/forecasts/v1/daily/1day/10?apikey=k"
    );
    let (found, told) = pending.forecast(Ok(forecast("Rain"))).unwrap();
    assert_eq!(found, location("10", "Springfield", "US"));
    assert_eq!(told, forecast("Rain"));
}

#[test]
fn resolve_returns_display_string_and_headline() {
    let outcome = resolve_with(
        "Paris",
        "k",
        Ok(vec![location("623", "Paris", "FR")]),
        Ok(forecast("Sunny")),
    );
    let (found, told) = outcome.unwrap();
    assert_eq!(found.to_string(), "Paris, FR");
    assert_eq!(told.headline.overview, "Sunny");
}

#[test]
fn resolve_without_candidates_is_not_found() {
    let outcome = resolve_with("Nowhereville", "k", Ok(vec![]), Ok(forecast("Sunny")));
    let error = outcome.unwrap_err();
    assert_eq!(
        error,
        ResolveError::NotFound(CouldNotFindLocation::new("Nowhereville".to_string()))
    );
    assert_eq!(error.to_string(), "Could not find location 'Nowhereville'");
    assert!(error.to_string().contains("Nowhereville"));
}

#[test]
fn search_without_candidates_ends_the_lookup() {
    let (pending, _) = begin("Zzyzx", "k");
    let error = pending.candidates(Ok(vec![])).unwrap_err();
    assert_eq!(error.to_string(), "Could not find location 'Zzyzx'");
}

#[test]
fn failed_search_passes_on_unconverted() {
    let transport = resolve_with(
        "Paris",
        "k",
        Err(FetchFailure::Transport("connection refused".to_string())),
        Ok(forecast("Sunny")),
    );
    assert_eq!(
        transport,
        Err(ResolveError::Transport("connection refused".to_string()))
    );
    let parse = resolve_with(
        "Paris",
        "k",
        Err(FetchFailure::Parse("expected an array".to_string())),
        Ok(forecast("Sunny")),
    );
    assert_eq!(
        parse,
        Err(ResolveError::Parse("expected an array".to_string()))
    );
}

#[test]
fn failed_forecast_passes_on_unconverted() {
    let transport = resolve_with(
        "Paris",
        "k",
        Ok(vec![location("623", "Paris", "FR")]),
        Err(FetchFailure::Transport("status 503".to_string())),
    );
    assert_eq!(
        transport,
        Err(ResolveError::Transport("status 503".to_string()))
    );
    let parse = resolve_with(
        "Paris",
        "k",
        Ok(vec![location("623", "Paris", "FR")]),
        Err(FetchFailure::Parse("missing field `Headline`".to_string())),
    );
    assert_eq!(
        parse.unwrap_err().to_string(),
        "missing field `Headline`"
    );
}

#[test]
fn not_found_comes_before_a_failed_forecast() {
    let outcome = resolve_with(
        "Atlantis",
        "k",
        Ok(vec![]),
        Err(FetchFailure::Transport("unreachable".to_string())),
    );
    assert_eq!(
        outcome.unwrap_err().to_string(),
        "Could not find location 'Atlantis'"
    );
}

#[test]
fn candidate_without_key_is_a_malformed_answer() {
    let outcome = resolve_with(
        "Paris",
        "k",
        Ok(vec![
            location("", "Paris", "FR"),
            location("623", "Paris", "FR"),
        ]),
        Ok(forecast("Sunny")),
    );
    assert_eq!(
        outcome,
        Err(ResolveError::Parse(MISSING_KEY.to_string()))
    );
    let (pending, _) = begin("Paris", "k");
    assert!(pending
        .candidates(Ok(vec![location("", "Paris", "FR")]))
        .is_err());
}

#[test]
fn error_texts_are_the_messages_they_came_with() {
    assert_eq!(
        ResolveError::Transport("timed out".to_string()).to_string(),
        "timed out"
    );
    assert_eq!(ResolveError::Parse(String::new()).to_string(), "");
    assert_eq!(
        ResolveError::from_fetch(FetchFailure::Transport("x".to_string())),
        ResolveError::Transport("x".to_string())
    );
    assert_eq!(
        ResolveError::from_fetch(FetchFailure::Parse("y".to_string())),
        ResolveError::Parse("y".to_string())
    );
}

#[test]
fn resolve_twice_with_the_same_answers_gives_the_same() {
    let search = Ok(vec![
        location("623", "Paris", "FR"),
        location("7", "Paris", "US"),
    ]);
    let told = Ok(forecast("Sunny"));
    let first = resolve_with("Paris", "k", search.clone(), told.clone());
    let second = resolve_with("Paris", "k", search.clone(), told.clone());
    assert_eq!(first, second);
    assert_eq!(
        first,
        Ok((location("623", "Paris", "FR"), forecast("Sunny")))
    );

    let nothing: Result<Vec<Location>, FetchFailure> = Ok(vec![]);
    let first = resolve_with("Zzyzx", "k", nothing.clone(), told.clone());
    let between = resolve_with("Paris", "k", search, told.clone());
    let second = resolve_with("Zzyzx", "k", nothing, told);
    assert!(between.is_ok());
    assert_eq!(first, second);
}
