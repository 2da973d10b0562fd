use weather_discord_bot::dispatch::{
    dispatch, render, ArgumentValue, CommandArgument, CommandInvocation, Dispatch,
    HELLO_COMMAND, OPTION_NAME, WEATHER_COMMAND,
};
use weather_discord_bot::weather::{
    CouldNotFindLocation, Country, Forecast, Headline, Location, ResolveError,
};

fn invocation(name: &str, arguments: Vec<CommandArgument>) -> CommandInvocation {
    CommandInvocation {
        name: name.to_string(),
        arguments,
    }
}

fn text_argument(name: &str, value: &str) -> CommandArgument {
    CommandArgument {
        name: name.to_string(),
        value: Some(ArgumentValue::Text(value.to_string())),
    }
}

fn weather_for(place: &str) -> CommandInvocation {
    invocation("weather", vec![text_argument("place", place)])
}

fn found(name: &str, country: &str, overview: &str) -> Result<(Location, Forecast), ResolveError> {
    Ok((
        Location::new(
            "623".to_string(),
            name.to_string(),
            Country {
                id: country.to_string(),
            },
        ),
        Forecast {
            headline: Headline {
                overview: overview.to_string(),
            },
        },
    ))
}

#[test]
fn names_are_those_registered() {
    assert_eq!(HELLO_COMMAND, "hello");
    assert_eq!(WEATHER_COMMAND, "weather");
    assert_eq!(OPTION_NAME, "place");
}

#[test]
fn hello_is_answered_without_a_lookup() {
    let hello = invocation("hello", vec![]);
    assert!(hello.is_well_formed());
    assert_eq!(dispatch(&hello), Dispatch::Reply("hello".to_string()));
}

#[test]
fn hello_ignores_its_arguments() {
    let hello = invocation("hello", vec![text_argument("place", "Paris")]);
    assert_eq!(dispatch(&hello), Dispatch::Reply("hello".to_string()));
}

#[test]
fn weather_asks_for_a_lookup_of_its_place() {
    let weather = weather_for("Paris");
    assert!(weather.is_well_formed());
    assert_eq!(weather.place(), Some("Paris"));
    assert_eq!(dispatch(&weather), Dispatch::Lookup("Paris".to_string()));
}

#[test]
fn weather_in_paris_is_sunny() {
    match dispatch(&weather_for("Paris")) {
        Dispatch::Lookup(place) => {
            assert_eq!(place, "Paris");
            assert_eq!(
                render(&found("Paris", "FR", "Sunny")),
                "Forecast: Sunny in Paris, FR"
            );
        }
        other => panic!("no lookup asked for: {:?}", other),
    }
}

#[test]
fn weather_in_zzyzx_is_not_found() {
    match dispatch(&weather_for("Zzyzx")) {
        Dispatch::Lookup(place) => {
            let outcome = Err(ResolveError::NotFound(CouldNotFindLocation::new(place)));
            assert_eq!(render(&outcome), "Err: Could not find location 'Zzyzx'");
        }
        other => panic!("no lookup asked for: {:?}", other),
    }
}

#[test]
fn transport_and_parse_errors_are_rendered_alike() {
    assert_eq!(
        render(&Err(ResolveError::Transport(
            "connection refused".to_string()
        ))),
        "Err: connection refused"
    );
    assert_eq!(
        render(&Err(ResolveError::Parse("missing field `Key`".to_string()))),
        "Err: missing field `Key`"
    );
}

#[test]
fn unknown_command_is_answered_and_the_next_still_works() {
    let unknown = invocation("unknown-cmd", vec![]);
    assert!(unknown.is_well_formed());
    let answer = dispatch(&unknown);
    assert_eq!(
        answer,
        Dispatch::Unknown("Unknown command: unknown-cmd".to_string())
    );
    match answer {
        Dispatch::Unknown(text) => assert!(!text.is_empty()),
        other => panic!("not refused: {:?}", other),
    }
    assert_eq!(
        dispatch(&invocation("hello", vec![])),
        Dispatch::Reply("hello".to_string())
    );
    assert_eq!(
        dispatch(&weather_for("Paris")),
        Dispatch::Lookup("Paris".to_string())
    );
}

#[test]
fn unknown_command_with_an_empty_name_is_still_answered() {
    assert_eq!(
        dispatch(&invocation("", vec![])),
        Dispatch::Unknown("Unknown command: ".to_string())
    );
}

#[test]
fn command_names_are_matched_exactly() {
    assert_eq!(
        dispatch(&invocation("Hello", vec![])),
        Dispatch::Unknown("Unknown command: Hello".to_string())
    );
    assert_eq!(
        dispatch(&invocation("weather ", vec![])),
        Dispatch::Unknown("Unknown command: weather ".to_string())
    );
}

#[test]
fn first_argument_of_the_name_counts() {
    let weather = invocation(
        "weather",
        vec![
            text_argument("units", "metric"),
            text_argument("place", "Paris"),
            text_argument("place", "London"),
        ],
    );
    assert_eq!(weather.argument("place"), Some(&text_argument("place", "Paris")));
    assert_eq!(weather.argument("units"), Some(&text_argument("units", "metric")));
    assert_eq!(weather.argument("day"), None);
    assert_eq!(dispatch(&weather), Dispatch::Lookup("Paris".to_string()));
}

#[test]
fn weather_without_its_place_is_not_well_formed() {
    assert!(!invocation("weather", vec![]).is_well_formed());
    assert!(!invocation("weather", vec![text_argument("city", "Paris")]).is_well_formed());
    let no_value = CommandArgument {
        name: "place".to_string(),
        value: None,
    };
    assert_eq!(no_value.text(), None);
    assert!(!invocation("weather", vec![no_value]).is_well_formed());
    let number = CommandArgument {
        name: "place".to_string(),
        value: Some(ArgumentValue::Number),
    };
    assert!(!invocation("weather", vec![number]).is_well_formed());
    let flag = CommandArgument {
        name: "place".to_string(),
        value: Some(ArgumentValue::Boolean(true)),
    };
    assert!(!invocation("weather", vec![flag.clone(), text_argument("place", "Paris")])
        .is_well_formed());
    assert!(invocation("other", vec![flag]).is_well_formed());
}

#[test]
fn weather_with_an_empty_place_is_looked_up_as_it_is() {
    let weather = weather_for("");
    assert!(weather.is_well_formed());
    assert_eq!(dispatch(&weather), Dispatch::Lookup(String::new()));
}
