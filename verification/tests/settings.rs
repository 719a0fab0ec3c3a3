use assets_rocket_fairing::settings::{
    directory_setting, max_age_setting, DEFAULT_DIRECTORY, DEFAULT_MAX_AGE, DIRECTORY_KEY,
    MAX_AGE_KEY,
};
use assets_rocket_fairing::{Lookup, StartupError};
use rocket::figment::Error;

fn report(message: &str) -> Error {
    Error::from(String::from(message))
}

#[test]
fn the_keys_and_defaults_are_the_documented_ones() {
    assert_eq!(DIRECTORY_KEY, "assets_dir");
    assert_eq!(MAX_AGE_KEY, "assets_max_age");
    assert_eq!(DEFAULT_DIRECTORY, "assets/");
    assert_eq!(DEFAULT_MAX_AGE, 86400);
}

#[test]
fn an_absent_directory_is_the_default_one() {
    assert_eq!(directory_setting(Lookup::Absent).unwrap(), "assets/");
}

#[test]
fn a_configured_directory_is_taken_as_written() {
    let chosen = directory_setting(Lookup::Present(String::from("static")));
    assert_eq!(chosen.unwrap(), "static");
    let chosen = directory_setting(Lookup::Present(String::from("")));
    assert_eq!(chosen.unwrap(), "");
}

#[test]
fn a_malformed_directory_is_reported_with_its_cause() {
    match directory_setting(Lookup::Malformed(report("not a path"))) {
        Err(StartupError::MalformedDirectory(cause)) => assert_eq!(cause, report("not a path")),
        other => panic!("unexpected outcome: {:?}", other),
    }
}

#[test]
fn an_absent_max_age_is_one_day() {
    assert_eq!(max_age_setting(Lookup::Absent).unwrap(), 86400);
}

#[test]
fn a_configured_max_age_is_taken_as_written() {
    assert_eq!(max_age_setting(Lookup::Present(3600)).unwrap(), 3600);
    assert_eq!(max_age_setting(Lookup::Present(0)).unwrap(), 0);
    assert_eq!(max_age_setting(Lookup::Present(1)).unwrap(), 1);
    assert_eq!(max_age_setting(Lookup::Present(i32::MAX)).unwrap(), 2147483647);
}

#[test]
fn a_negative_max_age_is_refused() {
    match max_age_setting(Lookup::Present(-1)) {
        Err(StartupError::NegativeMaxAge(seconds)) => assert_eq!(seconds, -1),
        other => panic!("unexpected outcome: {:?}", other),
    }
    match max_age_setting(Lookup::Present(i32::MIN)) {
        Err(StartupError::NegativeMaxAge(seconds)) => assert_eq!(seconds, i32::MIN),
        other => panic!("unexpected outcome: {:?}", other),
    }
}

#[test]
fn a_malformed_max_age_is_reported_with_its_cause() {
    match max_age_setting(Lookup::Malformed(report("not a number"))) {
        Err(StartupError::MalformedMaxAge(cause)) => assert_eq!(cause, report("not a number")),
        other => panic!("unexpected outcome: {:?}", other),
    }
}
