use assets_rocket_fairing::asset::CACHE_CONTROL;
use assets_rocket_fairing::{Asset, Assets, Lookup};
use rocket::http::{ContentType, Status};
use rocket::response::Response;

fn asset<F>(file: F, max_age: i32) -> Asset<F> {
    let assets = Assets::assemble(
        String::from("static"),
        Ok(String::from("/srv/app/static")),
        true,
        Lookup::Present(max_age),
    )
    .unwrap();
    assets.open::<F, ()>(Ok(file)).unwrap()
}

fn values(response: &Response<'static>, name: &str) -> Vec<String> {
    response.headers().get(name).map(String::from).collect()
}

#[test]
fn the_header_is_sent_under_its_usual_name() {
    assert!(CACHE_CONTROL.eq_ignore_ascii_case("Cache-Control"));
}

#[test]
fn the_header_value_is_max_age_and_the_seconds() {
    assert_eq!(asset((), 3600).cache_control(), "max-age=3600");
    assert_eq!(asset((), 86400).cache_control(), "max-age=86400");
    assert_eq!(asset((), 1).cache_control(), "max-age=1");
}

#[test]
fn a_lifetime_of_zero_is_written_out() {
    assert_eq!(asset((), 0).cache_control(), "max-age=0");
}

#[test]
fn the_longest_lifetime_is_written_in_full() {
    assert_eq!(asset((), i32::MAX).cache_control(), "max-age=2147483647");
}

#[test]
fn the_response_gets_the_header_once() {
    let outcome = asset((), 3600).respond_to(|_| Ok::<_, Status>(Response::new()));
    let response = outcome.unwrap();
    assert_eq!(values(&response, "Cache-Control"), ["max-age=3600"]);
    assert_eq!(values(&response, "cache-control"), ["max-age=3600"]);
    assert_eq!(response.headers().len(), 1);
}

#[test]
fn the_header_replaces_one_that_the_file_response_had() {
    let outcome = asset((), 60).respond_to(|_| {
        let mut base = Response::new();
        base.set_raw_header("CACHE-CONTROL", "no-store");
        base.adjoin_raw_header("cache-control", "private");
        Ok::<_, Status>(base)
    });
    let response = outcome.unwrap();
    assert_eq!(values(&response, "Cache-Control"), ["max-age=60"]);
}

#[test]
fn the_other_headers_of_the_file_response_stay() {
    let outcome = asset((), 60).respond_to(|_| {
        let mut base = Response::new();
        base.set_header(ContentType::CSS);
        base.adjoin_raw_header("X-Served-By", "one");
        base.adjoin_raw_header("X-Served-By", "two");
        base.set_status(Status::PartialContent);
        Ok::<_, Status>(base)
    });
    let response = outcome.unwrap();
    assert_eq!(values(&response, "Content-Type"), ["text/css; charset=utf-8"]);
    assert_eq!(values(&response, "X-Served-By"), ["one", "two"]);
    assert_eq!(values(&response, "Cache-Control"), ["max-age=60"]);
    assert_eq!(response.status(), Status::PartialContent);
}

#[test]
fn the_file_is_handed_to_the_builder() {
    let outcome = asset(String::from("style.css"), 60).respond_to(|file| {
        let mut base = Response::new();
        base.set_raw_header("X-File", file);
        Ok::<_, Status>(base)
    });
    assert_eq!(values(&outcome.unwrap(), "X-File"), ["style.css"]);
}

#[test]
fn a_failure_of_the_builder_is_handed_on() {
    let outcome = asset((), 60).respond_to(|_| Err::<Response<'static>, _>(Status::NotFound));
    match outcome {
        Err(status) => assert_eq!(status, Status::NotFound),
        Ok(_) => panic!("a response was made of a failure"),
    }
}
