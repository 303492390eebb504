use elevation::lookup::position;
use elevation::lookup::read_reply;
use elevation::Binary64;
use elevation::Elevation;
use elevation::ElevationError;
use elevation::Json;

fn body(text: &str) -> Result<String, String> {
    Ok(text.to_string())
}

fn failure(message: &str) -> Result<String, String> {
    Err(message.to_string())
}

fn number(x: f64) -> Json {
    Json::Number(Some(Binary64 { bits: x.to_bits() }))
}

fn text(s: &str) -> Json {
    Json::String(s.to_string())
}

fn json_error(message: &str) -> ElevationError {
    ElevationError::Json(message.to_string())
}

fn point(latitude: f64, longitude: f64, elevation: f64, resolution: &str) -> Elevation {
    Elevation {
        latitude: Binary64 { bits: latitude.to_bits() },
        longitude: Binary64 { bits: longitude.to_bits() },
        elevation: Binary64 { bits: elevation.to_bits() },
        resolution: resolution.to_string(),
    }
}

#[test]
fn reply_is_read_as_json() {
    let document = read_reply(body(
        r#" { "s": "aé\n\"b\"", "t": true, "f": false, "n": null,
              "list": [1, -2, 3.5, 1e2, [], {}],
              "deep": { "er": { "still": ["x"] } } } "#,
    ))
    .unwrap();
    assert_eq!(document.member("s"), Some(&text("aé\n\"b\"")));
    assert_eq!(document.member("t"), Some(&Json::Bool(true)));
    assert_eq!(document.member("f"), Some(&Json::Bool(false)));
    assert_eq!(document.member("n"), Some(&Json::Null));
    assert_eq!(document.member("missing"), None);
    assert_eq!(
        document.member("list"),
        Some(&Json::Array(vec![
            number(1.0),
            number(-2.0),
            number(3.5),
            number(100.0),
            Json::Array(Vec::new()),
            Json::Object(Vec::new()),
        ]))
    );
    let deep = document.member("deep").unwrap();
    let still = deep.member("er").unwrap().member("still").unwrap();
    assert_eq!(still.element(0), Some(&text("x")));
    assert_eq!(still.element(1), None);
}

#[test]
fn text_is_read_as_json() {
    assert_eq!(
        Json::parse(r#"{"lat": "47.60", "n": [1.5, true, null]}"#),
        Ok(Json::Object(vec![
            ("lat".to_string(), text("47.60")),
            (
                "n".to_string(),
                Json::Array(vec![number(1.5), Json::Bool(true), Json::Null]),
            ),
        ]))
    );
    assert_eq!(
        Json::parse("{\"lat\": }"),
        Err("expected value at line 1 column 9".to_string())
    );
}

#[test]
fn reply_that_is_one_value_is_read() {
    assert_eq!(read_reply(body("null")), Ok(Json::Null));
    assert_eq!(read_reply(body("\"lat\"")), Ok(text("lat")));
    assert_eq!(read_reply(body(" 47.60 ")), Ok(number(47.6)));
    assert_eq!(read_reply(body("[]")), Ok(Json::Array(Vec::new())));
}

#[test]
fn number_is_read_as_the_nearest_float() {
    assert_eq!(read_reply(body("0")), Ok(number(0.0)));
    assert_eq!(read_reply(body("-0.0")), Ok(number(-0.0)));
    assert_eq!(read_reply(body("-7")), Ok(number(-7.0)));
    assert_eq!(
        read_reply(body("18446744073709551615")),
        Ok(number(18446744073709551615u64 as f64))
    );
    assert_eq!(
        read_reply(body("-9223372036854775808")),
        Ok(number(i64::MIN as f64))
    );
    assert_eq!(read_reply(body("0.1")), Ok(number(0.1)));
    assert_eq!(read_reply(body("1.7976931348623157e308")), Ok(number(f64::MAX)));
}

#[test]
fn a_key_written_twice_holds_what_was_written_last() {
    let document = read_reply(body(r#"{"a": 1, "b": 2, "a": 3}"#)).unwrap();
    assert_eq!(document.member("a"), Some(&number(3.0)));
    assert_eq!(document.member("b"), Some(&number(2.0)));
}

#[test]
fn body_that_is_no_json_gives_the_reader_s_message() {
    assert_eq!(
        read_reply(body("<html>")),
        Err(json_error("expected value at line 1 column 1"))
    );
    assert_eq!(
        read_reply(body("")),
        Err(json_error("EOF while parsing a value at line 1 column 0"))
    );
    assert_eq!(
        read_reply(body("{\"lat\": 1,\n \"lon\" 2}")),
        Err(json_error("expected `:` at line 2 column 8"))
    );
    assert_eq!(
        read_reply(body("[1] 2")),
        Err(json_error("trailing characters at line 1 column 5"))
    );
    assert_eq!(
        read_reply(body("1e999")),
        Err(json_error("number out of range at line 1 column 5"))
    );
}

#[test]
fn request_that_failed_gives_the_transport_s_message() {
    assert_eq!(
        read_reply(failure("connection refused")),
        Err(ElevationError::Http("connection refused".to_string()))
    );
    assert_eq!(read_reply(failure("")), Err(ElevationError::Http(String::new())));
    assert_eq!(
        read_reply(failure("{\"valid\": \"json\"}")),
        Err(ElevationError::Http("{\"valid\": \"json\"}".to_string()))
    );
}

#[test]
fn place_is_the_first_that_the_geocoder_found() {
    let document = read_reply(body(
        r#"[{"lat":"47.60","lon":"-122.33","display_name":"Seattle"},
            {"lat":"1","lon":"2"}]"#,
    ))
    .unwrap();
    assert_eq!(
        position(&document),
        Ok(("47.60".to_string(), "-122.33".to_string()))
    );
}

#[test]
fn place_is_given_as_it_was_written() {
    let document = read_reply(body(r#"[{"lon":" 1e1 ","lat":"north"}]"#)).unwrap();
    assert_eq!(position(&document), Ok(("north".to_string(), " 1e1 ".to_string())));
}

#[test]
fn geocoded_latitude_that_is_a_number_is_refused() {
    let document = read_reply(body(r#"[{"lat":47.60,"lon":"-122.33"}]"#)).unwrap();
    let error = position(&document).unwrap_err();
    assert_eq!(error, json_error("couldn't find the geocoded latitude"));
    assert!(error.to_string().contains("geocoded latitude"));
}

#[test]
fn geocoded_longitude_that_is_a_number_is_refused() {
    let document = read_reply(body(r#"[{"lat":"47.60","lon":-122.33}]"#)).unwrap();
    assert_eq!(
        position(&document),
        Err(json_error("couldn't find the geocoded longitude"))
    );
}

#[test]
fn geocoded_latitude_is_looked_for_first() {
    let document = read_reply(body(r#"[{"lat":null,"lon":null}]"#)).unwrap();
    assert_eq!(
        position(&document),
        Err(json_error("couldn't find the geocoded latitude"))
    );
    let document = read_reply(body(r#"[{"lat":"1"}]"#)).unwrap();
    assert_eq!(
        position(&document),
        Err(json_error("couldn't find the geocoded longitude"))
    );
}

#[test]
fn no_place_found_is_a_failure() {
    for reply in ["[]", "{}", "null", r#"{"lat":"1","lon":"2"}"#, r#"[[{"lat":"1","lon":"2"}]]"#] {
        let document = read_reply(body(reply)).unwrap();
        assert_eq!(
            position(&document),
            Err(json_error("couldn't find the geocoded latitude"))
        );
    }
}

#[test]
fn point_holds_what_the_reply_holds() {
    let document = read_reply(body(
        r#"{"elevations":[{"lat":45.0042,"lon":99.9958,"elevation":1514.0}],"resolution":"5000m"}"#,
    ))
    .unwrap();
    assert_eq!(
        Elevation::from_document(&document, 0),
        Ok(point(45.0042, 99.9958, 1514.0, "5000m"))
    );
}

#[test]
fn whole_numbers_in_a_record_are_read() {
    let document = read_reply(body(
        r#"{"elevations":[{"lat":45,"lon":-100,"elevation":0}],"resolution":""}"#,
    ))
    .unwrap();
    assert_eq!(
        Elevation::from_document(&document, 0),
        Ok(point(45.0, -100.0, 0.0, ""))
    );
}

#[test]
fn reply_without_resolution_is_refused() {
    let document = read_reply(body(
        r#"{"elevations":[{"lat":45.0,"lon":100.0,"elevation":1514.0}]}"#,
    ))
    .unwrap();
    let error = Elevation::from_document(&document, 0).unwrap_err();
    assert_eq!(error, json_error("couldn't find the resolution"));
    assert!(error.to_string().contains("resolution"));
}

#[test]
fn reply_without_the_latitude_of_its_first_point_is_refused() {
    let document = read_reply(body(
        r#"{"elevations":[{"lon":100.0,"elevation":1514.0}],"resolution":"5000m"}"#,
    ))
    .unwrap();
    let error = Elevation::from_document(&document, 0).unwrap_err();
    assert_eq!(error, json_error("couldn't find the latitude"));
    assert!(error.to_string().contains("latitude"));
}

#[test]
fn reply_with_coordinates_as_strings_is_refused() {
    let document = read_reply(body(
        r#"{"elevations":[{"lat":"45.0","lon":"100.0","elevation":1514.0}],"resolution":"5000m"}"#,
    ))
    .unwrap();
    assert_eq!(
        Elevation::from_document(&document, 0),
        Err(json_error("couldn't find the latitude"))
    );
}

#[test]
fn reply_without_points_is_refused() {
    for reply in [
        r#"{"elevations":[],"resolution":"5000m"}"#,
        r#"{"resolution":"5000m"}"#,
        r#"{"elevations":{"lat":1,"lon":2,"elevation":3},"resolution":"5000m"}"#,
        r#"[{"lat":1,"lon":2,"elevation":3}]"#,
        r#"{"error":"Invalid points"}"#,
    ] {
        let document = read_reply(body(reply)).unwrap();
        assert_eq!(
            Elevation::from_document(&document, 0),
            Err(json_error("couldn't find the latitude"))
        );
    }
}

#[test]
fn failure_in_words() {
    assert_eq!(
        ElevationError::Http("connection refused".to_string()).to_string(),
        "http error connection refused"
    );
    assert_eq!(
        ElevationError::Json("couldn't find the resolution".to_string()).to_string(),
        "json error couldn't find the resolution"
    );
    assert_eq!(ElevationError::Http(String::new()).to_string(), "http error ");
    assert_eq!(ElevationError::Json(String::new()).to_string(), "json error ");
}
