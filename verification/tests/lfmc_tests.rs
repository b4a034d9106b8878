use lfmc::construct_output;
use lfmc::ArtistEntry;
use lfmc::Config;
use lfmc::Field;
use lfmc::FormatError;
use lfmc::Response;
use lfmc::u16_to_string;
use serde_json::Value;

fn response_from_json(v: &Value) -> Response {
    match v["topartists"]["artist"].as_array() {
        None => Response::NoArtistArray,
        Some(arr) => Response::Artists(
            arr.iter()
                .map(|a| ArtistEntry {
                    name: a["name"].as_str().map(String::from),
                    playcount: a["playcount"].as_str().map(String::from),
                })
                .collect(),
        ),
    }
}

fn entry(name: &str, playcount: &str) -> ArtistEntry {
    ArtistEntry {
        name: Some(String::from(name)),
        playcount: Some(String::from(playcount)),
    }
}

fn config(limit: u16, period: &str) -> Config {
    Config::new(
        String::from("api_key"),
        String::from("username"),
        limit,
        String::from(period),
    )
}

#[test]
fn test_config() {
    let api_key = "api_key";
    let username = "username";
    let limit = 5;
    let period = "7day";

    let config = Config::new(
        String::from(api_key),
        String::from(username),
        limit,
        String::from(period),
    );

    let uri = config.get_uri();

    let keys = [
        format!("user={}", username),
        format!("api_key={}", api_key),
        format!("limit={}", limit),
        format!("period={}", period),
    ];
    for pat in keys.iter() {
        assert!(uri.find(pat).is_some());
    }
}

#[test]
fn test_construct_output() {
    let api_key = "api_key";
    let username = "username";
    let limit = 5;
    let period = "7day";

    let config = Config::new(
        String::from(api_key),
        String::from(username),
        limit,
        String::from(period),
    );

    let artist = r#"
    {
        "topartists":{
            "artist":["Fia","Sea","Tha","Foa","Fia"]}
    }
    "#;

    let parsed_json: Result<Value, serde_json::Error> = serde_json::from_str(artist);

    if let Ok(json) = parsed_json {
        let response = response_from_json(&json);
        let output = construct_output(&config, &response);
        if let Ok(output_string) = output {
            let key = "Fia";
            assert!(output_string.find(key).is_some());
        }
    }
}

#[test]
fn exact_uri() {
    let uri = config(5, "7day").get_uri();
    assert_eq!(
        uri,
        "http://ws.audioscrobbler.com/2.0/?method=user.gettopartists&user=username&api_key=api_key&format=json&period=7day&limit=5"
    );
}

#[test]
fn header_label_per_period() {
    let resp = Response::Artists(vec![entry("A", "1")]);
    let expect = [
        ("overall", "in the past via #LastFM"),
        ("7day", "in the past week via #LastFM"),
        ("1month", "in the past month via #LastFM"),
        ("3month", "in the past 3 months via #LastFM"),
        ("6month", "in the past 6 months via #LastFM"),
        ("12month", "in the past year via #LastFM"),
    ];
    for (period, needle) in expect.iter() {
        let out = construct_output(&config(1, period), &resp).unwrap();
        assert!(out.contains(needle), "period {}: {}", period, out);
    }
}

#[test]
fn exact_output_three_artists() {
    let resp = Response::Artists(vec![entry("A", "10"), entry("B", "20"), entry("C", "30")]);
    let out = construct_output(&config(3, "1month"), &resp).unwrap();
    assert_eq!(
        out,
        "   \u{266b} My Top 3 played artists in the past month via #LastFM \u{266b}:\n A (10), B (20), & C (30)."
    );
}

#[test]
fn exact_output_single_artist() {
    let resp = Response::Artists(vec![entry("A", "7")]);
    let out = construct_output(&config(1, "overall"), &resp).unwrap();
    assert_eq!(
        out,
        " \u{266b} My Top 1 played artists in the past via #LastFM \u{266b}:\n A (7)."
    );
}

#[test]
fn exact_output_no_artists() {
    let resp = Response::Artists(vec![]);
    let out = construct_output(&config(5, "7day"), &resp).unwrap();
    assert_eq!(
        out,
        "\u{266b} My Top 5 played artists in the past week via #LastFM \u{266b}:\n."
    );
}

#[test]
fn punctuation_follows_limit() {
    let resp = Response::Artists(vec![
        entry("Fia", "1"),
        entry("Sea", "2"),
        entry("Tha", "3"),
        entry("Foa", "4"),
        entry("Fib", "5"),
    ]);
    let out = construct_output(&config(5, "7day"), &resp).unwrap();
    assert!(out.contains(" Fia (1), Sea (2), Tha (3), Foa (4), & Fib (5)."));
    assert!(out.ends_with(" Foa (4), & Fib (5)."));
}

#[test]
fn mentions_each_artist() {
    let resp = Response::Artists(vec![
        entry("Fia", "1"),
        entry("Sea", "2"),
        entry("Tha", "3"),
        entry("Foa", "4"),
        entry("Fia", "5"),
    ]);
    let out = construct_output(&config(5, "7day"), &resp).unwrap();
    assert!(out.contains("Fia"));
    assert!(out.contains("Sea"));
    assert!(out.contains("Tha"));
    assert!(out.contains("Foa"));
}

#[test]
fn invalid_period_is_rejected() {
    let resp = Response::Artists(vec![entry("A", "1")]);
    let err = construct_output(&config(5, "2week"), &resp).unwrap_err();
    assert_eq!(err, FormatError::InvalidPeriod(String::from("2week")));
    let msg = err.message();
    assert!(msg.contains("2week"));
    assert!(msg.contains("\"overall\""));
    assert!(msg.contains("\"7day\""));
    assert!(msg.contains("\"1month\""));
    assert!(msg.contains("\"3month\""));
    assert!(msg.contains("\"6month\""));
    assert!(msg.contains("\"12month\""));
}

#[test]
fn invalid_period_checked_before_response() {
    let err = construct_output(&config(5, "fortnight"), &Response::NoArtistArray).unwrap_err();
    assert_eq!(err, FormatError::InvalidPeriod(String::from("fortnight")));
}

#[test]
fn missing_artist_array() {
    let err = construct_output(&config(5, "7day"), &Response::NoArtistArray).unwrap_err();
    assert_eq!(err, FormatError::MalformedResponse);
    assert_eq!(err.message(), "Error parsing JSON.");
}

#[test]
fn missing_topartists_key_in_json() {
    let json: Value = serde_json::from_str(r#"{"user":"username"}"#).unwrap();
    let err = construct_output(&config(5, "7day"), &response_from_json(&json)).unwrap_err();
    assert_eq!(err, FormatError::MalformedResponse);
}

#[test]
fn missing_playcount_field() {
    let resp = Response::Artists(vec![
        entry("A", "1"),
        ArtistEntry {
            name: Some(String::from("B")),
            playcount: None,
        },
    ]);
    let err = construct_output(&config(2, "7day"), &resp).unwrap_err();
    assert_eq!(err, FormatError::MissingField(Field::Playcount));
    assert_eq!(err.message(), "Playcount not found.");
}

#[test]
fn missing_name_field() {
    let resp = Response::Artists(vec![ArtistEntry {
        name: None,
        playcount: Some(String::from("9")),
    }]);
    let err = construct_output(&config(1, "7day"), &resp).unwrap_err();
    assert_eq!(err, FormatError::MissingField(Field::Name));
    assert_eq!(err.message(), "Artist not found.");
}

#[test]
fn output_is_deterministic() {
    let resp = Response::Artists(vec![entry("A", "1"), entry("B", "2")]);
    let cfg = config(2, "7day");
    let first = construct_output(&cfg, &resp).unwrap();
    let second = construct_output(&cfg, &resp).unwrap();
    assert_eq!(first.as_bytes(), second.as_bytes());
}

#[test]
fn decimal_rendering() {
    assert_eq!(u16_to_string(0), "0");
    assert_eq!(u16_to_string(5), "5");
    assert_eq!(u16_to_string(42), "42");
    assert_eq!(u16_to_string(65535), "65535");
}
