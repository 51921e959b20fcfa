use songrec::json::JsonValue;
use songrec::messages::GuiMessage;
use songrec::recognition::{
    check_response_status, compact_json, cover_to_fetch, read_album_and_year, recognition_messages,
    recognition_url, try_recognize_song, RecognitionError, SongRecognizedMessage,
};

fn s(t: &str) -> JsonValue {
    JsonValue::Str(t.to_string())
}

fn obj(members: Vec<(&str, JsonValue)>) -> JsonValue {
    JsonValue::Object(members.into_iter().map(|(k, v)| (k.to_string(), v)).collect())
}

fn metadatum(title: &str, text: JsonValue) -> JsonValue {
    obj(vec![("title", s(title)), ("text", text)])
}

fn answer(with_key: bool, with_cover: bool) -> JsonValue {
    let mut track = vec![
        ("subtitle", s("Artist")),
        ("title", s("Song")),
        (
            "sections",
            JsonValue::Array(vec![
                obj(vec![("type", s("LYRICS")), ("metadata", JsonValue::Array(vec![metadatum("Album", s("Wrong"))]))]),
                obj(vec![("type", s("SONG")), ("metadata", s("not a list"))]),
                obj(vec![
                    ("type", s("SONG")),
                    (
                        "metadata",
                        JsonValue::Array(vec![
                            metadatum("Album", s("First")),
                            metadatum("Released", s("1999")),
                            metadatum("Album", s("Second")),
                            metadatum("Album", JsonValue::Number("3".to_string())),
                        ]),
                    ),
                ]),
                obj(vec![("type", s("SONG")), ("metadata", JsonValue::Array(vec![metadatum("Album", s("Later"))]))]),
            ]),
        ),
        ("genres", obj(vec![("primary", s("Rock"))])),
    ];
    if with_key {
        track.push(("key", s("12345")));
    }
    if with_cover {
        track.push(("images", obj(vec![("coverart", s("https://example.com/c.jpg"))])));
    }
    obj(vec![("track", obj(track)), ("timestamp", JsonValue::Number("1".to_string()))])
}

#[test]
fn album_and_year_come_from_the_first_song_section() {
    let (album, year) = read_album_and_year(&answer(true, false));
    assert_eq!(album.as_deref(), Some("Second"));
    assert_eq!(year.as_deref(), Some("1999"));
    let (album, year) = read_album_and_year(&obj(vec![]));
    assert_eq!((album, year), (None, None));
}

#[test]
fn a_full_answer_gives_the_song() {
    let m = try_recognize_song(&answer(true, false), "{}".to_string(), None).ok().unwrap();
    assert_eq!(m.artist_name, "Artist");
    assert_eq!(m.song_name, "Song");
    assert_eq!(m.track_key, "12345");
    assert_eq!(m.album_name.as_deref(), Some("Second"));
    assert_eq!(m.release_year.as_deref(), Some("1999"));
    assert_eq!(m.genre.as_deref(), Some("Rock"));
    assert_eq!(m.shazam_json, "{}");
    assert!(m.cover_image.is_none());
}

#[test]
fn the_cover_is_fetched_only_after_artist_and_title() {
    assert_eq!(cover_to_fetch(&answer(false, true)).as_deref(), Some("https://example.com/c.jpg"));
    assert_eq!(cover_to_fetch(&answer(true, false)), None);
    let no_title = obj(vec![("track", obj(vec![
        ("subtitle", s("A")),
        ("images", obj(vec![("coverart", s("u"))])),
    ]))]);
    assert_eq!(cover_to_fetch(&no_title), None);
}

#[test]
fn a_fetched_cover_goes_into_the_song() {
    let m = try_recognize_song(&answer(true, true), "x".to_string(), Some(Ok(vec![1, 2, 3]))).ok().unwrap();
    assert_eq!(m.cover_image, Some(vec![1, 2, 3]));
}

#[test]
fn a_failed_cover_fetch_is_a_network_error_before_the_key_is_read() {
    let r = try_recognize_song(&answer(false, true), "x".to_string(), Some(Err("timeout".to_string())));
    match r {
        Err(RecognitionError::Network(e)) => assert_eq!(e, "timeout"),
        _ => panic!("expected a network error"),
    }
}

#[test]
fn missing_fields_mean_no_match() {
    let r = try_recognize_song(&answer(false, false), "x".to_string(), None);
    assert!(matches!(r, Err(RecognitionError::NoMatch)));
    let r = try_recognize_song(&obj(vec![]), "x".to_string(), Some(Err("e".to_string())));
    assert!(matches!(r, Err(RecognitionError::NoMatch)));
    let numeric_title = obj(vec![("track", obj(vec![
        ("subtitle", s("A")),
        ("title", JsonValue::Number("5".to_string())),
        ("key", s("k")),
    ]))]);
    assert!(matches!(try_recognize_song(&numeric_title, "x".to_string(), None), Err(RecognitionError::NoMatch)));
}

#[test]
fn error_texts() {
    assert_eq!(RecognitionError::NoMatch.message(), "No match for this song");
    assert_eq!(RecognitionError::RateLimited.message(), "Your IP has been rate-limited");
    assert_eq!(RecognitionError::Network("down".to_string()).message(), "down");
}

#[test]
fn status_429_is_a_rate_limit() {
    assert!(matches!(check_response_status(429), Err(RecognitionError::RateLimited)));
    assert!(check_response_status(200).is_ok());
    assert!(check_response_status(500).is_ok());
}

#[test]
fn the_answer_is_written_on_one_line() {
    let pretty = "{\n  \"a\": 1,\n  \"b\": [\n    2,\n    3\n  ],\n  \"c\": {\n    \"d\": \"x\"\n  }\n}";
    assert_eq!(compact_json(pretty).as_deref(), Some("{\"a\": 1, \"b\": [2, 3], \"c\": {\"d\": \"x\"}}"));
    let value: serde_json::Value = serde_json::from_str(pretty).unwrap();
    let again = serde_json::to_string_pretty(&value).unwrap();
    assert_eq!(compact_json(&again).as_deref(), Some("{\"a\": 1, \"b\": [2, 3], \"c\": {\"d\": \"x\"}}"));
}

fn song() -> SongRecognizedMessage {
    try_recognize_song(&answer(true, false), "{}".to_string(), None).ok().unwrap()
}

#[test]
fn the_window_hears_of_each_outcome() {
    let msgs = recognition_messages(Ok(song()), "n".to_string());
    assert_eq!(msgs.len(), 3);
    assert!(matches!(&msgs[0], GuiMessage::SongRecognized(m) if m.song_name == "Song"));
    assert!(matches!(msgs[1], GuiMessage::NetworkStatus(true)));
    assert!(matches!(msgs[2], GuiMessage::RateLimitState(false)));

    let msgs = recognition_messages(Err(RecognitionError::NoMatch), "Pas de correspondance".to_string());
    assert_eq!(msgs.len(), 3);
    assert!(matches!(&msgs[0], GuiMessage::ErrorMessage(t) if t == "Pas de correspondance"));
    assert!(matches!(msgs[1], GuiMessage::NetworkStatus(true)));
    assert!(matches!(msgs[2], GuiMessage::RateLimitState(false)));

    let msgs = recognition_messages(Err(RecognitionError::RateLimited), "n".to_string());
    assert_eq!(msgs.len(), 1);
    assert!(matches!(msgs[0], GuiMessage::RateLimitState(true)));

    let msgs = recognition_messages(Err(RecognitionError::Network("x".to_string())), "n".to_string());
    assert_eq!(msgs.len(), 1);
    assert!(matches!(msgs[0], GuiMessage::NetworkStatus(false)));
}

#[test]
fn the_request_address_names_both_identifiers() {
    assert_eq!(
        recognition_url("ab-cd", "ef-01"),
        "https://amp.shazam.com/discovery/v5/en/US/android/-/tag/AB-CD/ef-01?sync=true&webv3=true&sampling=true&connected=&shazamapiversion=v3&sharehub=true&video=v3"
    );
}

#[test]
fn json_members_are_read_by_key() {
    let v = obj(vec![("a", s("1")), ("b", JsonValue::Null)]);
    assert!(matches!(v.get("a"), Some(JsonValue::Str(x)) if x == "1"));
    assert!(matches!(v.get("b"), Some(JsonValue::Null)));
    assert!(v.get("c").is_none());
    assert!(s("x").get("a").is_none());
}
