use mediathekviewweb::decode::decode_response;
use mediathekviewweb::json::{Json, Member};
use mediathekviewweb::models::{ApiError, QueryField, SortField, SortOrder, TimeSpan};
use mediathekviewweb::{DecodeError, Fault, Key, Mediathek, MediathekError};
use serde_json::Value;

fn from_value(value: &Value) -> Json {
    match value {
        Value::Null => Json::Null,
        Value::Bool(b) => Json::Bool(*b),
        Value::Number(n) => match (n.as_u64(), n.as_i64()) {
            (Some(n), _) => Json::Integer(n.into()),
            (_, Some(n)) => Json::Integer(n.into()),
            _ => Json::Real,
        },
        Value::String(s) => Json::Text(s.clone()),
        Value::Array(items) => Json::List(items.iter().map(from_value).collect()),
        Value::Object(members) => Json::Record(
            members
                .iter()
                .map(|(key, value)| Member {
                    key: key.clone(),
                    value: from_value(value),
                })
                .collect(),
        ),
    }
}

fn to_value(json: &Json) -> Value {
    match json {
        Json::Null | Json::Real => Value::Null,
        Json::Bool(b) => Value::Bool(*b),
        Json::Integer(n) => match (u64::try_from(*n), i64::try_from(*n)) {
            (Ok(n), _) => Value::from(n),
            (_, Ok(n)) => Value::from(n),
            _ => Value::Null,
        },
        Json::Text(s) => Value::String(s.clone()),
        Json::List(items) => Value::Array(items.iter().map(to_value).collect()),
        Json::Record(members) => Value::Object(
            members
                .iter()
                .map(|member| (member.key.clone(), to_value(&member.value)))
                .collect(),
        ),
    }
}

fn parse(text: &str) -> Json {
    from_value(&serde_json::from_str(text).expect("valid JSON"))
}

fn response(err: &str, timestamp: &str, description: &str, duration: &str) -> String {
    format!(
        r#"{{
            "err": {err},
            "result": {{
                "queryInfo": {{
                    "filmlisteTimestamp": "1700003600",
                    "resultCount": 1,
                    "searchEngineTime": "2.47",
                    "totalResults": 15
                }},
                "results": [{{
                    "channel": "ARD",
                    "topic": "tagesschau",
                    "title": "tagesschau 20:00 Uhr",
                    "description": {description},
                    "timestamp": {timestamp},
                    "duration": {duration},
                    "size": 289406976,
                    "url_website": "https://www.ardmediathek.de/video/1",
                    "url_subtitle": "",
                    "url_video": "https://media.example/1.mp4",
                    "url_video_low": "https://media.example/1.low.mp4",
                    "url_video_hd": "",
                    "filmlisteTimestamp": 1700003600,
                    "id": "k0u5rWDSbX"
                }}]
            }}
        }}"#
    )
}

#[test]
fn response_text_decodes_to_results() {
    let body = parse(&response("null", "1700000000", r#""Die Nachrichten""#, "930"));
    let result = decode_response(&body).unwrap();
    assert_eq!(result.query_info.filmliste_timestamp, 1700003600);
    assert_eq!(result.query_info.result_count, 1);
    assert_eq!(result.query_info.search_engine_time, TimeSpan::new(2, 470_000_000).unwrap());
    assert_eq!(result.query_info.total_results, 15);
    assert_eq!(result.results.len(), 1);
    let item = &result.results[0];
    assert_eq!(item.channel, "ARD");
    assert_eq!(item.topic, "tagesschau");
    assert_eq!(item.title, "tagesschau 20:00 Uhr");
    assert_eq!(item.description.as_deref(), Some("Die Nachrichten"));
    assert_eq!(item.timestamp, 1700000000);
    assert_eq!(item.duration, Some(TimeSpan::from_secs(930)));
    assert_eq!(item.size, Some(289406976));
    assert_eq!(item.url_website, "https://www.ardmediathek.de/video/1");
    assert_eq!(item.url_subtitle, None);
    assert_eq!(item.url_video, "https://media.example/1.mp4");
    assert_eq!(item.url_video_low.as_deref(), Some("https://media.example/1.low.mp4"));
    assert_eq!(item.url_video_hd, None);
    assert_eq!(item.filmliste_timestamp, 1700003600);
    assert_eq!(item.id, "k0u5rWDSbX");
}

#[test]
fn response_text_with_timestamp_as_number_or_string() {
    let number = decode_response(&parse(&response("null", "1700000000", r#""x""#, "930"))).unwrap();
    let string = decode_response(&parse(&response("null", r#""1700000000""#, r#""x""#, "930"))).unwrap();
    assert_eq!(number.results[0].timestamp, 1700000000);
    assert_eq!(number, string);
    let broken = decode_response(&parse(&response("null", r#""soon""#, r#""x""#, "930")));
    assert!(matches!(
        broken,
        Err(MediathekError::Decode(DecodeError {
            key: Key::Timestamp,
            fault: Fault::Malformed
        }))
    ));
    let fraction = decode_response(&parse(&response("null", "1700000000.5", r#""x""#, "930")));
    assert!(matches!(
        fraction,
        Err(MediathekError::Decode(DecodeError {
            key: Key::Timestamp,
            fault: Fault::WrongType
        }))
    ));
}

#[test]
fn response_text_with_empty_description() {
    let absent = decode_response(&parse(&response("null", "1", r#""""#, "930"))).unwrap();
    assert_eq!(absent.results[0].description, None);
    let present = decode_response(&parse(&response("null", "1", r#""text""#, "930"))).unwrap();
    assert_eq!(present.results[0].description.as_deref(), Some("text"));
}

#[test]
fn response_text_of_a_livestream_has_no_duration() {
    let livestream = decode_response(&parse(&response("null", "1", r#""x""#, r#""""#))).unwrap();
    assert_eq!(livestream.results[0].duration, None);
    let broken = decode_response(&parse(&response("null", "1", r#""x""#, r#""930""#)));
    assert!(matches!(
        broken,
        Err(MediathekError::Decode(DecodeError {
            key: Key::Duration,
            fault: Fault::Malformed
        }))
    ));
}

#[test]
fn response_text_with_messages_and_result_is_a_response_error() {
    let body = parse(&response(r#"["x"]"#, "1", r#""x""#, "930"));
    match decode_response(&body) {
        Err(MediathekError::Response(ApiError(messages))) => assert_eq!(messages, vec!["x"]),
        other => panic!("{:?}", other),
    }
}

#[test]
fn response_text_with_nulls_is_an_empty_response() {
    let body = parse(r#"{"err": null, "result": null}"#);
    assert!(matches!(decode_response(&body), Err(MediathekError::EmptyResponse)));
    assert!(matches!(decode_response(&parse("{}")), Err(MediathekError::EmptyResponse)));
}

#[test]
fn response_text_that_is_no_envelope_is_a_decode_error() {
    for text in ["[]", "null", "1", r#""text""#] {
        assert!(matches!(
            decode_response(&parse(text)),
            Err(MediathekError::Decode(DecodeError {
                key: Key::Response,
                fault: Fault::WrongType
            }))
        ));
    }
}

#[test]
fn request_text_holds_what_is_set_and_nothing_else() {
    let mediathek = Mediathek::new_with_url(
        "https://example.org",
        reqwest::header::HeaderValue::from_static("mediathekviewweb tests"),
    )
    .expect("the HTTP client can be built");
    let full = mediathek
        .query(vec![QueryField::Topic], "tagesschau")
        .query(vec![QueryField::Title], "tagesschau 20.00 Uhr")
        .duration_min(TimeSpan::from_secs(10 * 60))
        .duration_max(TimeSpan::from_secs(30 * 60))
        .include_future(false)
        .sort_by(SortField::Timestamp)
        .sort_order(SortOrder::Descending)
        .size(2)
        .offset(3)
        .into_request();
    let expected: Value = serde_json::from_str(
        r#"{
            "queries": [
                {"fields": ["topic"], "query": "tagesschau"},
                {"fields": ["title"], "query": "tagesschau 20.00 Uhr"}
            ],
            "duration_min": 600,
            "duration_max": 1800,
            "future": false,
            "sortBy": "timestamp",
            "sortOrder": "desc",
            "size": 2,
            "offset": 3
        }"#,
    )
    .unwrap();
    assert_eq!(to_value(&full.body), expected);

    let bare = mediathek.query_string("!ard", false).into_request();
    assert_eq!(
        serde_json::to_string(&to_value(&bare.body)).unwrap(),
        r#"{"queries":[{"fields":["channel"],"query":"ard"}]}"#
    );
}

#[test]
fn received_body_is_decoded_and_a_failure_is_handed_on() {
    let body = parse(&response("null", "1700000000", r#""x""#, "930"));
    let result = mediathekviewweb::decode::receive(Ok(body)).unwrap();
    assert_eq!(result.results[0].timestamp, 1700000000);
    let refused = parse(r#"{"err": ["no"], "result": null}"#);
    assert!(matches!(
        mediathekviewweb::decode::receive(Ok(refused)),
        Err(MediathekError::Response(ApiError(m))) if m == vec!["no"]
    ));
    let failure = reqwest::Client::builder().user_agent("bad\nagent").build().unwrap_err();
    let text = failure.to_string();
    match mediathekviewweb::decode::receive(Err(failure)) {
        Err(MediathekError::Reqwest(cause)) => assert_eq!(cause.to_string(), text),
        other => panic!("{:?}", other),
    }
}
