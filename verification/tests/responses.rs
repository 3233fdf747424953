//! Tests of response classification: success payloads, service errors and
//! malformed bodies.

use diffbot::{
    interpret_response, prepare_request, Body, Error, JsonValue, Method, ERROR_PROCESSING,
    REQUESTED_PAGE_NOT_FOUND, TOKEN_EXCEEDED_OR_THROTTLED, UNAUTHORIZED_TOKEN,
};

fn take(response: &mut Vec<(String, JsonValue)>, key: &str) -> Option<JsonValue> {
    let position: usize = response.iter().position(|p| p.0 == key)?;
    Some(response.remove(position).1)
}

#[test]
pub fn invalid_key() {
    let req = prepare_request("http://example.com/", "0", "frontpage", &[], 2);
    assert_eq!(
        req.full_url(),
        "https://api.diffbot.com/v2/frontpage?token=0&url=http%3A%2F%2Fexample.com%2F"
    );
    let outcome = interpret_response(br#"{"error":"Not authorized API token.","errorCode":401}"#);
    assert_eq!(
        outcome,
        Err(Error::Api(UNAUTHORIZED_TOKEN, "Not authorized API token.".to_string()))
    );
}

#[test]
fn test_post_body_and_fields() {
    let mut request = prepare_request(
        "http://example.com/",
        "insert_your_token_here",
        "article",
        &["title", "images(url)"],
        2,
    );
    assert_eq!(
        request.query[2],
        ("fields".to_string(), "title,images(url)".to_string())
    );
    let body: &[u8] = b"<title>Contents of title tag</title>
                       <h1>Contents of heading tag</h1>
                       <p>Contents of big body
                       <img src=//example.org/example.jpg>
                       <img src=example.png>
                       <p>More page contents";
    request.post_body(body);
    assert_eq!(request.method, Method::Post);
    assert!(request
        .headers
        .contains(&("Content-Type".to_string(), "text/html".to_string())));
    assert_eq!(request.body, Body::Bytes(body.to_vec()));

    let simulated = br#"{
        "type": "article",
        "url": "http://example.com/",
        "title": "Contents of heading tag",
        "images": [{"url": "http://example.org/example.jpg"},
                   {"url": "http://example.com/example.png"}]
    }"#;
    let mut response = interpret_response(simulated).unwrap();

    assert_eq!(take(&mut response, "type"), Some(JsonValue::Str("article".to_string())));
    assert_eq!(
        take(&mut response, "url"),
        Some(JsonValue::Str("http://example.com/".to_string()))
    );
    assert_eq!(
        take(&mut response, "title"),
        Some(JsonValue::Str("Contents of heading tag".to_string()))
    );

    let image_urls = match take(&mut response, "images").unwrap() {
        JsonValue::Arr(images) => images
            .into_iter()
            .map(|image| match image {
                JsonValue::Obj(mut o) => {
                    assert_eq!(o.len(), 1);
                    match o.pop().unwrap() {
                        (key, JsonValue::Str(s)) => {
                            assert_eq!(key, "url");
                            s
                        },
                        _ => unreachable!(),
                    }
                },
                _ => unreachable!(),
            })
            .collect::<Vec<String>>(),
        _ => unreachable!(),
    };
    assert_eq!(
        image_urls,
        vec![
            "http://example.org/example.jpg".to_string(),
            "http://example.com/example.png".to_string(),
        ]
    );

    assert_eq!(response.len(), 0);
}

#[test]
fn success_payload_round_trips_unchanged() {
    let outcome = interpret_response(br#"{"title": "T", "url": "U"}"#);
    assert_eq!(
        outcome,
        Ok(vec![
            ("title".to_string(), JsonValue::Str("T".to_string())),
            ("url".to_string(), JsonValue::Str("U".to_string())),
        ])
    );
}

#[test]
fn missing_error_code_defaults_to_zero() {
    let outcome = interpret_response(br#"{"error":"timeout"}"#);
    assert_eq!(outcome, Err(Error::Api(0, "timeout".to_string())));
}

#[test]
fn non_object_bodies_are_malformed() {
    assert_eq!(interpret_response(br#""hello""#), Err(Error::Json));
    assert_eq!(interpret_response(br#"[1,2,3]"#), Err(Error::Json));
    assert_eq!(interpret_response(b"42"), Err(Error::Json));
    assert_eq!(interpret_response(b"null"), Err(Error::Json));
    assert_eq!(interpret_response(b"true"), Err(Error::Json));
}

#[test]
fn unparsable_bodies_are_malformed() {
    assert_eq!(interpret_response(b"{"), Err(Error::Json));
    assert_eq!(interpret_response(b"not json at all"), Err(Error::Json));
    assert_eq!(interpret_response(b""), Err(Error::Json));
    assert_eq!(interpret_response(&[0xffu8, 0xfe]), Err(Error::Json));
}

#[test]
fn known_error_codes_come_through() {
    assert_eq!(
        interpret_response(br#"{"error":"Not authorized API token.","errorCode":401}"#),
        Err(Error::Api(UNAUTHORIZED_TOKEN, "Not authorized API token.".to_string()))
    );
    assert_eq!(
        interpret_response(br#"{"error":"Requested page not found.","errorCode":404}"#),
        Err(Error::Api(REQUESTED_PAGE_NOT_FOUND, "Requested page not found.".to_string()))
    );
    assert_eq!(
        interpret_response(br#"{"error":"Too many requests.","errorCode":429}"#),
        Err(Error::Api(TOKEN_EXCEEDED_OR_THROTTLED, "Too many requests.".to_string()))
    );
    assert_eq!(
        interpret_response(br#"{"error":"Error processing the page.","errorCode":500}"#),
        Err(Error::Api(ERROR_PROCESSING, "Error processing the page.".to_string()))
    );
}

#[test]
fn timeout_error_message_is_kept_whole() {
    let simulated = br#"{"error": "Request timed out. The \"timeout\" query string option can be used to modify the timeout (in milliseconds). For example, \"...?timeout=5000&url=...\"", "errorCode": 500}"#;
    let expected = "Request timed out. The \"timeout\" query string option can be used to \
                    modify the timeout (in milliseconds). For example, \
                    \"...?timeout=5000&url=...\"";
    assert_eq!(
        interpret_response(simulated),
        Err(Error::Api(ERROR_PROCESSING, expected.to_string()))
    );
}

#[test]
fn non_string_error_yields_empty_message() {
    let outcome = interpret_response(br#"{"error": 5, "errorCode": 3}"#);
    assert_eq!(outcome, Err(Error::Api(3, String::new())));
}

#[test]
fn unusable_error_codes_default_to_zero() {
    assert_eq!(
        interpret_response(br#"{"error":"x","errorCode":"500"}"#),
        Err(Error::Api(0, "x".to_string()))
    );
    assert_eq!(
        interpret_response(br#"{"error":"x","errorCode":-1}"#),
        Err(Error::Api(0, "x".to_string()))
    );
    assert_eq!(
        interpret_response(br#"{"error":"x","errorCode":1.5}"#),
        Err(Error::Api(0, "x".to_string()))
    );
}

#[test]
fn oversized_error_codes_keep_their_low_bits() {
    assert_eq!(
        interpret_response(br#"{"error":"x","errorCode":4294967297}"#),
        Err(Error::Api(1, "x".to_string()))
    );
}

#[test]
fn remaining_keys_are_discarded_on_error() {
    let outcome = interpret_response(br#"{"error":"bad","errorCode":404,"title":"kept?"}"#);
    assert_eq!(outcome, Err(Error::Api(404, "bad".to_string())));
}

#[test]
fn nested_payloads_are_decoded_in_full() {
    let outcome = interpret_response(br#"{"a": {"b": [true, null, -2, 7]}, "n": 1.5}"#);
    let expected = vec![
        (
            "a".to_string(),
            JsonValue::Obj(vec![(
                "b".to_string(),
                JsonValue::Arr(vec![
                    JsonValue::Bool(true),
                    JsonValue::Null,
                    JsonValue::Int(-2),
                    JsonValue::UInt(7),
                ]),
            )]),
        ),
        ("n".to_string(), JsonValue::Float("1.5".to_string())),
    ];
    assert_eq!(outcome, Ok(expected));
}

#[test]
fn absurd_numeric_exponents_are_malformed() {
    assert_eq!(interpret_response(b"1e99999999999999999999"), Err(Error::Json));
    assert_eq!(
        interpret_response(br#"{"error":"x","errorCode":1e99999999999999999999}"#),
        Err(Error::Json)
    );
    assert_eq!(interpret_response(br#"[1E+12345678901234567890]"#), Err(Error::Json));
    assert_eq!(interpret_response(br#"{"a": 2.5e-99999999999999999999}"#), Err(Error::Json));
    assert_eq!(interpret_response(br#"{"a": 1e1234567890}"#), Err(Error::Json));
}

#[test]
fn ordinary_exponents_still_decode() {
    assert_eq!(
        interpret_response(br#"{"a": 2e3}"#),
        Ok(vec![("a".to_string(), JsonValue::Float("2000".to_string()))])
    );
    assert_eq!(
        interpret_response(br#"{"a": 1e9}"#),
        Ok(vec![("a".to_string(), JsonValue::Float("1000000000".to_string()))])
    );
    assert_eq!(
        interpret_response(br#"{"a": 1e123456789}"#),
        Ok(vec![("a".to_string(), JsonValue::Float("inf".to_string()))])
    );
}

#[test]
fn long_exponents_inside_strings_are_data() {
    let outcome = interpret_response(
        br#"{"a": "1e99999999999999999999", "b": "x\"y e99999999999999999999"}"#,
    );
    assert_eq!(
        outcome,
        Ok(vec![
            (
                "a".to_string(),
                JsonValue::Str("1e99999999999999999999".to_string()),
            ),
            (
                "b".to_string(),
                JsonValue::Str("x\"y e99999999999999999999".to_string()),
            ),
        ])
    );
}

#[test]
fn keyword_letters_do_not_trip_the_guard() {
    let outcome = interpret_response(br#"{"f": false, "n": null, "t": true}"#);
    assert_eq!(
        outcome,
        Ok(vec![
            ("f".to_string(), JsonValue::Bool(false)),
            ("n".to_string(), JsonValue::Null),
            ("t".to_string(), JsonValue::Bool(true)),
        ])
    );
}

#[test]
fn classify_decides_on_the_decoded_document() {
    let failing = diffbot::JsonValue::Obj(vec![
        ("error".to_string(), diffbot::JsonValue::Str("boom".to_string())),
        ("errorCode".to_string(), diffbot::JsonValue::UInt(429)),
    ]);
    assert_eq!(diffbot::classify(failing), Err(Error::Api(429, "boom".to_string())));

    let succeeding = diffbot::JsonValue::Obj(vec![(
        "title".to_string(),
        diffbot::JsonValue::Str("T".to_string()),
    )]);
    assert_eq!(
        diffbot::classify(succeeding),
        Ok(vec![("title".to_string(), diffbot::JsonValue::Str("T".to_string()))])
    );

    assert_eq!(
        diffbot::classify(diffbot::JsonValue::Str("hello".to_string())),
        Err(Error::Json)
    );
}

#[test]
fn payload_lookup_finds_first_occurrence() {
    let payload = vec![
        ("a".to_string(), diffbot::JsonValue::UInt(1)),
        ("b".to_string(), diffbot::JsonValue::UInt(2)),
        ("a".to_string(), diffbot::JsonValue::UInt(3)),
    ];
    assert_eq!(diffbot::lookup(&payload, "a"), Some(&diffbot::JsonValue::UInt(1)));
    assert_eq!(diffbot::lookup(&payload, "b"), Some(&diffbot::JsonValue::UInt(2)));
    assert_eq!(diffbot::lookup(&payload, "c"), None);
}

#[test]
fn duplicate_keys_keep_the_last_value() {
    let outcome = interpret_response(br#"{"a": 1, "a": 2}"#);
    assert_eq!(outcome, Ok(vec![("a".to_string(), JsonValue::UInt(2))]));
}
