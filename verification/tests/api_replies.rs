use fansly_recorder::api::{
    account_lookup_url, account_metadata_from_json, stream_metadata_from_json, stream_status_url,
    ApiError,
};
use fansly_recorder::json::JsonValue;
use fansly_recorder::monitor::{decide_after_poll, PollDecision};

fn s(text: &str) -> JsonValue {
    JsonValue::Str(text.to_string())
}

fn num(n: i64) -> JsonValue {
    JsonValue::Number(Some(n))
}

fn obj(members: Vec<(&str, JsonValue)>) -> JsonValue {
    JsonValue::Object(members.into_iter().map(|(k, v)| (k.to_string(), v)).collect())
}

fn account_entry(id: &str, username: &str) -> JsonValue {
    obj(vec![
        ("id", s(id)),
        ("username", s(username)),
        (
            "avatar",
            obj(vec![
                ("id", s("av1")),
                ("mimetype", s("image/jpeg")),
                ("location", s("https://cdn.example/av1.jpg")),
            ]),
        ),
    ])
}

fn live_reply(success: bool) -> JsonValue {
    obj(vec![
        ("success", JsonValue::Bool(success)),
        (
            "response",
            obj(vec![
                ("id", s("resp7")),
                ("accountId", s("acc42")),
                ("playbackUrl", s("https://play.example/outer.m3u8")),
                (
                    "stream",
                    obj(vec![
                        ("id", s("st9")),
                        ("title", s("Evening stream")),
                        ("status", num(2)),
                        ("lastFetchedAt", num(1700000000123)),
                        ("startedAt", num(1699999999000)),
                        ("access", JsonValue::Bool(true)),
                        ("playbackUrl", s("https://play.example/inner.m3u8")),
                    ]),
                ),
            ]),
        ),
    ])
}

#[test]
fn account_reply_keeps_first_account() {
    let doc = obj(vec![
        ("success", JsonValue::Bool(true)),
        ("response", JsonValue::Array(vec![account_entry("123", "alice"), account_entry("456", "bob")])),
    ]);
    let m = account_metadata_from_json(&doc).unwrap();
    assert!(m.success);
    assert_eq!(m.response.len(), 1);
    assert_eq!(m.response[0].id, "123");
    assert_eq!(m.response[0].username, "alice");
    assert_eq!(m.response[0].avatar.id, "av1");
    assert_eq!(m.response[0].avatar.mimetype, "image/jpeg");
    assert_eq!(m.response[0].avatar.location, "https://cdn.example/av1.jpg");
}

#[test]
fn account_reply_missing_fields_read_as_empty() {
    let doc = obj(vec![
        ("success", JsonValue::Bool(true)),
        ("response", JsonValue::Array(vec![obj(vec![("id", num(5)), ("username", s("carol"))])])),
    ]);
    let m = account_metadata_from_json(&doc).unwrap();
    assert_eq!(m.response[0].id, "");
    assert_eq!(m.response[0].username, "carol");
    assert_eq!(m.response[0].avatar.id, "");
    assert_eq!(m.response[0].avatar.mimetype, "");
    assert_eq!(m.response[0].avatar.location, "");
}

#[test]
fn account_reply_without_success_is_refused() {
    let entries = || JsonValue::Array(vec![account_entry("1", "a")]);
    let unsuccessful = obj(vec![("success", JsonValue::Bool(false)), ("response", entries())]);
    let missing = obj(vec![("response", entries())]);
    let text_true = obj(vec![("success", s("true")), ("response", entries())]);
    for doc in [unsuccessful, missing, text_true] {
        assert_eq!(account_metadata_from_json(&doc).unwrap_err(), ApiError::AccountUnavailable);
    }
}

#[test]
fn account_reply_without_accounts_is_refused() {
    let empty = obj(vec![("success", JsonValue::Bool(true)), ("response", JsonValue::Array(vec![]))]);
    let not_array = obj(vec![("success", JsonValue::Bool(true)), ("response", account_entry("1", "a"))]);
    let missing = obj(vec![("success", JsonValue::Bool(true))]);
    for doc in [empty, not_array, missing, JsonValue::Null] {
        assert_eq!(account_metadata_from_json(&doc).unwrap_err(), ApiError::AccountUnavailable);
    }
}

#[test]
fn first_member_of_a_name_is_read() {
    let doc = obj(vec![
        ("success", JsonValue::Bool(true)),
        ("success", JsonValue::Bool(false)),
        ("response", JsonValue::Array(vec![account_entry("1", "a")])),
    ]);
    assert!(account_metadata_from_json(&doc).is_ok());
}

#[test]
fn live_stream_reply_is_read_in_full() {
    let m = stream_metadata_from_json(&live_reply(true));
    assert!(m.success);
    let r = m.response.unwrap();
    assert_eq!(r.id, "resp7");
    assert_eq!(r.account_id, "acc42");
    assert_eq!(r.playback_url, "https://play.example/outer.m3u8");
    assert_eq!(r.stream.id, "st9");
    assert_eq!(r.stream.title, "Evening stream");
    // the status is a number, so its text reading is empty
    assert_eq!(r.stream.status, "");
    assert_eq!(r.stream.last_fetched_at, 1700000000123);
    assert_eq!(r.stream.started_at, 1699999999000);
    assert!(r.stream.access);
    assert_eq!(r.stream.playback_url.as_deref(), Some("https://play.example/inner.m3u8"));
}

#[test]
fn live_stream_reply_defaults() {
    let doc = obj(vec![(
        "response",
        obj(vec![(
            "stream",
            obj(vec![
                ("status", num(2)),
                ("access", JsonValue::Bool(true)),
                ("lastFetchedAt", JsonValue::Number(None)),
            ]),
        )]),
    )]);
    let m = stream_metadata_from_json(&doc);
    assert!(!m.success);
    let r = m.response.unwrap();
    assert_eq!(r.id, "");
    assert_eq!(r.stream.last_fetched_at, 0);
    assert_eq!(r.stream.started_at, 0);
    assert_eq!(r.stream.playback_url, None);
}

fn stream_reply(status: JsonValue, access: JsonValue) -> JsonValue {
    obj(vec![
        ("success", JsonValue::Bool(true)),
        ("response", obj(vec![("id", s("r")), ("stream", obj(vec![("status", status), ("access", access)]))])),
    ])
}

#[test]
fn offline_stream_replies() {
    let cases = vec![
        stream_reply(num(2), JsonValue::Bool(false)),
        stream_reply(num(1), JsonValue::Bool(true)),
        stream_reply(num(3), JsonValue::Bool(true)),
        stream_reply(JsonValue::Null, JsonValue::Bool(true)),
        stream_reply(s("2"), JsonValue::Bool(true)),
        stream_reply(num(2), s("true")),
        stream_reply(num(2), JsonValue::Null),
        obj(vec![("success", JsonValue::Bool(true)), ("response", JsonValue::Null)]),
    ];
    for doc in cases {
        let m = stream_metadata_from_json(&doc);
        assert!(!m.success);
        assert!(m.response.is_none());
        assert_eq!(decide_after_poll(&m, true), PollDecision::WaitOffline(130));
    }
}

#[test]
fn poll_decisions() {
    let live = stream_metadata_from_json(&live_reply(true));
    assert_eq!(decide_after_poll(&live, true), PollDecision::StartRecording { notify: true });
    assert_eq!(decide_after_poll(&live, false), PollDecision::StartRecording { notify: false });
    let unsuccessful = stream_metadata_from_json(&live_reply(false));
    assert!(unsuccessful.response.is_some());
    assert_eq!(decide_after_poll(&unsuccessful, true), PollDecision::WaitOffline(130));
}

#[test]
fn inaccessible_listed_stream_is_polled_again() {
    let mut m = stream_metadata_from_json(&live_reply(true));
    m.response.as_mut().unwrap().stream.access = false;
    assert_eq!(decide_after_poll(&m, true), PollDecision::PollAgain);
}

#[test]
fn api_urls() {
    assert_eq!(
        account_lookup_url("alice"),
        "https://apiv3.fansly.com/api/v1/account?usernames=alice&ngsw-bypass=true"
    );
    assert_eq!(
        stream_status_url("281474976710656"),
        "https://apiv3.fansly.com/api/v1/streaming/channel/281474976710656?ngsw-bypass=true"
    );
}
