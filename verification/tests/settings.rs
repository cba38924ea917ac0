use fansly_recorder::api::ApiError;
use fansly_recorder::config::Config;
use fansly_recorder::headers::check_request_headers;

fn headers(pairs: &[(&str, &str)]) -> Vec<(String, String)> {
    pairs.iter().map(|(n, v)| (n.to_string(), v.to_string())).collect()
}

#[test]
fn default_config_values() {
    let c = Config::default();
    assert!(c.general.mt);
    assert!(c.general.ffmpeg_convert);
    assert_eq!(c.general.save_path, "./captures");
    assert!(c.webhook.enabled);
    assert_eq!(c.webhook.live_webhook, "https://discord.com/api/webhooks/1234567890/abcde");
    assert_eq!(c.webhook.info_webhook, "https://discord.com/api/webhooks/1234567890/abcde");
    assert_eq!(c.webhook.webhook_mention, "<@!123456789>");
    assert_eq!(c.headers.len(), 13);
    let auth = c.headers.iter().find(|(n, _)| n == "authorization").unwrap();
    assert_eq!(auth.1, "your_auth_token_here");
    let ua = c.headers.iter().find(|(n, _)| n == "sec-ch-ua").unwrap();
    assert_eq!(ua.1, "\"Not.A/Brand\";v=\"8\", \"Chromium\";v=\"114\", \"Google Chrome\";v=\"114\"");
}

#[test]
fn default_header_names_are_distinct() {
    let c = Config::default();
    for (i, a) in c.headers.iter().enumerate() {
        for (j, b) in c.headers.iter().enumerate() {
            if i != j {
                assert_ne!(a.0, b.0);
            }
        }
    }
}

#[test]
fn default_headers_are_valid() {
    assert_eq!(check_request_headers(&Config::default().headers), Ok(()));
}

#[test]
fn valid_headers() {
    let h = headers(&[
        ("Authorization", "token"),
        ("x-custom_Header!", "tab\tand spaces"),
        ("accept", "caf\u{e9} \u{1f600}"),
        ("empty-value", ""),
    ]);
    assert_eq!(check_request_headers(&h), Ok(()));
    assert_eq!(check_request_headers(&Vec::new()), Ok(()));
}

#[test]
fn invalid_header_names() {
    for name in ["", "bad name", "colon:", "caf\u{e9}", "new\nline", "(paren)"] {
        let h = headers(&[("accept", "ok"), (name, "value")]);
        assert_eq!(check_request_headers(&h), Err(ApiError::InvalidHeader), "{name:?}");
    }
    let long = "a".repeat(65536);
    assert_eq!(check_request_headers(&headers(&[(long.as_str(), "v")])), Err(ApiError::InvalidHeader));
    let longest = "a".repeat(65535);
    assert_eq!(check_request_headers(&headers(&[(longest.as_str(), "v")])), Ok(()));
}

#[test]
fn invalid_header_values() {
    for value in ["line\nbreak", "carriage\rreturn", "del\u{7f}", "nul\u{0}"] {
        let h = headers(&[("accept", value)]);
        assert_eq!(check_request_headers(&h), Err(ApiError::InvalidHeader), "{value:?}");
    }
}
