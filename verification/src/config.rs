use vstd::prelude::*;

use crate::headers::{header_ok, headers_ok, lemma_ascii_header_ok};

verus! {

/// The recorder's settings.
///
/// `headers` holds the HTTP headers sent with every API request, as
/// (name, value) pairs; no name occurs twice (see `Config::well_formed`).
pub struct Config {
    pub general: GeneralConfig,
    pub webhook: WebhookConfig,
    pub headers: Vec<(String, String)>,
}

pub struct GeneralConfig {
    /// Make a contact sheet of each recording.
    pub mt: bool,
    /// Remux each recording to MP4 with ffmpeg and delete the transport stream.
    pub ffmpeg_convert: bool,
    /// The directory under which recordings are saved, one folder per user.
    pub save_path: String,
}

pub struct WebhookConfig {
    pub enabled: bool,
    pub live_webhook: String,
    pub info_webhook: String,
    pub webhook_mention: String,
}

pub open spec fn header_names_distinct(headers: Seq<(String, String)>) -> bool {
    forall|i: int, j: int|
        0 <= i < headers.len() && 0 <= j < headers.len() && i != j
            ==> #[trigger] headers[i].0@ != #[trigger] headers[j].0@
}

pub open spec fn header_pairs(headers: Seq<(String, String)>) -> Seq<(Seq<char>, Seq<char>)> {
    headers.map_values(|p: (String, String)| (p.0@, p.1@))
}

/// The headers of a fresh configuration.
pub open spec fn default_header_pairs() -> Seq<(Seq<char>, Seq<char>)> {
    seq![
        ("authority"@, "apiv3.fansly.com"@),
        ("accept"@, "application/json, text/plain, */*"@),
        ("accept-language"@, "en;q=0.8,en-US;q=0.7"@),
        ("authorization"@, "your_auth_token_here"@),
        ("origin"@, "https://fansly.com"@),
        ("referer"@, "https://fansly.com/"@),
        ("sec-ch-ua"@, "\"Not.A/Brand\";v=\"8\", \"Chromium\";v=\"114\", \"Google Chrome\";v=\"114\""@),
        ("sec-ch-ua-mobile"@, "?0"@),
        ("sec-ch-ua-platform"@, "\"Windows\""@),
        ("sec-fetch-dest"@, "empty"@),
        ("sec-fetch-mode"@, "cors"@),
        ("sec-fetch-site"@, "same-site"@),
        ("user-agent"@, "Mozilla/5.0 (Windows NT 10.0; Win64; x64) AppleWebKit/537.36 (KHTML, like Gecko) Chrome/114.0.0.0 Safari/537.36"@),
    ]
}

impl Config {
    /// No header name is configured twice.
    pub open spec fn well_formed(&self) -> bool {
        header_names_distinct(self.headers@)
    }
}

fn pair(name: &str, value: &str) -> (p: (String, String))
    ensures
        p.0@ == name@,
        p.1@ == value@,
{
    (name.to_owned(), value.to_owned())
}

impl Default for Config {
    /// The configuration written on first run: contact sheets and MP4
    /// conversion on, recordings under `./captures`, placeholder webhooks and
    /// the browser-like request headers (with a placeholder token).
    fn default() -> (c: Config)
        ensures
            c.general.mt,
            c.general.ffmpeg_convert,
            c.general.save_path@ == "./captures"@,
            c.webhook.enabled,
            c.webhook.live_webhook@ == "https://discord.com/api/webhooks/1234567890/abcde"@,
            c.webhook.info_webhook@ == "https://discord.com/api/webhooks/1234567890/abcde"@,
            c.webhook.webhook_mention@ == "<@!123456789>"@,
            header_pairs(c.headers@) == default_header_pairs(),
            c.well_formed(),
    {
        let mut headers: Vec<(String, String)> = Vec::new();
        headers.push(pair("authority", "apiv3.fansly.com"));
        headers.push(pair("accept", "application/json, text/plain, */*"));
        headers.push(pair("accept-language", "en;q=0.8,en-US;q=0.7"));
        headers.push(pair("authorization", "your_auth_token_here"));
        headers.push(pair("origin", "https://fansly.com"));
        headers.push(pair("referer", "https://fansly.com/"));
        headers.push(pair("sec-ch-ua", "\"Not.A/Brand\";v=\"8\", \"Chromium\";v=\"114\", \"Google Chrome\";v=\"114\""));
        headers.push(pair("sec-ch-ua-mobile", "?0"));
        headers.push(pair("sec-ch-ua-platform", "\"Windows\""));
        headers.push(pair("sec-fetch-dest", "empty"));
        headers.push(pair("sec-fetch-mode", "cors"));
        headers.push(pair("sec-fetch-site", "same-site"));
        headers.push(pair("user-agent", "Mozilla/5.0 (Windows NT 10.0; Win64; x64) AppleWebKit/537.36 (KHTML, like Gecko) Chrome/114.0.0.0 Safari/537.36"));
        assert(header_pairs(headers@) =~= default_header_pairs());
        proof {
            reveal_strlit("authority");
            reveal_strlit("accept");
            reveal_strlit("accept-language");
            reveal_strlit("authorization");
            reveal_strlit("origin");
            reveal_strlit("referer");
            reveal_strlit("sec-ch-ua");
            reveal_strlit("sec-ch-ua-mobile");
            reveal_strlit("sec-ch-ua-platform");
            reveal_strlit("sec-fetch-dest");
            reveal_strlit("sec-fetch-mode");
            reveal_strlit("sec-fetch-site");
            reveal_strlit("user-agent");
            let names = default_header_pairs().map_values(|p: (Seq<char>, Seq<char>)| p.0);
            assert forall|i: int, j: int| 0 <= i < 13 && 0 <= j < 13 && i != j implies
                #[trigger] names[i] != #[trigger] names[j] by {
                // equal names would agree in length and in their first,
                // second and eleventh characters; no two default names do
                if names[i] == names[j] {
                    assert(names[i].len() == names[j].len() && names[i][0] == names[j][0] && names[i][1]
                        == names[j][1] && (names[i].len() > 10 ==> names[i][10] == names[j][10]));
                }
            }
            assert forall|i: int, j: int|
                0 <= i < headers@.len() && 0 <= j < headers@.len() && i != j implies
                #[trigger] headers@[i].0@ != #[trigger] headers@[j].0@ by {
                assert(header_pairs(headers@)[i].0 == names[i]);
                assert(header_pairs(headers@)[j].0 == names[j]);
            }
        }
        Config {
            general: GeneralConfig {
                mt: true,
                ffmpeg_convert: true,
                save_path: "./captures".to_owned(),
            },
            webhook: WebhookConfig {
                enabled: true,
                live_webhook: "https://discord.com/api/webhooks/1234567890/abcde".to_owned(),
                info_webhook: "https://discord.com/api/webhooks/1234567890/abcde".to_owned(),
                webhook_mention: "<@!123456789>".to_owned(),
            },
            headers,
        }
    }
}

/// The default headers pass the header check: every name is made of bytes
/// allowed in header names and every value is printable text.
pub proof fn lemma_default_headers_valid(headers: Seq<(String, String)>)
    requires
        header_pairs(headers) == default_header_pairs(),
    ensures
        headers_ok(headers),
{
    reveal_strlit("authority");
    reveal_strlit("apiv3.fansly.com");
    reveal_strlit("accept");
    reveal_strlit("application/json, text/plain, */*");
    reveal_strlit("accept-language");
    reveal_strlit("en;q=0.8,en-US;q=0.7");
    reveal_strlit("authorization");
    reveal_strlit("your_auth_token_here");
    reveal_strlit("origin");
    reveal_strlit("https://fansly.com");
    reveal_strlit("referer");
    reveal_strlit("https://fansly.com/");
    reveal_strlit("sec-ch-ua");
    reveal_strlit("\"Not.A/Brand\";v=\"8\", \"Chromium\";v=\"114\", \"Google Chrome\";v=\"114\"");
    reveal_strlit("sec-ch-ua-mobile");
    reveal_strlit("?0");
    reveal_strlit("sec-ch-ua-platform");
    reveal_strlit("\"Windows\"");
    reveal_strlit("sec-fetch-dest");
    reveal_strlit("empty");
    reveal_strlit("sec-fetch-mode");
    reveal_strlit("cors");
    reveal_strlit("sec-fetch-site");
    reveal_strlit("same-site");
    reveal_strlit("user-agent");
    reveal_strlit("Mozilla/5.0 (Windows NT 10.0; Win64; x64) AppleWebKit/537.36 (KHTML, like Gecko) Chrome/114.0.0.0 Safari/537.36");
    let d = default_header_pairs();
    assert(headers.len() == d.len());
    assert forall|i: int| 0 <= i < headers.len() implies header_ok(#[trigger] headers[i].0@, headers[i].1@) by {
        assert(header_pairs(headers)[i] == (headers[i].0@, headers[i].1@));
        lemma_ascii_header_ok(d[i].0, d[i].1);
    }
}

} // verus!
