use vstd::prelude::*;
use vstd::string::StringExecFns;

use crate::json::{
    as_bool, as_i64, as_string, bool_of, element, element_of, field, field_of, i64_of,
    nonempty_array, is_nonempty_array, str_of, str_or_empty_of, string_or_empty, JsonValue,
};

verus! {

/// The reply to an account lookup, reduced to the first account found.
#[derive(Debug)]
pub struct AccountMetadata {
    pub success: bool,
    pub response: Vec<AccountResponse>,
}

#[derive(Debug)]
pub struct AccountResponse {
    pub id: String,
    pub username: String,
    pub avatar: Avatar,
}

#[derive(Debug)]
pub struct Avatar {
    pub id: String,
    pub mimetype: String,
    pub location: String,
}

/// The reply to a stream status request. `response` is present only for a
/// stream that is live and accessible.
#[derive(Debug)]
pub struct StreamMetadata {
    pub success: bool,
    pub response: Option<StreamResponse>,
}

#[derive(Debug)]
pub struct StreamResponse {
    pub id: String,
    pub account_id: String,
    pub playback_url: String,
    pub stream: StreamInfo,
}

#[derive(Debug)]
pub struct StreamInfo {
    pub id: String,
    pub title: String,
    pub status: String,
    pub last_fetched_at: i64,
    pub started_at: i64,
    pub access: bool,
    pub playback_url: Option<String>,
}

/// Why an API reply was refused.
#[derive(Debug, Clone, Copy, PartialEq, Eq, Structural)]
pub enum ApiError {
    /// The account lookup did not report success, or found no account.
    AccountUnavailable,
    /// A configured request header has a name or value that HTTP does not allow.
    InvalidHeader,
}

pub struct AvatarView {
    pub id: Seq<char>,
    pub mimetype: Seq<char>,
    pub location: Seq<char>,
}

pub struct AccountResponseView {
    pub id: Seq<char>,
    pub username: Seq<char>,
    pub avatar: AvatarView,
}

pub struct AccountMetadataView {
    pub success: bool,
    pub response: Seq<AccountResponseView>,
}

pub struct StreamInfoView {
    pub id: Seq<char>,
    pub title: Seq<char>,
    pub status: Seq<char>,
    pub last_fetched_at: i64,
    pub started_at: i64,
    pub access: bool,
    pub playback_url: Option<Seq<char>>,
}

pub struct StreamResponseView {
    pub id: Seq<char>,
    pub account_id: Seq<char>,
    pub playback_url: Seq<char>,
    pub stream: StreamInfoView,
}

pub struct StreamMetadataView {
    pub success: bool,
    pub response: Option<StreamResponseView>,
}

impl View for Avatar {
    type V = AvatarView;

    open spec fn view(&self) -> AvatarView {
        AvatarView { id: self.id@, mimetype: self.mimetype@, location: self.location@ }
    }
}

impl View for AccountResponse {
    type V = AccountResponseView;

    open spec fn view(&self) -> AccountResponseView {
        AccountResponseView { id: self.id@, username: self.username@, avatar: self.avatar@ }
    }
}

impl View for AccountMetadata {
    type V = AccountMetadataView;

    open spec fn view(&self) -> AccountMetadataView {
        AccountMetadataView {
            success: self.success,
            response: self.response@.map_values(|r: AccountResponse| r@),
        }
    }
}

pub open spec fn opt_text(s: Option<String>) -> Option<Seq<char>> {
    match s {
        Some(t) => Some(t@),
        None => None,
    }
}

impl View for StreamInfo {
    type V = StreamInfoView;

    open spec fn view(&self) -> StreamInfoView {
        StreamInfoView {
            id: self.id@,
            title: self.title@,
            status: self.status@,
            last_fetched_at: self.last_fetched_at,
            started_at: self.started_at,
            access: self.access,
            playback_url: opt_text(self.playback_url),
        }
    }
}

impl View for StreamResponse {
    type V = StreamResponseView;

    open spec fn view(&self) -> StreamResponseView {
        StreamResponseView {
            id: self.id@,
            account_id: self.account_id@,
            playback_url: self.playback_url@,
            stream: self.stream@,
        }
    }
}

impl View for StreamMetadata {
    type V = StreamMetadataView;

    open spec fn view(&self) -> StreamMetadataView {
        StreamMetadataView {
            success: self.success,
            response: match self.response {
                Some(r) => Some(r@),
                None => None,
            },
        }
    }
}

/// `doc["response"][0]`: the first account of a lookup reply.
pub open spec fn first_account(doc: JsonValue) -> JsonValue {
    element_of(field_of(doc, "response"@), 0)
}

/// A lookup reply is usable when it reports success and lists at least one account.
pub open spec fn account_found(doc: JsonValue) -> bool {
    &&& bool_of(field_of(doc, "success"@)) == Some(true)
    &&& is_nonempty_array(field_of(doc, "response"@))
}

/// The account metadata read from a usable lookup reply: the first account,
/// each text field read as a string or as the empty text.
pub open spec fn account_from_json(doc: JsonValue) -> AccountMetadataView {
    let entry = first_account(doc);
    let avatar = field_of(entry, "avatar"@);
    AccountMetadataView {
        success: true,
        response: seq![AccountResponseView {
            id: str_or_empty_of(field_of(entry, "id"@)),
            username: str_or_empty_of(field_of(entry, "username"@)),
            avatar: AvatarView {
                id: str_or_empty_of(field_of(avatar, "id"@)),
                mimetype: str_or_empty_of(field_of(avatar, "mimetype"@)),
                location: str_or_empty_of(field_of(avatar, "location"@)),
            },
        }],
    }
}

/// Reads an account lookup reply (`GET /api/v1/account?usernames=...`).
///
/// Fails with `AccountUnavailable` unless `success` is `true` and `response`
/// is a non-empty array; otherwise keeps the first account.
pub fn account_metadata_from_json(doc: &JsonValue) -> (r: Result<AccountMetadata, ApiError>)
    ensures
        match r {
            Ok(m) => account_found(*doc) && m@ == account_from_json(*doc),
            Err(e) => !account_found(*doc) && e == ApiError::AccountUnavailable,
        },
{
    let root = Some(doc);
    let success = as_bool(field(root, "success"));
    let response = field(root, "response");
    let found = match success {
        Some(b) => b,
        None => false,
    };
    if !found || !nonempty_array(response) {
        return Err(ApiError::AccountUnavailable);
    }
    let entry = element(response, 0);
    let avatar = field(entry, "avatar");
    let account = AccountResponse {
        id: string_or_empty(field(entry, "id")),
        username: string_or_empty(field(entry, "username")),
        avatar: Avatar {
            id: string_or_empty(field(avatar, "id")),
            mimetype: string_or_empty(field(avatar, "mimetype")),
            location: string_or_empty(field(avatar, "location")),
        },
    };
    let mut accounts: Vec<AccountResponse> = Vec::new();
    accounts.push(account);
    let m = AccountMetadata { success: true, response: accounts };
    assert(m@.response =~= account_from_json(*doc).response);
    Ok(m)
}

/// `doc["response"]["stream"]`: the stream part of a stream status reply.
pub open spec fn stream_node(doc: JsonValue) -> JsonValue {
    field_of(field_of(doc, "response"@), "stream"@)
}

/// `stream.access`, read as `false` when it is not a boolean.
pub open spec fn stream_access(doc: JsonValue) -> bool {
    match bool_of(field_of(stream_node(doc), "access"@)) {
        Some(b) => b,
        None => false,
    }
}

/// `stream.status`, read as `1` when it is not an `i64` number.
pub open spec fn stream_status(doc: JsonValue) -> i64 {
    match i64_of(field_of(stream_node(doc), "status"@)) {
        Some(n) => n,
        None => 1,
    }
}

/// A stream is live when it is accessible and its status is `2`.
pub open spec fn stream_live(doc: JsonValue) -> bool {
    stream_access(doc) && stream_status(doc) == 2
}

pub open spec fn i64_or_zero(value: JsonValue) -> i64 {
    match i64_of(value) {
        Some(n) => n,
        None => 0,
    }
}

/// The stream metadata read from a stream status reply: `success == false`
/// and no response unless the stream is live; otherwise every field read from
/// the reply, text as a string or the empty text, times as `i64` or `0`.
pub open spec fn stream_from_json(doc: JsonValue) -> StreamMetadataView {
    if !stream_live(doc) {
        StreamMetadataView { success: false, response: None }
    } else {
        let resp = field_of(doc, "response"@);
        let stream = stream_node(doc);
        StreamMetadataView {
            success: match bool_of(field_of(doc, "success"@)) {
                Some(b) => b,
                None => false,
            },
            response: Some(StreamResponseView {
                id: str_or_empty_of(field_of(resp, "id"@)),
                account_id: str_or_empty_of(field_of(resp, "accountId"@)),
                playback_url: str_or_empty_of(field_of(resp, "playbackUrl"@)),
                stream: StreamInfoView {
                    id: str_or_empty_of(field_of(stream, "id"@)),
                    title: str_or_empty_of(field_of(stream, "title"@)),
                    status: str_or_empty_of(field_of(stream, "status"@)),
                    last_fetched_at: i64_or_zero(field_of(stream, "lastFetchedAt"@)),
                    started_at: i64_or_zero(field_of(stream, "startedAt"@)),
                    access: true,
                    playback_url: str_of(field_of(stream, "playbackUrl"@)),
                },
            }),
        }
    }
}

/// Reads a stream status reply (`GET /api/v1/streaming/channel/<id>`).
pub fn stream_metadata_from_json(doc: &JsonValue) -> (r: StreamMetadata)
    ensures
        r@ == stream_from_json(*doc),
{
    let root = Some(doc);
    let resp = field(root, "response");
    let stream = field(resp, "stream");
    let access = match as_bool(field(stream, "access")) {
        Some(b) => b,
        None => false,
    };
    let status = match as_i64(field(stream, "status")) {
        Some(n) => n,
        None => 1,
    };
    if !access || status != 2 {
        return StreamMetadata { success: false, response: None };
    }
    let success = match as_bool(field(root, "success")) {
        Some(b) => b,
        None => false,
    };
    let last_fetched_at = match as_i64(field(stream, "lastFetchedAt")) {
        Some(n) => n,
        None => 0,
    };
    let started_at = match as_i64(field(stream, "startedAt")) {
        Some(n) => n,
        None => 0,
    };
    StreamMetadata {
        success,
        response: Some(StreamResponse {
            id: string_or_empty(field(resp, "id")),
            account_id: string_or_empty(field(resp, "accountId")),
            playback_url: string_or_empty(field(resp, "playbackUrl")),
            stream: StreamInfo {
                id: string_or_empty(field(stream, "id")),
                title: string_or_empty(field(stream, "title")),
                status: string_or_empty(field(stream, "status")),
                last_fetched_at,
                started_at,
                access,
                playback_url: as_string(field(stream, "playbackUrl")),
            },
        }),
    }
}

pub open spec fn account_lookup_url_spec(username: Seq<char>) -> Seq<char> {
    "https://apiv3.fansly.com/api/v1/account?usernames="@ + username + "&ngsw-bypass=true"@
}

pub open spec fn stream_status_url_spec(account_id: Seq<char>) -> Seq<char> {
    "https://apiv3.fansly.com/api/v1/streaming/channel/"@ + account_id + "?ngsw-bypass=true"@
}

/// The address that looks an account up by user name.
pub fn account_lookup_url(username: &str) -> (url: String)
    ensures
        url@ == account_lookup_url_spec(username@),
{
    let mut url = "https://apiv3.fansly.com/api/v1/account?usernames=".to_owned();
    url.append(username);
    url.append("&ngsw-bypass=true");
    url
}

/// The address that reports the stream status of an account, by account id.
pub fn stream_status_url(account_id: &str) -> (url: String)
    ensures
        url@ == stream_status_url_spec(account_id@),
{
    let mut url = "https://apiv3.fansly.com/api/v1/streaming/channel/".to_owned();
    url.append(account_id);
    url.append("?ngsw-bypass=true");
    url
}

/// An accepted account reply always reports success and keeps exactly one
/// account, so the account the recorder follows is always there.
pub proof fn lemma_accepted_account_is_single(doc: JsonValue)
    requires
        account_found(doc),
    ensures
        account_from_json(doc).success,
        account_from_json(doc).response.len() == 1,
{
}

/// A stream reply lists a stream exactly when the stream is live; a listed
/// stream is accessible, and its status, being the number 2, reads as the
/// empty text. An unlisted stream is reported as unsuccessful.
pub proof fn lemma_stream_listed_iff_live(doc: JsonValue)
    ensures
        stream_from_json(doc).response is Some <==> stream_live(doc),
        !stream_live(doc) ==> !stream_from_json(doc).success,
        stream_from_json(doc).response matches Some(r) ==> r.stream.access && r.stream.status
            == Seq::<char>::empty(),
{
}

/// `result` is what reading `value` as text gives: the string's own text, or
/// the empty text when `value` is not a string.
pub open spec fn read_as_text(result: Seq<char>, value: JsonValue) -> bool {
    match value {
        JsonValue::Str(s) => result == s@,
        _ => result.len() == 0,
    }
}

/// `result` is what reading `value` as an integer gives: the number's `i64`
/// value, or `default` when `value` is not such a number.
pub open spec fn read_as_i64(result: i64, value: JsonValue, default: i64) -> bool {
    match value {
        JsonValue::Number(Some(n)) => result == n,
        _ => result == default,
    }
}

/// A lookup reply is accepted exactly when its `success` member is `true`
/// and its `response` member is an array with at least one element.
pub proof fn lemma_account_accepted_when(doc: JsonValue)
    ensures
        account_found(doc) <==> field_of(doc, "success"@) == JsonValue::Bool(true) && match field_of(
            doc,
            "response"@,
        ) {
            JsonValue::Array(items) => items@.len() > 0,
            _ => false,
        },
{
}

/// Every field of an accepted account is read by its member name from the
/// first element of `response` (the avatar's from its `avatar` member), as
/// text, with the empty text for a missing or non-text member.
pub proof fn lemma_account_read_by_name(doc: JsonValue)
    requires
        account_found(doc),
    ensures
        ({
            let m = account_from_json(doc);
            let entry = element_of(field_of(doc, "response"@), 0);
            let avatar = field_of(entry, "avatar"@);
            &&& m.success
            &&& m.response.len() == 1
            &&& read_as_text(m.response[0].id, field_of(entry, "id"@))
            &&& read_as_text(m.response[0].username, field_of(entry, "username"@))
            &&& read_as_text(m.response[0].avatar.id, field_of(avatar, "id"@))
            &&& read_as_text(m.response[0].avatar.mimetype, field_of(avatar, "mimetype"@))
            &&& read_as_text(m.response[0].avatar.location, field_of(avatar, "location"@))
        }),
{
}

/// A stream is live exactly when its `access` member is `true` and its
/// `status` member is the number 2; otherwise the reply reads as
/// unsuccessful with no stream. A live stream's fields are each read by
/// their member name: text as text (empty when missing), times as `i64`
/// (0 when missing), and the stream's own `playbackUrl` as text when it is
/// a string and as nothing otherwise.
pub proof fn lemma_stream_read_by_name(doc: JsonValue)
    ensures
        ({
            let m = stream_from_json(doc);
            let resp = field_of(doc, "response"@);
            let stream = field_of(resp, "stream"@);
            let live = field_of(stream, "access"@) == JsonValue::Bool(true) && field_of(stream, "status"@)
                == JsonValue::Number(Some(2));
            &&& stream_live(doc) == live
            &&& !live ==> !m.success && m.response is None
            &&& live ==> {
                &&& m.success == (field_of(doc, "success"@) == JsonValue::Bool(true))
                &&& m.response is Some
                &&& read_as_text(m.response->0.id, field_of(resp, "id"@))
                &&& read_as_text(m.response->0.account_id, field_of(resp, "accountId"@))
                &&& read_as_text(m.response->0.playback_url, field_of(resp, "playbackUrl"@))
                &&& read_as_text(m.response->0.stream.id, field_of(stream, "id"@))
                &&& read_as_text(m.response->0.stream.title, field_of(stream, "title"@))
                &&& read_as_text(m.response->0.stream.status, field_of(stream, "status"@))
                &&& read_as_i64(m.response->0.stream.last_fetched_at, field_of(stream, "lastFetchedAt"@), 0)
                &&& read_as_i64(m.response->0.stream.started_at, field_of(stream, "startedAt"@), 0)
                &&& m.response->0.stream.access
                &&& m.response->0.stream.playback_url == match field_of(stream, "playbackUrl"@) {
                    JsonValue::Str(s) => Some(s@),
                    _ => None,
                }
            }
        }),
{
}

/// Different user names give different lookup addresses, and the address
/// holds the user name unchanged after its fixed prefix.
pub proof fn lemma_lookup_url_keeps_username(u1: Seq<char>, u2: Seq<char>)
    ensures
        account_lookup_url_spec(u1) == account_lookup_url_spec(u2) ==> u1 == u2,
        account_lookup_url_spec(u1).subrange(
            "https://apiv3.fansly.com/api/v1/account?usernames="@.len() as int,
            ("https://apiv3.fansly.com/api/v1/account?usernames="@.len() + u1.len()) as int,
        ) == u1,
{
    let p = "https://apiv3.fansly.com/api/v1/account?usernames="@;
    let q = "&ngsw-bypass=true"@;
    assert(account_lookup_url_spec(u1).subrange(p.len() as int, p.len() + u1.len() as int) =~= u1);
    if account_lookup_url_spec(u1) == account_lookup_url_spec(u2) {
        assert(account_lookup_url_spec(u1).len() == p.len() + u1.len() + q.len());
        assert(account_lookup_url_spec(u2).len() == p.len() + u2.len() + q.len());
        assert(u1.len() == u2.len());
        assert(account_lookup_url_spec(u2).subrange(p.len() as int, p.len() + u2.len() as int) =~= u2);
    }
}

/// Different account ids give different stream status addresses, and the
/// address holds the account id unchanged after its fixed prefix.
pub proof fn lemma_status_url_keeps_account_id(a1: Seq<char>, a2: Seq<char>)
    ensures
        stream_status_url_spec(a1) == stream_status_url_spec(a2) ==> a1 == a2,
        stream_status_url_spec(a1).subrange(
            "https://apiv3.fansly.com/api/v1/streaming/channel/"@.len() as int,
            ("https://apiv3.fansly.com/api/v1/streaming/channel/"@.len() + a1.len()) as int,
        ) == a1,
{
    let p = "https://apiv3.fansly.com/api/v1/streaming/channel/"@;
    let q = "?ngsw-bypass=true"@;
    assert(stream_status_url_spec(a1).subrange(p.len() as int, p.len() + a1.len() as int) =~= a1);
    if stream_status_url_spec(a1) == stream_status_url_spec(a2) {
        assert(stream_status_url_spec(a1).len() == p.len() + a1.len() + q.len());
        assert(stream_status_url_spec(a2).len() == p.len() + a2.len() + q.len());
        assert(a1.len() == a2.len());
        assert(stream_status_url_spec(a2).subrange(p.len() as int, p.len() + a2.len() as int) =~= a2);
    }
}

} // verus!
