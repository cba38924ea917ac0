use vstd::prelude::*;
use vstd::string::StringExecFns;

use crate::config::WebhookConfig;

verus! {

/// A Discord webhook message announcing that a stream went live.
pub struct LiveNotice {
    /// The webhook the message is sent to.
    pub webhook_url: String,
    pub content: String,
    /// The name the message is posted under.
    pub sender: String,
    pub title: String,
    /// The link of the embed: the stream's page.
    pub url: String,
    /// The embed colour as `0xRRGGBB`.
    pub colour: u32,
    pub thumbnail: String,
}

/// A Discord webhook message announcing an uploaded recording, with its
/// contact sheet attached.
pub struct UploadNotice {
    pub webhook_url: String,
    pub content: String,
    pub sender: String,
    pub title: String,
    pub description: String,
    pub colour: u32,
    /// The embed image: the attached contact sheet.
    pub image: String,
    /// The file attached to the message.
    pub attachment_path: String,
}

/// `0x03B2F8`, the colour of both notices (red 3, green 178, blue 248).
pub open spec fn notice_colour_spec() -> u32 {
    0x03B2F8
}

/// `serenity::model::Colour::from_rgb`, read back as its packed value. Its
/// source computes `(red << 16) | (green << 8) | blue`.
#[verifier::external_body]
fn rgb_colour(red: u8, green: u8, blue: u8) -> (c: u32)
    ensures
        c == red * 65536 + green * 256 + blue,
{
    serenity::model::Colour::from_rgb(red, green, blue).0
}

/// The colour of the notices.
pub fn notice_colour() -> (c: u32)
    ensures
        c == notice_colour_spec(),
{
    rgb_colour(3, 178, 248)
}

pub open spec fn live_page_url_spec(username: Seq<char>) -> Seq<char> {
    "https://fansly.com/live/"@ + username
}

/// The page where a user's live stream is watched.
pub fn live_page_url(username: &str) -> (url: String)
    ensures
        url@ == live_page_url_spec(username@),
{
    let mut url = "https://fansly.com/live/".to_owned();
    url.append(username);
    url
}

/// The live notice for `username`, or `None` when notices are switched off.
pub fn live_notice(config: &WebhookConfig, username: &str, avatar_url: &str) -> (n: Option<LiveNotice>)
    ensures
        n is None <==> !config.enabled,
        n matches Some(n) ==> {
            &&& n.webhook_url@ == config.live_webhook@
            &&& n.content@ == config.webhook_mention@ + " "@ + username@ + " is now live on Fansly!"@
            &&& n.sender@ == "Fansly Recorder RS"@
            &&& n.title@ == username@ + " is now Live!"@
            &&& n.url@ == live_page_url_spec(username@)
            &&& n.colour == notice_colour_spec()
            &&& n.thumbnail@ == avatar_url@
        },
{
    if !config.enabled {
        return None;
    }
    let mut content = config.webhook_mention.clone();
    content.append(" ");
    content.append(username);
    content.append(" is now live on Fansly!");
    let mut title = username.to_owned();
    title.append(" is now Live!");
    Some(LiveNotice {
        webhook_url: config.live_webhook.clone(),
        content,
        sender: "Fansly Recorder RS".to_owned(),
        title,
        url: live_page_url(username),
        colour: notice_colour(),
        thumbnail: avatar_url.to_owned(),
    })
}

/// The upload notice for a recording and its contact sheet, or `None` when
/// notices are switched off.
pub fn upload_notice(config: &WebhookConfig, mp4_name: &str, sheet_name: &str, sheet_path: &str) -> (n: Option<UploadNotice>)
    ensures
        n is None <==> !config.enabled,
        n matches Some(n) ==> {
            &&& n.webhook_url@ == config.info_webhook@
            &&& n.content@ == config.webhook_mention@ + " Vod Uploaded"@
            &&& n.sender@ == "Fansly Recorder"@
            &&& n.title@ == "Stream Recording Uploaded"@
            &&& n.description@ == "Uploaded "@ + mp4_name@ + " with contact sheet "@ + sheet_name@
            &&& n.colour == notice_colour_spec()
            &&& n.image@ == "attachment://contact_sheet.jpg"@
            &&& n.attachment_path@ == sheet_path@
        },
{
    if !config.enabled {
        return None;
    }
    let mut content = config.webhook_mention.clone();
    content.append(" Vod Uploaded");
    let mut description = "Uploaded ".to_owned();
    description.append(mp4_name);
    description.append(" with contact sheet ");
    description.append(sheet_name);
    Some(UploadNotice {
        webhook_url: config.info_webhook.clone(),
        content,
        sender: "Fansly Recorder".to_owned(),
        title: "Stream Recording Uploaded".to_owned(),
        description,
        colour: notice_colour(),
        image: "attachment://contact_sheet.jpg".to_owned(),
        attachment_path: sheet_path.to_owned(),
    })
}

} // verus!
