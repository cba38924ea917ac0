use fansly_recorder::config::WebhookConfig;
use fansly_recorder::webhooks::{live_notice, live_page_url, notice_colour, upload_notice};

fn config(enabled: bool) -> WebhookConfig {
    WebhookConfig {
        enabled,
        live_webhook: "https://discord.com/api/webhooks/1/live".to_string(),
        info_webhook: "https://discord.com/api/webhooks/2/info".to_string(),
        webhook_mention: "<@!42>".to_string(),
    }
}

#[test]
fn notice_colour_is_packed_rgb() {
    assert_eq!(notice_colour(), 0x03B2F8);
    assert_eq!(notice_colour(), 242424);
}

#[test]
fn live_notice_contents() {
    let n = live_notice(&config(true), "alice", "https://cdn.example/a.jpg").unwrap();
    assert_eq!(n.webhook_url, "https://discord.com/api/webhooks/1/live");
    assert_eq!(n.content, "<@!42> alice is now live on Fansly!");
    assert_eq!(n.sender, "Fansly Recorder RS");
    assert_eq!(n.title, "alice is now Live!");
    assert_eq!(n.url, "https://fansly.com/live/alice");
    assert_eq!(n.colour, 0x03B2F8);
    assert_eq!(n.thumbnail, "https://cdn.example/a.jpg");
    assert_eq!(live_page_url("bob"), "https://fansly.com/live/bob");
}

#[test]
fn upload_notice_contents() {
    let n = upload_notice(&config(true), "a.mp4", "a.jpg", "/tmp/a.jpg").unwrap();
    assert_eq!(n.webhook_url, "https://discord.com/api/webhooks/2/info");
    assert_eq!(n.content, "<@!42> Vod Uploaded");
    assert_eq!(n.sender, "Fansly Recorder");
    assert_eq!(n.title, "Stream Recording Uploaded");
    assert_eq!(n.description, "Uploaded a.mp4 with contact sheet a.jpg");
    assert_eq!(n.colour, 0x03B2F8);
    assert_eq!(n.image, "attachment://contact_sheet.jpg");
    assert_eq!(n.attachment_path, "/tmp/a.jpg");
}

#[test]
fn disabled_notices_are_not_built() {
    assert!(live_notice(&config(false), "alice", "x").is_none());
    assert!(upload_notice(&config(false), "a", "b", "c").is_none());
}
