use fansly_recorder::config::GeneralConfig;
use fansly_recorder::paths::{join_path, recording_paths, with_extension};
use fansly_recorder::recorder::recording_base_name;
use fansly_recorder::session::SessionPlan;
use std::path::Path;

#[test]
fn recording_lands_in_the_users_folder() {
    let base = recording_base_name("alice", "20240102_030405", "S1");
    let p = recording_paths("./captures", "alice", &base);
    assert_eq!(p.directory, "./captures/alice");
    assert_eq!(p.ts, "./captures/alice/alice_20240102_030405_vS1.ts");
    assert_eq!(p.mp4, "./captures/alice/alice_20240102_030405_vS1.mp4");
    assert_eq!(p.jpg, "./captures/alice/alice_20240102_030405_vS1.jpg");
}

#[test]
fn stream_id_ending_in_slash_keeps_ts_name() {
    let base = recording_base_name("alice", "20240102_030405", "S1/");
    let p = recording_paths("./captures", "alice", &base);
    assert_eq!(p.ts, "./captures/alice/alice_20240102_030405_vS1/.ts");
    assert_eq!(p.mp4, "./captures/alice/alice_20240102_030405_vS1/.ts.mp4");
    assert_eq!(p.jpg, "./captures/alice/alice_20240102_030405_vS1/.ts.jpg");
}

#[test]
fn dotted_names_and_slashes() {
    let p = recording_paths("/srv/rec/", "a.b", "a.b_1_v2.5");
    assert_eq!(p.directory, "/srv/rec/a.b");
    assert_eq!(p.ts, "/srv/rec/a.b/a.b_1_v2.5.ts");
    assert_eq!(p.mp4, "/srv/rec/a.b/a.b_1_v2.5.mp4");
    assert_eq!(p.jpg, "/srv/rec/a.b/a.b_1_v2.5.jpg");
    let p = recording_paths("", "u", "u_1_v2");
    assert_eq!(p.directory, "u");
    assert_eq!(p.ts, "u/u_1_v2.ts");
    let p = recording_paths("./captures", "/abs", "/abs_1_v2");
    assert_eq!(p.directory, "/abs");
    assert_eq!(p.ts, "/abs_1_v2.ts");
    assert_eq!(p.mp4, "/abs_1_v2.mp4");
}

#[test]
fn paths_match_std_path_on_unix() {
    let cases = [
        ("./captures", "alice", "alice_20240102_030405_vS1"),
        ("./captures", "alice", "alice_x_vS1/"),
        ("/srv/rec/", "a.b", "a.b_1_v2.5"),
        ("", "u", "u_1_v."),
        ("dir", "/abs", "/abs_1_v2"),
        ("dir", "x/y", "x/y_1_v.hidden"),
    ];
    for (save, user, base) in cases {
        let directory = Path::new(save).join(user);
        let ts = directory.join(format!("{base}.ts"));
        let mp4 = ts.with_extension("mp4");
        let jpg = mp4.with_extension("jpg");
        let p = recording_paths(save, user, base);
        assert_eq!(p.directory, directory.to_str().unwrap());
        assert_eq!(p.ts, ts.to_str().unwrap());
        assert_eq!(p.mp4, mp4.to_str().unwrap());
        assert_eq!(p.jpg, jpg.to_str().unwrap());
    }
}

#[test]
fn join_and_extension() {
    assert_eq!(join_path("a", "b"), "a/b");
    assert_eq!(join_path("a/", "b"), "a/b");
    assert_eq!(join_path("", "b"), "b");
    assert_eq!(join_path("a", "/b"), "/b");
    assert_eq!(join_path("a", ""), "a/");
    assert_eq!(with_extension("x/y.ts", "mp4"), "x/y.mp4");
    assert_eq!(with_extension("x/.ts", "mp4"), "x/.ts.mp4");
    assert_eq!(with_extension("x.y/z", "mp4"), "x.y/z.mp4");
    assert_eq!(with_extension("a.tar.gz", "zip"), "a.tar.zip");
    assert_eq!(with_extension("a.ts", ""), "a");
}

#[test]
fn plan_takes_the_recording_paths() {
    let paths = recording_paths("./captures", "alice", "alice_1_vS1");
    let general = GeneralConfig { mt: false, ffmpeg_convert: true, save_path: "./captures".to_string() };
    let plan = SessionPlan::for_recording("https://play.example/x.m3u8", &paths, &general);
    assert_eq!(plan.playback_url, "https://play.example/x.m3u8");
    assert_eq!(plan.ts_path, "./captures/alice/alice_1_vS1.ts");
    assert_eq!(plan.mp4_path, "./captures/alice/alice_1_vS1.mp4");
    assert_eq!(plan.jpg_path, "./captures/alice/alice_1_vS1.jpg");
    assert!(plan.convert);
    assert!(!plan.contact_sheet);
}
