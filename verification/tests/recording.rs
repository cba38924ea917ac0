use fansly_recorder::recorder::{
    contact_sheet_command, record_command, recording_base_name, recording_base_name_now,
    remux_command, ProcessCommand,
};
use fansly_recorder::session::{
    RecordingSession, SessionAction, SessionError, SessionPlan, SessionStage, StepOutcome,
};

fn plan(convert: bool, contact_sheet: bool) -> SessionPlan {
    SessionPlan {
        playback_url: "https://play.example/live.m3u8".to_string(),
        ts_path: "./captures/alice/alice_20240102_030405_v9.ts".to_string(),
        mp4_path: "./captures/alice/alice_20240102_030405_v9.mp4".to_string(),
        jpg_path: "./captures/alice/alice_20240102_030405_v9.jpg".to_string(),
        convert,
        contact_sheet,
    }
}

fn args(c: &ProcessCommand) -> Vec<&str> {
    c.args.iter().map(|a| a.as_str()).collect()
}

#[derive(Debug, PartialEq)]
enum Kind {
    CreateDirectory,
    Record,
    Remux,
    Rename,
    Sheet,
    Remove,
    Rest(u64),
    Complete,
    Abort(SessionError),
}

fn kind(a: &SessionAction) -> Kind {
    match a {
        SessionAction::CreateDirectory => Kind::CreateDirectory,
        SessionAction::Record(_) => Kind::Record,
        SessionAction::Remux(_) => Kind::Remux,
        SessionAction::RenameToMp4 => Kind::Rename,
        SessionAction::DrawContactSheet(_) => Kind::Sheet,
        SessionAction::RemoveTransportStream => Kind::Remove,
        SessionAction::Rest(s) => Kind::Rest(*s),
        SessionAction::Complete => Kind::Complete,
        SessionAction::Abort(e) => Kind::Abort(*e),
    }
}

/// Runs a session with the given outcomes, returning the actions.
fn run(p: SessionPlan, outcomes: &[StepOutcome]) -> (Vec<Kind>, SessionStage) {
    let (mut session, first) = RecordingSession::begin(p);
    let mut kinds = vec![kind(&first)];
    for o in outcomes {
        let a = session.advance(*o);
        kinds.push(kind(&a));
    }
    (kinds, session.stage)
}

#[test]
fn base_and_file_names() {
    let base = recording_base_name("alice", "20240102_030405", "9");
    assert_eq!(base, "alice_20240102_030405_v9");

}

#[test]
fn base_name_now_carries_a_utc_stamp() {
    let name = recording_base_name_now("bob", "77");
    assert!(name.starts_with("bob_"));
    assert!(name.ends_with("_v77"));
    let stamp = &name["bob_".len()..name.len() - "_v77".len()];
    assert_eq!(stamp.len(), 15);
    assert_eq!(&stamp[8..9], "_");
    assert!(stamp.chars().enumerate().all(|(i, c)| i == 8 || c.is_ascii_digit()));
}

#[test]
fn record_command_arguments() {
    let c = record_command("https://play.example/live.m3u8", "out.ts");
    assert_eq!(c.program, "ffmpeg");
    assert_eq!(
        args(&c),
        vec![
            "-i", "https://play.example/live.m3u8", "-c", "copy", "-movflags", "use_metadata_tags",
            "-map_metadata", "0", "-timeout", "300", "-reconnect", "300", "-reconnect_at_eof", "300",
            "-reconnect_streamed", "300", "-reconnect_delay_max", "300", "-rtmp_live", "live", "out.ts",
        ]
    );
}

#[test]
fn remux_and_sheet_command_arguments() {
    let c = remux_command("a.ts", "a.mp4");
    assert_eq!(c.program, "ffmpeg");
    assert_eq!(args(&c), vec!["-i", "a.ts", "-c:v", "copy", "-c:a", "copy", "a.mp4"]);
    let c = contact_sheet_command("a.jpg", "a.mp4");
    assert_eq!(c.program, "./mt");
    assert_eq!(
        args(&c),
        vec![
            "--columns=4", "--numcaps=24", "--header-meta", "--fast",
            "--comment=Archive - Fansly VODs", "--output=a.jpg", "a.mp4",
        ]
    );
}

const OK: StepOutcome = StepOutcome::Succeeded;
const FAIL: StepOutcome = StepOutcome::Failed;

#[test]
fn successful_session_with_conversion_and_sheet() {
    let (kinds, stage) = run(plan(true, true), &[OK, OK, OK, OK, OK, OK]);
    assert_eq!(
        kinds,
        vec![Kind::CreateDirectory, Kind::Record, Kind::Remux, Kind::Sheet, Kind::Remove, Kind::Rest(130), Kind::Complete]
    );
    assert_eq!(stage, SessionStage::Finished);
}

#[test]
fn successful_session_without_conversion_keeps_stream() {
    let (kinds, stage) = run(plan(false, true), &[OK, OK, OK, OK, OK]);
    assert_eq!(
        kinds,
        vec![Kind::CreateDirectory, Kind::Record, Kind::Rename, Kind::Sheet, Kind::Rest(130), Kind::Complete]
    );
    assert_eq!(stage, SessionStage::Finished);
    let (kinds, _) = run(plan(false, false), &[OK, OK, OK, OK]);
    assert_eq!(kinds, vec![Kind::CreateDirectory, Kind::Record, Kind::Rename, Kind::Rest(130), Kind::Complete]);
    let (kinds, _) = run(plan(true, false), &[OK, OK, OK, OK, OK]);
    assert_eq!(
        kinds,
        vec![Kind::CreateDirectory, Kind::Record, Kind::Remux, Kind::Remove, Kind::Rest(130), Kind::Complete]
    );
}

#[test]
fn session_commands_follow_the_plan() {
    let p = plan(true, true);
    let (mut session, _) = RecordingSession::begin(p);
    match session.advance(OK) {
        SessionAction::Record(c) => {
            assert_eq!(c.args[1], "https://play.example/live.m3u8");
            assert_eq!(c.args[20], "./captures/alice/alice_20240102_030405_v9.ts");
        }
        _ => panic!("expected the recording command"),
    }
    match session.advance(OK) {
        SessionAction::Remux(c) => {
            assert_eq!(args(&c)[1], "./captures/alice/alice_20240102_030405_v9.ts");
            assert_eq!(args(&c)[6], "./captures/alice/alice_20240102_030405_v9.mp4");
        }
        _ => panic!("expected the remux command"),
    }
    match session.advance(OK) {
        SessionAction::DrawContactSheet(c) => {
            assert_eq!(args(&c)[5], "--output=./captures/alice/alice_20240102_030405_v9.jpg");
        }
        _ => panic!("expected the contact sheet command"),
    }
}

#[test]
fn each_failure_aborts_with_its_step() {
    let cases: Vec<(bool, Vec<StepOutcome>, SessionError)> = vec![
        (true, vec![FAIL], SessionError::Directory),
        (true, vec![OK, FAIL], SessionError::Recording),
        (true, vec![OK, OK, FAIL], SessionError::Remux),
        (false, vec![OK, OK, FAIL], SessionError::Rename),
        (true, vec![OK, OK, OK, FAIL], SessionError::ContactSheet),
        (true, vec![OK, OK, OK, OK, FAIL], SessionError::Cleanup),
    ];
    for (convert, outcomes, err) in cases {
        let (kinds, stage) = run(plan(convert, true), &outcomes);
        assert_eq!(kinds.last(), Some(&Kind::Abort(err)));
        assert_eq!(stage, SessionStage::Finished);
    }
}

#[test]
fn finished_session_stays_finished() {
    let (kinds, stage) = run(plan(true, true), &[FAIL, OK, FAIL]);
    assert_eq!(kinds, vec![Kind::CreateDirectory, Kind::Abort(SessionError::Directory), Kind::Complete, Kind::Complete]);
    assert_eq!(stage, SessionStage::Finished);
}
