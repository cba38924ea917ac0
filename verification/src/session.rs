use vstd::prelude::*;

use crate::config::GeneralConfig;
use crate::paths::RecordingPaths;

use crate::recorder::{
    contact_sheet_command, contact_sheet_command_spec, record_command, record_command_spec,
    remux_command, remux_command_spec, CommandView, ProcessCommand, RECHECK_DELAY_SECS,
};

verus! {

/// What one recording session works on: where the stream comes from, the
/// three files it produces, and the two switches of the configuration.
pub struct SessionPlan {
    pub playback_url: String,
    /// The transport stream the live stream is saved to.
    pub ts_path: String,
    /// The MP4 file the transport stream becomes.
    pub mp4_path: String,
    /// The contact sheet drawn from the MP4 file.
    pub jpg_path: String,
    /// `general.ffmpeg_convert`: remux with ffmpeg (and then delete the
    /// transport stream) rather than rename the transport stream.
    pub convert: bool,
    /// `general.mt`: draw a contact sheet.
    pub contact_sheet: bool,
}

impl SessionPlan {
    /// The plan of a recording: the stream at `playback_url`, saved to the
    /// recording's paths, with the configuration's conversion and contact
    /// sheet switches.
    pub fn for_recording(playback_url: &str, paths: &RecordingPaths, general: &GeneralConfig) -> (plan: SessionPlan)
        ensures
            plan.playback_url@ == playback_url@,
            plan.ts_path@ == paths.ts@,
            plan.mp4_path@ == paths.mp4@,
            plan.jpg_path@ == paths.jpg@,
            plan.convert == general.ffmpeg_convert,
            plan.contact_sheet == general.mt,
    {
        SessionPlan {
            playback_url: playback_url.to_owned(),
            ts_path: paths.ts.clone(),
            mp4_path: paths.mp4.clone(),
            jpg_path: paths.jpg.clone(),
            convert: general.ffmpeg_convert,
            contact_sheet: general.mt,
        }
    }
}

/// Where a session stands: the step whose outcome it waits for.
#[derive(Debug, Clone, Copy, PartialEq, Eq, Structural)]
pub enum SessionStage {
    Preparing,
    Recording,
    Converting,
    DrawingSheet,
    CleaningUp,
    Resting,
    Finished,
}

/// How the step that was asked for went.
#[derive(Debug, Clone, Copy, PartialEq, Eq, Structural)]
pub enum StepOutcome {
    Succeeded,
    Failed,
}

/// The step that failed and ended a session.
#[derive(Debug, Clone, Copy, PartialEq, Eq, Structural)]
pub enum SessionError {
    /// The recording directory could not be created.
    Directory,
    /// ffmpeg failed to save the stream.
    Recording,
    /// ffmpeg failed to remux the recording.
    Remux,
    /// The recording could not be renamed to its MP4 name.
    Rename,
    /// `mt` failed to draw the contact sheet.
    ContactSheet,
    /// The transport stream could not be deleted.
    Cleanup,
}

/// The next thing to do for a session.
pub enum SessionAction {
    /// Create the directory that holds the recording's files.
    CreateDirectory,
    /// Run the command that saves the stream.
    Record(ProcessCommand),
    /// Run the command that remuxes the recording to MP4.
    Remux(ProcessCommand),
    /// Rename the transport stream to the MP4 path.
    RenameToMp4,
    /// Run the command that draws the contact sheet.
    DrawContactSheet(ProcessCommand),
    /// Delete the transport stream.
    RemoveTransportStream,
    /// Wait this many seconds.
    Rest(u64),
    /// The session is over and went well.
    Complete,
    /// The session is over: the step named failed.
    Abort(SessionError),
}

pub enum ActionView {
    CreateDirectory,
    Record(CommandView),
    Remux(CommandView),
    RenameToMp4,
    DrawContactSheet(CommandView),
    RemoveTransportStream,
    Rest(u64),
    Complete,
    Abort(SessionError),
}

impl View for SessionAction {
    type V = ActionView;

    open spec fn view(&self) -> ActionView {
        match self {
            SessionAction::CreateDirectory => ActionView::CreateDirectory,
            SessionAction::Record(c) => ActionView::Record(c@),
            SessionAction::Remux(c) => ActionView::Remux(c@),
            SessionAction::RenameToMp4 => ActionView::RenameToMp4,
            SessionAction::DrawContactSheet(c) => ActionView::DrawContactSheet(c@),
            SessionAction::RemoveTransportStream => ActionView::RemoveTransportStream,
            SessionAction::Rest(s) => ActionView::Rest(*s),
            SessionAction::Complete => ActionView::Complete,
            SessionAction::Abort(e) => ActionView::Abort(*e),
        }
    }
}

/// What comes once the recording is in its MP4 file and, if asked for, its
/// contact sheet is drawn: delete the transport stream when it was remuxed,
/// else rest.
pub open spec fn after_sheet(plan: SessionPlan) -> (SessionStage, ActionView) {
    if plan.convert {
        (SessionStage::CleaningUp, ActionView::RemoveTransportStream)
    } else {
        (SessionStage::Resting, ActionView::Rest(RECHECK_DELAY_SECS))
    }
}

/// What comes once the recording is in its MP4 file.
pub open spec fn after_conversion(plan: SessionPlan) -> (SessionStage, ActionView) {
    if plan.contact_sheet {
        (
            SessionStage::DrawingSheet,
            ActionView::DrawContactSheet(contact_sheet_command_spec(plan.jpg_path@, plan.mp4_path@)),
        )
    } else {
        after_sheet(plan)
    }
}

/// The step that turns the transport stream into the MP4 file.
pub open spec fn conversion_action(plan: SessionPlan) -> ActionView {
    if plan.convert {
        ActionView::Remux(remux_command_spec(plan.ts_path@, plan.mp4_path@))
    } else {
        ActionView::RenameToMp4
    }
}

/// The session's transition: from the stage it is in and the outcome of the
/// step it asked for, its next stage and what to do next. Any failure ends the
/// session with the step that failed.
pub open spec fn session_step(plan: SessionPlan, stage: SessionStage, outcome: StepOutcome) -> (SessionStage, ActionView) {
    let ok = outcome == StepOutcome::Succeeded;
    match stage {
        SessionStage::Preparing => if ok {
            (SessionStage::Recording, ActionView::Record(record_command_spec(plan.playback_url@, plan.ts_path@)))
        } else {
            (SessionStage::Finished, ActionView::Abort(SessionError::Directory))
        },
        SessionStage::Recording => if ok {
            (SessionStage::Converting, conversion_action(plan))
        } else {
            (SessionStage::Finished, ActionView::Abort(SessionError::Recording))
        },
        SessionStage::Converting => if ok {
            after_conversion(plan)
        } else if plan.convert {
            (SessionStage::Finished, ActionView::Abort(SessionError::Remux))
        } else {
            (SessionStage::Finished, ActionView::Abort(SessionError::Rename))
        },
        SessionStage::DrawingSheet => if ok {
            after_sheet(plan)
        } else {
            (SessionStage::Finished, ActionView::Abort(SessionError::ContactSheet))
        },
        SessionStage::CleaningUp => if ok {
            (SessionStage::Resting, ActionView::Rest(RECHECK_DELAY_SECS))
        } else {
            (SessionStage::Finished, ActionView::Abort(SessionError::Cleanup))
        },
        SessionStage::Resting => (SessionStage::Finished, ActionView::Complete),
        SessionStage::Finished => (SessionStage::Finished, ActionView::Complete),
    }
}

/// A recording session in progress.
pub struct RecordingSession {
    pub plan: SessionPlan,
    pub stage: SessionStage,
}

impl RecordingSession {
    /// Opens a session: its first step is to create the recording directory.
    pub fn begin(plan: SessionPlan) -> (r: (RecordingSession, SessionAction))
        ensures
            r.0.plan == plan,
            r.0.stage == SessionStage::Preparing,
            r.1@ == ActionView::CreateDirectory,
    {
        (RecordingSession { plan, stage: SessionStage::Preparing }, SessionAction::CreateDirectory)
    }

    pub fn is_finished(&self) -> (r: bool)
        ensures
            r == (self.stage == SessionStage::Finished),
    {
        self.stage == SessionStage::Finished
    }

    /// Takes the outcome of the step last asked for and says what to do next.
    pub fn advance(&mut self, outcome: StepOutcome) -> (action: SessionAction)
        ensures
            final(self).plan == old(self).plan,
            (final(self).stage, action@) == session_step(old(self).plan, old(self).stage, outcome),
    {
        let ok = outcome == StepOutcome::Succeeded;
        let plan = &self.plan;
        let (stage, action) = match self.stage {
            SessionStage::Preparing => if ok {
                (SessionStage::Recording, SessionAction::Record(record_command(plan.playback_url.as_str(), plan.ts_path.as_str())))
            } else {
                (SessionStage::Finished, SessionAction::Abort(SessionError::Directory))
            },
            SessionStage::Recording => if ok {
                if plan.convert {
                    (SessionStage::Converting, SessionAction::Remux(remux_command(plan.ts_path.as_str(), plan.mp4_path.as_str())))
                } else {
                    (SessionStage::Converting, SessionAction::RenameToMp4)
                }
            } else {
                (SessionStage::Finished, SessionAction::Abort(SessionError::Recording))
            },
            SessionStage::Converting => if ok {
                if plan.contact_sheet {
                    (SessionStage::DrawingSheet, SessionAction::DrawContactSheet(contact_sheet_command(plan.jpg_path.as_str(), plan.mp4_path.as_str())))
                } else if plan.convert {
                    (SessionStage::CleaningUp, SessionAction::RemoveTransportStream)
                } else {
                    (SessionStage::Resting, SessionAction::Rest(RECHECK_DELAY_SECS))
                }
            } else if plan.convert {
                (SessionStage::Finished, SessionAction::Abort(SessionError::Remux))
            } else {
                (SessionStage::Finished, SessionAction::Abort(SessionError::Rename))
            },
            SessionStage::DrawingSheet => if ok {
                if plan.convert {
                    (SessionStage::CleaningUp, SessionAction::RemoveTransportStream)
                } else {
                    (SessionStage::Resting, SessionAction::Rest(RECHECK_DELAY_SECS))
                }
            } else {
                (SessionStage::Finished, SessionAction::Abort(SessionError::ContactSheet))
            },
            SessionStage::CleaningUp => if ok {
                (SessionStage::Resting, SessionAction::Rest(RECHECK_DELAY_SECS))
            } else {
                (SessionStage::Finished, SessionAction::Abort(SessionError::Cleanup))
            },
            SessionStage::Resting => (SessionStage::Finished, SessionAction::Complete),
            SessionStage::Finished => (SessionStage::Finished, SessionAction::Complete),
        };
        self.stage = stage;
        action
    }
}

/// How many steps a session at this stage can still take at most.
pub open spec fn steps_left(stage: SessionStage) -> nat {
    match stage {
        SessionStage::Preparing => 6,
        SessionStage::Recording => 5,
        SessionStage::Converting => 4,
        SessionStage::DrawingSheet => 3,
        SessionStage::CleaningUp => 2,
        SessionStage::Resting => 1,
        SessionStage::Finished => 0,
    }
}

/// The actions of `n` steps that all succeed, from `stage` on.
pub open spec fn succeeding_actions(plan: SessionPlan, stage: SessionStage, n: nat) -> Seq<ActionView>
    decreases n,
{
    if n == 0 {
        seq![]
    } else {
        let next = session_step(plan, stage, StepOutcome::Succeeded);
        seq![next.1] + succeeding_actions(plan, next.0, (n - 1) as nat)
    }
}

/// The stage reached after `n` steps that all succeed, from `stage` on.
pub open spec fn stage_after_succeeding(plan: SessionPlan, stage: SessionStage, n: nat) -> SessionStage
    decreases n,
{
    if n == 0 {
        stage
    } else {
        stage_after_succeeding(plan, session_step(plan, stage, StepOutcome::Succeeded).0, (n - 1) as nat)
    }
}

/// What a session does, after creating its directory, when every step
/// succeeds: record; remux or rename; draw the contact sheet if asked for;
/// delete the transport stream if it was remuxed; rest; complete.
pub open spec fn successful_session_actions(plan: SessionPlan) -> Seq<ActionView> {
    seq![ActionView::Record(record_command_spec(plan.playback_url@, plan.ts_path@)), conversion_action(plan)]
        + (if plan.contact_sheet {
            seq![ActionView::DrawContactSheet(contact_sheet_command_spec(plan.jpg_path@, plan.mp4_path@))]
        } else {
            Seq::<ActionView>::empty()
        })
        + (if plan.convert { seq![ActionView::RemoveTransportStream] } else { Seq::<ActionView>::empty() })
        + seq![ActionView::Rest(RECHECK_DELAY_SECS), ActionView::Complete]
}

/// A session ends: every step of a session that is not over takes it to a
/// stage with fewer steps left, so no session takes more than six steps.
pub proof fn lemma_session_ends(plan: SessionPlan, stage: SessionStage, outcome: StepOutcome)
    requires
        stage != SessionStage::Finished,
    ensures
        steps_left(session_step(plan, stage, outcome).0) < steps_left(stage),
{
}

/// A session that is over stays over and does nothing more.
pub proof fn lemma_finished_session_stays_finished(plan: SessionPlan, outcome: StepOutcome)
    ensures
        session_step(plan, SessionStage::Finished, outcome) == (SessionStage::Finished, ActionView::Complete),
{
}

/// A failed step ends the session at once, reporting that step.
pub proof fn lemma_failure_aborts(plan: SessionPlan, stage: SessionStage)
    requires
        stage != SessionStage::Resting,
        stage != SessionStage::Finished,
    ensures
        session_step(plan, stage, StepOutcome::Failed).0 == SessionStage::Finished,
        session_step(plan, stage, StepOutcome::Failed).1 is Abort,
{
}

/// The transport stream is deleted only when the configuration asks for
/// conversion, and only right after the remux (and the contact sheet, when
/// one is drawn) succeeded.
pub proof fn lemma_transport_stream_deleted_only_after_remux(
    plan: SessionPlan,
    stage: SessionStage,
    outcome: StepOutcome,
)
    requires
        session_step(plan, stage, outcome).1 is RemoveTransportStream,
    ensures
        plan.convert,
        outcome == StepOutcome::Succeeded,
        stage == SessionStage::Converting && !plan.contact_sheet || stage == SessionStage::DrawingSheet,
{
}

/// Without conversion nothing is remuxed and the transport stream is only
/// renamed, never deleted.
pub proof fn lemma_no_conversion_keeps_stream(plan: SessionPlan, stage: SessionStage, outcome: StepOutcome)
    requires
        !plan.convert,
    ensures
        !(session_step(plan, stage, outcome).1 is Remux),
        !(session_step(plan, stage, outcome).1 is RemoveTransportStream),
{
}

/// A contact sheet is drawn only when the configuration asks for one, right
/// after the MP4 file was made.
pub proof fn lemma_contact_sheet_only_when_enabled(plan: SessionPlan, stage: SessionStage, outcome: StepOutcome)
    requires
        session_step(plan, stage, outcome).1 is DrawContactSheet,
    ensures
        plan.contact_sheet,
        stage == SessionStage::Converting,
        outcome == StepOutcome::Succeeded,
{
}

/// When every step succeeds, a session does exactly what
/// `successful_session_actions` lists, and is then over.
pub proof fn lemma_successful_session(plan: SessionPlan)
    ensures
        succeeding_actions(plan, SessionStage::Preparing, successful_session_actions(plan).len())
            == successful_session_actions(plan),
        stage_after_succeeding(plan, SessionStage::Preparing, successful_session_actions(plan).len())
            == SessionStage::Finished,
{
    reveal_with_fuel(succeeding_actions, 7);
    reveal_with_fuel(stage_after_succeeding, 7);
    assert(succeeding_actions(plan, SessionStage::Preparing, successful_session_actions(plan).len())
        =~= successful_session_actions(plan));
}

/// Once the directory is there, the session records the plan's playback URL
/// into the plan's transport stream path, both handed to ffmpeg unchanged.
pub proof fn lemma_recording_uses_plan(plan: SessionPlan)
    ensures
        session_step(plan, SessionStage::Preparing, StepOutcome::Succeeded).1 matches ActionView::Record(c)
            && c.program == "ffmpeg"@ && c.args[1] == plan.playback_url@ && c.args[c.args.len() - 1]
            == plan.ts_path@,
{
}

/// After the recording, a converting session remuxes the plan's transport
/// stream into the plan's MP4 path; otherwise it renames the one to the
/// other.
pub proof fn lemma_conversion_uses_plan(plan: SessionPlan)
    ensures
        plan.convert ==> (session_step(plan, SessionStage::Recording, StepOutcome::Succeeded).1 matches ActionView::Remux(c)
            && c.program == "ffmpeg"@ && c.args[1] == plan.ts_path@ && c.args[c.args.len() - 1] == plan.mp4_path@),
        !plan.convert ==> session_step(plan, SessionStage::Recording, StepOutcome::Succeeded).1
            == ActionView::RenameToMp4,
{
}

/// The contact sheet is drawn from the plan's MP4 path into the plan's sheet
/// path.
pub proof fn lemma_contact_sheet_uses_plan(plan: SessionPlan)
    requires
        plan.contact_sheet,
    ensures
        session_step(plan, SessionStage::Converting, StepOutcome::Succeeded).1 matches ActionView::DrawContactSheet(c)
            && c.program == "./mt"@ && c.args[c.args.len() - 1] == plan.mp4_path@ && c.args.contains(
            "--output="@ + plan.jpg_path@,
        ),
{
    let c = contact_sheet_command_spec(plan.jpg_path@, plan.mp4_path@);
    assert(c.args[5] == "--output="@ + plan.jpg_path@);
}

/// A session rests 130 seconds before it completes, whatever its plan.
pub proof fn lemma_session_rests_before_completing(plan: SessionPlan, stage: SessionStage, outcome: StepOutcome)
    ensures
        (session_step(plan, stage, outcome).1 matches ActionView::Rest(secs) ==> secs == 130
            && session_step(plan, session_step(plan, stage, outcome).0, StepOutcome::Succeeded).1
            == ActionView::Complete),
        session_step(plan, stage, outcome).1 == ActionView::Complete ==> stage == SessionStage::Resting
            || stage == SessionStage::Finished,
{
}

} // verus!
