//! Binding actions: session start/stop plans and the finishing pipeline's
//! decisions.
//!
//! The transcribe action is a small state machine: Idle, Recording,
//! Stopping, Finishing, back to Idle. Starting and stopping are ordered
//! effect sequences — capture, feedback sound, mute, hotkey registration,
//! streaming thread — that the surrounding application executes step by
//! step; the sequences themselves, with the orderings that matter (mute
//! always follows the start sound, the stop flag is cleared before the
//! join), are decided and proved here. The finishing pipeline reconciles
//! streamed text against a full re-transcription and decides what, if
//! anything, is injected; every terminal decision returns the session to
//! idle.

use vstd::prelude::*;
use vstd::string::*;

use crate::voice_commands::{voice_match, VoiceCommand, VoiceCommandResult, check_voice_command};

verus! {

/// One effect in a session-start plan.
#[derive(Debug, Clone, Copy, PartialEq, Eq, Structural)]
pub enum StartStep {
    /// Kick off the idempotent background model load.
    WarmUpModel,
    /// Switch the tray icon to the recording state.
    SetTrayRecording,
    /// Show the recording overlay.
    ShowRecordingOverlay,
    /// Begin microphone capture for the binding.
    StartCapture,
    /// Wait for the capture stream to stabilize, in milliseconds.
    WaitForStream { ms: u64 },
    /// Play the start feedback sound to completion.
    PlayStartSound,
    /// Mute system input; always ordered after the start sound.
    ApplyMute,
}

/// One effect in a session-stop plan.
#[derive(Debug, Clone, Copy, PartialEq, Eq, Structural)]
pub enum StopStep {
    /// Clear the streaming loop's active flag; never blocks.
    ClearStreamingFlag,
    /// Take the streaming thread's join handle for the finish task.
    TakeJoinHandle,
    /// Unregister the transient cancel hotkey.
    UnregisterCancelHotkey,
    /// Switch the tray icon to the transcribing state.
    SetTrayTranscribing,
    /// Show the transcribing overlay.
    ShowTranscribingOverlay,
    /// Unmute system input so the stop sound is audible.
    RemoveMute,
    /// Play the stop feedback sound.
    PlayStopSound,
    /// Schedule the asynchronous finish task.
    SpawnFinishTask,
}

/// The start plan for the given microphone mode. Always-on capture starts
/// immediately; on-demand capture starts first and waits ~100 ms for the
/// stream before feedback. Both end with the sound, then the mute.
pub open spec fn start_plan(always_on: bool) -> Seq<StartStep> {
    if always_on {
        seq![
            StartStep::WarmUpModel,
            StartStep::SetTrayRecording,
            StartStep::ShowRecordingOverlay,
            StartStep::StartCapture,
            StartStep::PlayStartSound,
            StartStep::ApplyMute,
        ]
    } else {
        seq![
            StartStep::WarmUpModel,
            StartStep::SetTrayRecording,
            StartStep::ShowRecordingOverlay,
            StartStep::StartCapture,
            StartStep::WaitForStream { ms: 100 },
            StartStep::PlayStartSound,
            StartStep::ApplyMute,
        ]
    }
}

/// Builds the start plan for a session.
pub fn start_steps(always_on: bool) -> (v: Vec<StartStep>)
    ensures
        v@ == start_plan(always_on),
{
    let mut v: Vec<StartStep> = Vec::new();
    v.push(StartStep::WarmUpModel);
    v.push(StartStep::SetTrayRecording);
    v.push(StartStep::ShowRecordingOverlay);
    v.push(StartStep::StartCapture);
    if !always_on {
        v.push(StartStep::WaitForStream { ms: 100 });
    }
    v.push(StartStep::PlayStartSound);
    v.push(StartStep::ApplyMute);
    proof {
        assert(v@ =~= start_plan(always_on));
    }
    v
}

/// The steps that follow a successful capture start: the transient cancel
/// hotkey, a fresh streaming state, and the streaming thread.
#[derive(Debug, Clone, Copy, PartialEq, Eq, Structural)]
pub enum FollowUpStep {
    RegisterCancelHotkey,
    ResetStreamingState,
    SpawnStreamingLoop,
}

/// The follow-up plan once capture has started.
pub open spec fn follow_up_plan() -> Seq<FollowUpStep> {
    seq![
        FollowUpStep::RegisterCancelHotkey,
        FollowUpStep::ResetStreamingState,
        FollowUpStep::SpawnStreamingLoop,
    ]
}

/// Builds the follow-up plan that runs only when capture started.
pub fn follow_up_steps() -> (v: Vec<FollowUpStep>)
    ensures
        v@ == follow_up_plan(),
{
    let mut v: Vec<FollowUpStep> = Vec::new();
    v.push(FollowUpStep::RegisterCancelHotkey);
    v.push(FollowUpStep::ResetStreamingState);
    v.push(FollowUpStep::SpawnStreamingLoop);
    proof {
        assert(v@ =~= follow_up_plan());
    }
    v
}

/// The stop plan: clear the flag, hand the join handle to the finish task,
/// drop the cancel hotkey, switch the UI to transcribing, unmute, play the
/// stop sound, and schedule the finish task.
pub open spec fn stop_plan() -> Seq<StopStep> {
    seq![
        StopStep::ClearStreamingFlag,
        StopStep::TakeJoinHandle,
        StopStep::UnregisterCancelHotkey,
        StopStep::SetTrayTranscribing,
        StopStep::ShowTranscribingOverlay,
        StopStep::RemoveMute,
        StopStep::PlayStopSound,
        StopStep::SpawnFinishTask,
    ]
}

/// Builds the stop plan for a session.
pub fn stop_steps() -> (v: Vec<StopStep>)
    ensures
        v@ == stop_plan(),
{
    let mut v: Vec<StopStep> = Vec::new();
    v.push(StopStep::ClearStreamingFlag);
    v.push(StopStep::TakeJoinHandle);
    v.push(StopStep::UnregisterCancelHotkey);
    v.push(StopStep::SetTrayTranscribing);
    v.push(StopStep::ShowTranscribingOverlay);
    v.push(StopStep::RemoveMute);
    v.push(StopStep::PlayStopSound);
    v.push(StopStep::SpawnFinishTask);
    proof {
        assert(v@ =~= stop_plan());
    }
    v
}

/// In every start plan the mute is applied directly after the start sound
/// finishes, and capture has started before the sound plays in on-demand
/// mode; in the stop plan the active flag is cleared before the join handle
/// is taken, and the unmute precedes the stop sound.
pub proof fn lemma_plan_orderings(always_on: bool)
    ensures
        ({
            let p = start_plan(always_on);
            exists|i: int|
                0 <= i && i + 1 < p.len() && #[trigger] p[i] == StartStep::PlayStartSound && p[i
                    + 1] == StartStep::ApplyMute
        }),
        ({
            let p = start_plan(always_on);
            forall|i: int, j: int|
                0 <= i < p.len() && 0 <= j < p.len() && p[i] == StartStep::StartCapture && p[j]
                    == StartStep::PlayStartSound ==> i < j
        }),
        ({
            let p = stop_plan();
            forall|i: int, j: int|
                0 <= i < p.len() && 0 <= j < p.len() && p[i] == StopStep::ClearStreamingFlag && p[j]
                    == StopStep::TakeJoinHandle ==> i < j
        }),
        ({
            let p = stop_plan();
            forall|i: int, j: int|
                0 <= i < p.len() && 0 <= j < p.len() && p[i] == StopStep::RemoveMute && p[j]
                    == StopStep::PlayStopSound ==> i < j
        }),
{
    let p = start_plan(always_on);
    if always_on {
        assert(p[4] == StartStep::PlayStartSound && p[5] == StartStep::ApplyMute);
    } else {
        assert(p[5] == StartStep::PlayStartSound && p[6] == StartStep::ApplyMute);
    }
}

/// What the settings-window toggle does for the window's current state.
#[derive(Debug, Clone, Copy, PartialEq, Eq, Structural)]
pub enum WindowDirective {
    /// The window is visible: hide it.
    Hide,
    /// The window is hidden: show it and give it focus.
    ShowAndFocus,
}

/// Decides the settings-window toggle: hide a visible window, show and
/// focus a hidden one.
pub fn settings_window_plan(is_visible: bool) -> (w: WindowDirective)
    ensures
        w == (if is_visible {
            WindowDirective::Hide
        } else {
            WindowDirective::ShowAndFocus
        }),
{
    if is_visible {
        WindowDirective::Hide
    } else {
        WindowDirective::ShowAndFocus
    }
}

/// How the finish pipeline proceeds after the streamed text is taken and
/// the captured samples are retrieved.
pub enum FinishPlan {
    /// No captured samples: nothing is transcribed or injected, the UI
    /// returns to idle.
    AbortToIdle,
    /// Streamed text suffices: it becomes both raw and final text, the
    /// transcription engine is released without being invoked.
    FastPath { text: String },
    /// A full re-transcription over all captured samples is required.
    QualityPath,
}

/// The finish plan as a function of what the session produced: abort
/// without samples; reuse streamed text when nothing would post-process it;
/// otherwise re-transcribe in full.
pub open spec fn finish_plan_model(
    samples_available: bool,
    streamed: Option<Seq<char>>,
    post_process: bool,
    needs_conversion: bool,
) -> FinishPlanModel {
    if !samples_available {
        FinishPlanModel::AbortToIdle
    } else {
        match streamed {
            Some(t) => if !post_process && !needs_conversion {
                FinishPlanModel::FastPath(t)
            } else {
                FinishPlanModel::QualityPath
            },
            None => FinishPlanModel::QualityPath,
        }
    }
}

/// Mathematical model of a [`FinishPlan`].
pub enum FinishPlanModel {
    AbortToIdle,
    FastPath(Seq<char>),
    QualityPath,
}

impl View for FinishPlan {
    type V = FinishPlanModel;

    open spec fn view(&self) -> FinishPlanModel {
        match self {
            FinishPlan::AbortToIdle => FinishPlanModel::AbortToIdle,
            FinishPlan::FastPath { text } => FinishPlanModel::FastPath(text@),
            FinishPlan::QualityPath => FinishPlanModel::QualityPath,
        }
    }
}

/// Chooses the finish path for a stopped session.
pub fn plan_finish(
    samples_available: bool,
    streamed: &Option<String>,
    post_process: bool,
    needs_conversion: bool,
) -> (p: FinishPlan)
    ensures
        p@ == finish_plan_model(
            samples_available,
            match streamed {
                Some(t) => Some(t@),
                None => None,
            },
            post_process,
            needs_conversion,
        ),
{
    if !samples_available {
        return FinishPlan::AbortToIdle;
    }
    match streamed {
        Some(t) => {
            if !post_process && !needs_conversion {
                FinishPlan::FastPath { text: t.clone() }
            } else {
                FinishPlan::QualityPath
            }
        },
        None => FinishPlan::QualityPath,
    }
}

/// What the full transcription produced, as plain data.
pub enum TranscribeOutcome {
    /// The engine returned this text.
    Text(String),
    /// The engine failed with this message.
    Failed(String),
}

/// How the raw text of the session is resolved on the quality path.
pub enum RawTextResolution {
    /// Nothing usable: return to idle without injecting.
    Abort,
    /// This is the raw text; post-processing follows.
    PostProcess(String),
    /// Full transcription failed but streamed text exists: it is used as
    /// the final text directly, skipping post-processing.
    UseAsIs(String),
}

/// Reconciles the full transcription with the streamed text: a successful
/// transcription is post-processed (an empty one aborts unless streamed
/// text exists); a failed transcription falls back to the streamed text
/// unchanged, or aborts when there is none.
pub fn resolve_full_transcription(streamed: &Option<String>, full: &TranscribeOutcome) -> (r:
    RawTextResolution)
    ensures
        match full {
            TranscribeOutcome::Text(t) => {
                if streamed is Some || t@.len() > 0 {
                    r matches RawTextResolution::PostProcess(x) && x@ == t@
                } else {
                    r is Abort
                }
            },
            TranscribeOutcome::Failed(_) => match streamed {
                Some(s) => r matches RawTextResolution::UseAsIs(x) && x@ == s@,
                None => r is Abort,
            },
        },
{
    match full {
        TranscribeOutcome::Text(t) => {
            if streamed.is_some() || !t.as_str().is_empty() {
                RawTextResolution::PostProcess(t.clone())
            } else {
                RawTextResolution::Abort
            }
        },
        TranscribeOutcome::Failed(_) => match streamed {
            Some(s) => RawTextResolution::UseAsIs(s.clone()),
            None => RawTextResolution::Abort,
        },
    }
}

/// The terminal decision of the finish pipeline. Every variant returns the
/// tray and overlay to idle exactly once; only the two non-abort variants
/// touch the focused application.
pub enum FinishDispatch {
    /// Empty final text: restore idle, inject nothing.
    AbortToIdle,
    /// Execute this voice command's keystrokes and hide the overlay.
    ExecuteCommand(VoiceCommand),
    /// Paste this text and show the overlay's done state with it.
    Paste(String),
}

/// Decides what a finished session injects: nothing for empty text, the
/// matched voice command's keystrokes when voice commands are enabled and
/// the text resolves to one, the text itself otherwise.
pub fn finish_dispatch(final_text: &String, voice_commands_enabled: bool) -> (d: FinishDispatch)
    ensures
        final_text@.len() == 0 ==> d is AbortToIdle,
        final_text@.len() > 0 && !voice_commands_enabled ==> (d matches FinishDispatch::Paste(t)
            && t@ == final_text@),
        final_text@.len() > 0 && voice_commands_enabled ==> match voice_match(final_text@) {
            Some(m) => d matches FinishDispatch::ExecuteCommand(c) && c@ == m,
            None => d matches FinishDispatch::Paste(t) && t@ == final_text@,
        },
{
    if final_text.as_str().is_empty() {
        return FinishDispatch::AbortToIdle;
    }
    if !voice_commands_enabled {
        return FinishDispatch::Paste(final_text.clone());
    }
    match check_voice_command(final_text.as_str()) {
        VoiceCommandResult::Command(cmd) => FinishDispatch::ExecuteCommand(cmd),
        VoiceCommandResult::Text(text) => FinishDispatch::Paste(text),
    }
}

/// A session stopped before any samples were captured never injects text:
/// the finish plan aborts straight to idle, whatever the streamed text,
/// post-processing flag or language say.
pub proof fn lemma_no_samples_never_injects(
    streamed: Option<Seq<char>>,
    post_process: bool,
    needs_conversion: bool,
)
    ensures
        finish_plan_model(false, streamed, post_process, needs_conversion)
            == FinishPlanModel::AbortToIdle,
{
}

} // verus!

