//! Coordination engine for a hotkey-triggered voice-to-text utility.
//!
//! The library holds the verified logic of the engine: hotkey-event routing
//! with debounce, the per-binding start/stop state machine, the chunked
//! streaming-transcription state with its finalize heuristics, the finishing
//! pipeline that reconciles streamed text against a full re-transcription,
//! the post-processing chain (script conversion, LLM rewrite planning), and
//! the voice-command matcher. Capture, transcription inference, keystroke
//! injection, networking and UI stay outside, behind plain-value interfaces.

use vstd::prelude::*;

pub mod actions;
pub mod keys;
pub mod llm_client;
pub mod post_process;
pub mod router;
pub mod settings;
pub mod streaming;
pub mod text;
pub mod tray_i18n;
pub mod voice_commands;

verus! {

/// Audio sample rate the transcription engine expects, in samples per second.
pub const WHISPER_SAMPLE_RATE: usize = 16000;

} // verus!
