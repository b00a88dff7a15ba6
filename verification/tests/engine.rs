use voice_input::actions::{
    finish_dispatch, follow_up_steps, plan_finish, resolve_full_transcription,
    settings_window_plan, start_steps, stop_steps, FinishDispatch, FinishPlan, FollowUpStep,
    RawTextResolution, StartStep, StopStep, TranscribeOutcome, WindowDirective,
};
use voice_input::keys::{keystroke_plan, KeyDirection, KeystrokePlan};
use voice_input::post_process::{
    apply_script_conversion, assemble_post_process_output, llm_rewrite_result,
    maybe_convert_chinese_variant, maybe_needs_chinese_conversion, plan_llm_rewrite, ChatOutcome,
};
use voice_input::router::{
    action_registry, handle_shortcut_event, signal_binding_id, ActionKind, RouterDecision,
    RouterState, SessionSignal,
};
use voice_input::settings::{AppSettings, PostProcessProvider, PromptTemplate};
use voice_input::streaming::{
    should_transcribe, StreamingState, FORCE_FINALIZE_SAMPLES, MAX_CHUNK_SAMPLES,
};
use voice_input::voice_commands::{KeyAction, VoiceAction};

fn plain_settings(language: &str) -> AppSettings {
    AppSettings {
        push_to_talk: true,
        always_on_microphone: true,
        selected_language: language.to_string(),
        voice_commands_enabled: true,
        post_process_provider: None,
        post_process_models: Vec::new(),
        post_process_api_keys: Vec::new(),
        post_process_prompts: Vec::new(),
        post_process_selected_prompt_id: None,
    }
}

fn llm_settings() -> AppSettings {
    AppSettings {
        push_to_talk: false,
        always_on_microphone: false,
        selected_language: "en".to_string(),
        voice_commands_enabled: true,
        post_process_provider: Some(PostProcessProvider {
            id: "openai".to_string(),
            base_url: "https://api.openai.com/v1".to_string(),
        }),
        post_process_models: vec![("openai".to_string(), "gpt-4".to_string())],
        post_process_api_keys: vec![("openai".to_string(), "sk-test".to_string())],
        post_process_prompts: vec![PromptTemplate {
            id: "fix".to_string(),
            prompt: "Fix this: ${output}".to_string(),
        }],
        post_process_selected_prompt_id: Some("fix".to_string()),
    }
}

// ── Streaming state ─────────────────────────────────────────────

#[test]
fn streaming_stable_count_resets_on_change() {
    let mut st = StreamingState::new();
    st.apply_partial(9000, &"hello".to_string());
    assert_eq!(st.stable_count, 0);
    st.apply_partial(10000, &"hello".to_string());
    assert_eq!(st.stable_count, 1);
    st.apply_partial(11000, &"hello".to_string());
    assert_eq!(st.stable_count, 2);
    st.apply_partial(12000, &"hello there".to_string());
    assert_eq!(st.stable_count, 0);
}

#[test]
fn streaming_finalizes_stable_long_chunk() {
    let mut st = StreamingState::new();
    st.apply_partial(MAX_CHUNK_SAMPLES, &"chunk one".to_string());
    st.apply_partial(MAX_CHUNK_SAMPLES, &"chunk one".to_string());
    assert_eq!(st.finalized_offset, 0);
    let shown = st.apply_partial(MAX_CHUNK_SAMPLES, &"chunk one".to_string());
    assert_eq!(st.finalized_offset, MAX_CHUNK_SAMPLES);
    assert_eq!(st.finalized_text, "chunk one");
    assert_eq!(st.stable_count, 0);
    assert_eq!(st.prev_partial, "");
    assert!(shown.is_none());
}

#[test]
fn streaming_hard_cap_overrides_stability() {
    // A 20.5 s span whose text is still changing is finalized anyway.
    let mut st = StreamingState::new();
    st.apply_partial(16000, &"first draft".to_string());
    let span = FORCE_FINALIZE_SAMPLES + 8000;
    let shown = st.apply_partial(span, &"second draft".to_string());
    assert_eq!(st.finalized_offset, span);
    assert_eq!(st.finalized_text, "second draft");
    assert_eq!(shown.as_deref(), Some("second draft"));
}

#[test]
fn streaming_display_joins_finalized_and_partial() {
    let mut st = StreamingState::new();
    st.apply_partial(FORCE_FINALIZE_SAMPLES, &"part one".to_string());
    let shown = st.apply_partial(9000, &"part two".to_string());
    assert_eq!(shown.as_deref(), Some("part one part two"));
    let again = st.apply_partial(9000, &"part two".to_string());
    assert!(again.is_none(), "unchanged text is not re-emitted");
}

#[test]
fn streaming_offset_never_decreases() {
    let mut st = StreamingState::new();
    let mut last = 0;
    let partials = ["a", "b", "b", "b", "c", "c", "c", "c"];
    for p in partials {
        st.apply_partial(MAX_CHUNK_SAMPLES + 1000, &p.to_string());
        assert!(st.finalized_offset >= last);
        last = st.finalized_offset;
    }
}

#[test]
fn streaming_short_chunk_not_transcribed() {
    assert!(!should_transcribe(7999));
    assert!(should_transcribe(8000));
}

#[test]
fn streaming_streamed_text_requires_display() {
    let st = StreamingState::new();
    assert!(st.streamed_text().is_none());
    let mut st = StreamingState::new();
    st.apply_partial(9000, &"live text".to_string());
    assert_eq!(st.streamed_text().as_deref(), Some("live text"));
}

// ── Event routing ───────────────────────────────────────────────

#[test]
fn router_unknown_binding_ignored() {
    let reg = action_registry();
    let mut st = RouterState::new();
    let d = handle_shortcut_event(&reg, &mut st, "mystery", true, 10_000, true, false);
    assert_eq!(d, RouterDecision::Ignore);
}

#[test]
fn router_cancel_only_fires_while_recording() {
    let reg = action_registry();
    let mut st = RouterState::new();
    let idle = handle_shortcut_event(&reg, &mut st, "cancel", true, 10_000, true, false);
    assert_eq!(idle, RouterDecision::Ignore);
    let recording = handle_shortcut_event(&reg, &mut st, "cancel", true, 10_000, true, true);
    assert_eq!(recording, RouterDecision::Start(ActionKind::Cancel));
    let release = handle_shortcut_event(&reg, &mut st, "cancel", false, 10_000, true, true);
    assert_eq!(release, RouterDecision::Ignore);
}

#[test]
fn router_push_to_talk_swallows_early_release() {
    let reg = action_registry();
    let mut st = RouterState::new();
    let press = handle_shortcut_event(&reg, &mut st, "transcribe", true, 10_000, true, false);
    assert_eq!(
        press,
        RouterDecision::Start(ActionKind::Transcribe { post_process: false })
    );
    // A release 500 ms later is treated as spurious; the session stays on.
    let early = handle_shortcut_event(&reg, &mut st, "transcribe", false, 10_500, true, false);
    assert_eq!(early, RouterDecision::Ignore);
    // A genuine release after the guard window stops the session.
    let late = handle_shortcut_event(&reg, &mut st, "transcribe", false, 11_000, true, false);
    assert_eq!(
        late,
        RouterDecision::Stop(ActionKind::Transcribe { post_process: false })
    );
}

#[test]
fn router_toggle_presses_collapse_within_debounce() {
    let reg = action_registry();
    let mut st = RouterState::new();
    let first = handle_shortcut_event(&reg, &mut st, "transcribe", true, 10_000, false, false);
    assert_eq!(
        first,
        RouterDecision::Start(ActionKind::Transcribe { post_process: false })
    );
    // A key-repeat press 300 ms later collapses into the first transition.
    let repeat = handle_shortcut_event(&reg, &mut st, "transcribe", true, 10_300, false, false);
    assert_eq!(repeat, RouterDecision::Ignore);
    // A deliberate press later flips the toggle off.
    let second = handle_shortcut_event(&reg, &mut st, "transcribe", true, 11_000, false, false);
    assert_eq!(
        second,
        RouterDecision::Stop(ActionKind::Transcribe { post_process: false })
    );
}

#[test]
fn router_toggle_releases_are_ignored() {
    let reg = action_registry();
    let mut st = RouterState::new();
    handle_shortcut_event(&reg, &mut st, "transcribe", true, 10_000, false, false);
    let release = handle_shortcut_event(&reg, &mut st, "transcribe", false, 12_000, false, false);
    assert_eq!(release, RouterDecision::Ignore);
}

#[test]
fn router_settings_toggle_on_press_only() {
    let reg = action_registry();
    let mut st = RouterState::new();
    let press = handle_shortcut_event(&reg, &mut st, "toggle_settings", true, 10_000, true, false);
    assert_eq!(press, RouterDecision::Start(ActionKind::ToggleSettings));
    let release =
        handle_shortcut_event(&reg, &mut st, "toggle_settings", false, 10_900, true, false);
    assert_eq!(release, RouterDecision::Ignore);
}

#[test]
fn router_signal_bindings() {
    assert_eq!(signal_binding_id(SessionSignal::PlainTranscribe), "transcribe");
    assert_eq!(
        signal_binding_id(SessionSignal::PostProcessTranscribe),
        "transcribe_with_post_process"
    );
}

// ── Session plans ───────────────────────────────────────────────

#[test]
fn start_plan_orders_mute_after_sound() {
    for always_on in [true, false] {
        let steps = start_steps(always_on);
        let sound = steps.iter().position(|s| *s == StartStep::PlayStartSound).unwrap();
        assert_eq!(steps[sound + 1], StartStep::ApplyMute);
        let capture = steps.iter().position(|s| *s == StartStep::StartCapture).unwrap();
        assert!(capture < sound);
    }
}

#[test]
fn start_plan_on_demand_waits_for_stream() {
    let steps = start_steps(false);
    assert!(steps.contains(&StartStep::WaitForStream { ms: 100 }));
    let steps = start_steps(true);
    assert!(!steps.contains(&StartStep::WaitForStream { ms: 100 }));
}

#[test]
fn follow_up_plan_spawns_loop_last() {
    let steps = follow_up_steps();
    assert_eq!(
        steps,
        vec![
            FollowUpStep::RegisterCancelHotkey,
            FollowUpStep::ResetStreamingState,
            FollowUpStep::SpawnStreamingLoop,
        ]
    );
}

#[test]
fn stop_plan_clears_flag_before_join_and_unmutes_before_sound() {
    let steps = stop_steps();
    let clear = steps.iter().position(|s| *s == StopStep::ClearStreamingFlag).unwrap();
    let take = steps.iter().position(|s| *s == StopStep::TakeJoinHandle).unwrap();
    let unmute = steps.iter().position(|s| *s == StopStep::RemoveMute).unwrap();
    let sound = steps.iter().position(|s| *s == StopStep::PlayStopSound).unwrap();
    let spawn = steps.iter().position(|s| *s == StopStep::SpawnFinishTask).unwrap();
    assert!(clear < take);
    assert!(unmute < sound);
    assert_eq!(spawn, steps.len() - 1);
}

#[test]
fn settings_window_plan_flips_visibility() {
    assert_eq!(settings_window_plan(true), WindowDirective::Hide);
    assert_eq!(settings_window_plan(false), WindowDirective::ShowAndFocus);
}

// ── Finish pipeline ─────────────────────────────────────────────

#[test]
fn finish_without_samples_aborts_to_idle() {
    // A session stopped immediately: no captured samples, whatever else holds.
    let p = plan_finish(false, &Some("streamed".to_string()), true, true);
    assert!(matches!(p, FinishPlan::AbortToIdle));
    let p = plan_finish(false, &None, false, false);
    assert!(matches!(p, FinishPlan::AbortToIdle));
    // And empty final text injects nothing either.
    let d = finish_dispatch(&String::new(), true);
    assert!(matches!(d, FinishDispatch::AbortToIdle));
}

#[test]
fn finish_fast_path_uses_streamed_text() {
    // Push-to-talk on the plain binding, always-on microphone, non-conversion
    // language, no post-processing: the streamed text is used directly and
    // pasted; no full transcription is requested.
    let settings = plain_settings("en");
    let reg = action_registry();
    let mut router = RouterState::new();
    let press = handle_shortcut_event(&reg, &mut router, "transcribe", true, 50_000, true, false);
    assert_eq!(
        press,
        RouterDecision::Start(ActionKind::Transcribe { post_process: false })
    );
    assert_eq!(start_steps(settings.always_on_microphone).first(), Some(&StartStep::WarmUpModel));

    let mut st = StreamingState::new();
    st.apply_partial(160_000, &"hello world".to_string());
    let release =
        handle_shortcut_event(&reg, &mut router, "transcribe", false, 70_000, true, false);
    assert_eq!(
        release,
        RouterDecision::Stop(ActionKind::Transcribe { post_process: false })
    );

    let streamed = st.streamed_text();
    let needs_conversion = maybe_needs_chinese_conversion(&settings);
    assert!(!needs_conversion);
    let plan = plan_finish(true, &streamed, false, needs_conversion);
    match plan {
        FinishPlan::FastPath { text } => {
            let dispatch = finish_dispatch(&text, settings.voice_commands_enabled);
            match dispatch {
                FinishDispatch::Paste(t) => assert_eq!(t, "hello world"),
                _ => panic!("expected a paste"),
            }
        }
        _ => panic!("expected the fast path"),
    }
}

#[test]
fn finish_quality_path_runs_rewrite() {
    // Toggle press on the post-process binding with provider, model and
    // prompt configured: full transcription runs, the rewrite replaces the
    // text, and the result is pasted.
    let settings = llm_settings();
    let reg = action_registry();
    let mut router = RouterState::new();
    let press = handle_shortcut_event(
        &reg,
        &mut router,
        "transcribe_with_post_process",
        true,
        50_000,
        settings.push_to_talk,
        false,
    );
    assert_eq!(
        press,
        RouterDecision::Start(ActionKind::Transcribe { post_process: true })
    );

    let streamed = Some("rough streamed text".to_string());
    let needs_conversion = maybe_needs_chinese_conversion(&settings);
    let plan = plan_finish(true, &streamed, true, needs_conversion);
    assert!(matches!(plan, FinishPlan::QualityPath));

    let full = TranscribeOutcome::Text("helo wrold".to_string());
    let raw = match resolve_full_transcription(&streamed, &full) {
        RawTextResolution::PostProcess(raw) => raw,
        _ => panic!("expected post-processing of the full transcription"),
    };

    let converted = apply_script_conversion(&settings, &raw);
    assert_eq!(converted, "helo wrold");
    let request = plan_llm_rewrite(&settings, &converted).expect("rewrite fully configured");
    assert_eq!(request.provider_id, "openai");
    assert_eq!(request.base_url, "https://api.openai.com/v1");
    assert_eq!(request.model, "gpt-4");
    assert_eq!(request.api_key, "sk-test");
    assert_eq!(request.prompt, "Fix this: helo wrold");

    let rewrite = llm_rewrite_result(&ChatOutcome::Content("hello world".to_string()));
    let out = assemble_post_process_output(
        &raw,
        &converted,
        &rewrite,
        &Some("Fix this: ${output}".to_string()),
    );
    assert_eq!(out.final_text, "hello world");
    assert_eq!(out.post_processed_text.as_deref(), Some("hello world"));
    assert_eq!(out.post_process_prompt.as_deref(), Some("Fix this: ${output}"));

    let dispatch = finish_dispatch(&out.final_text, settings.voice_commands_enabled);
    match dispatch {
        FinishDispatch::Paste(t) => assert_eq!(t, "hello world"),
        _ => panic!("expected a paste"),
    }
}

#[test]
fn finish_failed_transcription_falls_back_to_streamed() {
    let streamed = Some("streamed".to_string());
    let failed = TranscribeOutcome::Failed("engine gone".to_string());
    match resolve_full_transcription(&streamed, &failed) {
        RawTextResolution::UseAsIs(t) => assert_eq!(t, "streamed"),
        _ => panic!("expected fallback to streamed text"),
    }
    match resolve_full_transcription(&None, &failed) {
        RawTextResolution::Abort => {}
        _ => panic!("expected abort without streamed text"),
    }
}

#[test]
fn finish_empty_transcription_aborts_without_streamed() {
    let empty = TranscribeOutcome::Text(String::new());
    match resolve_full_transcription(&None, &empty) {
        RawTextResolution::Abort => {}
        _ => panic!("expected abort on empty transcription"),
    }
}

#[test]
fn finish_dispatch_executes_voice_command() {
    let d = finish_dispatch(&"press enter".to_string(), true);
    match d {
        FinishDispatch::ExecuteCommand(cmd) => {
            assert_eq!(cmd.action, VoiceAction::KeyPress(KeyAction::Enter));
        }
        _ => panic!("expected a command"),
    }
    // With voice commands disabled the same text is pasted.
    let d = finish_dispatch(&"press enter".to_string(), false);
    assert!(matches!(d, FinishDispatch::Paste(t) if t == "press enter"));
}

// ── Post-processing ─────────────────────────────────────────────

#[test]
fn rewrite_skipped_without_prompt() {
    // post_process requested, but no prompt selected: no request exists, and
    // the final text equals the (possibly converted) original.
    let mut settings = llm_settings();
    settings.post_process_selected_prompt_id = None;
    assert!(plan_llm_rewrite(&settings, "some text").is_none());
    let converted = apply_script_conversion(&settings, "some text");
    let out = assemble_post_process_output("some text", &converted, &None, &None);
    assert_eq!(out.final_text, "some text");
    assert!(out.post_processed_text.is_none());
    assert!(out.post_process_prompt.is_none());
}

#[test]
fn rewrite_skipped_on_blank_model() {
    let mut settings = llm_settings();
    settings.post_process_models = vec![("openai".to_string(), "   ".to_string())];
    assert!(plan_llm_rewrite(&settings, "text").is_none());
}

#[test]
fn rewrite_skipped_on_unknown_prompt_id() {
    let mut settings = llm_settings();
    settings.post_process_selected_prompt_id = Some("missing".to_string());
    assert!(plan_llm_rewrite(&settings, "text").is_none());
}

#[test]
fn rewrite_failure_keeps_prior_text() {
    assert!(llm_rewrite_result(&ChatOutcome::RequestFailed("status 500".to_string())).is_none());
    assert!(llm_rewrite_result(&ChatOutcome::NoContent).is_none());
    assert!(llm_rewrite_result(&ChatOutcome::Content(String::new())).is_none());
    // Content made only of invisible marks sanitizes to nothing and is
    // treated the same as no content.
    let marks = "\u{200B}\u{200C}\u{200D}\u{FEFF}".to_string();
    assert!(llm_rewrite_result(&ChatOutcome::Content(marks)).is_none());
}

#[test]
fn rewrite_strips_invisible_marks() {
    let noisy = format!("hel\u{200B}lo\u{200C} wo\u{200D}rld\u{FEFF}");
    match llm_rewrite_result(&ChatOutcome::Content(noisy)) {
        Some(clean) => assert_eq!(clean, "hello world"),
        None => panic!("expected content"),
    }
}

#[test]
fn conversion_only_for_designated_languages() {
    for lang in ["en", "ru", "ja", "zh"] {
        let settings = plain_settings(lang);
        assert!(!maybe_needs_chinese_conversion(&settings));
        assert!(maybe_convert_chinese_variant(&settings, "床前明月光").is_none());
        assert_eq!(apply_script_conversion(&settings, "床前明月光"), "床前明月光");
    }
    assert!(maybe_needs_chinese_conversion(&plain_settings("zh-Hans")));
    assert!(maybe_needs_chinese_conversion(&plain_settings("zh-Hant")));
}

#[test]
fn conversion_rewrites_between_scripts() {
    // zh-Hans converts Traditional to Simplified.
    let settings = plain_settings("zh-Hans");
    let converted = maybe_convert_chinese_variant(&settings, "軟體").expect("ruleset loads");
    assert_eq!(converted, "软件");
    // zh-Hant converts Simplified to Traditional, with Taiwan phrasing.
    let settings = plain_settings("zh-Hant");
    let converted = maybe_convert_chinese_variant(&settings, "软件").expect("ruleset loads");
    assert_eq!(converted, "軟體");
}

#[test]
fn conversion_result_recorded_for_history() {
    let settings = plain_settings("zh-Hans");
    let converted = apply_script_conversion(&settings, "軟體");
    let out = assemble_post_process_output("軟體", &converted, &None, &None);
    assert_eq!(out.final_text, "软件");
    assert_eq!(out.post_processed_text.as_deref(), Some("软件"));
    assert!(out.post_process_prompt.is_none());
}

// ── Keystroke plans ─────────────────────────────────────────────

#[test]
fn keystroke_plan_single_press_clicks_once() {
    match keystroke_plan(&VoiceAction::KeyPress(KeyAction::Enter)) {
        KeystrokePlan::Keys(events) => {
            assert_eq!(events, vec![(KeyAction::Enter, KeyDirection::Click)]);
        }
        KeystrokePlan::Type(_) => panic!("expected key events"),
    }
}

#[test]
fn keystroke_plan_combo_frames_with_modifiers() {
    let combo = VoiceAction::KeyCombo(vec![
        KeyAction::Control,
        KeyAction::Key('a'),
        KeyAction::Delete,
    ]);
    match keystroke_plan(&combo) {
        KeystrokePlan::Keys(events) => {
            assert_eq!(
                events,
                vec![
                    (KeyAction::Control, KeyDirection::Press),
                    (KeyAction::Key('a'), KeyDirection::Click),
                    (KeyAction::Delete, KeyDirection::Click),
                    (KeyAction::Control, KeyDirection::Release),
                ]
            );
        }
        KeystrokePlan::Type(_) => panic!("expected key events"),
    }
}

#[test]
fn keystroke_plan_releases_modifiers_in_reverse() {
    let combo = VoiceAction::KeyCombo(vec![
        KeyAction::Control,
        KeyAction::Shift,
        KeyAction::Key('z'),
    ]);
    match keystroke_plan(&combo) {
        KeystrokePlan::Keys(events) => {
            assert_eq!(
                events,
                vec![
                    (KeyAction::Control, KeyDirection::Press),
                    (KeyAction::Shift, KeyDirection::Press),
                    (KeyAction::Key('z'), KeyDirection::Click),
                    (KeyAction::Shift, KeyDirection::Release),
                    (KeyAction::Control, KeyDirection::Release),
                ]
            );
        }
        KeystrokePlan::Type(_) => panic!("expected key events"),
    }
}

#[test]
fn keystroke_plan_types_literal_text() {
    match keystroke_plan(&VoiceAction::TypeText(".".to_string())) {
        KeystrokePlan::Type(t) => assert_eq!(t, "."),
        KeystrokePlan::Keys(_) => panic!("expected typed text"),
    }
}
