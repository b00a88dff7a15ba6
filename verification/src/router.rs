//! Hotkey-event routing.
//!
//! Raw press/release events arrive from the OS hotkey listener with a binding
//! id. The router resolves the binding in an explicit registry, applies the
//! mode-specific debounce — push-to-talk swallows a release that follows its
//! press too closely, toggle mode ignores a second press that follows the
//! last accepted one too closely — and decides whether the binding's action
//! starts, stops, or nothing happens. The caller performs the action; the
//! router never blocks and holds no lock across the action call.

use vstd::prelude::*;
use vstd::string::*;

verus! {

/// A release (push-to-talk) or repeated press (toggle) within this many
/// milliseconds of the previous accepted event is ignored.
pub const DEBOUNCE_MS: u64 = 800;

/// The closed set of actions a binding can carry.
#[derive(Debug, Clone, Copy, PartialEq, Eq, Structural)]
pub enum ActionKind {
    /// Record and transcribe; optionally rewrite the result afterwards.
    Transcribe { post_process: bool },
    /// Show or hide the settings window.
    ToggleSettings,
    /// Cancel the recording in flight.
    Cancel,
    /// Log-only action used to probe hotkey plumbing.
    Test,
}

/// What the caller should do with the resolved binding's action.
#[derive(Debug, Clone, Copy, PartialEq, Eq, Structural)]
pub enum RouterDecision {
    /// No action: unknown binding, debounced, or nothing to do.
    Ignore,
    /// Call the action's start.
    Start(ActionKind),
    /// Call the action's stop.
    Stop(ActionKind),
}

/// A configured hotkey binding.
pub struct Binding {
    /// Identifier the OS listener reports.
    pub id: String,
    /// The action bound to it.
    pub kind: ActionKind,
}

impl View for Binding {
    type V = (Seq<char>, ActionKind);

    open spec fn view(&self) -> (Seq<char>, ActionKind) {
        (self.id@, self.kind)
    }
}

/// The action registered under `id`, if any.
pub open spec fn registry_lookup(reg: Seq<(Seq<char>, ActionKind)>, id: Seq<char>) -> Option<
    ActionKind,
>
    decreases reg.len(),
{
    if reg.len() == 0 {
        None
    } else if reg[0].0 == id {
        Some(reg[0].1)
    } else {
        registry_lookup(reg.drop_first(), id)
    }
}

/// The bindings the engine registers at startup.
pub open spec fn default_registry_model() -> Seq<(Seq<char>, ActionKind)> {
    seq![
        ("transcribe"@, ActionKind::Transcribe { post_process: false }),
        ("transcribe_with_post_process"@, ActionKind::Transcribe { post_process: true }),
        ("toggle_settings"@, ActionKind::ToggleSettings),
        ("cancel"@, ActionKind::Cancel),
        ("test"@, ActionKind::Test),
    ]
}

/// Builds the default binding registry.
pub fn action_registry() -> (reg: Vec<Binding>)
    ensures
        reg@.map_values(|b: Binding| b@) == default_registry_model(),
{
    let mut reg: Vec<Binding> = Vec::new();
    reg.push(
        Binding {
            id: "transcribe".to_owned(),
            kind: ActionKind::Transcribe { post_process: false },
        },
    );
    reg.push(
        Binding {
            id: "transcribe_with_post_process".to_owned(),
            kind: ActionKind::Transcribe { post_process: true },
        },
    );
    reg.push(Binding { id: "toggle_settings".to_owned(), kind: ActionKind::ToggleSettings });
    reg.push(Binding { id: "cancel".to_owned(), kind: ActionKind::Cancel });
    reg.push(Binding { id: "test".to_owned(), kind: ActionKind::Test });
    proof {
        assert(reg@.map_values(|b: Binding| b@) =~= default_registry_model());
    }
    reg
}

/// The two user signals that can drive a session from outside the hotkey
/// listener.
#[derive(Debug, Clone, Copy, PartialEq, Eq, Structural)]
pub enum SessionSignal {
    /// Toggle the plain transcribe binding.
    PlainTranscribe,
    /// Toggle the post-processing transcribe binding.
    PostProcessTranscribe,
}

/// The binding id a session signal drives: the plain signal maps to the
/// plain transcribe binding, the other to the post-processing one. The
/// caller feeds the id to the router as a toggle press.
pub fn signal_binding_id(sig: SessionSignal) -> (r: &'static str)
    ensures
        sig is PlainTranscribe ==> r@ == "transcribe"@,
        sig is PostProcessTranscribe ==> r@ == "transcribe_with_post_process"@,
{
    match sig {
        SessionSignal::PlainTranscribe => "transcribe",
        SessionSignal::PostProcessTranscribe => "transcribe_with_post_process",
    }
}

/// One binding's toggle flag.
pub struct ToggleEntry {
    pub id: String,
    pub active: bool,
}

impl View for ToggleEntry {
    type V = (Seq<char>, bool);

    open spec fn view(&self) -> (Seq<char>, bool) {
        (self.id@, self.active)
    }
}

/// Mutable routing state: the timestamp of the last accepted press and the
/// per-binding toggle flags. Guarded by one lock in the caller; the router
/// only ever touches it synchronously.
pub struct RouterState {
    /// When the last accepted press (or push-to-talk start) happened, in
    /// epoch milliseconds. Zero when cleared.
    pub last_event_ms: u64,
    /// Which toggle-mode bindings are currently active.
    pub toggles: Vec<ToggleEntry>,
}

/// Mathematical model of a [`RouterState`].
pub struct RouterModel {
    pub last_event_ms: int,
    pub toggles: Seq<(Seq<char>, bool)>,
}

impl View for RouterState {
    type V = RouterModel;

    open spec fn view(&self) -> RouterModel {
        RouterModel {
            last_event_ms: self.last_event_ms as int,
            toggles: self.toggles@.map_values(|e: ToggleEntry| e@),
        }
    }
}

/// The toggle flag stored for `id`, if any.
pub open spec fn toggle_lookup(s: Seq<(Seq<char>, bool)>, id: Seq<char>) -> Option<bool>
    decreases s.len(),
{
    if s.len() == 0 {
        None
    } else if s[0].0 == id {
        Some(s[0].1)
    } else {
        toggle_lookup(s.drop_first(), id)
    }
}

/// The toggle flags with `id` set to `v`: the first entry for `id` is
/// replaced, or a new entry appended.
pub open spec fn toggle_set(s: Seq<(Seq<char>, bool)>, id: Seq<char>, v: bool) -> Seq<
    (Seq<char>, bool),
>
    decreases s.len(),
{
    if s.len() == 0 {
        seq![(id, v)]
    } else if s[0].0 == id {
        seq![(id, v)] + s.drop_first()
    } else {
        seq![s[0]] + toggle_set(s.drop_first(), id, v)
    }
}

/// Milliseconds elapsed from `last` to `now`, clamped at zero.
pub open spec fn elapsed_ms(now: int, last: int) -> int {
    if now >= last {
        now - last
    } else {
        0
    }
}

/// The routing transition: from state and event to next state and decision.
///
/// An unknown binding is ignored. Cancel fires only on a press while a
/// recording is active; the settings toggle fires on any press. A transcribe
/// or test binding follows the configured mode: push-to-talk starts on press
/// and stops on release unless the release comes within [`DEBOUNCE_MS`] of
/// the press; toggle mode reacts to presses only, ignores one that follows
/// the last accepted press within [`DEBOUNCE_MS`], and otherwise flips the
/// binding's flag, starting when it becomes active and stopping otherwise.
pub open spec fn route_model(
    reg: Seq<(Seq<char>, ActionKind)>,
    st: RouterModel,
    id: Seq<char>,
    is_pressed: bool,
    now_ms: int,
    push_to_talk: bool,
    is_recording: bool,
) -> (RouterModel, RouterDecision) {
    match registry_lookup(reg, id) {
        None => (st, RouterDecision::Ignore),
        Some(kind) => match kind {
            ActionKind::Cancel => if is_recording && is_pressed {
                (st, RouterDecision::Start(kind))
            } else {
                (st, RouterDecision::Ignore)
            },
            ActionKind::ToggleSettings => if is_pressed {
                (st, RouterDecision::Start(kind))
            } else {
                (st, RouterDecision::Ignore)
            },
            _ => if push_to_talk {
                if is_pressed {
                    (
                        RouterModel { last_event_ms: now_ms, ..st },
                        RouterDecision::Start(kind),
                    )
                } else {
                    if elapsed_ms(now_ms, st.last_event_ms) < DEBOUNCE_MS {
                        (st, RouterDecision::Ignore)
                    } else {
                        (RouterModel { last_event_ms: 0, ..st }, RouterDecision::Stop(kind))
                    }
                }
            } else {
                if !is_pressed {
                    (st, RouterDecision::Ignore)
                } else if st.last_event_ms > 0 && elapsed_ms(now_ms, st.last_event_ms)
                    < DEBOUNCE_MS {
                    (st, RouterDecision::Ignore)
                } else {
                    let was_active = match toggle_lookup(st.toggles, id) {
                        Some(b) => b,
                        None => false,
                    };
                    let next = RouterModel {
                        last_event_ms: now_ms,
                        toggles: toggle_set(st.toggles, id, !was_active),
                    };
                    if !was_active {
                        (next, RouterDecision::Start(kind))
                    } else {
                        (next, RouterDecision::Stop(kind))
                    }
                }
            },
        },
    }
}

proof fn lemma_registry_lookup_found(reg: Seq<(Seq<char>, ActionKind)>, id: Seq<char>, j: int)
    requires
        0 <= j < reg.len(),
        reg[j].0 == id,
        forall|k: int| 0 <= k < j ==> reg[k].0 != id,
    ensures
        registry_lookup(reg, id) == Some(reg[j].1),
    decreases j,
{
    if j > 0 {
        lemma_registry_lookup_found(reg.drop_first(), id, j - 1);
    }
}

proof fn lemma_registry_lookup_missing(reg: Seq<(Seq<char>, ActionKind)>, id: Seq<char>)
    requires
        forall|k: int| 0 <= k < reg.len() ==> reg[k].0 != id,
    ensures
        registry_lookup(reg, id) is None,
    decreases reg.len(),
{
    if reg.len() > 0 {
        lemma_registry_lookup_missing(reg.drop_first(), id);
    }
}

/// Resolves a binding id in the registry.
fn lookup_binding(reg: &Vec<Binding>, id: &String) -> (r: Option<ActionKind>)
    ensures
        r == registry_lookup(reg@.map_values(|b: Binding| b@), id@),
{
    let ghost m = reg@.map_values(|b: Binding| b@);
    let mut i: usize = 0;
    while i < reg.len()
        invariant
            m == reg@.map_values(|b: Binding| b@),
            i <= reg@.len(),
            forall|k: int| 0 <= k < i ==> m[k].0 != id@,
        decreases reg@.len() - i,
    {
        if reg[i].id == *id {
            proof {
                lemma_registry_lookup_found(m, id@, i as int);
            }
            return Some(reg[i].kind);
        }
        i = i + 1;
    }
    proof {
        lemma_registry_lookup_missing(m, id@);
    }
    None
}

proof fn lemma_toggle_lookup_found(s: Seq<(Seq<char>, bool)>, id: Seq<char>, j: int)
    requires
        0 <= j < s.len(),
        s[j].0 == id,
        forall|k: int| 0 <= k < j ==> s[k].0 != id,
    ensures
        toggle_lookup(s, id) == Some(s[j].1),
    decreases j,
{
    if j > 0 {
        lemma_toggle_lookup_found(s.drop_first(), id, j - 1);
    }
}

proof fn lemma_toggle_lookup_missing(s: Seq<(Seq<char>, bool)>, id: Seq<char>)
    requires
        forall|k: int| 0 <= k < s.len() ==> s[k].0 != id,
    ensures
        toggle_lookup(s, id) is None,
    decreases s.len(),
{
    if s.len() > 0 {
        lemma_toggle_lookup_missing(s.drop_first(), id);
    }
}

proof fn lemma_toggle_set_found(s: Seq<(Seq<char>, bool)>, id: Seq<char>, v: bool, j: int)
    requires
        0 <= j < s.len(),
        s[j].0 == id,
        forall|k: int| 0 <= k < j ==> s[k].0 != id,
    ensures
        toggle_set(s, id, v) == s.update(j, (id, v)),
    decreases j,
{
    if j == 0 {
        assert(seq![(id, v)] + s.drop_first() =~= s.update(0, (id, v)));
    } else {
        lemma_toggle_set_found(s.drop_first(), id, v, j - 1);
        assert(seq![s[0]] + s.drop_first().update(j - 1, (id, v)) =~= s.update(j, (id, v)));
    }
}

proof fn lemma_toggle_set_missing(s: Seq<(Seq<char>, bool)>, id: Seq<char>, v: bool)
    requires
        forall|k: int| 0 <= k < s.len() ==> s[k].0 != id,
    ensures
        toggle_set(s, id, v) == s.push((id, v)),
    decreases s.len(),
{
    if s.len() == 0 {
        assert(seq![(id, v)] =~= s.push((id, v)));
    } else {
        lemma_toggle_set_missing(s.drop_first(), id, v);
        assert(seq![s[0]] + s.drop_first().push((id, v)) =~= s.push((id, v)));
    }
}

/// Flips the toggle flag of `id`, inserting an inactive entry first if the
/// binding was never toggled, and reports the new flag.
#[verifier::loop_isolation(false)]
fn flip_toggle(toggles: &mut Vec<ToggleEntry>, id: &String) -> (now_active: bool)
    ensures
        ({
            let m = old(toggles)@.map_values(|e: ToggleEntry| e@);
            let was = match toggle_lookup(m, id@) {
                Some(b) => b,
                None => false,
            };
            &&& now_active == !was
            &&& final(toggles)@.map_values(|e: ToggleEntry| e@) == toggle_set(m, id@, !was)
        }),
{
    let ghost m = toggles@.map_values(|e: ToggleEntry| e@);
    let mut i: usize = 0;
    while i < toggles.len()
        invariant
            m == toggles@.map_values(|e: ToggleEntry| e@),
            i <= toggles@.len(),
            forall|k: int| 0 <= k < i ==> m[k].0 != id@,
        decreases toggles@.len() - i,
    {
        if toggles[i].id == *id {
            let was = toggles[i].active;
            proof {
                assert(m[i as int] == toggles@[i as int]@);
                assert(m[i as int].1 == was);
            }
            let fresh = ToggleEntry { id: id.clone(), active: !was };
            proof {
                assert(fresh@ == (id@, !was));
            }
            toggles[i] = fresh;
            proof {
                lemma_toggle_lookup_found(m, id@, i as int);
                lemma_toggle_set_found(m, id@, !was, i as int);
                assert(toggles@.map_values(|e: ToggleEntry| e@) =~= m.update(
                    i as int,
                    (id@, !was),
                ));
            }
            return !was;
        }
        i = i + 1;
    }
    toggles.push(ToggleEntry { id: id.clone(), active: true });
    proof {
        lemma_toggle_lookup_missing(m, id@);
        lemma_toggle_set_missing(m, id@, true);
        assert(toggles@.map_values(|e: ToggleEntry| e@) =~= m.push((id@, true)));
    }
    true
}

impl RouterState {
    /// A fresh routing state: no timestamp, no active toggles.
    pub fn new() -> (s: RouterState)
        ensures
            s@.last_event_ms == 0,
            s@.toggles.len() == 0,
    {
        RouterState { last_event_ms: 0, toggles: Vec::new() }
    }
}

/// Routes one hotkey event, updating the routing state and returning what to
/// do with the binding's action. The decision follows [`route_model`]
/// exactly; the caller performs the returned action after this call, so no
/// lock around the state is held across the action.
pub fn handle_shortcut_event(
    reg: &Vec<Binding>,
    state: &mut RouterState,
    binding_id: &str,
    is_pressed: bool,
    now_ms: u64,
    push_to_talk: bool,
    is_recording: bool,
) -> (d: RouterDecision)
    ensures
        ({
            let (after, decision) = route_model(
                reg@.map_values(|b: Binding| b@),
                old(state)@,
                binding_id@,
                is_pressed,
                now_ms as int,
                push_to_talk,
                is_recording,
            );
            final(state)@ == after && d == decision
        }),
{
    let id = binding_id.to_owned();
    let kind = match lookup_binding(reg, &id) {
        Some(kind) => kind,
        None => {
            return RouterDecision::Ignore;
        },
    };
    match kind {
        ActionKind::Cancel => {
            if is_recording && is_pressed {
                RouterDecision::Start(kind)
            } else {
                RouterDecision::Ignore
            }
        },
        ActionKind::ToggleSettings => {
            if is_pressed {
                RouterDecision::Start(kind)
            } else {
                RouterDecision::Ignore
            }
        },
        _ => {
            if push_to_talk {
                if is_pressed {
                    state.last_event_ms = now_ms;
                    RouterDecision::Start(kind)
                } else {
                    let elapsed = if now_ms >= state.last_event_ms {
                        now_ms - state.last_event_ms
                    } else {
                        0
                    };
                    if elapsed < DEBOUNCE_MS {
                        RouterDecision::Ignore
                    } else {
                        state.last_event_ms = 0;
                        RouterDecision::Stop(kind)
                    }
                }
            } else {
                if !is_pressed {
                    RouterDecision::Ignore
                } else {
                    let elapsed = if now_ms >= state.last_event_ms {
                        now_ms - state.last_event_ms
                    } else {
                        0
                    };
                    if state.last_event_ms > 0 && elapsed < DEBOUNCE_MS {
                        RouterDecision::Ignore
                    } else {
                        let now_active = flip_toggle(&mut state.toggles, &id);
                        state.last_event_ms = now_ms;
                        if now_active {
                            RouterDecision::Start(kind)
                        } else {
                            RouterDecision::Stop(kind)
                        }
                    }
                }
            }
        },
    }
}

/// Toggle-mode debounce: when a press is accepted at `t0` and a second press
/// of the same binding arrives within [`DEBOUNCE_MS`], the second press is
/// ignored and the state is unchanged — two quick presses collapse into the
/// first press's single transition.
pub proof fn lemma_toggle_presses_collapse(
    reg: Seq<(Seq<char>, ActionKind)>,
    st: RouterModel,
    id: Seq<char>,
    t0: int,
    t1: int,
    is_recording: bool,
)
    requires
        registry_lookup(reg, id) matches Some(kind) && (kind matches ActionKind::Transcribe {
            ..
        } || kind is Test),
        st.last_event_ms == 0 || t0 >= st.last_event_ms + DEBOUNCE_MS,
        0 < t0 <= t1 < t0 + DEBOUNCE_MS,
    ensures
        ({
            let (st1, d1) = route_model(reg, st, id, true, t0, false, is_recording);
            let (st2, d2) = route_model(reg, st1, id, true, t1, false, is_recording);
            st2 == st1 && d2 == RouterDecision::Ignore
        }),
{
}

/// Push-to-talk debounce: a release within [`DEBOUNCE_MS`] of its paired
/// press is swallowed — the decision is to do nothing and the state keeps
/// the press timestamp, so the session stays active until a later, genuine
/// release.
pub proof fn lemma_ptt_early_release_ignored(
    reg: Seq<(Seq<char>, ActionKind)>,
    st: RouterModel,
    id: Seq<char>,
    t0: int,
    t1: int,
    is_recording: bool,
)
    requires
        registry_lookup(reg, id) matches Some(kind) && (kind matches ActionKind::Transcribe {
            ..
        } || kind is Test),
        0 <= t0 <= t1 < t0 + DEBOUNCE_MS,
    ensures
        ({
            let (st1, d1) = route_model(reg, st, id, true, t0, true, is_recording);
            let (st2, d2) = route_model(reg, st1, id, false, t1, true, is_recording);
            &&& d1 == RouterDecision::Start(registry_lookup(reg, id)->0)
            &&& st2 == st1
            &&& d2 == RouterDecision::Ignore
        }),
{
}

} // verus!
