//! Keystroke planning for voice commands.
//!
//! A matched voice command executes as key events. A single key press is
//! one click. A combination presses the modifiers in order, clicks the
//! regular keys in order, then releases the modifiers in reverse order, so
//! every held modifier is let go. Literal text is typed, not pressed. The
//! plan computed here is handed to the platform injection layer outside the
//! library.

use vstd::prelude::*;
use vstd::seq_lib::*;

use crate::voice_commands::{ActionModel, KeyAction, VoiceAction};

verus! {

/// How a planned key is driven.
#[derive(Debug, Clone, Copy, PartialEq, Eq, Structural)]
pub enum KeyDirection {
    /// Hold the key down.
    Press,
    /// Press and release in one stroke.
    Click,
    /// Let the key go.
    Release,
}

/// Whether a key is a modifier that frames a combination.
pub open spec fn is_modifier(k: KeyAction) -> bool {
    k is Control || k is Shift || k is Alt
}

/// Executable twin of [`is_modifier`].
pub fn key_is_modifier(k: KeyAction) -> (r: bool)
    ensures
        r == is_modifier(k),
{
    match k {
        KeyAction::Control => true,
        KeyAction::Shift => true,
        KeyAction::Alt => true,
        _ => false,
    }
}

/// The modifiers of a combination, in their given order.
pub open spec fn modifier_keys(ks: Seq<KeyAction>) -> Seq<KeyAction> {
    ks.filter(|k: KeyAction| is_modifier(k))
}

/// The non-modifier keys of a combination, in their given order.
pub open spec fn regular_keys(ks: Seq<KeyAction>) -> Seq<KeyAction> {
    ks.filter(|k: KeyAction| !is_modifier(k))
}

/// The key events of a combination: modifiers pressed in order, regular
/// keys clicked in order, modifiers released in reverse order.
pub open spec fn combo_events(ks: Seq<KeyAction>) -> Seq<(KeyAction, KeyDirection)> {
    modifier_keys(ks).map_values(|k: KeyAction| (k, KeyDirection::Press)) + regular_keys(
        ks,
    ).map_values(|k: KeyAction| (k, KeyDirection::Click)) + modifier_keys(
        ks,
    ).reverse().map_values(|k: KeyAction| (k, KeyDirection::Release))
}

/// What a voice action asks the injection layer to do.
pub enum KeystrokePlan {
    /// Drive these keys, in order.
    Keys(Vec<(KeyAction, KeyDirection)>),
    /// Type this text literally.
    Type(String),
}

/// Mathematical model of a [`KeystrokePlan`].
pub enum KeystrokePlanModel {
    Keys(Seq<(KeyAction, KeyDirection)>),
    Type(Seq<char>),
}

impl View for KeystrokePlan {
    type V = KeystrokePlanModel;

    open spec fn view(&self) -> KeystrokePlanModel {
        match self {
            KeystrokePlan::Keys(v) => KeystrokePlanModel::Keys(v@),
            KeystrokePlan::Type(s) => KeystrokePlanModel::Type(s@),
        }
    }
}

/// The plan of a voice action: one click for a key press, the framed event
/// sequence for a combination, the literal text for typed punctuation.
pub open spec fn keystroke_plan_model(a: ActionModel) -> KeystrokePlanModel {
    match a {
        ActionModel::Press(k) => KeystrokePlanModel::Keys(seq![(k, KeyDirection::Click)]),
        ActionModel::Combo(ks) => KeystrokePlanModel::Keys(combo_events(ks)),
        ActionModel::Type(t) => KeystrokePlanModel::Type(t),
    }
}

/// Splits a combination into its modifiers and regular keys, kept in order.
fn split_combo(keys: &Vec<KeyAction>) -> (r: (Vec<KeyAction>, Vec<KeyAction>))
    ensures
        r.0@ == modifier_keys(keys@),
        r.1@ == regular_keys(keys@),
{
    let mut mods: Vec<KeyAction> = Vec::new();
    let mut regs: Vec<KeyAction> = Vec::new();
    proof {
        reveal(Seq::filter);
        assert(keys@.subrange(0, 0) =~= Seq::<KeyAction>::empty());
    }
    let mut i: usize = 0;
    while i < keys.len()
        invariant
            i <= keys@.len(),
            mods@ == modifier_keys(keys@.subrange(0, i as int)),
            regs@ == regular_keys(keys@.subrange(0, i as int)),
        decreases keys@.len() - i,
    {
        let k = keys[i];
        if key_is_modifier(k) {
            mods.push(k);
        } else {
            regs.push(k);
        }
        proof {
            reveal(Seq::filter);
            let pre = keys@.subrange(0, i as int);
            let cur = keys@.subrange(0, i + 1);
            assert(cur.drop_last() =~= pre);
            assert(cur.last() == keys@[i as int]);
        }
        i = i + 1;
    }
    proof {
        assert(keys@.subrange(0, keys@.len() as int) =~= keys@);
    }
    (mods, regs)
}

/// Computes the key events a voice action drives.
pub fn keystroke_plan(action: &VoiceAction) -> (p: KeystrokePlan)
    ensures
        p@ == keystroke_plan_model(action@),
{
    match action {
        VoiceAction::KeyPress(k) => {
            let mut v: Vec<(KeyAction, KeyDirection)> = Vec::new();
            v.push((*k, KeyDirection::Click));
            proof {
                assert(v@ =~= seq![(*k, KeyDirection::Click)]);
            }
            KeystrokePlan::Keys(v)
        },
        VoiceAction::KeyCombo(keys) => {
            let (mods, regs) = split_combo(keys);
            let mut events: Vec<(KeyAction, KeyDirection)> = Vec::new();
            let mut i: usize = 0;
            while i < mods.len()
                invariant
                    i <= mods@.len(),
                    events@ == mods@.subrange(0, i as int).map_values(
                        |k: KeyAction| (k, KeyDirection::Press),
                    ),
                decreases mods@.len() - i,
            {
                events.push((mods[i], KeyDirection::Press));
                proof {
                    assert(events@ =~= mods@.subrange(0, i + 1).map_values(
                        |k: KeyAction| (k, KeyDirection::Press),
                    ));
                }
                i = i + 1;
            }
            let ghost press_part = mods@.map_values(|k: KeyAction| (k, KeyDirection::Press));
            proof {
                assert(mods@.subrange(0, mods@.len() as int) =~= mods@);
            }
            let mut j: usize = 0;
            while j < regs.len()
                invariant
                    j <= regs@.len(),
                    events@ == press_part + regs@.subrange(0, j as int).map_values(
                        |k: KeyAction| (k, KeyDirection::Click),
                    ),
                decreases regs@.len() - j,
            {
                events.push((regs[j], KeyDirection::Click));
                proof {
                    assert(events@ =~= press_part + regs@.subrange(0, j + 1).map_values(
                        |k: KeyAction| (k, KeyDirection::Click),
                    ));
                }
                j = j + 1;
            }
            let ghost click_part = regs@.map_values(|k: KeyAction| (k, KeyDirection::Click));
            proof {
                assert(regs@.subrange(0, regs@.len() as int) =~= regs@);
            }
            let mut r: usize = mods.len();
            while r > 0
                invariant
                    r <= mods@.len(),
                    events@ == press_part + click_part + mods@.skip(r as int).reverse().map_values(
                        |k: KeyAction| (k, KeyDirection::Release),
                    ),
                decreases r,
            {
                r = r - 1;
                events.push((mods[r], KeyDirection::Release));
                proof {
                    assert(events@ =~= press_part + click_part + mods@.skip(
                        r as int,
                    ).reverse().map_values(|k: KeyAction| (k, KeyDirection::Release)));
                }
            }
            proof {
                assert(mods@.skip(0) =~= mods@);
                assert(events@ =~= combo_events(keys@));
            }
            KeystrokePlan::Keys(events)
        },
        VoiceAction::TypeText(text) => KeystrokePlan::Type(text.clone()),
    }
}

} // verus!
