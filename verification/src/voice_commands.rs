//! Voice-command matching.
//!
//! Recognizes spoken commands in transcribed text and maps them to keyboard
//! actions, in English and Russian. Matching is exact over the whole
//! normalized phrase — never a substring match — so dictated prose that
//! merely contains a command word is left alone and pasted as text.

use vstd::prelude::*;
use vstd::string::*;

use crate::text::{
    collapse_spaces, collapse_str, lowercase_of, lowercase_str, strip_trailing_punct,
    strip_trailing_punct_str, trim_seq, trim_str,
};

verus! {

/// An individual key the engine can press.
#[derive(Debug, Clone, Copy, PartialEq, Eq, Structural)]
pub enum KeyAction {
    Enter,
    Backspace,
    Delete,
    Tab,
    Escape,
    Space,
    Up,
    Down,
    Left,
    Right,
    Home,
    End,
    PageUp,
    PageDown,
    Control,
    Shift,
    Alt,
    Key(char),
}

/// A keyboard action a recognized command performs.
#[derive(Debug)]
pub enum VoiceAction {
    /// Press a single key.
    KeyPress(KeyAction),
    /// Press a key combination: modifiers held around the regular keys.
    KeyCombo(Vec<KeyAction>),
    /// Type literal text, e.g. for punctuation insertion.
    TypeText(String),
}

/// Mathematical model of a [`VoiceAction`].
pub enum ActionModel {
    Press(KeyAction),
    Combo(Seq<KeyAction>),
    Type(Seq<char>),
}

impl View for VoiceAction {
    type V = ActionModel;

    open spec fn view(&self) -> ActionModel {
        match self {
            VoiceAction::KeyPress(k) => ActionModel::Press(*k),
            VoiceAction::KeyCombo(v) => ActionModel::Combo(v@),
            VoiceAction::TypeText(s) => ActionModel::Type(s@),
        }
    }
}

impl PartialEq for VoiceAction {
    fn eq(&self, other: &VoiceAction) -> (r: bool) {
        match (self, other) {
            (VoiceAction::KeyPress(a), VoiceAction::KeyPress(b)) => *a == *b,
            (VoiceAction::KeyCombo(a), VoiceAction::KeyCombo(b)) => key_actions_eq(a, b),
            (VoiceAction::TypeText(a), VoiceAction::TypeText(b)) => *a == *b,
            _ => {
                proof {
                    assert(self@ != other@);
                }
                false
            },
        }
    }
}

impl vstd::std_specs::cmp::PartialEqSpecImpl for VoiceAction {
    open spec fn obeys_eq_spec() -> bool {
        true
    }

    open spec fn eq_spec(&self, other: &VoiceAction) -> bool {
        self@ == other@
    }
}

/// Compares two key sequences element by element.
fn key_actions_eq(a: &Vec<KeyAction>, b: &Vec<KeyAction>) -> (r: bool)
    ensures
        r == (a@ == b@),
{
    if a.len() != b.len() {
        proof {
            assert(a@ != b@);
        }
        return false;
    }
    let mut i: usize = 0;
    while i < a.len()
        invariant
            a@.len() == b@.len(),
            i <= a@.len(),
            forall|k: int| 0 <= k < i ==> a@[k] == b@[k],
        decreases a@.len() - i,
    {
        if a[i] != b[i] {
            proof {
                assert(a@[i as int] != b@[i as int]);
            }
            return false;
        }
        i = i + 1;
    }
    proof {
        assert(a@ =~= b@);
    }
    true
}

/// Copies a key sequence.
fn copy_keys(v: &Vec<KeyAction>) -> (r: Vec<KeyAction>)
    ensures
        r@ == v@,
{
    let mut out: Vec<KeyAction> = Vec::new();
    let mut i: usize = 0;
    while i < v.len()
        invariant
            i <= v@.len(),
            out@ == v@.subrange(0, i as int),
        decreases v@.len() - i,
    {
        out.push(v[i]);
        proof {
            assert(v@.subrange(0, i as int).push(v@[i as int]) =~= v@.subrange(0, i + 1));
        }
        i = i + 1;
    }
    proof {
        assert(v@.subrange(0, v@.len() as int) =~= v@);
    }
    out
}

impl Clone for VoiceAction {
    fn clone(&self) -> (r: Self)
        ensures
            r@ == self@,
    {
        match self {
            VoiceAction::KeyPress(k) => VoiceAction::KeyPress(*k),
            VoiceAction::KeyCombo(v) => VoiceAction::KeyCombo(copy_keys(v)),
            VoiceAction::TypeText(s) => VoiceAction::TypeText(s.clone()),
        }
    }
}

/// A recognized voice command with its action.
#[derive(Debug)]
pub struct VoiceCommand {
    /// The action to execute.
    pub action: VoiceAction,
    /// Human-readable description.
    pub description: &'static str,
}

/// Mathematical model of a [`VoiceCommand`].
pub struct CommandModel {
    pub action: ActionModel,
    pub description: Seq<char>,
}

impl View for VoiceCommand {
    type V = CommandModel;

    open spec fn view(&self) -> CommandModel {
        CommandModel { action: self.action@, description: self.description@ }
    }
}

impl Clone for VoiceCommand {
    fn clone(&self) -> (r: Self)
        ensures
            r@ == self@,
    {
        VoiceCommand { action: self.action.clone(), description: self.description }
    }
}

/// Result of checking text for voice commands.
#[derive(Debug)]
pub enum VoiceCommandResult {
    /// The text is a voice command: execute this action.
    Command(VoiceCommand),
    /// The text is not a command: paste it as usual.
    Text(String),
}

/// One row of the command table.
pub struct CommandEntry {
    /// The normalized phrase this row matches.
    pub phrase: String,
    /// The command the phrase resolves to.
    pub command: VoiceCommand,
}

impl View for CommandEntry {
    type V = (Seq<char>, CommandModel);

    open spec fn view(&self) -> (Seq<char>, CommandModel) {
        (self.phrase@, self.command@)
    }
}

/// The normal form of dictated text: trimmed, Unicode-lowercased, inner
/// whitespace collapsed to single spaces.
pub open spec fn normal_form(s: Seq<char>) -> Seq<char> {
    collapse_spaces(lowercase_of(trim_seq(s)))
}

/// Normalizes text for command matching: trim, lowercase, collapse spaces.
pub fn normalize(text: &str) -> (r: String)
    ensures
        r@ == normal_form(text@),
{
    let trimmed = trim_str(text);
    let lowered = lowercase_str(trimmed.as_str());
    collapse_str(lowered.as_str())
}

/// A row mapping `p` to a single key press.
pub open spec fn press_row(p: Seq<char>, k: KeyAction, d: Seq<char>) -> (Seq<char>, CommandModel) {
    (p, CommandModel { action: ActionModel::Press(k), description: d })
}

/// A row mapping `p` to a key combination.
pub open spec fn combo_row(p: Seq<char>, ks: Seq<KeyAction>, d: Seq<char>) -> (
    Seq<char>,
    CommandModel,
) {
    (p, CommandModel { action: ActionModel::Combo(ks), description: d })
}

/// A row mapping `p` to literal text.
pub open spec fn typed_row(p: Seq<char>, t: Seq<char>, d: Seq<char>) -> (Seq<char>, CommandModel) {
    (p, CommandModel { action: ActionModel::Type(t), description: d })
}

/// Builds a two-key combination action.
fn combo2(k1: KeyAction, k2: KeyAction) -> (a: VoiceAction)
    ensures
        a@ == ActionModel::Combo(seq![k1, k2]),
{
    let mut v: Vec<KeyAction> = Vec::new();
    v.push(k1);
    v.push(k2);
    proof {
        assert(v@ =~= seq![k1, k2]);
    }
    VoiceAction::KeyCombo(v)
}

/// Builds a three-key combination action.
fn combo3(k1: KeyAction, k2: KeyAction, k3: KeyAction) -> (a: VoiceAction)
    ensures
        a@ == ActionModel::Combo(seq![k1, k2, k3]),
{
    let mut v: Vec<KeyAction> = Vec::new();
    v.push(k1);
    v.push(k2);
    v.push(k3);
    proof {
        assert(v@ =~= seq![k1, k2, k3]);
    }
    VoiceAction::KeyCombo(v)
}

/// Builds a literal-text action.
fn typed(text: &str) -> (a: VoiceAction)
    ensures
        a@ == ActionModel::Type(text@),
{
    VoiceAction::TypeText(text.to_owned())
}

/// Appends one row to the command table.
fn add_cmd(t: &mut Vec<CommandEntry>, phrase: &str, action: VoiceAction, description: &'static str)
    ensures
        final(t)@.map_values(|e: CommandEntry| e@) == old(t)@.map_values(
            |e: CommandEntry| e@,
        ).push((phrase@, (CommandModel { action: action@, description: description@ }))),
{
    let entry = CommandEntry {
        phrase: phrase.to_owned(),
        command: VoiceCommand { action, description },
    };
    t.push(entry);
    proof {
        assert(t@.map_values(|e: CommandEntry| e@) =~= old(t)@.map_values(
            |e: CommandEntry| e@,
        ).push((phrase@, (CommandModel { action: action@, description: description@ }))));
    }
}

/// Rows for Enter and new-line phrases.
pub open spec fn enter_rows() -> Seq<(Seq<char>, CommandModel)> {
    seq![
        press_row("press enter"@, KeyAction::Enter, "Press Enter"@),
        press_row("enter"@, KeyAction::Enter, "Press Enter"@),
        press_row("new line"@, KeyAction::Enter, "Press Enter"@),
        press_row("newline"@, KeyAction::Enter, "Press Enter"@),
        press_row("нажми ввод"@, KeyAction::Enter, "Press Enter"@),
        press_row("ввод"@, KeyAction::Enter, "Press Enter"@),
        press_row("энтер"@, KeyAction::Enter, "Press Enter"@),
        press_row("новая строка"@, KeyAction::Enter, "Press Enter"@),
        press_row("перенос строки"@, KeyAction::Enter, "Press Enter"@),
    ]
}

fn add_enter_cmds(t: &mut Vec<CommandEntry>)
    ensures
        final(t)@.map_values(|e: CommandEntry| e@) == old(t)@.map_values(|e: CommandEntry| e@)
            + enter_rows(),
{
    add_cmd(t, "press enter", VoiceAction::KeyPress(KeyAction::Enter), "Press Enter");
    add_cmd(t, "enter", VoiceAction::KeyPress(KeyAction::Enter), "Press Enter");
    add_cmd(t, "new line", VoiceAction::KeyPress(KeyAction::Enter), "Press Enter");
    add_cmd(t, "newline", VoiceAction::KeyPress(KeyAction::Enter), "Press Enter");
    add_cmd(t, "нажми ввод", VoiceAction::KeyPress(KeyAction::Enter), "Press Enter");
    add_cmd(t, "ввод", VoiceAction::KeyPress(KeyAction::Enter), "Press Enter");
    add_cmd(t, "энтер", VoiceAction::KeyPress(KeyAction::Enter), "Press Enter");
    add_cmd(t, "новая строка", VoiceAction::KeyPress(KeyAction::Enter), "Press Enter");
    add_cmd(t, "перенос строки", VoiceAction::KeyPress(KeyAction::Enter), "Press Enter");
    proof {
        assert(t@.map_values(|e: CommandEntry| e@) =~= old(t)@.map_values(|e: CommandEntry| e@)
            + enter_rows());
    }
}

/// Rows for the remaining single-key phrases.
pub open spec fn key_rows() -> Seq<(Seq<char>, CommandModel)> {
    seq![
        press_row("backspace"@, KeyAction::Backspace, "Backspace"@),
        press_row("delete back"@, KeyAction::Backspace, "Backspace"@),
        press_row("удали символ"@, KeyAction::Backspace, "Backspace"@),
        press_row("бэкспейс"@, KeyAction::Backspace, "Backspace"@),
        press_row("назад удалить"@, KeyAction::Backspace, "Backspace"@),
        press_row("delete"@, KeyAction::Delete, "Delete"@),
        press_row("удали"@, KeyAction::Delete, "Delete"@),
        press_row("удалить"@, KeyAction::Delete, "Delete"@),
        press_row("tab"@, KeyAction::Tab, "Tab"@),
        press_row("press tab"@, KeyAction::Tab, "Tab"@),
        press_row("таб"@, KeyAction::Tab, "Tab"@),
        press_row("табуляция"@, KeyAction::Tab, "Tab"@),
        press_row("нажми таб"@, KeyAction::Tab, "Tab"@),
        press_row("escape"@, KeyAction::Escape, "Escape"@),
        press_row("cancel"@, KeyAction::Escape, "Escape"@),
        press_row("эскейп"@, KeyAction::Escape, "Escape"@),
        press_row("отмена"@, KeyAction::Escape, "Escape"@),
        press_row("space"@, KeyAction::Space, "Space"@),
        press_row("press space"@, KeyAction::Space, "Space"@),
        press_row("пробел"@, KeyAction::Space, "Space"@),
        press_row("нажми пробел"@, KeyAction::Space, "Space"@),
    ]
}

fn add_key_cmds(t: &mut Vec<CommandEntry>)
    ensures
        final(t)@.map_values(|e: CommandEntry| e@) == old(t)@.map_values(|e: CommandEntry| e@)
            + key_rows(),
{
    add_cmd(t, "backspace", VoiceAction::KeyPress(KeyAction::Backspace), "Backspace");
    add_cmd(t, "delete back", VoiceAction::KeyPress(KeyAction::Backspace), "Backspace");
    add_cmd(t, "удали символ", VoiceAction::KeyPress(KeyAction::Backspace), "Backspace");
    add_cmd(t, "бэкспейс", VoiceAction::KeyPress(KeyAction::Backspace), "Backspace");
    add_cmd(t, "назад удалить", VoiceAction::KeyPress(KeyAction::Backspace), "Backspace");
    add_cmd(t, "delete", VoiceAction::KeyPress(KeyAction::Delete), "Delete");
    add_cmd(t, "удали", VoiceAction::KeyPress(KeyAction::Delete), "Delete");
    add_cmd(t, "удалить", VoiceAction::KeyPress(KeyAction::Delete), "Delete");
    add_cmd(t, "tab", VoiceAction::KeyPress(KeyAction::Tab), "Tab");
    add_cmd(t, "press tab", VoiceAction::KeyPress(KeyAction::Tab), "Tab");
    add_cmd(t, "таб", VoiceAction::KeyPress(KeyAction::Tab), "Tab");
    add_cmd(t, "табуляция", VoiceAction::KeyPress(KeyAction::Tab), "Tab");
    add_cmd(t, "нажми таб", VoiceAction::KeyPress(KeyAction::Tab), "Tab");
    add_cmd(t, "escape", VoiceAction::KeyPress(KeyAction::Escape), "Escape");
    add_cmd(t, "cancel", VoiceAction::KeyPress(KeyAction::Escape), "Escape");
    add_cmd(t, "эскейп", VoiceAction::KeyPress(KeyAction::Escape), "Escape");
    add_cmd(t, "отмена", VoiceAction::KeyPress(KeyAction::Escape), "Escape");
    add_cmd(t, "space", VoiceAction::KeyPress(KeyAction::Space), "Space");
    add_cmd(t, "press space", VoiceAction::KeyPress(KeyAction::Space), "Space");
    add_cmd(t, "пробел", VoiceAction::KeyPress(KeyAction::Space), "Space");
    add_cmd(t, "нажми пробел", VoiceAction::KeyPress(KeyAction::Space), "Space");
    proof {
        assert(t@.map_values(|e: CommandEntry| e@) =~= old(t)@.map_values(|e: CommandEntry| e@)
            + key_rows());
    }
}

/// The Ctrl+A selection combo.
pub open spec fn select_all_keys() -> Seq<KeyAction> {
    seq![KeyAction::Control, KeyAction::Key('a')]
}

/// The Ctrl+A-then-Delete combo.
pub open spec fn delete_all_keys() -> Seq<KeyAction> {
    seq![KeyAction::Control, KeyAction::Key('a'), KeyAction::Delete]
}

/// Rows for select-all and delete-all phrases.
pub open spec fn select_rows() -> Seq<(Seq<char>, CommandModel)> {
    seq![
        combo_row("select all"@, select_all_keys(), "Select All (Ctrl+A)"@),
        combo_row("выдели все"@, select_all_keys(), "Select All (Ctrl+A)"@),
        combo_row("выделить все"@, select_all_keys(), "Select All (Ctrl+A)"@),
        combo_row("выдели всё"@, select_all_keys(), "Select All (Ctrl+A)"@),
        combo_row("выделить всё"@, select_all_keys(), "Select All (Ctrl+A)"@),
        combo_row("delete all"@, delete_all_keys(), "Delete All (Ctrl+A, Delete)"@),
        combo_row("delete everything"@, delete_all_keys(), "Delete All (Ctrl+A, Delete)"@),
        combo_row("clear all"@, delete_all_keys(), "Delete All (Ctrl+A, Delete)"@),
        combo_row("erase all"@, delete_all_keys(), "Delete All (Ctrl+A, Delete)"@),
        combo_row("erase everything"@, delete_all_keys(), "Delete All (Ctrl+A, Delete)"@),
        combo_row("сотри все"@, delete_all_keys(), "Delete All (Ctrl+A, Delete)"@),
        combo_row("сотри всё"@, delete_all_keys(), "Delete All (Ctrl+A, Delete)"@),
        combo_row("удали все"@, delete_all_keys(), "Delete All (Ctrl+A, Delete)"@),
        combo_row("удали всё"@, delete_all_keys(), "Delete All (Ctrl+A, Delete)"@),
        combo_row("очисти все"@, delete_all_keys(), "Delete All (Ctrl+A, Delete)"@),
        combo_row("очисти всё"@, delete_all_keys(), "Delete All (Ctrl+A, Delete)"@),
        combo_row("очистить все"@, delete_all_keys(), "Delete All (Ctrl+A, Delete)"@),
        combo_row("очистить всё"@, delete_all_keys(), "Delete All (Ctrl+A, Delete)"@),
        combo_row("стереть все"@, delete_all_keys(), "Delete All (Ctrl+A, Delete)"@),
        combo_row("стереть всё"@, delete_all_keys(), "Delete All (Ctrl+A, Delete)"@),
    ]
}

fn add_select_cmds(t: &mut Vec<CommandEntry>)
    ensures
        final(t)@.map_values(|e: CommandEntry| e@) == old(t)@.map_values(|e: CommandEntry| e@)
            + select_rows(),
{
    add_cmd(t, "select all", combo2(KeyAction::Control, KeyAction::Key('a')), "Select All (Ctrl+A)");
    add_cmd(t, "выдели все", combo2(KeyAction::Control, KeyAction::Key('a')), "Select All (Ctrl+A)");
    add_cmd(t, "выделить все", combo2(KeyAction::Control, KeyAction::Key('a')), "Select All (Ctrl+A)");
    add_cmd(t, "выдели всё", combo2(KeyAction::Control, KeyAction::Key('a')), "Select All (Ctrl+A)");
    add_cmd(t, "выделить всё", combo2(KeyAction::Control, KeyAction::Key('a')), "Select All (Ctrl+A)");
    add_cmd(t, "delete all", combo3(KeyAction::Control, KeyAction::Key('a'), KeyAction::Delete), "Delete All (Ctrl+A, Delete)");
    add_cmd(t, "delete everything", combo3(KeyAction::Control, KeyAction::Key('a'), KeyAction::Delete), "Delete All (Ctrl+A, Delete)");
    add_cmd(t, "clear all", combo3(KeyAction::Control, KeyAction::Key('a'), KeyAction::Delete), "Delete All (Ctrl+A, Delete)");
    add_cmd(t, "erase all", combo3(KeyAction::Control, KeyAction::Key('a'), KeyAction::Delete), "Delete All (Ctrl+A, Delete)");
    add_cmd(t, "erase everything", combo3(KeyAction::Control, KeyAction::Key('a'), KeyAction::Delete), "Delete All (Ctrl+A, Delete)");
    add_cmd(t, "сотри все", combo3(KeyAction::Control, KeyAction::Key('a'), KeyAction::Delete), "Delete All (Ctrl+A, Delete)");
    add_cmd(t, "сотри всё", combo3(KeyAction::Control, KeyAction::Key('a'), KeyAction::Delete), "Delete All (Ctrl+A, Delete)");
    add_cmd(t, "удали все", combo3(KeyAction::Control, KeyAction::Key('a'), KeyAction::Delete), "Delete All (Ctrl+A, Delete)");
    add_cmd(t, "удали всё", combo3(KeyAction::Control, KeyAction::Key('a'), KeyAction::Delete), "Delete All (Ctrl+A, Delete)");
    add_cmd(t, "очисти все", combo3(KeyAction::Control, KeyAction::Key('a'), KeyAction::Delete), "Delete All (Ctrl+A, Delete)");
    add_cmd(t, "очисти всё", combo3(KeyAction::Control, KeyAction::Key('a'), KeyAction::Delete), "Delete All (Ctrl+A, Delete)");
    add_cmd(t, "очистить все", combo3(KeyAction::Control, KeyAction::Key('a'), KeyAction::Delete), "Delete All (Ctrl+A, Delete)");
    add_cmd(t, "очистить всё", combo3(KeyAction::Control, KeyAction::Key('a'), KeyAction::Delete), "Delete All (Ctrl+A, Delete)");
    add_cmd(t, "стереть все", combo3(KeyAction::Control, KeyAction::Key('a'), KeyAction::Delete), "Delete All (Ctrl+A, Delete)");
    add_cmd(t, "стереть всё", combo3(KeyAction::Control, KeyAction::Key('a'), KeyAction::Delete), "Delete All (Ctrl+A, Delete)");
    proof {
        assert(t@.map_values(|e: CommandEntry| e@) =~= old(t)@.map_values(|e: CommandEntry| e@)
            + select_rows());
    }
}

/// Rows for undo, redo and delete-word phrases.
pub open spec fn history_rows() -> Seq<(Seq<char>, CommandModel)> {
    seq![
        combo_row("undo"@, seq![KeyAction::Control, KeyAction::Key('z')], "Undo (Ctrl+Z)"@),
        combo_row("отмени"@, seq![KeyAction::Control, KeyAction::Key('z')], "Undo (Ctrl+Z)"@),
        combo_row("отменить"@, seq![KeyAction::Control, KeyAction::Key('z')], "Undo (Ctrl+Z)"@),
        combo_row("назад"@, seq![KeyAction::Control, KeyAction::Key('z')], "Undo (Ctrl+Z)"@),
        combo_row("ctrl z"@, seq![KeyAction::Control, KeyAction::Key('z')], "Undo (Ctrl+Z)"@),
        combo_row("redo"@, seq![KeyAction::Control, KeyAction::Key('y')], "Redo (Ctrl+Y)"@),
        combo_row("повтори"@, seq![KeyAction::Control, KeyAction::Key('y')], "Redo (Ctrl+Y)"@),
        combo_row("повторить"@, seq![KeyAction::Control, KeyAction::Key('y')], "Redo (Ctrl+Y)"@),
        combo_row("вперед"@, seq![KeyAction::Control, KeyAction::Key('y')], "Redo (Ctrl+Y)"@),
        combo_row("вперёд"@, seq![KeyAction::Control, KeyAction::Key('y')], "Redo (Ctrl+Y)"@),
        combo_row(
            "delete word"@,
            seq![KeyAction::Control, KeyAction::Backspace],
            "Delete Word (Ctrl+Backspace)"@,
        ),
        combo_row(
            "удали слово"@,
            seq![KeyAction::Control, KeyAction::Backspace],
            "Delete Word (Ctrl+Backspace)"@,
        ),
        combo_row(
            "удалить слово"@,
            seq![KeyAction::Control, KeyAction::Backspace],
            "Delete Word (Ctrl+Backspace)"@,
        ),
        combo_row(
            "сотри слово"@,
            seq![KeyAction::Control, KeyAction::Backspace],
            "Delete Word (Ctrl+Backspace)"@,
        ),
        combo_row(
            "стереть слово"@,
            seq![KeyAction::Control, KeyAction::Backspace],
            "Delete Word (Ctrl+Backspace)"@,
        ),
    ]
}

fn add_history_cmds(t: &mut Vec<CommandEntry>)
    ensures
        final(t)@.map_values(|e: CommandEntry| e@) == old(t)@.map_values(|e: CommandEntry| e@)
            + history_rows(),
{
    add_cmd(t, "undo", combo2(KeyAction::Control, KeyAction::Key('z')), "Undo (Ctrl+Z)");
    add_cmd(t, "отмени", combo2(KeyAction::Control, KeyAction::Key('z')), "Undo (Ctrl+Z)");
    add_cmd(t, "отменить", combo2(KeyAction::Control, KeyAction::Key('z')), "Undo (Ctrl+Z)");
    add_cmd(t, "назад", combo2(KeyAction::Control, KeyAction::Key('z')), "Undo (Ctrl+Z)");
    add_cmd(t, "ctrl z", combo2(KeyAction::Control, KeyAction::Key('z')), "Undo (Ctrl+Z)");
    add_cmd(t, "redo", combo2(KeyAction::Control, KeyAction::Key('y')), "Redo (Ctrl+Y)");
    add_cmd(t, "повтори", combo2(KeyAction::Control, KeyAction::Key('y')), "Redo (Ctrl+Y)");
    add_cmd(t, "повторить", combo2(KeyAction::Control, KeyAction::Key('y')), "Redo (Ctrl+Y)");
    add_cmd(t, "вперед", combo2(KeyAction::Control, KeyAction::Key('y')), "Redo (Ctrl+Y)");
    add_cmd(t, "вперёд", combo2(KeyAction::Control, KeyAction::Key('y')), "Redo (Ctrl+Y)");
    add_cmd(t, "delete word", combo2(KeyAction::Control, KeyAction::Backspace), "Delete Word (Ctrl+Backspace)");
    add_cmd(t, "удали слово", combo2(KeyAction::Control, KeyAction::Backspace), "Delete Word (Ctrl+Backspace)");
    add_cmd(t, "удалить слово", combo2(KeyAction::Control, KeyAction::Backspace), "Delete Word (Ctrl+Backspace)");
    add_cmd(t, "сотри слово", combo2(KeyAction::Control, KeyAction::Backspace), "Delete Word (Ctrl+Backspace)");
    add_cmd(t, "стереть слово", combo2(KeyAction::Control, KeyAction::Backspace), "Delete Word (Ctrl+Backspace)");
    proof {
        assert(t@.map_values(|e: CommandEntry| e@) =~= old(t)@.map_values(|e: CommandEntry| e@)
            + history_rows());
    }
}

/// Rows for copy, cut, paste and save phrases.
pub open spec fn clipboard_rows() -> Seq<(Seq<char>, CommandModel)> {
    seq![
        combo_row("copy"@, seq![KeyAction::Control, KeyAction::Key('c')], "Copy (Ctrl+C)"@),
        combo_row("copy that"@, seq![KeyAction::Control, KeyAction::Key('c')], "Copy (Ctrl+C)"@),
        combo_row("копируй"@, seq![KeyAction::Control, KeyAction::Key('c')], "Copy (Ctrl+C)"@),
        combo_row("копировать"@, seq![KeyAction::Control, KeyAction::Key('c')], "Copy (Ctrl+C)"@),
        combo_row("скопируй"@, seq![KeyAction::Control, KeyAction::Key('c')], "Copy (Ctrl+C)"@),
        combo_row("скопировать"@, seq![KeyAction::Control, KeyAction::Key('c')], "Copy (Ctrl+C)"@),
        combo_row("cut"@, seq![KeyAction::Control, KeyAction::Key('x')], "Cut (Ctrl+X)"@),
        combo_row("cut that"@, seq![KeyAction::Control, KeyAction::Key('x')], "Cut (Ctrl+X)"@),
        combo_row("вырежи"@, seq![KeyAction::Control, KeyAction::Key('x')], "Cut (Ctrl+X)"@),
        combo_row("вырезать"@, seq![KeyAction::Control, KeyAction::Key('x')], "Cut (Ctrl+X)"@),
        combo_row("paste"@, seq![KeyAction::Control, KeyAction::Key('v')], "Paste (Ctrl+V)"@),
        combo_row("paste that"@, seq![KeyAction::Control, KeyAction::Key('v')], "Paste (Ctrl+V)"@),
        combo_row("вставь"@, seq![KeyAction::Control, KeyAction::Key('v')], "Paste (Ctrl+V)"@),
        combo_row("вставить"@, seq![KeyAction::Control, KeyAction::Key('v')], "Paste (Ctrl+V)"@),
        combo_row("save"@, seq![KeyAction::Control, KeyAction::Key('s')], "Save (Ctrl+S)"@),
        combo_row("save file"@, seq![KeyAction::Control, KeyAction::Key('s')], "Save (Ctrl+S)"@),
        combo_row("сохрани"@, seq![KeyAction::Control, KeyAction::Key('s')], "Save (Ctrl+S)"@),
        combo_row("сохранить"@, seq![KeyAction::Control, KeyAction::Key('s')], "Save (Ctrl+S)"@),
    ]
}

fn add_clipboard_cmds(t: &mut Vec<CommandEntry>)
    ensures
        final(t)@.map_values(|e: CommandEntry| e@) == old(t)@.map_values(|e: CommandEntry| e@)
            + clipboard_rows(),
{
    add_cmd(t, "copy", combo2(KeyAction::Control, KeyAction::Key('c')), "Copy (Ctrl+C)");
    add_cmd(t, "copy that", combo2(KeyAction::Control, KeyAction::Key('c')), "Copy (Ctrl+C)");
    add_cmd(t, "копируй", combo2(KeyAction::Control, KeyAction::Key('c')), "Copy (Ctrl+C)");
    add_cmd(t, "копировать", combo2(KeyAction::Control, KeyAction::Key('c')), "Copy (Ctrl+C)");
    add_cmd(t, "скопируй", combo2(KeyAction::Control, KeyAction::Key('c')), "Copy (Ctrl+C)");
    add_cmd(t, "скопировать", combo2(KeyAction::Control, KeyAction::Key('c')), "Copy (Ctrl+C)");
    add_cmd(t, "cut", combo2(KeyAction::Control, KeyAction::Key('x')), "Cut (Ctrl+X)");
    add_cmd(t, "cut that", combo2(KeyAction::Control, KeyAction::Key('x')), "Cut (Ctrl+X)");
    add_cmd(t, "вырежи", combo2(KeyAction::Control, KeyAction::Key('x')), "Cut (Ctrl+X)");
    add_cmd(t, "вырезать", combo2(KeyAction::Control, KeyAction::Key('x')), "Cut (Ctrl+X)");
    add_cmd(t, "paste", combo2(KeyAction::Control, KeyAction::Key('v')), "Paste (Ctrl+V)");
    add_cmd(t, "paste that", combo2(KeyAction::Control, KeyAction::Key('v')), "Paste (Ctrl+V)");
    add_cmd(t, "вставь", combo2(KeyAction::Control, KeyAction::Key('v')), "Paste (Ctrl+V)");
    add_cmd(t, "вставить", combo2(KeyAction::Control, KeyAction::Key('v')), "Paste (Ctrl+V)");
    add_cmd(t, "save", combo2(KeyAction::Control, KeyAction::Key('s')), "Save (Ctrl+S)");
    add_cmd(t, "save file", combo2(KeyAction::Control, KeyAction::Key('s')), "Save (Ctrl+S)");
    add_cmd(t, "сохрани", combo2(KeyAction::Control, KeyAction::Key('s')), "Save (Ctrl+S)");
    add_cmd(t, "сохранить", combo2(KeyAction::Control, KeyAction::Key('s')), "Save (Ctrl+S)");
    proof {
        assert(t@.map_values(|e: CommandEntry| e@) =~= old(t)@.map_values(|e: CommandEntry| e@)
            + clipboard_rows());
    }
}

/// Rows for the arrow, home and end phrases.
pub open spec fn nav_rows() -> Seq<(Seq<char>, CommandModel)> {
    seq![
        press_row("up"@, KeyAction::Up, "Arrow Up"@),
        press_row("arrow up"@, KeyAction::Up, "Arrow Up"@),
        press_row("вверх"@, KeyAction::Up, "Arrow Up"@),
        press_row("стрелка вверх"@, KeyAction::Up, "Arrow Up"@),
        press_row("down"@, KeyAction::Down, "Arrow Down"@),
        press_row("arrow down"@, KeyAction::Down, "Arrow Down"@),
        press_row("вниз"@, KeyAction::Down, "Arrow Down"@),
        press_row("стрелка вниз"@, KeyAction::Down, "Arrow Down"@),
        press_row("left"@, KeyAction::Left, "Arrow Left"@),
        press_row("arrow left"@, KeyAction::Left, "Arrow Left"@),
        press_row("влево"@, KeyAction::Left, "Arrow Left"@),
        press_row("стрелка влево"@, KeyAction::Left, "Arrow Left"@),
        press_row("right"@, KeyAction::Right, "Arrow Right"@),
        press_row("arrow right"@, KeyAction::Right, "Arrow Right"@),
        press_row("вправо"@, KeyAction::Right, "Arrow Right"@),
        press_row("стрелка вправо"@, KeyAction::Right, "Arrow Right"@),
        press_row("home"@, KeyAction::Home, "Home"@),
        press_row("go home"@, KeyAction::Home, "Home"@),
        press_row("в начало"@, KeyAction::Home, "Home"@),
        press_row("начало строки"@, KeyAction::Home, "Home"@),
        press_row("end"@, KeyAction::End, "End"@),
        press_row("go end"@, KeyAction::End, "End"@),
        press_row("в конец"@, KeyAction::End, "End"@),
        press_row("конец строки"@, KeyAction::End, "End"@),
    ]
}

fn add_nav_cmds(t: &mut Vec<CommandEntry>)
    ensures
        final(t)@.map_values(|e: CommandEntry| e@) == old(t)@.map_values(|e: CommandEntry| e@)
            + nav_rows(),
{
    add_cmd(t, "up", VoiceAction::KeyPress(KeyAction::Up), "Arrow Up");
    add_cmd(t, "arrow up", VoiceAction::KeyPress(KeyAction::Up), "Arrow Up");
    add_cmd(t, "вверх", VoiceAction::KeyPress(KeyAction::Up), "Arrow Up");
    add_cmd(t, "стрелка вверх", VoiceAction::KeyPress(KeyAction::Up), "Arrow Up");
    add_cmd(t, "down", VoiceAction::KeyPress(KeyAction::Down), "Arrow Down");
    add_cmd(t, "arrow down", VoiceAction::KeyPress(KeyAction::Down), "Arrow Down");
    add_cmd(t, "вниз", VoiceAction::KeyPress(KeyAction::Down), "Arrow Down");
    add_cmd(t, "стрелка вниз", VoiceAction::KeyPress(KeyAction::Down), "Arrow Down");
    add_cmd(t, "left", VoiceAction::KeyPress(KeyAction::Left), "Arrow Left");
    add_cmd(t, "arrow left", VoiceAction::KeyPress(KeyAction::Left), "Arrow Left");
    add_cmd(t, "влево", VoiceAction::KeyPress(KeyAction::Left), "Arrow Left");
    add_cmd(t, "стрелка влево", VoiceAction::KeyPress(KeyAction::Left), "Arrow Left");
    add_cmd(t, "right", VoiceAction::KeyPress(KeyAction::Right), "Arrow Right");
    add_cmd(t, "arrow right", VoiceAction::KeyPress(KeyAction::Right), "Arrow Right");
    add_cmd(t, "вправо", VoiceAction::KeyPress(KeyAction::Right), "Arrow Right");
    add_cmd(t, "стрелка вправо", VoiceAction::KeyPress(KeyAction::Right), "Arrow Right");
    add_cmd(t, "home", VoiceAction::KeyPress(KeyAction::Home), "Home");
    add_cmd(t, "go home", VoiceAction::KeyPress(KeyAction::Home), "Home");
    add_cmd(t, "в начало", VoiceAction::KeyPress(KeyAction::Home), "Home");
    add_cmd(t, "начало строки", VoiceAction::KeyPress(KeyAction::Home), "Home");
    add_cmd(t, "end", VoiceAction::KeyPress(KeyAction::End), "End");
    add_cmd(t, "go end", VoiceAction::KeyPress(KeyAction::End), "End");
    add_cmd(t, "в конец", VoiceAction::KeyPress(KeyAction::End), "End");
    add_cmd(t, "конец строки", VoiceAction::KeyPress(KeyAction::End), "End");
    proof {
        assert(t@.map_values(|e: CommandEntry| e@) =~= old(t)@.map_values(|e: CommandEntry| e@)
            + nav_rows());
    }
}

/// Rows for the spoken punctuation phrases.
pub open spec fn punct_rows() -> Seq<(Seq<char>, CommandModel)> {
    seq![
        typed_row("period"@, "."@, "Period (.)"@),
        typed_row("dot"@, "."@, "Period (.)"@),
        typed_row("точка"@, "."@, "Period (.)"@),
        typed_row("comma"@, ","@, "Comma (,)"@),
        typed_row("запятая"@, ","@, "Comma (,)"@),
        typed_row("question mark"@, "?"@, "Question Mark (?)"@),
        typed_row("вопросительный знак"@, "?"@, "Question Mark (?)"@),
        typed_row("знак вопроса"@, "?"@, "Question Mark (?)"@),
        typed_row("exclamation mark"@, "!"@, "Exclamation Mark (!)"@),
        typed_row("exclamation point"@, "!"@, "Exclamation Mark (!)"@),
        typed_row("восклицательный знак"@, "!"@, "Exclamation Mark (!)"@),
        typed_row("colon"@, ":"@, "Colon (:)"@),
        typed_row("двоеточие"@, ":"@, "Colon (:)"@),
        typed_row("semicolon"@, ";"@, "Semicolon (;)"@),
        typed_row("точка с запятой"@, ";"@, "Semicolon (;)"@),
    ]
}

fn add_punct_cmds(t: &mut Vec<CommandEntry>)
    ensures
        final(t)@.map_values(|e: CommandEntry| e@) == old(t)@.map_values(|e: CommandEntry| e@)
            + punct_rows(),
{
    add_cmd(t, "period", typed("."), "Period (.)");
    add_cmd(t, "dot", typed("."), "Period (.)");
    add_cmd(t, "точка", typed("."), "Period (.)");
    add_cmd(t, "comma", typed(","), "Comma (,)");
    add_cmd(t, "запятая", typed(","), "Comma (,)");
    add_cmd(t, "question mark", typed("?"), "Question Mark (?)");
    add_cmd(t, "вопросительный знак", typed("?"), "Question Mark (?)");
    add_cmd(t, "знак вопроса", typed("?"), "Question Mark (?)");
    add_cmd(t, "exclamation mark", typed("!"), "Exclamation Mark (!)");
    add_cmd(t, "exclamation point", typed("!"), "Exclamation Mark (!)");
    add_cmd(t, "восклицательный знак", typed("!"), "Exclamation Mark (!)");
    add_cmd(t, "colon", typed(":"), "Colon (:)");
    add_cmd(t, "двоеточие", typed(":"), "Colon (:)");
    add_cmd(t, "semicolon", typed(";"), "Semicolon (;)");
    add_cmd(t, "точка с запятой", typed(";"), "Semicolon (;)");
    proof {
        assert(t@.map_values(|e: CommandEntry| e@) =~= old(t)@.map_values(|e: CommandEntry| e@)
            + punct_rows());
    }
}

/// The whole command table: normalized phrase to command, in a fixed order.
pub open spec fn command_table_model() -> Seq<(Seq<char>, CommandModel)> {
    enter_rows() + key_rows() + select_rows() + history_rows() + clipboard_rows() + nav_rows()
        + punct_rows()
}

/// Builds the command table. The table is immutable data: every caller gets
/// the same rows in the same order.
pub fn command_table() -> (t: Vec<CommandEntry>)
    ensures
        t@.map_values(|e: CommandEntry| e@) == command_table_model(),
{
    let mut t: Vec<CommandEntry> = Vec::new();
    proof {
        assert(t@.map_values(|e: CommandEntry| e@) =~= Seq::<(Seq<char>, CommandModel)>::empty());
    }
    add_enter_cmds(&mut t);
    add_key_cmds(&mut t);
    add_select_cmds(&mut t);
    add_history_cmds(&mut t);
    add_clipboard_cmds(&mut t);
    add_nav_cmds(&mut t);
    add_punct_cmds(&mut t);
    proof {
        assert(t@.map_values(|e: CommandEntry| e@) =~= command_table_model());
    }
    t
}

/// First row of `t` whose phrase is `key`, if any.
pub open spec fn lookup_model(t: Seq<(Seq<char>, CommandModel)>, key: Seq<char>) -> Option<
    CommandModel,
>
    decreases t.len(),
{
    if t.len() == 0 {
        None
    } else if t[0].0 == key {
        Some(t[0].1)
    } else {
        lookup_model(t.drop_first(), key)
    }
}

proof fn lemma_lookup_found(t: Seq<(Seq<char>, CommandModel)>, key: Seq<char>, j: int)
    requires
        0 <= j < t.len(),
        t[j].0 == key,
        forall|k: int| 0 <= k < j ==> t[k].0 != key,
    ensures
        lookup_model(t, key) == Some(t[j].1),
    decreases j,
{
    if j == 0 {
    } else {
        lemma_lookup_found(t.drop_first(), key, j - 1);
    }
}

proof fn lemma_lookup_none(t: Seq<(Seq<char>, CommandModel)>, key: Seq<char>)
    requires
        forall|k: int| 0 <= k < t.len() ==> t[k].0 != key,
    ensures
        lookup_model(t, key) is None,
    decreases t.len(),
{
    if t.len() > 0 {
        lemma_lookup_none(t.drop_first(), key);
    }
}

/// Scans the table for an exact phrase match and clones the first hit.
fn find_command(table: &Vec<CommandEntry>, key: &String) -> (r: Option<VoiceCommand>)
    ensures
        match lookup_model(table@.map_values(|e: CommandEntry| e@), key@) {
            Some(m) => r matches Some(c) && c@ == m,
            None => r is None,
        },
{
    let ghost model = table@.map_values(|e: CommandEntry| e@);
    let mut i: usize = 0;
    while i < table.len()
        invariant
            model == table@.map_values(|e: CommandEntry| e@),
            i <= table@.len(),
            forall|k: int| 0 <= k < i ==> model[k].0 != key@,
        decreases table@.len() - i,
    {
        if table[i].phrase == *key {
            proof {
                lemma_lookup_found(model, key@, i as int);
            }
            return Some(table[i].command.clone());
        }
        i = i + 1;
    }
    proof {
        lemma_lookup_none(model, key@);
    }
    None
}

/// The command that `text` resolves to, if any: the normalized text is
/// looked up with one trailing period or comma stripped, and — when the
/// stripping changed anything — in its unstripped form as well.
pub open spec fn voice_match(text: Seq<char>) -> Option<CommandModel> {
    let full = normal_form(text);
    let key = strip_trailing_punct(full);
    match lookup_model(command_table_model(), key) {
        Some(m) => Some(m),
        None => if key != full {
            lookup_model(command_table_model(), full)
        } else {
            None
        },
    }
}

/// Decides whether transcribed text is a voice command.
///
/// Matching is exact over the whole normalized text. One trailing period or
/// comma is stripped first; if stripping changed the string and the stripped
/// form matched nothing, the unstripped form is tried as well. Text that
/// matches no phrase comes back unchanged, to be pasted as usual.
pub fn check_voice_command(text: &str) -> (r: VoiceCommandResult)
    ensures
        match voice_match(text@) {
            Some(m) => r matches VoiceCommandResult::Command(c) && c@ == m,
            None => r matches VoiceCommandResult::Text(s) && s@ == text@,
        },
{
    let table = command_table();
    let normalized = normalize(text);
    let stripped = strip_trailing_punct_str(normalized.as_str());
    match find_command(&table, &stripped) {
        Some(cmd) => VoiceCommandResult::Command(cmd),
        None => {
            if stripped != normalized {
                match find_command(&table, &normalized) {
                    Some(cmd) => VoiceCommandResult::Command(cmd),
                    None => VoiceCommandResult::Text(text.to_owned()),
                }
            } else {
                VoiceCommandResult::Text(text.to_owned())
            }
        },
    }
}

/// Lexicographic order on character sequences by code point.
pub open spec fn seq_lt(a: Seq<char>, b: Seq<char>) -> bool
    decreases a.len(),
{
    if b.len() == 0 {
        false
    } else if a.len() == 0 {
        true
    } else if a[0] != b[0] {
        (a[0] as u32) < (b[0] as u32)
    } else {
        seq_lt(a.drop_first(), b.drop_first())
    }
}

/// Compares two strings lexicographically by code point.
fn str_lt(a: &String, b: &String) -> (r: bool)
    ensures
        r == seq_lt(a@, b@),
{
    let an = a.as_str().unicode_len();
    let bn = b.as_str().unicode_len();
    let mut i: usize = 0;
    proof {
        assert(a@.skip(0) =~= a@);
        assert(b@.skip(0) =~= b@);
    }
    while i < an && i < bn
        invariant
            an == a@.len(),
            bn == b@.len(),
            i <= an,
            i <= bn,
            seq_lt(a@, b@) == seq_lt(a@.skip(i as int), b@.skip(i as int)),
        decreases an - i,
    {
        let ca = a.as_str().get_char(i);
        let cb = b.as_str().get_char(i);
        if ca != cb {
            proof {
                assert(a@.skip(i as int)[0] == ca && b@.skip(i as int)[0] == cb);
            }
            return (ca as u32) < (cb as u32);
        }
        proof {
            assert(a@.skip(i as int).drop_first() =~= a@.skip(i + 1));
            assert(b@.skip(i as int).drop_first() =~= b@.skip(i + 1));
        }
        i = i + 1;
    }
    proof {
        assert(a@.skip(i as int).len() == an - i && b@.skip(i as int).len() == bn - i);
    }
    an < bn
}

/// `x` inserted into `s` before the first element whose phrase is not below
/// `x`'s: the insertion step of a phrase-ordered sort.
pub open spec fn insert_pair(x: (Seq<char>, Seq<char>), s: Seq<(Seq<char>, Seq<char>)>) -> Seq<
    (Seq<char>, Seq<char>),
>
    decreases s.len(),
{
    if s.len() == 0 {
        seq![x]
    } else if seq_lt(s[0].0, x.0) {
        seq![s[0]] + insert_pair(x, s.drop_first())
    } else {
        seq![x] + s
    }
}

/// The first `i` pairs of `s`, sorted by phrase through repeated insertion.
pub open spec fn sort_pairs_upto(s: Seq<(Seq<char>, Seq<char>)>, i: int) -> Seq<
    (Seq<char>, Seq<char>),
>
    decreases i,
{
    if i <= 0 {
        Seq::empty()
    } else {
        insert_pair(s[i - 1], sort_pairs_upto(s, i - 1))
    }
}

/// `s` sorted by phrase.
pub open spec fn sort_pairs(s: Seq<(Seq<char>, Seq<char>)>) -> Seq<(Seq<char>, Seq<char>)> {
    sort_pairs_upto(s, s.len() as int)
}

/// The first `i` pairs with an element dropped wherever its description
/// repeats the description directly before it.
pub open spec fn dedup_desc_upto(s: Seq<(Seq<char>, Seq<char>)>, i: int) -> Seq<
    (Seq<char>, Seq<char>),
>
    decreases i,
{
    if i <= 0 {
        Seq::empty()
    } else if i >= 2 && s[i - 1].1 == s[i - 2].1 {
        dedup_desc_upto(s, i - 1)
    } else {
        dedup_desc_upto(s, i - 1).push(s[i - 1])
    }
}

/// `s` with consecutive repeated descriptions collapsed to the first.
pub open spec fn dedup_by_description(s: Seq<(Seq<char>, Seq<char>)>) -> Seq<
    (Seq<char>, Seq<char>),
> {
    dedup_desc_upto(s, s.len() as int)
}

/// The command table reduced to its phrase and description columns.
pub open spec fn command_pairs() -> Seq<(Seq<char>, Seq<char>)> {
    command_table_model().map_values(
        |r: (Seq<char>, CommandModel)| (r.0, r.1.description),
    )
}

proof fn lemma_insert_pair_at(
    s: Seq<(Seq<char>, Seq<char>)>,
    x: (Seq<char>, Seq<char>),
    j: int,
)
    requires
        0 <= j <= s.len(),
        forall|k: int| 0 <= k < j ==> seq_lt(#[trigger] s[k].0, x.0),
        j == s.len() || !seq_lt(s[j].0, x.0),
    ensures
        insert_pair(x, s) == s.subrange(0, j) + seq![x] + s.subrange(j, s.len() as int),
    decreases j,
{
    if j == 0 {
        if s.len() == 0 {
            assert(insert_pair(x, s) =~= s.subrange(0, 0) + seq![x] + s.subrange(
                0,
                s.len() as int,
            ));
        } else {
            assert(insert_pair(x, s) =~= s.subrange(0, 0) + seq![x] + s.subrange(
                0,
                s.len() as int,
            ));
        }
    } else {
        lemma_insert_pair_at(s.drop_first(), x, j - 1);
        assert(seq![s[0]] + (s.drop_first().subrange(0, j - 1) + seq![x]
            + s.drop_first().subrange(j - 1, s.drop_first().len() as int)) =~= s.subrange(0, j)
            + seq![x] + s.subrange(j, s.len() as int));
    }
}

/// Lists every command phrase with its description, sorted by phrase, with
/// a phrase dropped wherever its description repeats the one directly
/// before it in the sorted order.
pub fn list_commands() -> (r: Vec<(String, &'static str)>)
    ensures
        r@.map_values(|p: (String, &'static str)| (p.0@, p.1@)) == dedup_by_description(
            sort_pairs(command_pairs()),
        ),
{
    let table = command_table();
    let ghost cp = command_pairs();

    let mut pairs: Vec<(String, &'static str)> = Vec::new();
    let mut i: usize = 0;
    while i < table.len()
        invariant
            cp == command_pairs(),
            table@.map_values(|e: CommandEntry| e@) == command_table_model(),
            i <= table@.len(),
            pairs@.map_values(|p: (String, &'static str)| (p.0@, p.1@)) == cp.subrange(
                0,
                i as int,
            ),
        decreases table@.len() - i,
    {
        let ph = table[i].phrase.clone();
        let de = table[i].command.description;
        proof {
            assert(command_table_model()[i as int] == table@[i as int]@);
            assert(cp[i as int] == (table@[i as int]@.0, table@[i as int]@.1.description));
            assert(ph@ == cp[i as int].0);
            assert(de@ == cp[i as int].1);
        }
        let ghost pm = pairs@.map_values(|p: (String, &'static str)| (p.0@, p.1@));
        pairs.push((ph, de));
        proof {
            assert(pairs@.map_values(|p: (String, &'static str)| (p.0@, p.1@)) =~= pm.push(
                cp[i as int],
            ));
            assert(pm.push(cp[i as int]) =~= cp.subrange(0, i + 1));
        }
        i = i + 1;
    }
    proof {
        assert(cp.subrange(0, cp.len() as int) =~= cp);
    }

    let mut sorted: Vec<(String, &'static str)> = Vec::new();
    let mut i: usize = 0;
    while i < pairs.len()
        invariant
            cp == command_pairs(),
            pairs@.map_values(|p: (String, &'static str)| (p.0@, p.1@)) == cp,
            i <= pairs@.len(),
            sorted@.map_values(|p: (String, &'static str)| (p.0@, p.1@)) == sort_pairs_upto(
                cp,
                i as int,
            ),
        decreases pairs@.len() - i,
    {
        let ghost sm = sorted@.map_values(|p: (String, &'static str)| (p.0@, p.1@));
        let mut j: usize = 0;
        while j < sorted.len() && str_lt(&sorted[j].0, &pairs[i].0)
            invariant
                sm == sorted@.map_values(|p: (String, &'static str)| (p.0@, p.1@)),
                pairs@.map_values(|p: (String, &'static str)| (p.0@, p.1@)) == cp,
                i < pairs@.len(),
                j <= sorted@.len(),
                forall|k: int| 0 <= k < j ==> seq_lt(#[trigger] sm[k].0, cp[i as int].0),
            decreases sorted@.len() - j,
        {
            j = j + 1;
        }
        let entry = (pairs[i].0.clone(), pairs[i].1);
        sorted.insert(j, entry);
        proof {
            lemma_insert_pair_at(sm, cp[i as int], j as int);
            assert(sorted@.map_values(|p: (String, &'static str)| (p.0@, p.1@)) =~= sm.subrange(
                0,
                j as int,
            ) + seq![cp[i as int]] + sm.subrange(j as int, sm.len() as int));
        }
        i = i + 1;
    }
    let ghost sorted_model = sort_pairs(cp);

    let mut out: Vec<(String, &'static str)> = Vec::new();
    let mut i: usize = 0;
    while i < sorted.len()
        invariant
            sorted_model == sorted@.map_values(|p: (String, &'static str)| (p.0@, p.1@)),
            sorted_model == sort_pairs(cp),
            cp == command_pairs(),
            i <= sorted@.len(),
            out@.map_values(|p: (String, &'static str)| (p.0@, p.1@)) == dedup_desc_upto(
                sorted_model,
                i as int,
            ),
        decreases sorted@.len() - i,
    {
        let mut repeat = false;
        if i > 0 {
            let cur: String = sorted[i].1.to_owned();
            let prev: String = sorted[i - 1].1.to_owned();
            repeat = cur == prev;
        }
        if !repeat {
            out.push((sorted[i].0.clone(), sorted[i].1));
        }
        proof {
            assert(out@.map_values(|p: (String, &'static str)| (p.0@, p.1@)) =~= dedup_desc_upto(
                sorted_model,
                i + 1,
            ));
        }
        i = i + 1;
    }
    out
}

} // verus!
