//! Tray menu internationalization.
//!
//! The tray shows a small fixed menu. Its strings exist per language; the
//! requested locale is reduced to its language code and looked up, falling
//! back to English, which is always present.

use vstd::prelude::*;
use vstd::string::*;

use crate::settings::{assoc_value, lemma_assoc_value_found, lemma_assoc_value_missing};
use crate::text::push_char;

verus! {

/// Localized tray menu strings.
pub struct TrayStrings {
    /// Label of the settings menu item.
    pub settings: String,
    /// Label of the quit menu item.
    pub quit: String,
}

impl View for TrayStrings {
    type V = (Seq<char>, Seq<char>);

    open spec fn view(&self) -> (Seq<char>, Seq<char>) {
        (self.settings@, self.quit@)
    }
}

impl Clone for TrayStrings {
    fn clone(&self) -> (r: Self)
        ensures
            r@ == self@,
    {
        TrayStrings { settings: self.settings.clone(), quit: self.quit.clone() }
    }
}

/// The tray translations: language code to menu strings. English leads and
/// is the fallback.
pub open spec fn tray_table_model() -> Seq<(Seq<char>, (Seq<char>, Seq<char>))> {
    seq![("en"@, ("Settings"@, "Quit"@)), ("ru"@, ("Настройки"@, "Выход"@))]
}

/// Builds the tray translation table.
pub fn tray_translation_table() -> (t: Vec<(String, TrayStrings)>)
    ensures
        t@.map_values(|p: (String, TrayStrings)| (p.0@, p.1@)) == tray_table_model(),
{
    let mut t: Vec<(String, TrayStrings)> = Vec::new();
    t.push(
        ("en".to_owned(), TrayStrings { settings: "Settings".to_owned(), quit: "Quit".to_owned() }),
    );
    t.push(
        (
            "ru".to_owned(),
            TrayStrings { settings: "Настройки".to_owned(), quit: "Выход".to_owned() },
        ),
    );
    proof {
        assert(t@.map_values(|p: (String, TrayStrings)| (p.0@, p.1@)) =~= tray_table_model());
    }
    t
}

/// Whether the given language code has tray translations of its own.
pub fn tray_language_known(lang: &str) -> (r: bool)
    ensures
        r == (assoc_value(tray_table_model(), lang@) is Some),
{
    let table = tray_translation_table();
    lookup_tray(&table, &lang.to_owned()).is_some()
}

/// Index of the first locale separator (`-` or `_`) in `s`, or its length.
pub open spec fn first_separator(s: Seq<char>) -> int
    decreases s.len(),
{
    if s.len() == 0 {
        0
    } else if s[0] == '-' || s[0] == '_' {
        0
    } else {
        1 + first_separator(s.drop_first())
    }
}

/// The language code of a locale: everything before the first `-` or `_`.
pub open spec fn language_code_model(s: Seq<char>) -> Seq<char> {
    s.subrange(0, first_separator(s))
}

proof fn lemma_first_separator_at(s: Seq<char>, j: int)
    requires
        0 <= j <= s.len(),
        forall|k: int| 0 <= k < j ==> s[k] != '-' && s[k] != '_',
        j == s.len() || s[j] == '-' || s[j] == '_',
    ensures
        first_separator(s) == j,
    decreases j,
{
    if j == 0 {
    } else {
        lemma_first_separator_at(s.drop_first(), j - 1);
    }
}

/// Extracts the language code from a locale string, e.g. `en` from `en-US`
/// or `en_US`. A locale without a separator is returned whole.
pub fn get_language_code(locale: &str) -> (r: String)
    ensures
        r@ == language_code_model(locale@),
{
    let n = locale.unicode_len();
    let mut end: usize = 0;
    while end < n && locale.get_char(end) != '-' && locale.get_char(end) != '_'
        invariant
            n == locale@.len(),
            end <= n,
            forall|k: int| 0 <= k < end ==> locale@[k] != '-' && locale@[k] != '_',
        decreases n - end,
    {
        end = end + 1;
    }
    proof {
        lemma_first_separator_at(locale@, end as int);
    }
    let mut out = String::new();
    let mut i: usize = 0;
    while i < end
        invariant
            n == locale@.len(),
            i <= end <= n,
            out@ == locale@.subrange(0, i as int),
        decreases end - i,
    {
        push_char(&mut out, locale.get_char(i));
        proof {
            assert(locale@.subrange(0, i as int).push(locale@[i as int]) =~= locale@.subrange(
                0,
                i + 1,
            ));
        }
        i = i + 1;
    }
    out
}

/// Looks a language code up in the tray table.
fn lookup_tray(table: &Vec<(String, TrayStrings)>, lang: &String) -> (r: Option<TrayStrings>)
    ensures
        match assoc_value(
            table@.map_values(|p: (String, TrayStrings)| (p.0@, p.1@)),
            lang@,
        ) {
            Some(t) => r matches Some(x) && x@ == t,
            None => r is None,
        },
{
    let ghost m = table@.map_values(|p: (String, TrayStrings)| (p.0@, p.1@));
    let mut i: usize = 0;
    while i < table.len()
        invariant
            m == table@.map_values(|p: (String, TrayStrings)| (p.0@, p.1@)),
            i <= table@.len(),
            forall|k: int| 0 <= k < i ==> m[k].0 != lang@,
        decreases table@.len() - i,
    {
        if table[i].0 == *lang {
            proof {
                lemma_assoc_value_found(m, lang@, i as int);
            }
            return Some(table[i].1.clone());
        }
        i = i + 1;
    }
    proof {
        lemma_assoc_value_missing(m, lang@);
    }
    None
}

/// Localized tray strings for a system locale: the locale's language if the
/// table has it, English otherwise — also when no locale is known at all.
pub fn get_tray_translations(locale: Option<String>) -> (r: TrayStrings)
    ensures
        ({
            let lang = match locale {
                Some(l) => language_code_model(l@),
                None => "en"@,
            };
            match assoc_value(tray_table_model(), lang) {
                Some(t) => r@ == t,
                None => r@ == ("Settings"@, "Quit"@),
            }
        }),
{
    let table = tray_translation_table();
    let lang = match &locale {
        Some(l) => get_language_code(l.as_str()),
        None => "en".to_owned(),
    };
    match lookup_tray(&table, &lang) {
        Some(t) => t,
        None => {
            let en: String = "en".to_owned();
            proof {
                lemma_assoc_value_found(tray_table_model(), "en"@, 0);
            }
            match lookup_tray(&table, &en) {
                Some(t) => t,
                None => TrayStrings { settings: "Settings".to_owned(), quit: "Quit".to_owned() },
            }
        },
    }
}

} // verus!
