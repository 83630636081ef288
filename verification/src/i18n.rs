//! The languages of the user interface.
use vstd::prelude::*;

use crate::model::maybe_text;
use crate::text::{ascii_lower, is_ascii_text, lowercase, same_text, to_lowercase};

verus! {

/// A language of the user interface.
#[derive(Clone, Copy, Debug, PartialEq, Eq, Structural)]
pub enum Language {
    English,
    Chinese,
}

impl Language {
    /// The code under which the language is stored.
    pub open spec fn stored_code(self) -> Seq<char> {
        match self {
            Language::English => "en"@,
            Language::Chinese => "zh"@,
        }
    }

    /// The language that a code in small letters stands for: English where it stands for
    /// none.
    pub open spec fn of_lowercase_code(code: Seq<char>) -> Language {
        if code == "zh"@ || code == "zh-cn"@ || code == "zh-tw"@ || code == "chinese"@ {
            Language::Chinese
        } else {
            Language::English
        }
    }

    /// The language that a code stands for, in whatever letters it is written.
    pub open spec fn of_code(code: Seq<char>) -> Language {
        Language::of_lowercase_code(lowercase(code))
    }

    /// The code under which the language is stored.
    pub fn code(&self) -> (r: &'static str)
        ensures
            r@ == self.stored_code(),
    {
        match self {
            Language::English => "en",
            Language::Chinese => "zh",
        }
    }

    /// The name of the language in the language itself.
    pub fn display_name(&self) -> (r: &'static str)
        ensures
            r@ == (match *self {
                Language::English => "English"@,
                Language::Chinese => "中文"@,
            }),
    {
        match self {
            Language::English => "English",
            Language::Chinese => "中文",
        }
    }

    /// The language that a code in small letters stands for.
    pub fn from_lowercase_code(code: &str) -> (r: Language)
        ensures
            r == Language::of_lowercase_code(code@),
    {
        if same_text(code, "zh") || same_text(code, "zh-cn") || same_text(code, "zh-tw")
            || same_text(code, "chinese") {
            Language::Chinese
        } else {
            Language::English
        }
    }

    /// The language that a code stands for, in whatever letters it is written.
    pub fn from_code(code: &str) -> (r: Language)
        ensures
            r == Language::of_code(code@),
            is_ascii_text(code@) ==> r == Language::of_lowercase_code(
                code@.map_values(|c: char| ascii_lower(c)),
            ),
    {
        let code = to_lowercase(code);
        Language::from_lowercase_code(code.as_str())
    }
}

/// What decides on the language: the choice of this run, and the code that was stored.
pub struct LanguageStore {
    pub chosen: Option<Language>,
    pub stored: Option<String>,
}

/// What decides on the language.
#[verifier::ext_equal]
pub struct LanguageStoreView {
    pub chosen: Option<Language>,
    pub stored: Option<Seq<char>>,
}

impl LanguageStoreView {
    /// The language of the user interface: the one chosen in this run, else the one
    /// stored, else English.
    pub open spec fn language(self) -> Language {
        match (self.chosen, self.stored) {
            (Some(language), _) => language,
            (None, Some(code)) => Language::of_code(code),
            (None, None) => Language::English,
        }
    }
}

impl LanguageStore {
    /// What decides on the language.
    pub open spec fn view(self) -> LanguageStoreView {
        LanguageStoreView { chosen: self.chosen, stored: maybe_text(self.stored) }
    }
}

/// The language of the user interface.
pub fn current_language(store: &LanguageStore) -> (r: Language)
    ensures
        r == store@.language(),
        store@.chosen is None && store@.stored is Some && is_ascii_text(store@.stored->0) ==> r
            == Language::of_lowercase_code(
            store@.stored->0.map_values(|c: char| ascii_lower(c)),
        ),
{
    match store.chosen {
        Some(language) => language,
        None => match &store.stored {
            Some(code) => Language::from_code(code.as_str()),
            None => Language::English,
        },
    }
}

/// Chooses a language for this run and for those to come.
pub fn set_language(store: &mut LanguageStore, lang: Language)
    ensures
        final(store)@ == (LanguageStoreView {
            chosen: Some(lang),
            stored: Some(lang.stored_code()),
        }),
{
    store.chosen = Some(lang);
    store.stored = Some(lang.code().to_owned());
}

/// Tells whether the language of the user interface is Chinese.
pub fn is_chinese(store: &LanguageStore) -> (r: bool)
    ensures
        r == (store@.language() == Language::Chinese),
{
    matches!(current_language(store), Language::Chinese)
}

/// Tells that the code of a language is in small letters.
proof fn lemma_small_code(lang: Language)
    ensures
        is_ascii_text(lang.stored_code()),
        lang.stored_code().map_values(|c: char| ascii_lower(c)) == lang.stored_code(),
{
    reveal_strlit("en");
    reveal_strlit("zh");
    assert(lang.stored_code().map_values(|c: char| ascii_lower(c)) =~= lang.stored_code());
}

/// A language that was chosen is that of the runs to come, in which nothing is chosen yet:
/// the code under which a language is stored is read as that language.
pub fn law_choice_is_kept(store: LanguageStore, lang: Language) -> (r: Language)
    ensures
        r == lang,
        r == (LanguageStoreView { chosen: None, stored: Some(lang.stored_code()) }).language(),
        r == Language::of_code(lang.stored_code()),
{
    let mut store = store;
    set_language(&mut store, lang);
    let next = LanguageStore { chosen: None, stored: store.stored };
    proof {
        lemma_small_code(lang);
        reveal_strlit("en");
        reveal_strlit("zh");
        reveal_strlit("zh-cn");
        reveal_strlit("zh-tw");
        reveal_strlit("chinese");
        assert("en"@[0] == 'e');
        assert("zh"@[0] == 'z');
        assert("zh-cn"@[0] == 'z');
        assert("zh-tw"@[0] == 'z');
        assert("chinese"@[0] == 'c');
    }
    current_language(&next)
}

} // verus!
