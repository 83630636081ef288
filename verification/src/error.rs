//! The errors of the library, with the texts that are shown for them.
use vstd::prelude::*;

verus! {

/// An error.
#[derive(Debug)]
pub enum AppError {
    /// A configuration is wrong.
    Config(String),
    /// A plain message.
    Message(String),
    /// A message in the languages of the user interface, under a stable key.
    Localized { key: String, zh: String, en: String },
    /// A file could not be read or written.
    Io { path: String, message: String },
    /// A text is no TOML document.
    Toml { path: String, message: String },
}

/// What an error says.
pub enum ErrorView {
    Config(Seq<char>),
    Message(Seq<char>),
    Localized { key: Seq<char>, zh: Seq<char>, en: Seq<char> },
    Io { path: Seq<char>, message: Seq<char> },
    Toml { path: Seq<char>, message: Seq<char> },
}

impl AppError {
    /// What the error says.
    pub open spec fn view(self) -> ErrorView {
        match self {
            AppError::Config(text) => ErrorView::Config(text@),
            AppError::Message(text) => ErrorView::Message(text@),
            AppError::Localized { key, zh, en } => ErrorView::Localized {
                key: key@,
                zh: zh@,
                en: en@,
            },
            AppError::Io { path, message } => ErrorView::Io { path: path@, message: message@ },
            AppError::Toml { path, message } => ErrorView::Toml { path: path@, message: message@ },
        }
    }

    /// A message in both languages.
    pub fn localized(key: &str, zh: String, en: String) -> (r: AppError)
        ensures
            r@ == (ErrorView::Localized { key: key@, zh: zh@, en: en@ }),
    {
        AppError::Localized { key: key.to_owned(), zh, en }
    }

    /// A message in both languages, of fixed texts.
    pub fn fixed(key: &str, zh: &str, en: &str) -> (r: AppError)
        ensures
            r@ == (ErrorView::Localized { key: key@, zh: zh@, en: en@ }),
    {
        AppError::Localized { key: key.to_owned(), zh: zh.to_owned(), en: en.to_owned() }
    }

    /// A copy of the error.
    pub fn copy(&self) -> (r: AppError)
        ensures
            r@ == self@,
    {
        match self {
            AppError::Config(text) => AppError::Config(text.clone()),
            AppError::Message(text) => AppError::Message(text.clone()),
            AppError::Localized { key, zh, en } => AppError::Localized {
                key: key.clone(),
                zh: zh.clone(),
                en: en.clone(),
            },
            AppError::Io { path, message } => AppError::Io {
                path: path.clone(),
                message: message.clone(),
            },
            AppError::Toml { path, message } => AppError::Toml {
                path: path.clone(),
                message: message.clone(),
            },
        }
    }
}

/// Puts a text behind another.
pub fn joined(first: &str, second: &str) -> (r: String)
    ensures
        r@ == first@ + second@,
{
    first.to_owned().concat(second)
}

/// Puts three texts one behind the other.
pub fn joined3(first: &str, second: &str, third: &str) -> (r: String)
    ensures
        r@ == first@ + second@ + third@,
{
    first.to_owned().concat(second).concat(third)
}

} // verus!
