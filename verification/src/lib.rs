//! Provider configuration for command-line coding assistants: which providers there are,
//! which one is current, and what goes into the files of the assistants.
//!
//! `json` and `toml_doc` are the documents that everything is made of, with the laws on
//! merging and taking apart in `json_laws` and `toml_laws`, value by value in `path_laws`,
//! `toml_path_laws` and `array_laws`, and those on tidy texts in `text_laws`. `config` is
//! what is stored, `live_files` what the assistants read. `service`, `switching` and `upkeep`
//! are the operations, and `service_laws` and `codex_laws` what holds of them as a whole.
//! What each operation does with what it is given stands in `store_laws` for what is stored,
//! in `live_laws` for what goes live, in `taking_back_laws` for what comes back, in
//! `codex_text_laws` and `line_laws` for the texts of Codex, and in `action_laws` for the rest.
//! `view_laws` ties what is said of values to their fields.
pub mod action_laws;
pub mod array_laws;
pub mod claude;
pub mod codex;
pub mod codex_form;
pub mod codex_laws;
pub mod codex_migration;
pub mod codex_snippet;
pub mod codex_text_laws;
pub mod common_config;
pub mod config;
pub mod editor_actions;
pub mod error;
pub mod i18n;
pub mod json;
pub mod json_laws;
pub mod json_value;
pub mod line_laws;
pub mod live_files;
pub mod live_import;
pub mod live_laws;
pub mod live_write;
pub mod model;
pub mod notices;
pub mod path_laws;
pub mod provider_actions;
pub mod providers;
pub mod refresh;
pub mod service;
pub mod service_laws;
pub mod snapshots;
pub mod store_laws;
pub mod switching;
pub mod taking_back_laws;
pub mod terminal;
pub mod text;
pub mod text_laws;
pub mod texts;
pub mod toml_doc;
pub mod toml_laws;
pub mod toml_ops;
pub mod toml_path_laws;
pub mod toml_plain;
pub mod toml_strip;
pub mod transaction;
pub mod upkeep;
pub mod validation;
pub mod view_laws;
