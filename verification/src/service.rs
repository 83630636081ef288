//! What can be done with providers.
use vstd::prelude::*;

use crate::claude::models_normalized;
use crate::config::{ConfigView, ManagerView, MultiAppConfig};
use crate::error::{joined, AppError, ErrorView};
use crate::live_files::{snapshot_outcome, unit_outcome, LiveSnapshot, SnapshotView};
use crate::live_import::{no_such_app, with_added};
use crate::model::{maybe_text, AppType, MetaView, Provider, ProviderMeta, ProviderView};
use crate::providers::{copy_providers, find, has_none, put};
use crate::providers::{provider_ids, provider_map};
use crate::text::same_text;
use crate::validation::settings_error;

verus! {

/// The operations on providers.
pub struct ProviderService;

/// What is to be done after a change has been stored.
pub struct PostCommitAction {
    pub app_type: AppType,
    pub provider: Provider,
    /// The live files as they were, to be put back where something fails.
    pub backup: LiveSnapshot,
    pub sync_mcp: bool,
    pub refresh_snapshot: bool,
    pub common_config_snippet: Option<String>,
    /// Whether a proxy stands in for the provider.
    pub takeover_active: bool,
}

/// What is to be done after a change has been stored.
#[verifier::ext_equal]
pub struct ActionView {
    pub app_type: AppType,
    pub provider: ProviderView,
    pub backup: SnapshotView,
    pub sync_mcp: bool,
    pub refresh_snapshot: bool,
    pub common_config_snippet: Option<Seq<char>>,
    pub takeover_active: bool,
}

impl PostCommitAction {
    /// What is to be done.
    pub open spec fn view(self) -> ActionView {
        ActionView {
            app_type: self.app_type,
            provider: self.provider@,
            backup: self.backup@,
            sync_mcp: self.sync_mcp,
            refresh_snapshot: self.refresh_snapshot,
            common_config_snippet: maybe_text(self.common_config_snippet),
            takeover_active: self.takeover_active,
        }
    }
}

/// What is to be done, where anything is, or an error.
pub open spec fn action_outcome(result: Result<Option<PostCommitAction>, AppError>) -> Result<
    Option<ActionView>,
    ErrorView,
> {
    match result {
        Ok(Some(action)) => Ok(Some(action@)),
        Ok(None) => Ok(None),
        Err(error) => Err(error@),
    }
}

/// There is no such provider.
pub open spec fn no_such_provider(id: Seq<char>) -> ErrorView {
    ErrorView::Localized {
        key: "provider.not_found"@,
        zh: "供应商不存在: "@ + id,
        en: "Provider not found: "@ + id,
    }
}

/// There is no such provider.
pub fn provider_not_found(id: &str) -> (r: AppError)
    ensures
        r@ == no_such_provider(id@),
{
    AppError::localized(
        "provider.not_found",
        joined("供应商不存在: ", id),
        joined("Provider not found: ", id),
    )
}

/// Whether a change came out as it should; one that fails changes nothing.
pub open spec fn change_comes_out(
    expected: Result<(ConfigView, Option<ActionView>), ErrorView>,
    before: ConfigView,
    after: ConfigView,
    result: Result<Option<ActionView>, ErrorView>,
) -> bool {
    match expected {
        Ok((config, action)) => result == Ok::<Option<ActionView>, ErrorView>(action) && after
            == config,
        Err(error) => result == Err::<Option<ActionView>, ErrorView>(error) && after == before,
    }
}

/// What is to be done after a provider has been added or changed: where it is live, it
/// goes into the live files.
pub open spec fn live_action(
    live: bool,
    captured: Result<SnapshotView, ErrorView>,
    action: spec_fn(SnapshotView) -> ActionView,
) -> Result<Option<ActionView>, ErrorView> {
    if live {
        match captured {
            Ok(backup) => Ok(Some(action(backup))),
            Err(error) => Err(error),
        }
    } else {
        Ok(None)
    }
}

/// A new provider as it is stored: the names of its models are those of today, and unless
/// something was said, it uses the common configuration.
pub open spec fn new_provider(app_type: AppType, provider: ProviderView) -> ProviderView {
    let named = renamed(app_type, provider);
    if named.meta is None && !app_type.additive() {
        ProviderView {
            meta: Some(MetaView { apply_common_config: Some(true), ..MetaView::empty() }),
            ..named
        }
    } else {
        named
    }
}

/// A provider with the names of its models as they are today.
pub open spec fn renamed(app_type: AppType, provider: ProviderView) -> ProviderView {
    if app_type == AppType::Claude {
        provider.with_settings(models_normalized(provider.settings_config))
    } else {
        provider
    }
}

/// The providers of an application, none where there is no place for them.
pub open spec fn manager_or_empty(config: ConfigView, app_type: AppType) -> ManagerView {
    if config.managers.contains_key(app_type) {
        config.managers[app_type]
    } else {
        ManagerView::empty()
    }
}

/// The providers of an application after one has been added; the first one becomes the
/// current one.
pub open spec fn with_new(app_type: AppType, manager: ManagerView, provider: ProviderView) -> ManagerView {
    let added = with_added(manager, provider.id, provider);
    if !app_type.additive() && manager.ids.len() == 0 && manager.current.len() == 0 {
        ManagerView { current: provider.id, ..added }
    } else {
        added
    }
}

/// Whether a provider is live.
pub open spec fn is_live(app_type: AppType, manager: ManagerView, id: Seq<char>) -> bool {
    app_type.additive() || manager.current == id
}

/// What comes of adding a provider.
pub open spec fn added(
    config: ConfigView,
    app_type: AppType,
    provider: ProviderView,
    gemini: Result<(), ErrorView>,
    usage: Result<(), ErrorView>,
    captured: Result<SnapshotView, ErrorView>,
) -> Result<(ConfigView, Option<ActionView>), ErrorView> {
    match settings_error(app_type, renamed(app_type, provider), gemini, usage) {
        Some(error) => Err(error),
        None => {
            let stored = new_provider(app_type, provider);
            let manager = with_new(app_type, manager_or_empty(config, app_type), stored);
            match live_action(
                is_live(app_type, manager, stored.id),
                captured,
                |backup: SnapshotView|
                    ActionView {
                        app_type,
                        provider: stored,
                        backup,
                        sync_mcp: false,
                        refresh_snapshot: false,
                        common_config_snippet: config.snippet(app_type),
                        takeover_active: false,
                    },
            ) {
                Ok(action) => Ok((config.with_manager(app_type, manager), action)),
                Err(error) => Err(error),
            }
        },
    }
}

/// What is kept about a provider that is changed: what was kept before, unless something
/// else is said.
pub open spec fn kept_meta(existing: ProviderView, changed: ProviderView) -> ProviderView {
    if changed.meta is None {
        ProviderView { meta: existing.meta, ..changed }
    } else {
        changed
    }
}

/// What comes of changing a provider.
pub open spec fn updated(
    config: ConfigView,
    app_type: AppType,
    provider: ProviderView,
    gemini: Result<(), ErrorView>,
    usage: Result<(), ErrorView>,
    captured: Result<SnapshotView, ErrorView>,
) -> Result<(ConfigView, Option<ActionView>), ErrorView> {
    let named = renamed(app_type, provider);
    match settings_error(app_type, named, gemini, usage) {
        Some(error) => Err(error),
        None => if !config.managers.contains_key(app_type) {
            Err(no_such_app(app_type))
        } else {
            let manager = config.managers[app_type];
            if !manager.providers.contains_key(named.id) {
                Err(no_such_provider(named.id))
            } else {
                let stored = kept_meta(manager.providers[named.id], named);
                match live_action(
                    is_live(app_type, manager, named.id),
                    captured,
                    |backup: SnapshotView|
                        ActionView {
                            app_type,
                            provider: stored,
                            backup,
                            sync_mcp: false,
                            refresh_snapshot: !app_type.additive(),
                            common_config_snippet: config.snippet(app_type),
                            takeover_active: false,
                        },
                ) {
                    Ok(action) => Ok(
                        (
                            config.with_manager(
                                app_type,
                                manager.with_provider(named.id, stored),
                            ),
                            action,
                        ),
                    ),
                    Err(error) => Err(error),
                }
            }
        },
    }
}

/// The snippet of an application, where it has one.
pub fn copy_snippet(config: &MultiAppConfig, app_type: AppType) -> (r: Option<String>)
    ensures
        maybe_text(r) == config@.snippet(app_type),
{
    match config.common_config_snippets.get(app_type) {
        Some(text) => Some(text.clone()),
        None => None,
    }
}

impl ProviderService {
    /// Adds a provider, or puts it in the place of the one of its identifier; the first
    /// one becomes the current one. `gemini` is what Gemini says of the settings,
    /// `usage` what is wrong with the usage script, and `captured` the live files as they
    /// are.
    pub fn add(
        config: &mut MultiAppConfig,
        app_type: AppType,
        provider: Provider,
        gemini: Result<(), AppError>,
        usage: Result<(), AppError>,
        captured: Result<LiveSnapshot, AppError>,
    ) -> (r: Result<Option<PostCommitAction>, AppError>)
        ensures
            change_comes_out(
                added(
                    old(config)@,
                    app_type,
                    provider@,
                    unit_outcome(gemini),
                    unit_outcome(usage),
                    snapshot_outcome(captured),
                ),
                old(config)@,
                final(config)@,
                action_outcome(r),
            ),
    {
        let mut provider = provider;
        Self::normalize_provider_if_claude(app_type, &mut provider);
        if let Err(error) = Self::validate_provider_settings(app_type, &provider, gemini, usage) {
            return Err(error);
        }
        if provider.meta.is_none() && !app_type.is_additive_mode() {
            let mut meta = ProviderMeta::new();
            meta.apply_common_config = Some(true);
            provider.meta = Some(meta);
        }
        let ghost before = config@;
        let (first, live) = match config.get_manager(app_type) {
            Some(manager) => {
                let first = has_none(&manager.providers) && manager.current.as_str().is_empty();
                (first, same_text(manager.current.as_str(), provider.id.as_str()))
            },
            None => (true, false),
        };
        let becomes_current = first && !app_type.is_additive_mode();
        let live = app_type.is_additive_mode() || becomes_current || live;
        assert(live == is_live(
            app_type,
            with_new(app_type, manager_or_empty(before, app_type), provider@),
            provider@.id,
        ));
        let mut action: Option<PostCommitAction> = None;
        if live {
            let backup = match captured {
                Ok(backup) => backup,
                Err(error) => {
                    return Err(error);
                },
            };
            action = Some(
                PostCommitAction {
                    app_type,
                    provider: provider.copy(),
                    backup,
                    sync_mcp: false,
                    refresh_snapshot: false,
                    common_config_snippet: copy_snippet(config, app_type),
                    takeover_active: false,
                },
            );
        }
        let ghost stored = provider@;
        config.ensure_app(app_type);
        if let Some(manager) = config.get_manager_mut(app_type) {
            let id = provider.id.clone();
            put(&mut manager.providers, provider.id.clone(), provider);
            if becomes_current {
                manager.current = id;
            }
            assert(manager@ =~= with_new(app_type, manager_or_empty(before, app_type), stored));
        }
        assert(config@.managers =~= before.managers.insert(
            app_type,
            with_new(app_type, manager_or_empty(before, app_type), stored),
        ));
        Ok(action)
    }

    /// Changes the provider of that identifier. What is kept about it stays, unless
    /// something else is said.
    pub fn update(
        config: &mut MultiAppConfig,
        app_type: AppType,
        provider: Provider,
        gemini: Result<(), AppError>,
        usage: Result<(), AppError>,
        captured: Result<LiveSnapshot, AppError>,
    ) -> (r: Result<Option<PostCommitAction>, AppError>)
        ensures
            change_comes_out(
                updated(
                    old(config)@,
                    app_type,
                    provider@,
                    unit_outcome(gemini),
                    unit_outcome(usage),
                    snapshot_outcome(captured),
                ),
                old(config)@,
                final(config)@,
                action_outcome(r),
            ),
    {
        let mut provider = provider;
        Self::normalize_provider_if_claude(app_type, &mut provider);
        if let Err(error) = Self::validate_provider_settings(app_type, &provider, gemini, usage) {
            return Err(error);
        }
        let ghost before = config@;
        let live = match config.get_manager(app_type) {
            Some(manager) => {
                match find(&manager.providers, provider.id.as_str()) {
                    Some(existing) => {
                        if provider.meta.is_none() {
                            provider.meta = match &existing.meta {
                                Some(meta) => Some(meta.copy()),
                                None => None,
                            };
                        }
                    },
                    None => {
                        return Err(provider_not_found(provider.id.as_str()));
                    },
                }
                app_type.is_additive_mode() || same_text(
                    manager.current.as_str(),
                    provider.id.as_str(),
                )
            },
            None => {
                return Err(Self::app_not_found(app_type));
            },
        };
        let mut action: Option<PostCommitAction> = None;
        if live {
            let backup = match captured {
                Ok(backup) => backup,
                Err(error) => {
                    return Err(error);
                },
            };
            action = Some(
                PostCommitAction {
                    app_type,
                    provider: provider.copy(),
                    backup,
                    sync_mcp: false,
                    refresh_snapshot: !app_type.is_additive_mode(),
                    common_config_snippet: copy_snippet(config, app_type),
                    takeover_active: false,
                },
            );
        }
        let id = provider.id.clone();
        config.replace_provider(app_type, id.as_str(), provider);
        Ok(action)
    }

    /// All providers of an application, in their order.
    pub fn list(config: &MultiAppConfig, app_type: AppType) -> (r: Result<
        indexmap::IndexMap<String, Provider>,
        AppError,
    >)
        ensures
            match r {
                Ok(providers) => {
                    &&& config@.managers.contains_key(app_type)
                    &&& provider_ids(providers) == config@.managers[app_type].ids
                    &&& provider_map(providers) == config@.managers[app_type].providers
                },
                Err(error) => !config@.managers.contains_key(app_type) && error@ == no_such_app(
                    app_type,
                ),
            },
    {
        match config.get_manager(app_type) {
            Some(manager) => Ok(copy_providers(&manager.providers)),
            None => Err(Self::app_not_found(app_type)),
        }
    }
}

} // verus!
