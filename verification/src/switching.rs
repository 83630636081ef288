//! Which provider is the current one, and how another becomes it.
use vstd::prelude::*;

use crate::config::{ConfigView, ManagerView, MultiAppConfig};
use crate::error::{AppError, ErrorView};
use crate::live_files::{
    snapshot_outcome, unit_outcome, JsonRead, LiveSnapshot, SnapshotView, TextRead, TextReadView,
};
use crate::live_import::{bool_outcome, no_such_app};
use crate::model::{AppType, Provider, ProviderView};
use crate::providers::{find, list_ids};
use crate::providers::{provider_ids, provider_map};
use crate::service::{
    copy_snippet, no_such_provider, provider_not_found, ActionView, PostCommitAction,
    ProviderService,
};
use crate::snapshots::{
    claude_backfilled, codex_backfilled, codex_text_seen, codex_text_stored, comes_out,
    gemini_backfilled, snippet_seen,
};
use crate::text::texts;

verus! {

/// Whether one time of creation comes before another; an unknown one comes first.
pub open spec fn created_before(left: Option<i64>, right: Option<i64>) -> bool {
    match (left, right) {
        (Some(l), Some(r)) => l < r,
        (None, Some(_)) => true,
        (_, None) => false,
    }
}

/// Whether one provider is listed before another: those with a place in the list by
/// their place, then the others by the time of their creation.
pub open spec fn listed_before(left: ProviderView, right: ProviderView) -> bool {
    match (left.sort_index, right.sort_index) {
        (Some(l), Some(r)) => l < r,
        (Some(_), None) => true,
        (None, Some(_)) => false,
        (None, None) => created_before(left.created_at, right.created_at),
    }
}

/// Whether the provider at a place comes first in the list: it comes before all that were
/// added earlier, and none that was added later comes before it.
pub open spec fn is_listed_first(
    ids: Seq<Seq<char>>,
    providers: Map<Seq<char>, ProviderView>,
    place: int,
) -> bool {
    &&& 0 <= place < ids.len()
    &&& forall|j: int|
        0 <= j < place ==> listed_before(providers[ids[place]], providers[#[trigger] ids[j]])
    &&& forall|j: int|
        place < j < ids.len() ==> !listed_before(providers[#[trigger] ids[j]], providers[ids[place]])
}

/// Whether an identifier is that of the provider that comes first in the list, or empty
/// where there are none.
pub open spec fn is_first_id(
    ids: Seq<Seq<char>>,
    providers: Map<Seq<char>, ProviderView>,
    id: Seq<char>,
) -> bool {
    if ids.len() == 0 {
        id.len() == 0
    } else {
        exists|place: int| #[trigger] is_listed_first(ids, providers, place) && id == ids[place]
    }
}

/// Tells whether one provider is listed before another.
fn comes_before(left: &Provider, right: &Provider) -> (r: bool)
    ensures
        r == listed_before(left@, right@),
{
    match (left.sort_index, right.sort_index) {
        (Some(l), Some(r)) => l < r,
        (Some(_), None) => true,
        (None, Some(_)) => false,
        (None, None) => match (left.created_at, right.created_at) {
            (Some(l), Some(r)) => l < r,
            (None, Some(_)) => true,
            (_, None) => false,
        },
    }
}

/// The identifier of the provider that comes first in the list, empty where there are
/// none.
fn first_listed(providers: &indexmap::IndexMap<String, Provider>) -> (r: String)
    ensures
        is_first_id(provider_ids(*providers), provider_map(*providers), r@),
        r@.len() == 0 || provider_map(*providers).contains_key(r@),
{
    let ids = list_ids(providers);
    if ids.len() == 0 {
        return String::new();
    }
    let ghost all = provider_ids(*providers);
    let ghost map = provider_map(*providers);
    let mut best: usize = 0;
    let mut i: usize = 1;
    while i < ids.len()
        invariant
            1 <= i <= ids.len(),
            best < i,
            all == texts(ids@),
            map == provider_map(*providers),
            all.to_set() == map.dom(),
            forall|j: int| 0 <= j < best ==> listed_before(map[all[best as int]], map[#[trigger] all[j]]),
            forall|j: int|
                best < j < i ==> !listed_before(map[#[trigger] all[j]], map[all[best as int]]),
        decreases ids.len() - i,
    {
        proof {
            assert(all[i as int] == ids@[i as int]@);
            assert(all[best as int] == ids@[best as int]@);
            assert(all.to_set().contains(all[i as int]));
            assert(all.to_set().contains(all[best as int]));
        }
        let earlier = match (
            find(providers, ids[i].as_str()),
            find(providers, ids[best].as_str()),
        ) {
            (Some(candidate), Some(leader)) => comes_before(candidate, leader),
            _ => false,
        };
        if earlier {
            best = i;
        }
        i += 1;
    }
    proof {
        assert(is_listed_first(all, map, best as int));
        assert(all[best as int] == ids@[best as int]@);
        assert(all.to_set().contains(all[best as int]));
    }
    ids[best].clone()
}

/// The identifier of the current provider, and whether it had to be chosen anew.
pub struct CurrentProvider {
    pub id: String,
    pub changed: bool,
}

/// Whether the current provider of an application is there, or none is set.
pub open spec fn current_is_sound(manager: ManagerView) -> bool {
    manager.current.len() == 0 || manager.providers.contains_key(manager.current)
}

impl ProviderService {
    /// The identifier of the current provider of an application. Where that provider is
    /// gone, the one that comes first in the list takes its place, and there is something
    /// to save.
    pub fn current(config: &mut MultiAppConfig, app_type: AppType) -> (r: Result<
        CurrentProvider,
        AppError,
    >)
        ensures
            if app_type.additive() {
                &&& r matches Ok(current)
                &&& current.id@.len() == 0
                &&& !current.changed
                &&& final(config)@ == old(config)@
            } else if !old(config)@.managers.contains_key(app_type) {
                &&& r matches Err(error)
                &&& error@ == no_such_app(app_type)
                &&& final(config)@ == old(config)@
            } else if current_is_sound(old(config)@.managers[app_type]) {
                &&& r matches Ok(current)
                &&& current.id@ == old(config)@.managers[app_type].current
                &&& !current.changed
                &&& final(config)@ == old(config)@
            } else {
                &&& r matches Ok(current)
                &&& is_first_id(
                    old(config)@.managers[app_type].ids,
                    old(config)@.managers[app_type].providers,
                    current.id@,
                )
                &&& current.changed
                &&& final(config)@ == old(config)@.with_manager(
                    app_type,
                    (ManagerView { current: current.id@, ..old(config)@.managers[app_type] }),
                )
            },
            r is Ok && !app_type.additive() ==> current_is_sound(
                final(config)@.managers[app_type],
            ),
    {
        if app_type.is_additive_mode() {
            return Ok(CurrentProvider { id: String::new(), changed: false });
        }
        let first = match config.get_manager(app_type) {
            Some(manager) => {
                if manager.current.as_str().is_empty() || find(
                    &manager.providers,
                    manager.current.as_str(),
                ).is_some() {
                    return Ok(CurrentProvider { id: manager.current.clone(), changed: false });
                }
                first_listed(&manager.providers)
            },
            None => {
                return Err(Self::app_not_found(app_type));
            },
        };
        if let Some(manager) = config.get_manager_mut(app_type) {
            manager.current = first.clone();
        }
        Ok(CurrentProvider { id: first, changed: true })
    }
}

/// Whether a proxy stands in for the provider of an application. `running` tells whether
/// the proxy runs, and `active` whether it stands in.
pub open spec fn takeover(
    app_type: AppType,
    running: Result<bool, Seq<char>>,
    active: Result<bool, Seq<char>>,
) -> Result<bool, ErrorView> {
    if app_type.additive() {
        Ok(false)
    } else {
        match running {
            Err(message) => Err(ErrorView::Message(message)),
            Ok(false) => Ok(false),
            Ok(true) => match active {
                Err(message) => Err(ErrorView::Message(message)),
                Ok(active) => Ok(active),
            },
        }
    }
}

/// What a truth value or a message says.
pub open spec fn told(result: Result<bool, String>) -> Result<bool, Seq<char>> {
    match result {
        Ok(flag) => Ok(flag),
        Err(message) => Err(message@),
    }
}

/// Tells whether a proxy stands in for the provider of an application.
pub fn takeover_active(
    app_type: AppType,
    running: Result<bool, String>,
    active: Result<bool, String>,
) -> (r: Result<bool, AppError>)
    ensures
        bool_outcome(r) == takeover(app_type, told(running), told(active)),
{
    if app_type.is_additive_mode() {
        return Ok(false);
    }
    match running {
        Err(message) => Err(AppError::Message(message)),
        Ok(running) => if running {
            match active {
                Err(message) => Err(AppError::Message(message)),
                Ok(active) => Ok(active),
            }
        } else {
            Ok(false)
        },
    }
}

/// What was read of the live files before a provider becomes the current one.
pub enum LiveBefore {
    Claude { settings: JsonRead },
    Codex { auth: JsonRead, text: TextRead },
    /// The environment is given as a JSON document.
    Gemini { env: JsonRead, settings: JsonRead },
    /// The live files are not looked at.
    Unread,
}

/// The provider that is to become the current one.
pub open spec fn next_provider(config: ConfigView, app_type: AppType, id: Seq<char>) -> Result<
    ProviderView,
    ErrorView,
> {
    if !config.managers.contains_key(app_type) {
        Err(no_such_app(app_type))
    } else {
        match config.provider(app_type, id) {
            Some(provider) => Ok(provider),
            None => Err(no_such_provider(id)),
        }
    }
}

/// The configuration with another current provider.
pub open spec fn with_current(config: ConfigView, app_type: AppType, id: Seq<char>) -> ConfigView {
    if config.managers.contains_key(app_type) {
        config.with_manager(app_type, ManagerView { current: id, ..config.managers[app_type] })
    } else {
        config
    }
}

/// The configuration after the current provider has taken its settings back from the live
/// files.
pub open spec fn backfilled(
    config: ConfigView,
    id: Seq<char>,
    live: LiveBefore,
    after: ConfigView,
    result: Result<(), ErrorView>,
) -> bool {
    match live {
        LiveBefore::Claude { settings } => comes_out(
            claude_backfilled(config, id, settings@),
            config,
            after,
            result,
        ),
        LiveBefore::Codex { auth, text } => codex_backfilled(
            config,
            config.current(AppType::Codex),
            id,
            auth@,
            text@,
            after,
            result,
        ),
        LiveBefore::Gemini { env, settings } => comes_out(
            gemini_backfilled(config, id, env@, settings@),
            config,
            after,
            result,
        ),
        LiveBefore::Unread => result is Ok && after == config,
    }
}

/// The configuration after a provider has become the current one, with the provider as it
/// was before. Where the one that was current cannot take its settings back, what it has
/// taken back by then stays.
pub open spec fn prepared(
    config: ConfigView,
    app_type: AppType,
    id: Seq<char>,
    live: LiveBefore,
    after: ConfigView,
    result: Result<ProviderView, ErrorView>,
) -> bool {
    match next_provider(config, app_type, id) {
        Err(error) => result == Err::<ProviderView, ErrorView>(error) && after == config,
        Ok(provider) => exists|filled: ConfigView, done: Result<(), ErrorView>| #[trigger]
            backfilled(config, id, live, filled, done) && match done {
                Err(error) => result == Err::<ProviderView, ErrorView>(error) && after == filled,
                Ok(_) => result == Ok::<ProviderView, ErrorView>(provider) && after == with_current(
                    filled,
                    app_type,
                    id,
                ),
            },
    }
}

/// What a provider or an error says.
pub open spec fn provider_outcome(result: Result<Provider, AppError>) -> Result<
    ProviderView,
    ErrorView,
> {
    match result {
        Ok(provider) => Ok(provider@),
        Err(error) => Err(error@),
    }
}

/// The provider that is to become the current one.
fn look_up(config: &MultiAppConfig, app_type: AppType, id: &str) -> (r: Result<Provider, AppError>)
    ensures
        provider_outcome(r) == next_provider(config@, app_type, id@),
{
    if config.get_manager(app_type).is_none() {
        return Err(ProviderService::app_not_found(app_type));
    }
    match config.find_provider(app_type, id) {
        Some(provider) => Ok(provider.copy()),
        None => Err(provider_not_found(id)),
    }
}

/// Makes a provider the current one.
fn set_current(config: &mut MultiAppConfig, app_type: AppType, id: &str)
    ensures
        final(config)@ == with_current(old(config)@, app_type, id@),
{
    if let Some(manager) = config.get_manager_mut(app_type) {
        manager.current = id.to_owned();
    }
}

/// Lets the current provider take its settings back from the live files.
fn backfill(config: &mut MultiAppConfig, id: &str, live: LiveBefore) -> (r: Result<(), AppError>)
    ensures
        backfilled(old(config)@, id@, live, final(config)@, unit_outcome(r)),
{
    match live {
        LiveBefore::Claude { settings } => ProviderService::backfill_claude_current(
            config,
            id,
            settings,
        ),
        LiveBefore::Codex { auth, text } => {
            let current = config.current_id(AppType::Codex);
            ProviderService::backfill_codex_current(config, id, Some(current.as_str()), auth, text)
        },
        LiveBefore::Gemini { env, settings } => ProviderService::backfill_gemini_current(
            config,
            id,
            env,
            settings,
        ),
        LiveBefore::Unread => Ok(()),
    }
}

/// Lets the current provider take its settings back from the live files, and makes
/// another the current one.
fn prepare(config: &mut MultiAppConfig, app_type: AppType, id: &str, live: LiveBefore) -> (r:
    Result<Provider, AppError>)
    ensures
        prepared(old(config)@, app_type, id@, live, final(config)@, provider_outcome(r)),
{
    let provider = match look_up(config, app_type, id) {
        Ok(provider) => provider,
        Err(error) => {
            return Err(error);
        },
    };
    let ghost before = config@;
    let done = backfill(config, id, live);
    assert(backfilled(before, id@, live, config@, unit_outcome(done)));
    match done {
        Err(error) => Err(error),
        Ok(_) => {
            set_current(config, app_type, id);
            Ok(provider)
        },
    }
}

impl ProviderService {
    /// Makes another Codex provider the current one.
    pub fn prepare_switch_codex(
        config: &mut MultiAppConfig,
        provider_id: &str,
        auth: JsonRead,
        text: TextRead,
    ) -> (r: Result<Provider, AppError>)
        ensures
            prepared(
                old(config)@,
                AppType::Codex,
                provider_id@,
                LiveBefore::Codex { auth, text },
                final(config)@,
                provider_outcome(r),
            ),
    {
        prepare(config, AppType::Codex, provider_id, LiveBefore::Codex { auth, text })
    }

    /// Makes another Anthropic provider the current one.
    pub fn prepare_switch_claude(
        config: &mut MultiAppConfig,
        provider_id: &str,
        settings: JsonRead,
    ) -> (r: Result<Provider, AppError>)
        ensures
            prepared(
                old(config)@,
                AppType::Claude,
                provider_id@,
                LiveBefore::Claude { settings },
                final(config)@,
                provider_outcome(r),
            ),
    {
        prepare(config, AppType::Claude, provider_id, LiveBefore::Claude { settings })
    }

    /// Makes another Gemini provider the current one.
    pub fn prepare_switch_gemini(
        config: &mut MultiAppConfig,
        provider_id: &str,
        env: JsonRead,
        settings: JsonRead,
    ) -> (r: Result<Provider, AppError>)
        ensures
            prepared(
                old(config)@,
                AppType::Gemini,
                provider_id@,
                LiveBefore::Gemini { env, settings },
                final(config)@,
                provider_outcome(r),
            ),
    {
        prepare(config, AppType::Gemini, provider_id, LiveBefore::Gemini { env, settings })
    }
}

impl LiveBefore {
    /// Whether these are the live files that a switch looks at: those of the application,
    /// and none where all providers are live at once or a proxy stands in.
    pub open spec fn fits(self, app_type: AppType, takeover: bool) -> bool {
        match self {
            LiveBefore::Claude { .. } => app_type == AppType::Claude,
            LiveBefore::Codex { .. } => app_type == AppType::Codex,
            LiveBefore::Gemini { .. } => app_type == AppType::Gemini,
            LiveBefore::Unread => app_type.additive() || takeover,
        }
    }
}

/// What is to be done after a provider has become the current one.
pub open spec fn switch_action(
    app_type: AppType,
    provider: ProviderView,
    backup: SnapshotView,
    snippet: Option<Seq<char>>,
    takeover: bool,
) -> ActionView {
    ActionView {
        app_type,
        provider,
        backup,
        sync_mcp: !takeover,
        refresh_snapshot: !takeover && !app_type.additive(),
        common_config_snippet: snippet,
        takeover_active: takeover,
    }
}

/// What comes of switching without a look at the live files: where all providers are live
/// at once, and where a proxy stands in.
pub open spec fn switched_unread(
    config: ConfigView,
    app_type: AppType,
    id: Seq<char>,
    takeover: bool,
    captured: Result<SnapshotView, ErrorView>,
) -> Result<(ConfigView, ActionView), ErrorView> {
    match (next_provider(config, app_type, id), captured) {
        (Err(error), _) => Err(error),
        (Ok(_), Err(error)) => Err(error),
        (Ok(provider), Ok(backup)) => Ok(
            (
                if takeover {
                    with_current(config, app_type, id)
                } else {
                    config
                },
                switch_action(app_type, provider, backup, config.snippet(app_type), takeover),
            ),
        ),
    }
}

/// What an action or an error says.
pub open spec fn switch_outcome(result: Result<PostCommitAction, AppError>) -> Result<
    ActionView,
    ErrorView,
> {
    match result {
        Ok(action) => Ok(action@),
        Err(error) => Err(error@),
    }
}

/// What comes of a provider being made the current one; where that fails, everything is put
/// back.
pub open spec fn prepared_outcome(
    config: ConfigView,
    app_type: AppType,
    backup: SnapshotView,
    changed: ConfigView,
    provider: Result<ProviderView, ErrorView>,
) -> (ConfigView, Result<ActionView, ErrorView>) {
    match provider {
        Ok(provider) => (
            changed,
            Ok(switch_action(app_type, provider, backup, changed.snippet(app_type), false)),
        ),
        Err(error) => (config, Err(error)),
    }
}

/// What comes of switching with a look at the live files.
pub open spec fn switched_read(
    config: ConfigView,
    app_type: AppType,
    id: Seq<char>,
    captured: Result<SnapshotView, ErrorView>,
    live: LiveBefore,
    after: ConfigView,
    result: Result<ActionView, ErrorView>,
) -> bool {
    match captured {
        Err(error) => result == Err::<ActionView, ErrorView>(error) && after == config,
        Ok(backup) => exists|changed: ConfigView, provider: Result<ProviderView, ErrorView>|
         #[trigger]
            prepared(config, app_type, id, live, changed, provider) && (after, result)
                == prepared_outcome(config, app_type, backup, changed, provider),
    }
}

/// What comes of switching to a provider.
pub open spec fn switched(
    config: ConfigView,
    app_type: AppType,
    id: Seq<char>,
    takeover: bool,
    captured: Result<SnapshotView, ErrorView>,
    live: LiveBefore,
    after: ConfigView,
    result: Result<ActionView, ErrorView>,
) -> bool {
    if app_type.additive() || takeover {
        match switched_unread(
            config,
            app_type,
            id,
            takeover && !app_type.additive(),
            captured,
        ) {
            Ok((changed, action)) => result == Ok::<ActionView, ErrorView>(action) && after
                == changed,
            Err(error) => result == Err::<ActionView, ErrorView>(error) && after == config,
        }
    } else {
        switched_read(config, app_type, id, captured, live, after, result)
    }
}

impl ProviderService {
    /// Makes a provider the current one. The one that was current takes its settings back
    /// from the live files first, unless all providers are live at once or a proxy stands
    /// in. `captured` is the live files as they are, to be put back where something
    /// fails.
    pub fn switch(
        config: &mut MultiAppConfig,
        app_type: AppType,
        provider_id: &str,
        takeover: bool,
        captured: Result<LiveSnapshot, AppError>,
        live: LiveBefore,
    ) -> (r: Result<PostCommitAction, AppError>)
        requires
            live.fits(app_type, takeover),
        ensures
            switched(
                old(config)@,
                app_type,
                provider_id@,
                takeover,
                snapshot_outcome(captured),
                live,
                final(config)@,
                switch_outcome(r),
            ),
    {
        let ghost before = config@;
        if app_type.is_additive_mode() || takeover {
            let provider = match look_up(config, app_type, provider_id) {
                Ok(provider) => provider,
                Err(error) => {
                    return Err(error);
                },
            };
            let backup = match captured {
                Ok(backup) => backup,
                Err(error) => {
                    return Err(error);
                },
            };
            let takeover = takeover && !app_type.is_additive_mode();
            let common_config_snippet = copy_snippet(config, app_type);
            if takeover {
                set_current(config, app_type, provider_id);
            }
            return Ok(
                PostCommitAction {
                    app_type,
                    provider,
                    backup,
                    sync_mcp: !takeover,
                    refresh_snapshot: false,
                    common_config_snippet,
                    takeover_active: takeover,
                },
            );
        }
        let backup = match captured {
            Ok(backup) => backup,
            Err(error) => {
                return Err(error);
            },
        };
        let original = config.copy();
        let provider = prepare(config, app_type, provider_id, live);
        let ghost changed = config@;
        let ghost outcome = provider_outcome(provider);
        assert(prepared(before, app_type, provider_id@, live, changed, outcome));
        let ghost kept = backup@;
        let r = match provider {
            Ok(provider) => Ok(
                PostCommitAction {
                    app_type,
                    provider,
                    backup,
                    sync_mcp: true,
                    refresh_snapshot: true,
                    common_config_snippet: copy_snippet(config, app_type),
                    takeover_active: false,
                },
            ),
            Err(error) => {
                *config = original;
                Err(error)
            },
        };
        assert((config@, switch_outcome(r)) == prepared_outcome(
            before,
            app_type,
            kept,
            changed,
            outcome,
        ));
        assert(switched_read(
            before,
            app_type,
            provider_id@,
            Ok(kept),
            live,
            config@,
            switch_outcome(r),
        ));
        r
    }
}

/// A switch that fails changes nothing.
pub proof fn law_failed_switch_changes_nothing(
    config: ConfigView,
    app_type: AppType,
    id: Seq<char>,
    takeover: bool,
    captured: Result<SnapshotView, ErrorView>,
    live: LiveBefore,
    after: ConfigView,
    error: ErrorView,
)
    requires
        switched(config, app_type, id, takeover, captured, live, after, Err(error)),
    ensures
        after == config,
{
}

/// Where a switch succeeds and not all providers are live at once, the provider that was
/// asked for is the current one, and it goes into the live files as it was stored.
pub proof fn law_switch_makes_current(
    config: ConfigView,
    app_type: AppType,
    id: Seq<char>,
    takeover: bool,
    captured: Result<SnapshotView, ErrorView>,
    live: LiveBefore,
    after: ConfigView,
    action: ActionView,
)
    requires
        switched(config, app_type, id, takeover, captured, live, after, Ok(action)),
        !app_type.additive(),
        live.fits(app_type, takeover),
    ensures
        after.managers.contains_key(app_type),
        after.managers[app_type].current == id,
        config.provider(app_type, id) == Some(action.provider),
        action.takeover_active == takeover,
{
    if !takeover {
        assert(switched_read(config, app_type, id, captured, live, after, Ok(action)));
        let filled = lemma_successful_switch(config, app_type, id, captured, live, after, action);
        lemma_backfill_keeps_apps(config, id, live, filled, app_type);
    }
}

/// The configuration of a successful switch before the current provider is changed.
pub proof fn lemma_successful_switch(
    config: ConfigView,
    app_type: AppType,
    id: Seq<char>,
    captured: Result<SnapshotView, ErrorView>,
    live: LiveBefore,
    after: ConfigView,
    action: ActionView,
) -> (filled: ConfigView)
    requires
        switched_read(config, app_type, id, captured, live, after, Ok(action)),
    ensures
        backfilled(config, id, live, filled, Ok(())),
        after == with_current(filled, app_type, id),
        config.provider(app_type, id) == Some(action.provider),
        action.common_config_snippet == after.snippet(app_type),
        config.managers.contains_key(app_type),
        !action.takeover_active,
{
    let backup = captured->Ok_0;
    let (changed, provider) = choose|
        changed: ConfigView,
        provider: Result<ProviderView, ErrorView>,
    | #[trigger]
        prepared(config, app_type, id, live, changed, provider) && (
            after,
            Ok::<ActionView, ErrorView>(action),
        ) == prepared_outcome(config, app_type, backup, changed, provider);
    assert(prepared(config, app_type, id, live, changed, provider));
    let next = config.provider(app_type, id)->0;
    let (filled, done) = choose|filled: ConfigView, done: Result<(), ErrorView>| #[trigger]
        backfilled(config, id, live, filled, done) && match done {
            Err(error) => provider == Err::<ProviderView, ErrorView>(error) && changed == filled,
            Ok(_) => provider == Ok::<ProviderView, ErrorView>(next) && changed == with_current(
                filled,
                app_type,
                id,
            ),
        };
    assert(backfilled(config, id, live, filled, done));
    filled
}

/// Taking settings back from the live files adds no application and takes none away.
proof fn lemma_backfill_keeps_apps(
    config: ConfigView,
    id: Seq<char>,
    live: LiveBefore,
    after: ConfigView,
    app_type: AppType,
)
    requires
        backfilled(config, id, live, after, Ok(())),
        config.managers.contains_key(app_type),
    ensures
        after.managers.contains_key(app_type),
{
    if let LiveBefore::Codex { auth, text } = live {
        let current = config.current(AppType::Codex);
        if let (Ok(found), TextReadView::Found(content)) = (auth@.content(), text@) {
            if current.len() > 0 && current != id {
                assert(codex_text_seen(
                    config,
                    current,
                    found,
                    content,
                    after,
                    Ok(()),
                ));
                let snippet = choose|snippet: Result<Option<Seq<char>>, ErrorView>| #[trigger]
                    snippet_seen(config, current, content, snippet)
                        && match snippet {
                        Err(error) => Ok::<(), ErrorView>(()) == Err::<(), ErrorView>(error)
                            && after == config,
                        Ok(snippet) => codex_text_stored(
                            config,
                            current,
                            found,
                            content,
                            snippet,
                            after,
                            Ok(()),
                        ),
                    };
                assert(codex_text_stored(
                    config,
                    current,
                    found,
                    content,
                    snippet->Ok_0,
                    after,
                    Ok(()),
                ));
            }
        }
    }
}

} // verus!
