//! Sorting, deleting and importing providers, and writing all current ones to the live
//! files.
use vstd::prelude::*;

use crate::config::{ConfigView, ManagerView, MultiAppConfig};
use crate::error::{AppError, ErrorView};
use crate::json::Json;
use crate::live_files::unit_outcome;
use crate::live_import::{no_such_app, with_added};
use crate::model::{maybe_text, AppType, Provider, ProviderView};
use crate::providers::{find, find_mut, list_ids, put, take_out};
use crate::service::{
    copy_snippet, manager_or_empty, no_such_provider, provider_not_found, ProviderService,
};
use crate::snapshots::comes_out;
use crate::text::{blank, is_blank, same_text, texts};

verus! {

/// The place of a provider in the list.
pub struct ProviderSortUpdate {
    pub id: String,
    pub sort_index: usize,
}

/// The providers after one has got its place in the list, where it is there.
pub open spec fn with_place(
    providers: Map<Seq<char>, ProviderView>,
    id: Seq<char>,
    sort_index: usize,
) -> Map<Seq<char>, ProviderView> {
    if providers.contains_key(id) {
        providers.insert(id, ProviderView { sort_index: Some(sort_index), ..providers[id] })
    } else {
        providers
    }
}

/// The providers after each of these places has been given, one after the other.
pub open spec fn with_places(
    providers: Map<Seq<char>, ProviderView>,
    updates: Seq<ProviderSortUpdate>,
) -> Map<Seq<char>, ProviderView>
    decreases updates.len(),
{
    if updates.len() == 0 {
        providers
    } else {
        with_place(
            with_places(providers, updates.drop_last()),
            updates.last().id@,
            updates.last().sort_index,
        )
    }
}

/// What comes of sorting providers.
pub open spec fn sorted(
    config: ConfigView,
    app_type: AppType,
    updates: Seq<ProviderSortUpdate>,
) -> Result<ConfigView, ErrorView> {
    if config.managers.contains_key(app_type) {
        let manager = config.managers[app_type];
        Ok(
            config.with_manager(
                app_type,
                ManagerView { providers: with_places(manager.providers, updates), ..manager },
            ),
        )
    } else {
        Err(no_such_app(app_type))
    }
}

/// Sorting changes nothing of a provider but its place in the list, and the last place
/// that is given counts.
pub proof fn law_sorting_changes_places_only(
    providers: Map<Seq<char>, ProviderView>,
    updates: Seq<ProviderSortUpdate>,
    id: Seq<char>,
)
    ensures
        ({
            let after = with_places(providers, updates);
            &&& after.contains_key(id) == providers.contains_key(id)
            &&& providers.contains_key(id) ==> after[id] == (ProviderView {
                sort_index: after[id].sort_index,
                ..providers[id]
            })
            &&& (forall|i: int| 0 <= i < updates.len() ==> (#[trigger] updates[i]).id@ != id)
                && providers.contains_key(id) ==> after[id] == providers[id]
            &&& forall|i: int|
                0 <= i < updates.len() && (#[trigger] updates[i]).id@ == id
                    && providers.contains_key(id) && (forall|j: int|
                    i < j < updates.len() ==> (#[trigger] updates[j]).id@ != id)
                    ==> after[id].sort_index == Some(updates[i].sort_index)
        }),
    decreases updates.len(),
{
    if updates.len() > 0 {
        let rest = updates.drop_last();
        law_sorting_changes_places_only(providers, rest, id);
        let after = with_places(providers, updates);
        assert(updates.last() == updates[updates.len() - 1]);
        assert forall|i: int|
            0 <= i < updates.len() && (#[trigger] updates[i]).id@ == id && providers.contains_key(
                id,
            ) && (forall|j: int| i < j < updates.len() ==> (#[trigger] updates[j]).id@ != id)
            implies after[id].sort_index == Some(updates[i].sort_index) by {
            if i < rest.len() {
                assert(rest[i] == updates[i]);
                assert(updates[updates.len() - 1].id@ != id);
                assert forall|j: int| i < j < rest.len() implies (#[trigger] rest[j]).id@ != id by {
                    assert(rest[j] == updates[j]);
                }
            }
        }
        if forall|i: int| 0 <= i < updates.len() ==> (#[trigger] updates[i]).id@ != id {
            assert forall|i: int| 0 <= i < rest.len() implies (#[trigger] rest[i]).id@ != id by {
                assert(rest[i] == updates[i]);
            }
            assert(updates[updates.len() - 1].id@ != id);
        }
    }
}

impl ProviderService {
    /// Gives providers their places in the list. Those that are not there are passed over.
    pub fn update_sort_order(
        config: &mut MultiAppConfig,
        app_type: AppType,
        updates: Vec<ProviderSortUpdate>,
    ) -> (r: Result<bool, AppError>)
        ensures
            match sorted(old(config)@, app_type, updates@) {
                Ok(changed) => r == Ok::<bool, AppError>(true) && final(config)@ == changed,
                Err(error) => (r matches Err(failure) && failure@ == error) && final(config)@
                    == old(config)@,
            },
    {
        match config.get_manager_mut(app_type) {
            None => Err(Self::app_not_found(app_type)),
            Some(manager) => {
                let ghost before = manager@;
                let mut i: usize = 0;
                proof {
                    assert(updates@.take(0) =~= Seq::empty());
                }
                while i < updates.len()
                    invariant
                        i <= updates.len(),
                        manager@ == (ManagerView {
                            providers: with_places(before.providers, updates@.take(i as int)),
                            ..before
                        }),
                    decreases updates.len() - i,
                {
                    proof {
                        assert(updates@.take(i + 1).drop_last() =~= updates@.take(i as int));
                        assert(updates@.take(i + 1).last() == updates@[i as int]);
                    }
                    if let Some(provider) = find_mut(
                        &mut manager.providers,
                        updates[i].id.as_str(),
                    ) {
                        provider.sort_index = Some(updates[i].sort_index);
                    }
                    i += 1;
                }
                assert(updates@.take(i as int) =~= updates@);
                Ok(true)
            },
        }
    }
}

/// A provider that goes into the live files, with the common snippet of its application,
/// and whether that is asked for.
pub struct CurrentSnapshot {
    pub app_type: AppType,
    pub provider: Provider,
    pub snippet: Option<String>,
    pub apply_common_config: bool,
}

/// A provider that goes into the live files.
#[verifier::ext_equal]
pub struct CurrentView {
    pub app_type: AppType,
    pub provider: ProviderView,
    pub snippet: Option<Seq<char>>,
    pub apply_common_config: bool,
}

impl CurrentSnapshot {
    /// What goes into the live files.
    pub open spec fn view(self) -> CurrentView {
        CurrentView {
            app_type: self.app_type,
            provider: self.provider@,
            snippet: maybe_text(self.snippet),
            apply_common_config: self.apply_common_config,
        }
    }
}

/// What goes into the live files, in order.
pub open spec fn currents_view(snapshots: Seq<CurrentSnapshot>) -> Seq<CurrentView> {
    snapshots.map_values(|snapshot: CurrentSnapshot| snapshot@)
}

/// The providers of an application that go into the live files: all of them where all are
/// live at once, and otherwise the current one, where it is there.
pub open spec fn app_currents(config: ConfigView, app_type: AppType) -> Seq<CurrentView> {
    if !config.managers.contains_key(app_type) {
        Seq::empty()
    } else {
        let manager = config.managers[app_type];
        if app_type.additive() {
            manager.ids.map_values(
                |id: Seq<char>|
                    CurrentView {
                        app_type,
                        provider: manager.providers[id],
                        snippet: config.snippet(app_type),
                        apply_common_config: true,
                    },
            )
        } else if manager.current.len() > 0 && manager.providers.contains_key(manager.current) {
            seq![
                CurrentView {
                    app_type,
                    provider: manager.providers[manager.current],
                    snippet: config.snippet(app_type),
                    apply_common_config: true,
                },
            ]
        } else {
            Seq::empty()
        }
    }
}

/// The providers of several applications that go into the live files.
pub open spec fn all_currents(config: ConfigView, apps: Seq<AppType>) -> Seq<CurrentView>
    decreases apps.len(),
{
    if apps.len() == 0 {
        Seq::empty()
    } else {
        all_currents(config, apps.drop_last()) + app_currents(config, apps.last())
    }
}

/// Adds the providers of an application that go into the live files.
fn push_currents(snapshots: &mut Vec<CurrentSnapshot>, config: &MultiAppConfig, app_type: AppType)
    ensures
        currents_view(final(snapshots)@) == currents_view(old(snapshots)@) + app_currents(
            config@,
            app_type,
        ),
{
    let ghost before = currents_view(snapshots@);
    let manager = match config.get_manager(app_type) {
        Some(manager) => manager,
        None => {
            assert(before =~= before + app_currents(config@, app_type));
            return;
        },
    };
    let ghost wanted = app_currents(config@, app_type);
    if app_type.is_additive_mode() {
        let ids = list_ids(&manager.providers);
        let mut i: usize = 0;
        proof {
            assert(before =~= before + wanted.take(0));
            assert(wanted.len() == ids@.len());
        }
        while i < ids.len()
            invariant
                i <= ids.len(),
                config@.managers.contains_key(app_type),
                config@.managers[app_type] == manager@,
                app_type.additive(),
                wanted == app_currents(config@, app_type),
                wanted.len() == ids@.len(),
                texts(ids@) == manager@.ids,
                texts(ids@).to_set() == manager@.providers.dom(),
                currents_view(snapshots@) == before + wanted.take(i as int),
            decreases ids.len() - i,
        {
            let ghost so_far = snapshots@;
            proof {
                assert(texts(ids@)[i as int] == ids@[i as int]@);
                assert(texts(ids@).to_set().contains(texts(ids@)[i as int]));
            }
            if let Some(provider) = find(&manager.providers, ids[i].as_str()) {
                let snapshot = CurrentSnapshot {
                    app_type,
                    provider: provider.copy(),
                    snippet: copy_snippet(config, app_type),
                    apply_common_config: true,
                };
                assert(snapshot@ == wanted[i as int]);
                snapshots.push(snapshot);
                proof {
                    assert(currents_view(snapshots@) =~= currents_view(so_far).push(snapshot@));
                    assert(wanted.take(i + 1) =~= wanted.take(i as int).push(wanted[i as int]));
                    assert(before + wanted.take(i + 1) =~= (before + wanted.take(i as int)).push(
                        wanted[i as int],
                    ));
                }
            }
            i += 1;
        }
        assert(wanted.take(i as int) =~= wanted);
    } else if !manager.current.as_str().is_empty() {
        match find(&manager.providers, manager.current.as_str()) {
            Some(provider) => {
                let ghost so_far = snapshots@;
                let snapshot = CurrentSnapshot {
                    app_type,
                    provider: provider.copy(),
                    snippet: copy_snippet(config, app_type),
                    apply_common_config: true,
                };
                snapshots.push(snapshot);
                proof {
                    assert(currents_view(snapshots@) =~= currents_view(so_far).push(snapshot@));
                    assert(before + wanted =~= before.push(snapshot@));
                }
            },
            None => {
                assert(before =~= before + wanted);
            },
        }
    } else {
        assert(before =~= before + wanted);
    }
}

impl ProviderService {
    /// The providers that are to be written to the live files, application by application.
    pub fn sync_current_to_live(config: &MultiAppConfig) -> (r: Vec<CurrentSnapshot>)
        ensures
            currents_view(r@) == all_currents(config@, AppType::all_apps()),
    {
        let apps = AppType::all();
        let mut snapshots: Vec<CurrentSnapshot> = Vec::new();
        let mut i: usize = 0;
        proof {
            assert(apps@.take(0) =~= Seq::empty());
            assert(currents_view(snapshots@) =~= Seq::empty());
        }
        while i < apps.len()
            invariant
                i <= apps.len(),
                currents_view(snapshots@) == all_currents(config@, apps@.take(i as int)),
            decreases apps.len() - i,
        {
            proof {
                assert(apps@.take(i + 1).drop_last() =~= apps@.take(i as int));
                assert(apps@.take(i + 1).last() == apps@[i as int]);
            }
            push_currents(&mut snapshots, config, apps[i]);
            i += 1;
        }
        assert(apps@.take(i as int) =~= apps@);
        snapshots
    }
}

/// A provider goes into the live files where its application is among them and it is one
/// of those of that application.
proof fn lemma_currents_by_app(config: ConfigView, apps: Seq<AppType>, current: CurrentView)
    ensures
        all_currents(config, apps).contains(current) <==> apps.contains(current.app_type)
            && app_currents(config, current.app_type).contains(current),
    decreases apps.len(),
{
    if apps.len() > 0 {
        let before = all_currents(config, apps.drop_last());
        let own = app_currents(config, apps.last());
        lemma_currents_by_app(config, apps.drop_last(), current);
        assert(apps =~= apps.drop_last().push(apps.last()));
        if before.contains(current) {
            let i = choose|i: int| 0 <= i < before.len() && before[i] == current;
            assert((before + own)[i] == current);
        }
        if own.contains(current) {
            let i = choose|i: int| 0 <= i < own.len() && own[i] == current;
            assert((before + own)[before.len() + i] == current);
            assert(current.app_type == apps.last());
            assert(apps[apps.len() - 1] == apps.last());
        }
        if apps.drop_last().contains(current.app_type) {
            let i = choose|i: int|
                0 <= i < apps.drop_last().len() && apps.drop_last()[i] == current.app_type;
            assert(apps[i] == current.app_type);
        }
        if (before + own).contains(current) {
            let i = choose|i: int| 0 <= i < (before + own).len() && (before + own)[i] == current;
            if i < before.len() {
                assert(before[i] == current);
            } else {
                assert(own[i - before.len()] == current);
            }
        }
        if apps.contains(current.app_type) && !apps.drop_last().contains(current.app_type) {
            let i = choose|i: int| 0 <= i < apps.len() && apps[i] == current.app_type;
            if i < apps.len() - 1 {
                assert(apps.drop_last()[i] == current.app_type);
            }
        }
    }
}

/// Whether a provider is to go into the live files of an application: any provider that is
/// listed, where all are live at once, and otherwise the current one.
pub open spec fn goes_live(config: ConfigView, app_type: AppType, provider: ProviderView) -> bool {
    let manager = config.managers[app_type];
    &&& config.managers.contains_key(app_type)
    &&& if app_type.additive() {
        exists|i: int| 0 <= i < manager.ids.len() && #[trigger] manager.providers[manager.ids[i]]
            == provider
    } else {
        &&& manager.current.len() > 0
        &&& manager.providers.contains_key(manager.current)
        &&& manager.providers[manager.current] == provider
    }
}

/// What is written to the live files is exactly every provider of each application where
/// all are live at once, and the current provider of each other one, where it is known;
/// each with the common snippet of its application, which is asked for.
pub proof fn law_what_goes_live(config: ConfigView, current: CurrentView)
    ensures
        all_currents(config, AppType::all_apps()).contains(current) <==> goes_live(
            config,
            current.app_type,
            current.provider,
        ) && current.snippet == config.snippet(current.app_type) && current.apply_common_config,
{
    let app_type = current.app_type;
    lemma_currents_by_app(config, AppType::all_apps(), current);
    let apps = AppType::all_apps();
    assert(apps[0] == AppType::Claude && apps[1] == AppType::Codex && apps[2] == AppType::Gemini
        && apps[3] == AppType::OpenCode && apps[4] == AppType::OpenClaw);
    assert(apps.contains(app_type));
    let own = app_currents(config, app_type);
    let manager = config.managers[app_type];
    if own.contains(current) {
        let i = choose|i: int| 0 <= i < own.len() && own[i] == current;
        if app_type.additive() {
            assert(manager.providers[manager.ids[i]] == current.provider);
        }
    }
    if goes_live(config, app_type, current.provider) && current.snippet == config.snippet(app_type)
        && current.apply_common_config {
        if app_type.additive() {
            let i = choose|i: int|
                0 <= i < manager.ids.len() && #[trigger] manager.providers[manager.ids[i]]
                    == current.provider;
            assert(own[i] =~= current);
        } else {
            assert(own[0] =~= current);
        }
    }
}

/// What is to be done next in writing all current providers to the live files.
#[derive(Clone, Copy, Debug, PartialEq, Eq, Structural)]
pub enum SyncStep {
    /// The provider at that place of the list goes into the live files.
    Write(usize),
    /// The servers of the model context protocol are written to the applications.
    SyncMcp,
    /// The skills are written to the applications.
    SyncSkills,
    /// Nothing is left to be done, and that is a success.
    Succeed,
}

/// What is to be done with the provider at that place of a list, or after the last.
pub open spec fn sync_at(place: int, count: int) -> SyncStep {
    if place < count {
        SyncStep::Write(place as usize)
    } else {
        SyncStep::SyncMcp
    }
}

/// What follows a step, whether it went well or not: a failure is passed over.
pub open spec fn sync_following(
    step: SyncStep,
    outcome: Result<(), ErrorView>,
    count: int,
) -> SyncStep {
    match step {
        SyncStep::Write(place) => sync_at(place + 1, count),
        SyncStep::SyncMcp => SyncStep::SyncSkills,
        SyncStep::SyncSkills => SyncStep::Succeed,
        SyncStep::Succeed => SyncStep::Succeed,
    }
}

impl SyncStep {
    /// The first step, for a list of that length.
    pub fn first(count: usize) -> (r: SyncStep)
        ensures
            r == sync_at(0, count as int),
    {
        if count > 0 {
            SyncStep::Write(0)
        } else {
            SyncStep::SyncMcp
        }
    }

    /// What follows a step, whether it went well or not.
    pub fn following(self, outcome: &Result<(), AppError>, count: usize) -> (r: SyncStep)
        ensures
            r == sync_following(self, unit_outcome(*outcome), count as int),
    {
        match self {
            SyncStep::Write(place) => if place < count && place + 1 < count {
                SyncStep::Write(place + 1)
            } else {
                SyncStep::SyncMcp
            },
            SyncStep::SyncMcp => SyncStep::SyncSkills,
            SyncStep::SyncSkills => SyncStep::Succeed,
            SyncStep::Succeed => SyncStep::Succeed,
        }
    }
}

/// The step after as many others as there are outcomes.
pub open spec fn sync_after(outcomes: Seq<Result<(), ErrorView>>, count: int) -> SyncStep
    decreases outcomes.len(),
{
    if outcomes.len() == 0 {
        sync_at(0, count)
    } else {
        sync_following(sync_after(outcomes.drop_last(), count), outcomes.last(), count)
    }
}

/// However the steps go, each provider is written in its turn, then the servers are, then
/// the skills; and after that the whole has succeeded.
pub proof fn law_failures_are_passed_over(outcomes: Seq<Result<(), ErrorView>>, count: usize)
    ensures
        sync_after(outcomes, count as int) == (if outcomes.len() < count {
            SyncStep::Write(outcomes.len() as usize)
        } else if outcomes.len() == count {
            SyncStep::SyncMcp
        } else if outcomes.len() == count + 1 {
            SyncStep::SyncSkills
        } else {
            SyncStep::Succeed
        }),
    decreases outcomes.len(),
{
    if outcomes.len() > 0 {
        law_failures_are_passed_over(outcomes.drop_last(), count);
    }
}

/// What has to go besides the entry of a provider that is deleted.
pub enum Leftovers {
    /// Nothing.
    Nothing,
    /// The entry in the live file of OpenCode.
    OpenCodeEntry,
    /// The entry in the live file of OpenClaw.
    OpenClawEntry,
    /// The files of a Codex provider of that name.
    CodexFiles(String),
    /// The files that were once kept for an Anthropic provider of that name.
    ClaudeFiles(String),
}

/// Why a provider cannot be deleted: the current one stays.
pub open spec fn delete_error(config: ConfigView, app_type: AppType, id: Seq<char>) -> Option<
    ErrorView,
> {
    if !config.managers.contains_key(app_type) {
        Some(no_such_app(app_type))
    } else if !app_type.additive() && config.managers[app_type].current == id {
        Some(
            ErrorView::Localized {
                key: "provider.delete.current"@,
                zh: "不能删除当前正在使用的供应商"@,
                en: "Cannot delete the provider currently in use"@,
            },
        )
    } else if config.provider(app_type, id) is None {
        Some(no_such_provider(id))
    } else {
        None
    }
}

/// Whether these are what has to go besides the entry of a provider.
pub open spec fn are_leftovers(
    app_type: AppType,
    provider: ProviderView,
    leftovers: Leftovers,
) -> bool {
    match app_type {
        AppType::Claude => leftovers matches Leftovers::ClaudeFiles(name) && name@ == provider.name,
        AppType::Codex => leftovers matches Leftovers::CodexFiles(name) && name@ == provider.name,
        AppType::Gemini => leftovers is Nothing,
        AppType::OpenCode => leftovers is OpenCodeEntry,
        AppType::OpenClaw => leftovers is OpenClawEntry,
    }
}

/// The configuration without a provider.
pub open spec fn without_provider(config: ConfigView, app_type: AppType, id: Seq<char>) -> ConfigView {
    let manager = config.managers[app_type];
    config.with_manager(
        app_type,
        ManagerView {
            ids: manager.ids.remove_value(id),
            providers: manager.providers.remove(id),
            ..manager
        },
    )
}

/// What comes of deleting a provider, once what had to go besides is gone.
pub open spec fn deleted(
    config: ConfigView,
    app_type: AppType,
    id: Seq<char>,
    cleared: Result<(), ErrorView>,
) -> Result<ConfigView, ErrorView> {
    match (delete_error(config, app_type, id), cleared) {
        (Some(error), _) => Err(error),
        (None, Err(error)) => Err(error),
        (None, Ok(_)) => Ok(without_provider(config, app_type, id)),
    }
}

impl ProviderService {
    /// Checks whether a provider can be deleted, and tells what has to go besides.
    pub fn plan_delete(config: &MultiAppConfig, app_type: AppType, provider_id: &str) -> (r: Result<
        Leftovers,
        AppError,
    >)
        ensures
            match r {
                Ok(leftovers) => {
                    &&& delete_error(config@, app_type, provider_id@) is None
                    &&& are_leftovers(
                        app_type,
                        config@.provider(app_type, provider_id@)->0,
                        leftovers,
                    )
                },
                Err(error) => delete_error(config@, app_type, provider_id@) == Some(error@),
            },
    {
        let manager = match config.get_manager(app_type) {
            Some(manager) => manager,
            None => {
                return Err(Self::app_not_found(app_type));
            },
        };
        if !app_type.is_additive_mode() && same_text(manager.current.as_str(), provider_id) {
            return Err(
                AppError::fixed(
                    "provider.delete.current",
                    "不能删除当前正在使用的供应商",
                    "Cannot delete the provider currently in use",
                ),
            );
        }
        match find(&manager.providers, provider_id) {
            None => Err(provider_not_found(provider_id)),
            Some(provider) => Ok(
                match app_type {
                    AppType::Claude => Leftovers::ClaudeFiles(provider.name.clone()),
                    AppType::Codex => Leftovers::CodexFiles(provider.name.clone()),
                    AppType::Gemini => Leftovers::Nothing,
                    AppType::OpenCode => Leftovers::OpenCodeEntry,
                    AppType::OpenClaw => Leftovers::OpenClawEntry,
                },
            ),
        }
    }

    /// Deletes a provider; the current one stays. `cleared` tells whether what had to go
    /// besides is gone.
    pub fn delete(
        config: &mut MultiAppConfig,
        app_type: AppType,
        provider_id: &str,
        cleared: Result<(), AppError>,
    ) -> (r: Result<(), AppError>)
        ensures
            comes_out(
                deleted(old(config)@, app_type, provider_id@, unit_outcome(cleared)),
                old(config)@,
                final(config)@,
                unit_outcome(r),
            ),
    {
        if let Err(error) = Self::plan_delete(config, app_type, provider_id) {
            return Err(error);
        }
        if let Err(error) = cleared {
            return Err(error);
        }
        if let Some(manager) = config.get_manager_mut(app_type) {
            take_out(&mut manager.providers, provider_id);
        }
        Ok(())
    }
}

/// The current provider of an application is never deleted, and the others stay.
pub proof fn law_current_is_never_deleted(
    config: ConfigView,
    app_type: AppType,
    id: Seq<char>,
    cleared: Result<(), ErrorView>,
    after: ConfigView,
    other: Seq<char>,
)
    requires
        deleted(config, app_type, id, cleared) == Ok::<ConfigView, ErrorView>(after),
    ensures
        after.provider(app_type, id) is None,
        other != id ==> after.provider(app_type, other) == config.provider(app_type, other),
        after.current(app_type) == config.current(app_type),
        !app_type.additive() ==> config.current(app_type) != id,
{
}

/// A provider of the live file of OpenClaw.
pub struct OpenClawEntry {
    pub id: String,
    /// The names of its models, where they have one.
    pub model_names: Vec<Option<String>>,
    pub settings: Json,
}

/// The name of the first model of a provider, or its identifier where it has none.
pub open spec fn entry_name(entry: OpenClawEntry) -> Seq<char> {
    match entry.model_names@[0] {
        Some(name) => name@,
        None => entry.id@,
    }
}

/// Whether a provider of the live file is imported: one with an identifier and models
/// that is not there yet.
pub open spec fn is_imported(manager: ManagerView, entry: OpenClawEntry) -> bool {
    &&& !is_blank(entry.id@)
    &&& entry.model_names@.len() > 0
    &&& !manager.providers.contains_key(entry.id@)
}

/// The providers after one of the live file has been imported, where it is.
pub open spec fn with_entry(manager: ManagerView, entry: OpenClawEntry) -> ManagerView {
    if is_imported(manager, entry) {
        with_added(
            manager,
            entry.id@,
            ProviderView {
                id: entry.id@,
                name: entry_name(entry),
                settings_config: entry.settings@,
                website_url: None,
                category: None,
                created_at: None,
                sort_index: None,
                meta: None,
            },
        )
    } else {
        manager
    }
}

/// The providers after those of the live file have been imported, and how many were.
pub open spec fn with_entries(manager: ManagerView, entries: Seq<OpenClawEntry>) -> (
    ManagerView,
    nat,
)
    decreases entries.len(),
{
    if entries.len() == 0 {
        (manager, 0)
    } else {
        let before = with_entries(manager, entries.drop_last());
        (
            with_entry(before.0, entries.last()),
            if is_imported(before.0, entries.last()) {
                before.1 + 1
            } else {
                before.1
            },
        )
    }
}

/// The configuration after the providers of the live file have been imported.
pub open spec fn openclaw_imported(config: ConfigView, entries: Seq<OpenClawEntry>) -> ConfigView {
    if entries.len() == 0 {
        config
    } else {
        config.with_manager(
            AppType::OpenClaw,
            with_entries(
                manager_or_empty(config, AppType::OpenClaw),
                entries,
            ).0,
        )
    }
}

/// Imports the providers of the live file of OpenClaw that are not there yet, and tells
/// how many were imported.
pub fn import_openclaw_providers_from_live(
    config: &mut MultiAppConfig,
    entries: Result<Vec<OpenClawEntry>, AppError>,
) -> (r: Result<usize, AppError>)
    ensures
        match entries {
            Ok(entries) => {
                &&& r matches Ok(count)
                &&& count == with_entries(
                    manager_or_empty(old(config)@, AppType::OpenClaw),
                    entries@,
                ).1
                &&& final(config)@ == openclaw_imported(old(config)@, entries@)
            },
            Err(error) => {
                &&& r matches Err(failure)
                &&& failure@ == error@
                &&& final(config)@ == old(config)@
            },
        },
{
    let entries = match entries {
        Ok(entries) => entries,
        Err(error) => {
            return Err(error);
        },
    };
    if entries.len() == 0 {
        return Ok(0);
    }
    let ghost before = config@;
    let ghost start = manager_or_empty(config@, AppType::OpenClaw);
    config.ensure_app(AppType::OpenClaw);
    let mut imported: usize = 0;
    if let Some(manager) = config.get_manager_mut(AppType::OpenClaw) {
        let mut i: usize = 0;
        proof {
            assert(entries@.take(0) =~= Seq::empty());
        }
        while i < entries.len()
            invariant
                i <= entries.len(),
                imported <= i,
                manager@ == with_entries(start, entries@.take(i as int)).0,
                imported == with_entries(start, entries@.take(i as int)).1,
            decreases entries.len() - i,
        {
            proof {
                assert(entries@.take(i + 1).drop_last() =~= entries@.take(i as int));
                assert(entries@.take(i + 1).last() == entries@[i as int]);
            }
            let entry = &entries[i];
            if !blank(entry.id.as_str()) && entry.model_names.len() > 0 && find(
                &manager.providers,
                entry.id.as_str(),
            ).is_none() {
                let name = match &entry.model_names[0] {
                    Some(name) => name.clone(),
                    None => entry.id.clone(),
                };
                put(
                    &mut manager.providers,
                    entry.id.clone(),
                    Provider::with_id(entry.id.clone(), name, entry.settings.copy(), None),
                );
                imported += 1;
            }
            i += 1;
        }
        assert(entries@.take(i as int) =~= entries@);
    }
    assert(config@.managers =~= openclaw_imported(before, entries@).managers);
    Ok(imported)
}

impl ProviderService {
    /// Imports the providers of the live file of OpenClaw that are not there yet, and
    /// tells how many were imported.
    pub fn import_openclaw_providers_from_live(
        config: &mut MultiAppConfig,
        entries: Result<Vec<OpenClawEntry>, AppError>,
    ) -> (r: Result<usize, AppError>)
        ensures
            match entries {
                Ok(entries) => {
                    &&& r matches Ok(count)
                    &&& count == with_entries(
                        manager_or_empty(old(config)@, AppType::OpenClaw),
                        entries@,
                    ).1
                    &&& final(config)@ == openclaw_imported(old(config)@, entries@)
                },
                Err(error) => {
                    &&& r matches Err(failure)
                    &&& failure@ == error@
                    &&& final(config)@ == old(config)@
                },
            },
    {
        import_openclaw_providers_from_live(config, entries)
    }
}

} // verus!
