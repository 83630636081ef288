//! What the user interface does with providers.
use vstd::prelude::*;

use crate::error::{joined, joined3, AppError, ErrorView};
use crate::json::{field, items_view, Json, JsonView};
use crate::model::{maybe_text, AppType, Provider, ProviderView};
use crate::notices::{maybe_notice, Effects, EffectsView, Notice, NoticeView};
use crate::snapshots::{empty_object, new_object};
use crate::text::{first_place, same_text, split_once, texts};

verus! {

/// The interface by which a provider of Anthropic is talked to.
#[derive(Clone, Copy, Debug, PartialEq, Eq, Structural)]
pub enum ClaudeApiFormat {
    Anthropic,
    OpenAiChat,
    OpenAiResponses,
}

impl ClaudeApiFormat {
    /// The name of the interface.
    pub open spec fn name(self) -> Seq<char> {
        match self {
            ClaudeApiFormat::Anthropic => "anthropic"@,
            ClaudeApiFormat::OpenAiChat => "openai_chat"@,
            ClaudeApiFormat::OpenAiResponses => "openai_responses"@,
        }
    }

    /// The interface of that name, that of Anthropic where there is none.
    pub open spec fn named(name: Seq<char>) -> ClaudeApiFormat {
        if name == "openai_chat"@ {
            ClaudeApiFormat::OpenAiChat
        } else if name == "openai_responses"@ {
            ClaudeApiFormat::OpenAiResponses
        } else {
            ClaudeApiFormat::Anthropic
        }
    }

    /// The interface that the settings of a provider name.
    pub open spec fn of_settings(settings: JsonView) -> ClaudeApiFormat {
        match field(settings, "api_format"@) {
            Some(JsonView::Str(name)) => ClaudeApiFormat::named(name),
            _ => ClaudeApiFormat::Anthropic,
        }
    }

    /// The name of the interface.
    pub fn as_str(self) -> (r: &'static str)
        ensures
            r@ == self.name(),
    {
        match self {
            ClaudeApiFormat::Anthropic => "anthropic",
            ClaudeApiFormat::OpenAiChat => "openai_chat",
            ClaudeApiFormat::OpenAiResponses => "openai_responses",
        }
    }

    /// The interface of that name, that of Anthropic where there is none.
    pub fn from_raw(name: &str) -> (r: ClaudeApiFormat)
        ensures
            r == ClaudeApiFormat::named(name@),
    {
        if same_text(name, "openai_chat") {
            ClaudeApiFormat::OpenAiChat
        } else if same_text(name, "openai_responses") {
            ClaudeApiFormat::OpenAiResponses
        } else {
            ClaudeApiFormat::Anthropic
        }
    }

    /// Tells whether a proxy must stand between Anthropic and the provider.
    pub fn requires_proxy(self) -> (r: bool)
        ensures
            r == (self != ClaudeApiFormat::Anthropic),
    {
        !matches!(self, ClaudeApiFormat::Anthropic)
    }
}

/// The name of the interface for which a provider needs the local proxy, where it does.
pub open spec fn proxy_needed(app_type: AppType, provider: ProviderView) -> Option<Seq<char>> {
    let format = ClaudeApiFormat::of_settings(provider.settings_config);
    if app_type == AppType::Claude && format != ClaudeApiFormat::Anthropic {
        Some(format.name())
    } else {
        None
    }
}

/// The text, where there is one.
pub open spec fn maybe_static(text: Option<&'static str>) -> Option<Seq<char>> {
    match text {
        Some(text) => Some(text@),
        None => None,
    }
}

/// The name of the interface for which a provider needs the local proxy, where it does.
pub fn provider_requires_local_proxy(app_type: AppType, provider: &Provider) -> (r: Option<
    &'static str,
>)
    ensures
        maybe_static(r) == proxy_needed(app_type, provider@),
{
    if !matches!(app_type, AppType::Claude) {
        return None;
    }
    let format = match provider.settings_config.get("api_format") {
        Some(value) => match value.as_str() {
            Some(name) => ClaudeApiFormat::from_raw(name),
            None => ClaudeApiFormat::Anthropic,
        },
        None => ClaudeApiFormat::Anthropic,
    };
    if format.requires_proxy() {
        Some(format.as_str())
    } else {
        None
    }
}

/// The name of the interface to warn of after a switch: that for which the provider needs
/// the local proxy, while the proxy is not ready.
pub fn provider_switch_proxy_notice_api_format(
    app_type: AppType,
    provider: &Provider,
    proxy_ready: bool,
) -> (r: Option<&'static str>)
    ensures
        maybe_static(r) == (if proxy_ready {
            None
        } else {
            proxy_needed(app_type, provider@)
        }),
{
    let needed = provider_requires_local_proxy(app_type, provider);
    if proxy_ready {
        None
    } else {
        needed
    }
}

/// What lies over the page.
pub enum Overlay {
    Nothing,
    SpeedtestRunning { url: String },
    StreamCheckRunning { provider_id: String },
    ModelFetchPicker(ModelFetchPicker),
    /// A provider needs the local proxy, which is not ready.
    ProxyNotice { api_format: &'static str },
    Other,
}

/// The models that a provider offers, while they are fetched and after.
pub struct ModelFetchPicker {
    pub request_id: u64,
    /// The field of the form for which a model is picked.
    pub field: String,
    pub claude_idx: Option<usize>,
    pub input: String,
    pub query: String,
    pub fetching: bool,
    pub models: Vec<String>,
    pub error: Option<String>,
    pub selected_idx: usize,
}

/// The models that a provider offers.
#[verifier::ext_equal]
pub struct PickerView {
    pub request_id: u64,
    pub field: Seq<char>,
    pub claude_idx: Option<usize>,
    pub input: Seq<char>,
    pub query: Seq<char>,
    pub fetching: bool,
    pub models: Seq<Seq<char>>,
    pub error: Option<Seq<char>>,
    pub selected_idx: usize,
}

impl ModelFetchPicker {
    /// The models.
    pub open spec fn view(self) -> PickerView {
        PickerView {
            request_id: self.request_id,
            field: self.field@,
            claude_idx: self.claude_idx,
            input: self.input@,
            query: self.query@,
            fetching: self.fetching,
            models: texts(self.models@),
            error: maybe_text(self.error),
            selected_idx: self.selected_idx,
        }
    }
}

/// What lies over the page.
#[verifier::ext_equal]
pub enum OverlayView {
    Nothing,
    SpeedtestRunning { url: Seq<char> },
    StreamCheckRunning { provider_id: Seq<char> },
    ModelFetchPicker(PickerView),
    ProxyNotice { api_format: Seq<char> },
    Other,
}

impl Overlay {
    /// What lies over the page.
    pub open spec fn view(self) -> OverlayView {
        match self {
            Overlay::Nothing => OverlayView::Nothing,
            Overlay::SpeedtestRunning { url } => OverlayView::SpeedtestRunning { url: url@ },
            Overlay::StreamCheckRunning { provider_id } => OverlayView::StreamCheckRunning {
                provider_id: provider_id@,
            },
            Overlay::ModelFetchPicker(picker) => OverlayView::ModelFetchPicker(picker@),
            Overlay::ProxyNotice { api_format } => OverlayView::ProxyNotice {
                api_format: api_format@,
            },
            Overlay::Other => OverlayView::Other,
        }
    }
}

/// What follows a switch to a provider, where it was among those shown: whether its plugin
/// was brought up to date, and whether it needs a proxy that is not ready. `proxy_ready` is
/// `None` where that is not known.
pub fn switched(
    overlay: &mut Overlay,
    app_type: AppType,
    provider: Option<&Provider>,
    plugin: Result<(), String>,
    proxy_ready: Option<bool>,
) -> (r: Option<Notice>)
    ensures
        maybe_notice(r) == (match (provider, plugin) {
            (Some(_), Err(message)) => Some(NoticeView::PluginSyncFailed(message@)),
            _ => None,
        }),
        final(overlay)@ == (match provider {
            Some(provider) => if proxy_ready == Some(true) {
                old(overlay)@
            } else {
                match proxy_needed(app_type, provider@) {
                    Some(api_format) => OverlayView::ProxyNotice { api_format },
                    None => old(overlay)@,
                }
            },
            None => old(overlay)@,
        }),
{
    let provider = match provider {
        Some(provider) => provider,
        None => {
            return None;
        },
    };
    let proxy_ready = match proxy_ready {
        Some(ready) => ready,
        None => false,
    };
    if let Some(api_format) = provider_switch_proxy_notice_api_format(
        app_type,
        provider,
        proxy_ready,
    ) {
        *overlay = Overlay::ProxyNotice { api_format };
    }
    match plugin {
        Ok(_) => None,
        Err(message) => Some(Notice::PluginSyncFailed(message)),
    }
}

/// A provider as it is shown.
pub struct ProviderRow {
    pub id: String,
    pub provider: Provider,
}

/// The first row with that identifier.
pub open spec fn row_found(rows: Seq<ProviderRow>, id: Seq<char>) -> Option<ProviderRow>
    decreases rows.len(),
{
    if rows.len() == 0 {
        None
    } else if rows[0].id@ == id {
        Some(rows[0])
    } else {
        row_found(rows.drop_first(), id)
    }
}

/// Finds the first row with that identifier.
pub fn find_row<'a>(rows: &'a Vec<ProviderRow>, id: &str) -> (r: Option<&'a ProviderRow>)
    ensures
        match r {
            Some(row) => row_found(rows@, id@) == Some(*row),
            None => row_found(rows@, id@) is None,
        },
{
    let mut i: usize = 0;
    assert(rows@.skip(0) =~= rows@);
    while i < rows.len()
        invariant
            i <= rows.len(),
            row_found(rows@, id@) == row_found(rows@.skip(i as int), id@),
        decreases rows.len() - i,
    {
        assert(rows@.skip(i as int)[0] == rows@[i as int]);
        assert(rows@.skip(i as int).drop_first() =~= rows@.skip(i + 1));
        if same_text(rows[i].id.as_str(), id) {
            return Some(&rows[i]);
        }
        i += 1;
    }
    None
}

/// The overlay once the test of an address is over: closed where it is the one of that
/// test.
pub open spec fn after_speedtest(overlay: OverlayView, url: Seq<char>) -> OverlayView {
    if overlay == (OverlayView::SpeedtestRunning { url }) {
        OverlayView::Nothing
    } else {
        overlay
    }
}

/// What follows a request to test the speed of an address; `None` where nobody takes such
/// requests.
pub fn speedtest(overlay: &mut Overlay, url: &str, sent: Option<Result<(), String>>) -> (r: Option<
    Notice,
>)
    ensures
        maybe_notice(r) == (match sent {
            None => Some(NoticeView::SpeedtestDisabled),
            Some(Err(message)) => Some(NoticeView::SpeedtestRequestFailed(message@)),
            Some(Ok(_)) => None,
        }),
        final(overlay)@ == (if sent matches Some(Ok(_)) {
            old(overlay)@
        } else {
            after_speedtest(old(overlay)@, url@)
        }),
{
    let notice = match sent {
        Some(Ok(_)) => {
            return None;
        },
        Some(Err(message)) => Notice::SpeedtestRequestFailed(message),
        None => Notice::SpeedtestDisabled,
    };
    let running = match overlay {
        Overlay::SpeedtestRunning { url: running } => same_text(running.as_str(), url),
        _ => false,
    };
    if running {
        *overlay = Overlay::Nothing;
    }
    Some(notice)
}

/// The overlay once the check of a provider is over: closed where it is the one of that
/// check.
pub open spec fn after_check(overlay: OverlayView, id: Seq<char>) -> OverlayView {
    if overlay == (OverlayView::StreamCheckRunning { provider_id: id }) {
        OverlayView::Nothing
    } else {
        overlay
    }
}

/// Closes the overlay of the check of a provider.
fn close_check(overlay: &mut Overlay, id: &str)
    ensures
        final(overlay)@ == after_check(old(overlay)@, id@),
{
    let running = match overlay {
        Overlay::StreamCheckRunning { provider_id } => same_text(provider_id.as_str(), id),
        _ => false,
    };
    if running {
        *overlay = Overlay::Nothing;
    }
}

/// A request to check how a provider answers.
pub struct StreamCheckReq {
    pub app_type: AppType,
    pub provider_id: String,
    pub provider_name: String,
    pub provider: Provider,
}

/// Whether this is the request to check the provider of a row.
pub open spec fn checks_row(request: StreamCheckReq, app_type: AppType, row: ProviderRow) -> bool {
    &&& request.app_type == app_type
    &&& request.provider_id@ == row.id@
    &&& request.provider_name@ == row.provider@.name
    &&& request.provider@ == row.provider@
}

/// Makes the request to check a provider, where it is among those shown and somebody takes
/// such requests.
pub fn stream_check(
    overlay: &mut Overlay,
    app_type: AppType,
    rows: &Vec<ProviderRow>,
    id: &str,
    has_worker: bool,
) -> (r: Result<Option<StreamCheckReq>, Notice>)
    ensures
        match r {
            Err(notice) => !has_worker && notice@ is StreamCheckDisabled,
            Ok(None) => has_worker && row_found(rows@, id@) is None,
            Ok(Some(request)) => has_worker && (row_found(rows@, id@) matches Some(row)
                && checks_row(request, app_type, row)),
        },
        final(overlay)@ == (if has_worker {
            old(overlay)@
        } else {
            after_check(old(overlay)@, id@)
        }),
{
    if !has_worker {
        close_check(overlay, id);
        return Err(Notice::StreamCheckDisabled);
    }
    match find_row(rows, id) {
        Some(row) => Ok(
            Some(
                StreamCheckReq {
                    app_type,
                    provider_id: row.id.clone(),
                    provider_name: row.provider.name.clone(),
                    provider: row.provider.copy(),
                },
            ),
        ),
        None => Ok(None),
    }
}

/// What follows once the request to check a provider has been sent, or could not be.
pub fn stream_check_sent(overlay: &mut Overlay, id: &str, sent: Result<(), String>) -> (r: Option<
    Notice,
>)
    ensures
        maybe_notice(r) == (match sent {
            Err(message) => Some(NoticeView::StreamCheckRequestFailed(message@)),
            Ok(_) => None,
        }),
        final(overlay)@ == (match sent {
            Ok(_) => old(overlay)@,
            Err(_) => after_check(old(overlay)@, id@),
        }),
{
    match sent {
        Ok(_) => None,
        Err(message) => {
            close_check(overlay, id);
            Some(Notice::StreamCheckRequestFailed(message))
        },
    }
}

/// The list of models while it is fetched.
pub open spec fn fetching(
    request_id: u64,
    field: Seq<char>,
    claude_idx: Option<usize>,
) -> PickerView {
    PickerView {
        request_id,
        field,
        claude_idx,
        input: ""@,
        query: ""@,
        fetching: true,
        models: Seq::empty(),
        error: None,
        selected_idx: 0,
    }
}

/// Opens the list of models for a request that is about to be sent, where somebody takes
/// such requests.
pub fn model_fetch(
    overlay: &mut Overlay,
    request_id: Option<u64>,
    field: &str,
    claude_idx: Option<usize>,
) -> (r: Option<Notice>)
    ensures
        maybe_notice(r) == (match request_id {
            None => Some(NoticeView::ModelFetchDisabled),
            Some(_) => None,
        }),
        final(overlay)@ == (match request_id {
            None => old(overlay)@,
            Some(id) => OverlayView::ModelFetchPicker(fetching(id, field@, claude_idx)),
        }),
{
    let request_id: u64 = match request_id {
        Some(id) => id,
        None => {
            return Some(Notice::ModelFetchDisabled);
        },
    };
    let picker = ModelFetchPicker {
        request_id,
        field: field.to_owned(),
        claude_idx,
        input: "".to_owned(),
        query: "".to_owned(),
        fetching: true,
        models: Vec::new(),
        error: None,
        selected_idx: 0,
    };
    assert(picker@ =~= fetching(request_id, field@, claude_idx));
    *overlay = Overlay::ModelFetchPicker(picker);
    None
}

/// Shows in the list of models that the request could not be sent.
pub fn model_fetch_failed(overlay: &mut Overlay, message: String)
    ensures
        final(overlay)@ == (match old(overlay)@ {
            OverlayView::ModelFetchPicker(picker) => OverlayView::ModelFetchPicker(
                PickerView { fetching: false, error: Some(message@), ..picker },
            ),
            _ => old(overlay)@,
        }),
{
    match overlay {
        Overlay::ModelFetchPicker(picker) => {
            picker.fetching = false;
            picker.error = Some(message);
        },
        _ => {},
    }
}

/// The model that OpenClaw uses by default, and those it falls back to.
pub struct OpenClawDefaultModel {
    pub primary: String,
    pub fallbacks: Vec<String>,
    pub extra: Json,
}

/// The model that OpenClaw uses by default.
#[verifier::ext_equal]
pub struct DefaultModelView {
    pub primary: Seq<char>,
    pub fallbacks: Seq<Seq<char>>,
    pub extra: JsonView,
}

impl OpenClawDefaultModel {
    /// The model.
    pub open spec fn view(self) -> DefaultModelView {
        DefaultModelView {
            primary: self.primary@,
            fallbacks: texts(self.fallbacks@),
            extra: self.extra@,
        }
    }
}

/// The identifiers of models, in order. A model without one is left out.
pub open spec fn ids_of_models(models: Seq<JsonView>) -> Seq<Seq<char>>
    decreases models.len(),
{
    if models.len() == 0 {
        Seq::empty()
    } else {
        let before = ids_of_models(models.drop_last());
        match field(models.last(), "id"@) {
            Some(JsonView::Str(id)) => before.push(id),
            _ => before,
        }
    }
}

/// The identifiers of the models of a provider, in order.
pub open spec fn model_ids(provider: JsonView) -> Seq<Seq<char>> {
    match field(provider, "models"@) {
        Some(JsonView::Array(models)) => ids_of_models(models),
        _ => Seq::empty(),
    }
}

/// The identifiers of the models of a provider, in order.
pub fn openclaw_provider_model_ids(provider: &Json) -> (r: Vec<String>)
    ensures
        texts(r@) == model_ids(provider@),
{
    let mut ids: Vec<String> = Vec::new();
    assert(texts(ids@) =~= Seq::empty());
    if let Some(Json::Array(models)) = provider.get("models") {
        let ghost view = items_view(models@);
        assert(view.take(0) =~= Seq::empty());
        let mut i: usize = 0;
        while i < models.len()
            invariant
                i <= models.len(),
                view == items_view(models@),
                texts(ids@) == ids_of_models(view.take(i as int)),
            decreases models.len() - i,
        {
            let ghost before = ids@;
            proof {
                assert(view.take(i + 1).drop_last() =~= view.take(i as int));
                assert(view.take(i + 1).last() == models@[i as int]@);
            }
            if let Some(id) = models[i].get("id") {
                if let Some(text) = id.as_str() {
                    ids.push(text.to_owned());
                    assert(texts(ids@) =~= texts(before).push(text@));
                }
            }
            i += 1;
        }
        assert(view.take(i as int) =~= view);
    }
    ids
}

/// How OpenClaw refers to a model of a provider.
pub open spec fn model_ref(provider_id: Seq<char>, model: Seq<char>) -> Seq<char> {
    provider_id + "/"@ + model
}

/// References to the models of a provider but one, in order.
pub open spec fn refs_but(
    provider_id: Seq<char>,
    ids: Seq<Seq<char>>,
    primary: Seq<char>,
) -> Seq<Seq<char>>
    decreases ids.len(),
{
    if ids.len() == 0 {
        Seq::empty()
    } else {
        let before = refs_but(provider_id, ids.drop_last(), primary);
        if ids.last() == primary {
            before
        } else {
            before.push(model_ref(provider_id, ids.last()))
        }
    }
}

/// The provider is not in the live configuration.
pub open spec fn provider_missing(provider_id: Seq<char>) -> ErrorView {
    ErrorView::Localized {
        key: "provider.set_default_model.openclaw_provider_missing"@,
        zh: "请先将该 OpenClaw 供应商加入当前配置: "@ + provider_id,
        en: "Add this OpenClaw provider to the current config first: "@ + provider_id,
    }
}

/// The provider has no models.
pub open spec fn no_models() -> ErrorView {
    ErrorView::Localized {
        key: "provider.set_default_model.openclaw_no_models"@,
        zh: "该 OpenClaw 供应商在当前配置中没有可用模型"@,
        en: "This OpenClaw provider has no models in the current config"@,
    }
}

/// The default model that a provider gives: its first model, with the others to fall back
/// to. What else the default model held stays.
pub open spec fn default_model_of(
    provider_id: Seq<char>,
    live: Option<JsonView>,
    extra: JsonView,
) -> Result<DefaultModelView, ErrorView> {
    match live {
        None => Err(provider_missing(provider_id)),
        Some(provider) => {
            let ids = model_ids(provider);
            if ids.len() == 0 {
                Err(no_models())
            } else {
                Ok(
                    DefaultModelView {
                        primary: model_ref(provider_id, ids[0]),
                        fallbacks: refs_but(provider_id, ids, ids[0]),
                        extra,
                    },
                )
            }
        },
    }
}

/// What a default model holds besides the models.
pub open spec fn extra_of(existing: Option<&OpenClawDefaultModel>) -> JsonView {
    match existing {
        Some(model) => model.extra@,
        None => empty_object(),
    }
}

/// A value of the live configuration, where there is one.
pub open spec fn maybe_value(value: Option<&Json>) -> Option<JsonView> {
    match value {
        Some(value) => Some(value@),
        None => None,
    }
}

/// A default model, where one is to be set.
pub open spec fn model_outcome(result: Result<Option<OpenClawDefaultModel>, AppError>) -> Result<
    Option<DefaultModelView>,
    ErrorView,
> {
    match result {
        Ok(Some(model)) => Ok(Some(model@)),
        Ok(None) => Ok(None),
        Err(error) => Err(error@),
    }
}

/// The references to the models of a provider but one.
fn make_refs_but(provider_id: &str, ids: &Vec<String>, primary: &str) -> (r: Vec<String>)
    ensures
        texts(r@) == refs_but(provider_id@, texts(ids@), primary@),
{
    let mut refs: Vec<String> = Vec::new();
    let mut i: usize = 0;
    assert(texts(ids@).take(0) =~= Seq::empty());
    assert(texts(refs@) =~= Seq::empty());
    while i < ids.len()
        invariant
            i <= ids.len(),
            texts(refs@) == refs_but(provider_id@, texts(ids@).take(i as int), primary@),
        decreases ids.len() - i,
    {
        let ghost before = refs@;
        proof {
            assert(texts(ids@).take(i + 1).drop_last() =~= texts(ids@).take(i as int));
            assert(texts(ids@).take(i + 1).last() == ids@[i as int]@);
        }
        if !same_text(ids[i].as_str(), primary) {
            let reference = joined3(provider_id, "/", ids[i].as_str());
            refs.push(reference);
            assert(texts(refs@) =~= texts(before).push(reference@));
        }
        i += 1;
    }
    assert(texts(ids@).take(i as int) =~= texts(ids@));
    refs
}

/// The default model to be set for a provider of OpenClaw; `None` for another application.
/// The order of the models in the live configuration decides, not the model that was asked
/// for, which may come from an older state.
pub fn set_default_model(
    app_type: AppType,
    provider_id: &str,
    _model_id: &str,
    live: Option<&Json>,
    existing: Option<&OpenClawDefaultModel>,
) -> (r: Result<Option<OpenClawDefaultModel>, AppError>)
    ensures
        model_outcome(r) == (if app_type != AppType::OpenClaw {
            Ok(None)
        } else {
            match default_model_of(provider_id@, maybe_value(live), extra_of(existing)) {
                Ok(model) => Ok(Some(model)),
                Err(error) => Err(error),
            }
        }),
{
    if !matches!(app_type, AppType::OpenClaw) {
        return Ok(None);
    }
    let provider = match live {
        Some(provider) => provider,
        None => {
            return Err(
                AppError::localized(
                    "provider.set_default_model.openclaw_provider_missing",
                    joined("请先将该 OpenClaw 供应商加入当前配置: ", provider_id),
                    joined("Add this OpenClaw provider to the current config first: ", provider_id),
                ),
            );
        },
    };
    let ids = openclaw_provider_model_ids(provider);
    assert(texts(ids@).len() == ids@.len());
    if ids.len() == 0 {
        return Err(
            AppError::fixed(
                "provider.set_default_model.openclaw_no_models",
                "该 OpenClaw 供应商在当前配置中没有可用模型",
                "This OpenClaw provider has no models in the current config",
            ),
        );
    }
    let extra = match existing {
        Some(model) => model.extra.copy(),
        None => new_object(),
    };
    proof {
        assert(texts(ids@)[0] == ids@[0]@);
    }
    let primary = joined3(provider_id, "/", ids[0].as_str());
    let fallbacks = make_refs_but(provider_id, &ids, ids[0].as_str());
    Ok(Some(OpenClawDefaultModel { primary, fallbacks, extra }))
}

/// Whether a reference is to a model of that provider.
pub open spec fn refers_to(reference: Seq<char>, provider_id: Seq<char>) -> bool {
    first_place(reference, '/') matches Some(i) && reference.take(i) == provider_id
}

/// Whether a default model, or one to fall back to, is of that provider.
pub open spec fn uses_provider(model: DefaultModelView, provider_id: Seq<char>) -> bool {
    refers_to(model.primary, provider_id) || exists|i: int|
        0 <= i < model.fallbacks.len() && refers_to(#[trigger] model.fallbacks[i], provider_id)
}

/// Tells whether a reference is to a model of that provider.
fn is_ref_to(reference: &str, provider_id: &str) -> (r: bool)
    ensures
        r == refers_to(reference@, provider_id@),
{
    match split_once(reference, '/') {
        Some((before, _)) => same_text(before, provider_id),
        None => false,
    }
}

/// Tells whether the default model, or one to fall back to, is of that provider.
pub fn openclaw_default_model_references_provider(
    model: Option<&OpenClawDefaultModel>,
    provider_id: &str,
) -> (r: bool)
    ensures
        r == (model is Some && uses_provider(model->0@, provider_id@)),
{
    match model {
        Some(model) => names_provider(model, provider_id),
        None => false,
    }
}

/// Tells whether this model, or one to fall back to, is of that provider.
fn names_provider(model: &OpenClawDefaultModel, provider_id: &str) -> (r: bool)
    ensures
        r == uses_provider(model@, provider_id@),
{
    if is_ref_to(model.primary.as_str(), provider_id) {
        return true;
    }
    let mut i: usize = 0;
    while i < model.fallbacks.len()
        invariant
            i <= model.fallbacks.len(),
            forall|j: int|
                0 <= j < i ==> !refers_to(#[trigger] model@.fallbacks[j], provider_id@),
        decreases model.fallbacks.len() - i,
    {
        assert(model@.fallbacks[i as int] == model.fallbacks@[i as int]@);
        if is_ref_to(model.fallbacks[i].as_str(), provider_id) {
            return true;
        }
        i += 1;
    }
    assert(model@.fallbacks.len() == model.fallbacks@.len());
    false
}

/// How a provider leaves the configuration.
#[derive(Clone, Copy, Debug, PartialEq, Eq, Structural)]
pub enum Removal {
    /// It leaves the live configuration and stays stored.
    FromLiveConfig,
    /// It is deleted.
    Deleted,
}

/// The default model needs the provider.
pub open spec fn default_needs_provider() -> ErrorView {
    ErrorView::Localized {
        key: "provider.remove_from_config.openclaw_default"@,
        zh: "不能从配置中移除被当前默认模型引用的 OpenClaw 供应商"@,
        en: "Cannot remove the OpenClaw provider referenced by the current default model from config"@,
    }
}

/// How a provider leaves the configuration, or why it cannot.
pub open spec fn removal(
    app_type: AppType,
    id: Seq<char>,
    model: Option<DefaultModelView>,
) -> Result<Removal, ErrorView> {
    if app_type != AppType::OpenClaw {
        Ok(Removal::Deleted)
    } else if model is Some && uses_provider(model->0, id) {
        Err(default_needs_provider())
    } else {
        Ok(Removal::FromLiveConfig)
    }
}

/// The default model, where there is one.
pub open spec fn maybe_model(model: Option<&OpenClawDefaultModel>) -> Option<DefaultModelView> {
    match model {
        Some(model) => Some(model@),
        None => None,
    }
}

/// How a provider leaves the configuration, or why it cannot.
pub open spec fn removal_outcome(result: Result<Removal, AppError>) -> Result<Removal, ErrorView> {
    match result {
        Ok(removal) => Ok(removal),
        Err(error) => Err(error@),
    }
}

/// Decides how a provider leaves the configuration. One of OpenClaw that the default model
/// needs cannot.
pub fn remove_from_config(app_type: AppType, id: &str, model: Option<&OpenClawDefaultModel>) -> (r:
    Result<Removal, AppError>)
    ensures
        removal_outcome(r) == removal(app_type, id@, maybe_model(model)),
{
    if !matches!(app_type, AppType::OpenClaw) {
        return Ok(Removal::Deleted);
    }
    if openclaw_default_model_references_provider(model, id) {
        return Err(
            AppError::fixed(
                "provider.remove_from_config.openclaw_default",
                "不能从配置中移除被当前默认模型引用的 OpenClaw 供应商",
                "Cannot remove the OpenClaw provider referenced by the current default model from config",
            ),
        );
    }
    Ok(Removal::FromLiveConfig)
}

/// What follows once a provider has left the configuration.
pub fn removed(removal: Removal) -> (r: Effects)
    ensures
        r@ == (EffectsView {
            close_editor: false,
            close_form: false,
            notice: Some(
                match removal {
                    Removal::FromLiveConfig => NoticeView::ProviderRemovedFromConfig,
                    Removal::Deleted => NoticeView::ProviderDeleted,
                },
            ),
            reload: true,
        }),
{
    let notice = match removal {
        Removal::FromLiveConfig => Notice::ProviderRemovedFromConfig,
        Removal::Deleted => Notice::ProviderDeleted,
    };
    Effects { close_editor: false, close_form: false, notice: Some(notice), reload: true }
}

/// What follows once a default model has been set.
pub fn default_model_set(model: &OpenClawDefaultModel) -> (r: Effects)
    ensures
        r@ == (EffectsView {
            close_editor: false,
            close_form: false,
            notice: Some(NoticeView::DefaultModelSet(model@.primary)),
            reload: true,
        }),
{
    Effects {
        close_editor: false,
        close_form: false,
        notice: Some(Notice::DefaultModelSet(model.primary.clone())),
        reload: true,
    }
}

/// The first slash of a text to which another follows that begins with one.
proof fn lemma_first_slash(before: Seq<char>, after: Seq<char>)
    requires
        first_place(before, '/') is None,
        after.len() > 0,
        after[0] == '/',
    ensures
        first_place(before + after, '/') == Some(before.len() as int),
    decreases before.len(),
{
    let text = before + after;
    if before.len() == 0 {
        assert(text[0] == '/');
    } else {
        assert(text[0] == before[0]);
        assert(text.drop_first() =~= before.drop_first() + after);
        lemma_first_slash(before.drop_first(), after);
    }
}

/// A provider whose model has been made the default one cannot leave the configuration as
/// long as it is. Its identifier holds no slash: the one that parts it from the model is
/// then the first.
pub proof fn law_default_provider_stays(
    provider_id: Seq<char>,
    live: Option<JsonView>,
    extra: JsonView,
)
    requires
        default_model_of(provider_id, live, extra) is Ok,
        first_place(provider_id, '/') is None,
    ensures
        removal(
            AppType::OpenClaw,
            provider_id,
            Some(default_model_of(provider_id, live, extra)->Ok_0),
        ) == Err::<Removal, ErrorView>(default_needs_provider()),
{
    reveal_strlit("/");
    let primary = model_ids(live->0)[0];
    let reference = model_ref(provider_id, primary);
    assert(reference =~= provider_id + ("/"@ + primary));
    lemma_first_slash(provider_id, "/"@ + primary);
    assert(reference.take(provider_id.len() as int) =~= provider_id);
}

} // verus!
