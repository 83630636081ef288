//! What the user interface tells after an action, and what changes in it.
use vstd::prelude::*;

use crate::error::{AppError, ErrorView};

verus! {

/// How a notice is shown.
#[derive(Clone, Copy, Debug, PartialEq, Eq, Structural)]
pub enum ToastKind {
    Success,
    Warning,
    Error,
}

/// Something to tell the user.
pub enum Notice {
    InvalidJson(String),
    JsonMustBeObject,
    JsonMustBeArray,
    InvalidToml(String),
    InvalidSnippetJson(String),
    SnippetNotObject,
    SerializationFailed(String),
    /// A form did not take a value, for the reason given.
    FormRejected(String),
    /// An operation failed.
    Failed(AppError),
    PromptNotFound(String),
    PromptEdited,
    ProviderFieldsMissing,
    ProviderNameMissing,
    ProviderNotAdded,
    ProviderAdded,
    ProviderEdited,
    ProviderDeleted,
    ProviderRemovedFromConfig,
    /// The model that is the default one from now on.
    DefaultModelSet(String),
    McpFieldsMissing,
    McpStored,
    SnippetCleared,
    SnippetSaved,
    WebDavCleared,
    WebDavSaved,
    /// The settings of the Anthropic plugin could not be brought up to date.
    PluginSyncFailed(String),
    SpeedtestDisabled,
    SpeedtestRequestFailed(String),
    StreamCheckDisabled,
    StreamCheckRequestFailed(String),
    ModelFetchDisabled,
}

/// Something to tell the user.
pub enum NoticeView {
    InvalidJson(Seq<char>),
    JsonMustBeObject,
    JsonMustBeArray,
    InvalidToml(Seq<char>),
    InvalidSnippetJson(Seq<char>),
    SnippetNotObject,
    SerializationFailed(Seq<char>),
    FormRejected(Seq<char>),
    Failed(ErrorView),
    PromptNotFound(Seq<char>),
    PromptEdited,
    ProviderFieldsMissing,
    ProviderNameMissing,
    ProviderNotAdded,
    ProviderAdded,
    ProviderEdited,
    ProviderDeleted,
    ProviderRemovedFromConfig,
    DefaultModelSet(Seq<char>),
    McpFieldsMissing,
    McpStored,
    SnippetCleared,
    SnippetSaved,
    WebDavCleared,
    WebDavSaved,
    PluginSyncFailed(Seq<char>),
    SpeedtestDisabled,
    SpeedtestRequestFailed(Seq<char>),
    StreamCheckDisabled,
    StreamCheckRequestFailed(Seq<char>),
    ModelFetchDisabled,
}

impl Notice {
    /// What is told.
    pub open spec fn view(self) -> NoticeView {
        match self {
            Notice::InvalidJson(text) => NoticeView::InvalidJson(text@),
            Notice::JsonMustBeObject => NoticeView::JsonMustBeObject,
            Notice::JsonMustBeArray => NoticeView::JsonMustBeArray,
            Notice::InvalidToml(text) => NoticeView::InvalidToml(text@),
            Notice::InvalidSnippetJson(text) => NoticeView::InvalidSnippetJson(text@),
            Notice::SnippetNotObject => NoticeView::SnippetNotObject,
            Notice::SerializationFailed(text) => NoticeView::SerializationFailed(text@),
            Notice::FormRejected(text) => NoticeView::FormRejected(text@),
            Notice::Failed(error) => NoticeView::Failed(error@),
            Notice::PromptNotFound(id) => NoticeView::PromptNotFound(id@),
            Notice::PromptEdited => NoticeView::PromptEdited,
            Notice::ProviderFieldsMissing => NoticeView::ProviderFieldsMissing,
            Notice::ProviderNameMissing => NoticeView::ProviderNameMissing,
            Notice::ProviderNotAdded => NoticeView::ProviderNotAdded,
            Notice::ProviderAdded => NoticeView::ProviderAdded,
            Notice::ProviderEdited => NoticeView::ProviderEdited,
            Notice::ProviderDeleted => NoticeView::ProviderDeleted,
            Notice::ProviderRemovedFromConfig => NoticeView::ProviderRemovedFromConfig,
            Notice::DefaultModelSet(model) => NoticeView::DefaultModelSet(model@),
            Notice::McpFieldsMissing => NoticeView::McpFieldsMissing,
            Notice::McpStored => NoticeView::McpStored,
            Notice::SnippetCleared => NoticeView::SnippetCleared,
            Notice::SnippetSaved => NoticeView::SnippetSaved,
            Notice::WebDavCleared => NoticeView::WebDavCleared,
            Notice::WebDavSaved => NoticeView::WebDavSaved,
            Notice::PluginSyncFailed(text) => NoticeView::PluginSyncFailed(text@),
            Notice::SpeedtestDisabled => NoticeView::SpeedtestDisabled,
            Notice::SpeedtestRequestFailed(text) => NoticeView::SpeedtestRequestFailed(text@),
            Notice::StreamCheckDisabled => NoticeView::StreamCheckDisabled,
            Notice::StreamCheckRequestFailed(text) => NoticeView::StreamCheckRequestFailed(text@),
            Notice::ModelFetchDisabled => NoticeView::ModelFetchDisabled,
        }
    }

    /// How the notice is shown.
    pub fn kind(&self) -> (r: ToastKind)
        ensures
            r == self@.toast_kind(),
    {
        match self {
            Notice::PromptEdited => ToastKind::Success,
            Notice::ProviderAdded => ToastKind::Success,
            Notice::ProviderEdited => ToastKind::Success,
            Notice::ProviderDeleted => ToastKind::Success,
            Notice::ProviderRemovedFromConfig => ToastKind::Success,
            Notice::DefaultModelSet(_) => ToastKind::Success,
            Notice::McpStored => ToastKind::Success,
            Notice::SnippetCleared => ToastKind::Success,
            Notice::SnippetSaved => ToastKind::Success,
            Notice::WebDavCleared => ToastKind::Success,
            Notice::WebDavSaved => ToastKind::Success,
            Notice::ProviderFieldsMissing => ToastKind::Warning,
            Notice::ProviderNameMissing => ToastKind::Warning,
            Notice::McpFieldsMissing => ToastKind::Warning,
            Notice::PluginSyncFailed(_) => ToastKind::Warning,
            Notice::SpeedtestDisabled => ToastKind::Warning,
            Notice::StreamCheckDisabled => ToastKind::Warning,
            Notice::ModelFetchDisabled => ToastKind::Warning,
            _ => ToastKind::Error,
        }
    }
}

impl NoticeView {
    /// Whether something was done as wished.
    pub open spec fn is_success(self) -> bool {
        ||| self is PromptEdited
        ||| self is ProviderAdded
        ||| self is ProviderEdited
        ||| self is ProviderDeleted
        ||| self is ProviderRemovedFromConfig
        ||| self is DefaultModelSet
        ||| self is McpStored
        ||| self is SnippetCleared
        ||| self is SnippetSaved
        ||| self is WebDavCleared
        ||| self is WebDavSaved
    }

    /// Whether something is left to the user, or was only skipped.
    pub open spec fn is_warning(self) -> bool {
        ||| self is ProviderFieldsMissing
        ||| self is ProviderNameMissing
        ||| self is McpFieldsMissing
        ||| self is PluginSyncFailed
        ||| self is SpeedtestDisabled
        ||| self is StreamCheckDisabled
        ||| self is ModelFetchDisabled
    }

    /// How the notice is shown.
    pub open spec fn toast_kind(self) -> ToastKind {
        if self.is_success() {
            ToastKind::Success
        } else if self.is_warning() {
            ToastKind::Warning
        } else {
            ToastKind::Error
        }
    }
}

/// What an action changes in the user interface.
pub struct Effects {
    pub close_editor: bool,
    pub close_form: bool,
    pub notice: Option<Notice>,
    /// Whether the data shown is to be loaded again.
    pub reload: bool,
}

/// What an action changes in the user interface.
pub struct EffectsView {
    pub close_editor: bool,
    pub close_form: bool,
    pub notice: Option<NoticeView>,
    pub reload: bool,
}

/// The notice, where there is one.
pub open spec fn maybe_notice(notice: Option<Notice>) -> Option<NoticeView> {
    match notice {
        Some(notice) => Some(notice@),
        None => None,
    }
}

impl EffectsView {
    /// Only a notice; what the user was at stays open.
    pub open spec fn told(notice: NoticeView) -> EffectsView {
        EffectsView {
            close_editor: false,
            close_form: false,
            notice: Some(notice),
            reload: false,
        }
    }
}

impl Effects {
    /// What is changed.
    pub open spec fn view(self) -> EffectsView {
        EffectsView {
            close_editor: self.close_editor,
            close_form: self.close_form,
            notice: maybe_notice(self.notice),
            reload: self.reload,
        }
    }

    /// Only a notice; what the user was at stays open.
    pub fn tell(notice: Notice) -> (r: Effects)
        ensures
            r@ == EffectsView::told(notice@),
    {
        Effects { close_editor: false, close_form: false, notice: Some(notice), reload: false }
    }
}

} // verus!
