//! How a change is stored and carried out, and how it is taken back where something
//! fails.
use vstd::prelude::*;

use crate::common_config::{preferred_apply_common_config, prefers_common};
use crate::error::{AppError, ErrorView};
use crate::live_files::unit_outcome;
use crate::service::{ActionView, PostCommitAction};

verus! {

/// What is to be done next in storing a change.
pub enum Step {
    /// The configuration is saved.
    Save,
    /// The configuration is put back as it was and saved, because saving failed.
    UndoSave(Failure),
    /// What follows a change is done.
    Apply,
    /// The configuration is put back as it was and saved, and then the live files are put
    /// back, because what follows the change failed.
    RollBack(Failure),
    /// Nothing is left to be done.
    Finish(Result<(), AppError>),
}

/// What went wrong, with the text that is shown for it.
pub struct Failure {
    pub error: AppError,
    pub shown: String,
}

/// What is to be done next in storing a change.
pub enum StepView {
    Save,
    UndoSave(ErrorView, Seq<char>),
    Apply,
    RollBack(ErrorView, Seq<char>),
    Finish(Result<(), ErrorView>),
}

impl Step {
    /// What is to be done.
    pub open spec fn view(self) -> StepView {
        match self {
            Step::Save => StepView::Save,
            Step::UndoSave(failure) => StepView::UndoSave(failure.error@, failure.shown@),
            Step::Apply => StepView::Apply,
            Step::RollBack(failure) => StepView::RollBack(failure.error@, failure.shown@),
            Step::Finish(result) => StepView::Finish(unit_outcome(result)),
        }
    }
}

/// How a step went.
pub open spec fn went(outcome: Result<(), Failure>) -> Result<(), (ErrorView, Seq<char>)> {
    match outcome {
        Ok(_) => Ok(()),
        Err(failure) => Err((failure.error@, failure.shown@)),
    }
}

/// What follows a step. `has_action` tells whether something follows the change.
pub open spec fn following(
    step: StepView,
    outcome: Result<(), (ErrorView, Seq<char>)>,
    has_action: bool,
) -> StepView {
    match (step, outcome) {
        (StepView::Save, Ok(_)) => if has_action {
            StepView::Apply
        } else {
            StepView::Finish(Ok(()))
        },
        (StepView::Save, Err((error, shown))) => StepView::UndoSave(error, shown),
        (StepView::UndoSave(error, _), Ok(_)) => StepView::Finish(Err(error)),
        (StepView::UndoSave(_, first), Err((_, second))) => StepView::Finish(
            Err(
                ErrorView::Localized {
                    key: "config.save.rollback_failed"@,
                    zh: "保存配置失败: "@ + first + "；回滚失败: "@ + second,
                    en: "Failed to save config: "@ + first + "; rollback failed: "@ + second,
                },
            ),
        ),
        (StepView::Apply, Ok(_)) => StepView::Finish(Ok(())),
        (StepView::Apply, Err((error, shown))) => StepView::RollBack(error, shown),
        (StepView::RollBack(error, _), Ok(_)) => StepView::Finish(Err(error)),
        (StepView::RollBack(_, first), Err((_, second))) => StepView::Finish(
            Err(
                ErrorView::Localized {
                    key: "post_commit.rollback_failed"@,
                    zh: "后置操作失败: "@ + first + "；回滚失败: "@ + second,
                    en: "Post-commit step failed: "@ + first + "; rollback failed: "@ + second,
                },
            ),
        ),
        (StepView::Finish(result), _) => StepView::Finish(result),
    }
}

/// Puts two failures into one text.
fn both(first_label: &str, first: &str, second_label: &str, second: &str) -> (r: String)
    ensures
        r@ == first_label@ + first@ + second_label@ + second@,
{
    first_label.to_owned().concat(first).concat(second_label).concat(second)
}

/// What follows a step.
pub fn next_step(step: Step, outcome: Result<(), Failure>, has_action: bool) -> (r: Step)
    ensures
        r@ == following(step@, went(outcome), has_action),
{
    match step {
        Step::Save => match outcome {
            Ok(_) => if has_action {
                Step::Apply
            } else {
                Step::Finish(Ok(()))
            },
            Err(failure) => Step::UndoSave(failure),
        },
        Step::UndoSave(first) => match outcome {
            Ok(_) => Step::Finish(Err(first.error)),
            Err(second) => Step::Finish(
                Err(
                    AppError::localized(
                        "config.save.rollback_failed",
                        both(
                            "保存配置失败: ",
                            first.shown.as_str(),
                            "；回滚失败: ",
                            second.shown.as_str(),
                        ),
                        both(
                            "Failed to save config: ",
                            first.shown.as_str(),
                            "; rollback failed: ",
                            second.shown.as_str(),
                        ),
                    ),
                ),
            ),
        },
        Step::Apply => match outcome {
            Ok(_) => Step::Finish(Ok(())),
            Err(failure) => Step::RollBack(failure),
        },
        Step::RollBack(first) => match outcome {
            Ok(_) => Step::Finish(Err(first.error)),
            Err(second) => Step::Finish(
                Err(
                    AppError::localized(
                        "post_commit.rollback_failed",
                        both(
                            "后置操作失败: ",
                            first.shown.as_str(),
                            "；回滚失败: ",
                            second.shown.as_str(),
                        ),
                        both(
                            "Post-commit step failed: ",
                            first.shown.as_str(),
                            "; rollback failed: ",
                            second.shown.as_str(),
                        ),
                    ),
                ),
            ),
        },
        Step::Finish(result) => Step::Finish(result),
    }
}

/// A change is reported as stored only where no step of it failed: saving, and what
/// follows, where anything does.
pub proof fn law_success_only_without_failure(
    save: Result<(), (ErrorView, Seq<char>)>,
    apply: Result<(), (ErrorView, Seq<char>)>,
    has_action: bool,
)
    ensures
        ({
            let second = following(StepView::Save, save, has_action);
            let third = following(second, apply, has_action);
            &&& second == StepView::Finish(Ok(())) <==> save is Ok && !has_action
            &&& (second is Apply ==> (third == StepView::Finish(Ok(())) <==> apply is Ok))
            &&& (save is Err ==> second is UndoSave && third != StepView::Finish(Ok(())))
            &&& (second is Apply && apply is Err ==> third is RollBack)
        }),
{
}

/// Wherever it starts, storing a change is over after three more steps.
pub proof fn law_three_steps_suffice(
    step: StepView,
    first: Result<(), (ErrorView, Seq<char>)>,
    second: Result<(), (ErrorView, Seq<char>)>,
    third: Result<(), (ErrorView, Seq<char>)>,
    has_action: bool,
)
    ensures
        following(
            following(following(step, first, has_action), second, has_action),
            third,
            has_action,
        ) is Finish,
{
}

/// A part of what follows a change.
#[derive(Clone, Copy, Debug, PartialEq, Eq, Structural)]
pub enum FollowUp {
    /// The provider is backed up for the proxy that stands in.
    SaveBackup,
    /// The provider goes into the live files.
    WriteLive,
    /// The servers of the model context protocol are written to the applications.
    SyncMcp,
    /// The provider takes its settings back from the live files.
    Refresh,
    /// The skills are written to the applications; a failure is passed over.
    SyncSkills,
}

/// What follows a change, in order. `sync` tells whether the live files of the application
/// are to be touched.
pub open spec fn follow_ups(action: ActionView, sync: bool) -> Seq<FollowUp> {
    (if action.takeover_active {
        seq![FollowUp::SaveBackup]
    } else {
        seq![FollowUp::WriteLive]
    }) + (if action.sync_mcp {
        seq![FollowUp::SyncMcp]
    } else {
        Seq::empty()
    }) + (if !action.takeover_active && action.refresh_snapshot && sync {
        seq![FollowUp::Refresh]
    } else {
        Seq::empty()
    }) + seq![FollowUp::SyncSkills]
}

/// What follows a change, and whether the common snippet is asked for.
pub struct PostCommitPlan {
    pub steps: Vec<FollowUp>,
    pub apply_common_config: bool,
}

/// What follows a change, in order.
pub fn apply_post_commit(action: &PostCommitAction, sync: bool) -> (r: PostCommitPlan)
    ensures
        r.steps@ == follow_ups(action@, sync),
        r.apply_common_config == prefers_common(action@.provider),
{
    let mut steps: Vec<FollowUp> = Vec::new();
    if action.takeover_active {
        steps.push(FollowUp::SaveBackup);
    } else {
        steps.push(FollowUp::WriteLive);
    }
    if action.sync_mcp {
        steps.push(FollowUp::SyncMcp);
    }
    if !action.takeover_active && action.refresh_snapshot && sync {
        steps.push(FollowUp::Refresh);
    }
    steps.push(FollowUp::SyncSkills);
    assert(steps@ =~= follow_ups(action@, sync));
    PostCommitPlan { steps, apply_common_config: preferred_apply_common_config(&action.provider) }
}

/// While a proxy stands in, a change leaves the live files alone: the provider is backed up
/// for the proxy instead. Otherwise the provider goes into the live files, and what is in
/// them is read back only after that.
pub proof fn law_takeover_leaves_live_files_alone(action: ActionView, sync: bool)
    ensures
        ({
            let steps = follow_ups(action, sync);
            &&& action.takeover_active ==> steps[0] == FollowUp::SaveBackup && !steps.contains(
                FollowUp::WriteLive,
            ) && !steps.contains(FollowUp::Refresh)
            &&& !action.takeover_active ==> steps[0] == FollowUp::WriteLive && !steps.contains(
                FollowUp::SaveBackup,
            )
        }),
{
}

} // verus!
