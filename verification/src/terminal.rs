//! The life of the terminal: when it is taken over and when it is given back.
use vstd::prelude::*;

use crate::error::{joined, AppError, ErrorView};
use crate::live_files::unit_outcome;

verus! {

/// What is wrong with the terminal.
pub open spec fn terminal_failure(message: Seq<char>) -> ErrorView {
    ErrorView::Localized {
        key: "tui_terminal_error"@,
        zh: "终端错误: "@ + message,
        en: "Terminal error: "@ + message,
    }
}

/// What is wrong with the terminal.
pub fn terminal_error(message: &str) -> (r: AppError)
    ensures
        r@ == terminal_failure(message@),
{
    AppError::localized(
        "tui_terminal_error",
        joined("终端错误: ", message),
        joined("Terminal error: ", message),
    )
}

/// The error, where there is one.
pub open spec fn maybe_error(error: Option<AppError>) -> Option<ErrorView> {
    match error {
        Some(error) => Some(error@),
        None => None,
    }
}

/// Keeps what went wrong first.
pub fn record_err(first_err: &mut Option<AppError>, message: &str)
    ensures
        maybe_error(*final(first_err)) == (match maybe_error(*old(first_err)) {
            Some(error) => Some(error),
            None => Some(terminal_failure(message@)),
        }),
{
    if first_err.is_none() {
        *first_err = Some(terminal_error(message));
    }
}

/// The first failure among steps that are all taken.
pub open spec fn first_failure(steps: Seq<Result<(), String>>) -> Option<ErrorView>
    decreases steps.len(),
{
    if steps.len() == 0 {
        None
    } else {
        match (first_failure(steps.drop_last()), steps.last()) {
            (Some(error), _) => Some(error),
            (None, Err(message)) => Some(terminal_failure(message@)),
            (None, Ok(_)) => None,
        }
    }
}

/// What comes of steps that are all taken: the first failure, where there is one.
pub open spec fn steps_outcome(steps: Seq<Result<(), String>>) -> Result<(), ErrorView> {
    match first_failure(steps) {
        Some(error) => Err(error),
        None => Ok(()),
    }
}

/// What comes of steps that are all taken.
pub fn best_effort(steps: &Vec<Result<(), String>>) -> (r: Result<(), AppError>)
    ensures
        unit_outcome(r) == steps_outcome(steps@),
{
    let mut first_err: Option<AppError> = None;
    let mut i: usize = 0;
    assert(steps@.take(0) =~= Seq::empty());
    while i < steps.len()
        invariant
            i <= steps.len(),
            maybe_error(first_err) == first_failure(steps@.take(i as int)),
        decreases steps.len() - i,
    {
        proof {
            assert(steps@.take(i + 1).drop_last() =~= steps@.take(i as int));
            assert(steps@.take(i + 1).last() == steps@[i as int]);
        }
        if let Err(message) = &steps[i] {
            record_err(&mut first_err, message.as_str());
        }
        i += 1;
    }
    assert(steps@.take(i as int) =~= steps@);
    match first_err {
        Some(error) => Err(error),
        None => Ok(()),
    }
}

/// The terminal of the user interface.
#[derive(Clone, Copy, Debug, PartialEq, Eq, Structural)]
pub struct TuiTerminal {
    /// Whether there is a terminal at all, or one in memory that stands for it.
    pub live: bool,
    /// Whether the user interface has taken the terminal over.
    pub active: bool,
}

impl TuiTerminal {
    /// The terminal, once it has been taken over. The steps are those of taking it over:
    /// the raw mode, the screen, and what draws on it. The first that fails ends them, and
    /// what was taken over by then is given back where the raw mode was.
    pub fn new(
        raw_mode: Result<(), String>,
        screen: Result<(), String>,
        drawing: Result<(), String>,
    ) -> (r: Result<TuiTerminal, AppError>)
        ensures
            match r {
                Ok(terminal) => terminal == (TuiTerminal { live: true, active: true }) && raw_mode
                    is Ok && screen is Ok && drawing is Ok,
                Err(error) => match (raw_mode, screen, drawing) {
                    (Err(message), _, _) => error@ == terminal_failure(message@),
                    (Ok(_), Err(message), _) => error@ == terminal_failure(message@),
                    (Ok(_), Ok(_), Err(message)) => error@ == terminal_failure(message@),
                    (Ok(_), Ok(_), Ok(_)) => false,
                },
            },
    {
        if let Err(message) = raw_mode {
            return Err(terminal_error(message.as_str()));
        }
        if let Err(message) = screen {
            return Err(terminal_error(message.as_str()));
        }
        if let Err(message) = drawing {
            return Err(terminal_error(message.as_str()));
        }
        Ok(TuiTerminal { live: true, active: true })
    }

    /// A terminal in memory.
    pub fn new_for_test() -> (r: TuiTerminal)
        ensures
            r == (TuiTerminal { live: false, active: false }),
    {
        TuiTerminal { live: false, active: false }
    }

    /// Whether giving the terminal back takes any steps.
    pub open spec fn restore_takes_steps(self) -> bool {
        self.active && self.live
    }

    /// Whether taking the terminal over takes any steps.
    pub open spec fn activate_takes_steps(self) -> bool {
        !self.active && self.live
    }

    /// Tells whether giving the terminal back takes any steps.
    pub fn needs_restore(&self) -> (r: bool)
        ensures
            r == self.restore_takes_steps(),
    {
        self.active && self.live
    }

    /// Tells whether taking the terminal over takes any steps.
    pub fn needs_activation(&self) -> (r: bool)
        ensures
            r == self.activate_takes_steps(),
    {
        !self.active && self.live
    }

    /// Whether a terminal was given back: it was, where no step failed or none was to be
    /// taken.
    pub open spec fn restored(self, steps: Seq<Result<(), String>>) -> (
        TuiTerminal,
        Result<(), ErrorView>,
    ) {
        if !self.restore_takes_steps() {
            (TuiTerminal { active: false, ..self }, Ok(()))
        } else {
            match steps_outcome(steps) {
                Ok(_) => (TuiTerminal { active: false, ..self }, Ok(())),
                Err(error) => (self, Err(error)),
            }
        }
    }

    /// Whether a terminal was taken over: a live one was, where no step failed.
    pub open spec fn activated(self, steps: Seq<Result<(), String>>) -> (
        TuiTerminal,
        Result<(), ErrorView>,
    ) {
        if !self.activate_takes_steps() {
            (self, Ok(()))
        } else {
            match steps_outcome(steps) {
                Ok(_) => (TuiTerminal { active: true, ..self }, Ok(())),
                Err(error) => (self, Err(error)),
            }
        }
    }

    /// Notes what came of giving the terminal back. The steps are those that were taken,
    /// where any were to be.
    pub fn restore_best_effort(&mut self, steps: &Vec<Result<(), String>>) -> (r: Result<
        (),
        AppError,
    >)
        ensures
            (*final(self), unit_outcome(r)) == old(self).restored(steps@),
    {
        if !self.active {
            return Ok(());
        }
        if self.live {
            if let Err(error) = best_effort(steps) {
                return Err(error);
            }
        }
        self.active = false;
        Ok(())
    }

    /// Notes what came of taking the terminal over. The steps are those that were taken,
    /// where any were to be.
    pub fn activate_best_effort(&mut self, steps: &Vec<Result<(), String>>) -> (r: Result<
        (),
        AppError,
    >)
        ensures
            (*final(self), unit_outcome(r)) == old(self).activated(steps@),
    {
        if self.active || !self.live {
            return Ok(());
        }
        if let Err(error) = best_effort(steps) {
            return Err(error);
        }
        self.active = true;
        Ok(())
    }
}

/// The steps of running something while the terminal is given back.
#[derive(Clone, Copy, Debug, PartialEq, Eq, Structural)]
pub enum RestoredStep {
    /// The terminal is given back.
    Restore,
    /// What needs the terminal runs.
    Run,
    /// The terminal is taken over again.
    Activate,
    /// The terminal is taken over again, after that failed once.
    ActivateAgain,
    /// Nothing is left to be done.
    Done,
}

/// The step that follows one that went well, or did not.
pub open spec fn step_after(step: RestoredStep, ok: bool) -> RestoredStep {
    match step {
        RestoredStep::Restore => if ok {
            RestoredStep::Run
        } else {
            RestoredStep::Done
        },
        RestoredStep::Run => RestoredStep::Activate,
        RestoredStep::Activate => if ok {
            RestoredStep::Done
        } else {
            RestoredStep::ActivateAgain
        },
        RestoredStep::ActivateAgain => RestoredStep::Done,
        RestoredStep::Done => RestoredStep::Done,
    }
}

/// The step that follows one that went well, or did not. What runs may fail: the terminal
/// is taken over again all the same.
pub fn next_restored_step(step: RestoredStep, ok: bool) -> (r: RestoredStep)
    ensures
        r == step_after(step, ok),
{
    match step {
        RestoredStep::Restore => if ok {
            RestoredStep::Run
        } else {
            RestoredStep::Done
        },
        RestoredStep::Run => RestoredStep::Activate,
        RestoredStep::Activate => if ok {
            RestoredStep::Done
        } else {
            RestoredStep::ActivateAgain
        },
        RestoredStep::ActivateAgain => RestoredStep::Done,
        RestoredStep::Done => RestoredStep::Done,
    }
}

/// What comes of running something while the terminal is given back: that the terminal
/// could not be given back, so that nothing ran; that it could not be taken over again; or
/// what ran gave.
pub fn with_terminal_restored<T>(
    restored: Result<(), AppError>,
    ran: Option<Result<T, AppError>>,
    activated: Result<(), AppError>,
) -> (r: Option<Result<T, AppError>>)
    ensures
        r == (match (restored, ran, activated) {
            (Err(error), _, _) => Some(Err::<T, AppError>(error)),
            (Ok(_), None, _) => None,
            (Ok(_), Some(_), Err(error)) => Some(Err::<T, AppError>(error)),
            (Ok(_), Some(result), Ok(_)) => Some(result),
        }),
{
    if let Err(error) = restored {
        return Some(Err(error));
    }
    match ran {
        None => None,
        Some(result) => match activated {
            Ok(_) => Some(result),
            Err(error) => Some(Err(error)),
        },
    }
}

/// A terminal in memory can be given back and taken over at any time: nothing happens, and
/// nothing fails.
pub proof fn law_memory_terminal_is_safe(
    terminal: TuiTerminal,
    restoring: Seq<Result<(), String>>,
    activating: Seq<Result<(), String>>,
)
    requires
        !terminal.live,
    ensures
        terminal.restored(restoring).1 is Ok,
        terminal.activated(activating).1 is Ok,
        !terminal.restored(restoring).0.live,
        !terminal.activated(activating).0.live,
{
}

/// A terminal that was given back is taken over again as it was, where no step fails.
pub proof fn law_restore_then_activate(
    terminal: TuiTerminal,
    restoring: Seq<Result<(), String>>,
    activating: Seq<Result<(), String>>,
)
    requires
        terminal.live,
        terminal.active,
        first_failure(restoring) is None,
        first_failure(activating) is None,
    ensures
        terminal.restored(restoring).0.activated(activating).0 == terminal,
{
}

/// Something runs only once the terminal has been given back, and after it has run, the
/// terminal is taken over again, whatever the outcome.
pub proof fn law_run_stands_between_restore_and_activation(step: RestoredStep, ok: bool)
    ensures
        step_after(step, ok) == RestoredStep::Run <==> step == RestoredStep::Restore && ok,
        step_after(RestoredStep::Run, ok) == RestoredStep::Activate,
{
}

} // verus!
