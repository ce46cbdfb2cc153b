//! The start of the shell, step by step.
//!
//! Once the shell is up, the bridge keeps the application handle, tells the
//! host that the shell is ready, puts the icon on the main window if an icon
//! was given and the window is there, and subscribes the event relay. The
//! caller does each step and reports how it ended; [`setup_app`] says which
//! step is next. A step that fails ends the start.

use crate::interpreter::{call_without_arguments, error_text, CallbackHandle};
use crate::registry::{ready_callback, CallbackRegistry};
use vstd::prelude::*;

verus! {

/// A step of the start, or one of its two ends.
#[derive(Clone, Copy, Debug, PartialEq, Eq, Structural)]
pub enum SetupStep {
    /// Keep the shell's application handle in the registry.
    StoreHandle,
    /// Call the callback for the moment the shell is ready.
    NotifyReady,
    /// Look for the main window.
    FindMainWindow,
    /// Load the icon and put it on the main window.
    ApplyIcon,
    /// Subscribe the event relay to its channel.
    Subscribe,
    /// The start is complete.
    Done,
    /// The start has failed.
    Aborted,
}

/// How a step ended.
#[derive(Clone, Copy, Debug, PartialEq, Eq, Structural)]
pub enum StepOutcome {
    /// The step was done.
    Completed,
    /// What the step looked for is not there.
    Missing,
    /// The step failed.
    Failed,
}

/// The label of the window that gets the icon.
pub fn main_window_label() -> (label: &'static str)
    ensures
        label@ == "main"@,
{
    "main"
}

impl SetupStep {
    /// The step with which the start begins.
    pub open spec fn first() -> SetupStep {
        SetupStep::StoreHandle
    }

    /// Whether the start has come to one of its ends.
    pub open spec fn is_end(self) -> bool {
        self is Done || self is Aborted
    }

    /// The place of the step in the order of the start.
    pub open spec fn rank(self) -> nat {
        match self {
            SetupStep::StoreHandle => 0,
            SetupStep::NotifyReady => 1,
            SetupStep::FindMainWindow => 2,
            SetupStep::ApplyIcon => 3,
            SetupStep::Subscribe => 4,
            SetupStep::Done => 5,
            SetupStep::Aborted => 5,
        }
    }
}

/// The step that follows `step` once it ended with `outcome`.
///
/// An end stays what it is. A failure ends the start, and so does `Missing`
/// from any step but the search for the main window. After the host was
/// told, the window is looked for only if an icon was given; the icon is put
/// on only if the window was found.
pub open spec fn next_step(step: SetupStep, outcome: StepOutcome, has_icon: bool) -> SetupStep {
    match (step, outcome) {
        (SetupStep::Done, _) => SetupStep::Done,
        (SetupStep::Aborted, _) => SetupStep::Aborted,
        (SetupStep::StoreHandle, StepOutcome::Completed) => SetupStep::NotifyReady,
        (SetupStep::NotifyReady, StepOutcome::Completed) => if has_icon {
            SetupStep::FindMainWindow
        } else {
            SetupStep::Subscribe
        },
        (SetupStep::FindMainWindow, StepOutcome::Completed) => SetupStep::ApplyIcon,
        (SetupStep::FindMainWindow, StepOutcome::Missing) => SetupStep::Subscribe,
        (SetupStep::ApplyIcon, StepOutcome::Completed) => SetupStep::Subscribe,
        (SetupStep::Subscribe, StepOutcome::Completed) => SetupStep::Done,
        (_, _) => SetupStep::Aborted,
    }
}

/// The first step of the start.
pub fn setup_begin() -> (step: SetupStep)
    ensures
        step == SetupStep::first(),
{
    SetupStep::StoreHandle
}

/// Says which step follows `step` once it ended with `outcome`; `has_icon`
/// tells whether an icon was given for the main window.
pub fn setup_app(step: SetupStep, outcome: StepOutcome, has_icon: bool) -> (next: SetupStep)
    ensures
        next == next_step(step, outcome, has_icon),
{
    match step {
        SetupStep::Done => SetupStep::Done,
        SetupStep::Aborted => SetupStep::Aborted,
        SetupStep::StoreHandle => match outcome {
            StepOutcome::Completed => SetupStep::NotifyReady,
            _ => SetupStep::Aborted,
        },
        SetupStep::NotifyReady => match outcome {
            StepOutcome::Completed => if has_icon {
                SetupStep::FindMainWindow
            } else {
                SetupStep::Subscribe
            },
            _ => SetupStep::Aborted,
        },
        SetupStep::FindMainWindow => match outcome {
            StepOutcome::Completed => SetupStep::ApplyIcon,
            StepOutcome::Missing => SetupStep::Subscribe,
            StepOutcome::Failed => SetupStep::Aborted,
        },
        SetupStep::ApplyIcon => match outcome {
            StepOutcome::Completed => SetupStep::Subscribe,
            _ => SetupStep::Aborted,
        },
        SetupStep::Subscribe => match outcome {
            StepOutcome::Completed => SetupStep::Done,
            _ => SetupStep::Aborted,
        },
    }
}

/// Every step that is no end leads to a later one: the start takes each step
/// at most once, in one order, and ends after at most five steps.
pub proof fn lemma_setup_advances(step: SetupStep, outcome: StepOutcome, has_icon: bool)
    requires
        !step.is_end(),
    ensures
        next_step(step, outcome, has_icon).rank() > step.rank(),
{
}

/// A step that failed ends the start.
pub proof fn lemma_setup_failure_is_fatal(step: SetupStep, has_icon: bool)
    requires
        !step.is_end(),
    ensures
        next_step(step, StepOutcome::Failed, has_icon) == SetupStep::Aborted,
{
}

/// The host is told right after the handle was kept and at no other time;
/// the relay is subscribed only after the host was told; the main window is
/// looked for only if an icon was given, and the icon is put on only if the
/// window was found.
pub proof fn lemma_setup_order(step: SetupStep, outcome: StepOutcome, has_icon: bool)
    ensures
        next_step(step, outcome, has_icon) == SetupStep::NotifyReady <==> step
            == SetupStep::StoreHandle && outcome == StepOutcome::Completed,
        next_step(step, outcome, has_icon) == SetupStep::Subscribe ==> step.rank()
            >= SetupStep::NotifyReady.rank() && !step.is_end(),
        next_step(step, outcome, has_icon) == SetupStep::FindMainWindow <==> step
            == SetupStep::NotifyReady && outcome == StepOutcome::Completed && has_icon,
        next_step(step, outcome, has_icon) == SetupStep::ApplyIcon <==> step
            == SetupStep::FindMainWindow && outcome == StepOutcome::Completed,
{
}

/// How telling the host ended.
#[derive(Debug, PartialEq, Eq)]
pub enum ReadyNotice {
    /// No callback is registered: nothing was called.
    NoCallback,
    /// The callback was called and returned.
    Notified,
    /// The callback was called and raised; the host's words.
    Failed(String),
}

impl ReadyNotice {
    /// How the step of telling the host ended: it failed where the callback
    /// raised, and was done otherwise.
    pub fn outcome(&self) -> (outcome: StepOutcome)
        ensures
            outcome == if self is Failed {
                StepOutcome::Failed
            } else {
                StepOutcome::Completed
            },
    {
        match self {
            ReadyNotice::Failed(_) => StepOutcome::Failed,
            _ => StepOutcome::Completed,
        }
    }
}

/// Tells the host that the shell is ready through a callback: calls it
/// without arguments, if there is a callback.
pub fn notify(callback: Option<CallbackHandle>) -> (notice: ReadyNotice)
    ensures
        notice is NoCallback <==> callback is None,
{
    match callback {
        None => ReadyNotice::NoCallback,
        Some(ready) => match call_without_arguments(&ready) {
            Ok(_) => ReadyNotice::Notified,
            Err(error) => ReadyNotice::Failed(error_text(&error)),
        },
    }
}

/// Tells the host that the shell is ready: looks up the callback for that
/// moment and calls it with [`notify`].
pub fn notify_ready<A>(registry: &CallbackRegistry<A>) -> (notice: ReadyNotice)
    ensures
        notice is NoCallback <==> registry@.ready_callback is None,
{
    notify(ready_callback(registry))
}

} // verus!
