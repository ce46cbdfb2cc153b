//! What the bridge decides about the shell's windows and about the end of a
//! run: the plan of a window, the errors of the shell in words, and the exit
//! code.

use crate::registry::{app_handle, CallbackRegistry};
use crate::text::{replace_all, replaced};
use vstd::prelude::*;

verus! {

/// The width of a window for which none was given.
pub const DEFAULT_WIDTH: i32 = 800;

/// The height of a window for which none was given.
pub const DEFAULT_HEIGHT: i32 = 600;

/// What stands for the window's title in the script that every window runs
/// first.
pub open spec fn title_mark() -> Seq<char> {
    "apptitle"@
}

/// An operation on the shell that failed.
#[derive(Debug, PartialEq, Eq)]
pub enum ShellError {
    /// The shell has not started: there is no application handle yet.
    NotInitialized,
    /// The address of a window is no URL; the parser's words.
    InvalidUrl(String),
    /// The shell could not build a window; its words.
    WindowBuild(String),
    /// The shell could not emit an event; its words.
    Emit(String),
    /// The handler for the interrupt signal could not be set; the words of
    /// the failure.
    SignalHandler(String),
}

impl ShellError {
    /// The message of the error, as a specification.
    pub open spec fn spec_message(&self) -> Seq<char> {
        match self {
            ShellError::NotInitialized => "App handle not initialized"@,
            ShellError::InvalidUrl(detail) => "Invalid URL: "@ + detail@,
            ShellError::WindowBuild(detail) => "Failed to build window: "@ + detail@,
            ShellError::Emit(detail) => "Failed to emit event: "@ + detail@,
            ShellError::SignalHandler(detail) => "Failed to set Ctrl+C handler: "@ + detail@,
        }
    }

    /// The message of the error.
    pub fn message(&self) -> (text: String)
        ensures
            text@ == self.spec_message(),
    {
        match self {
            ShellError::NotInitialized => "App handle not initialized".to_owned(),
            ShellError::InvalidUrl(detail) => "Invalid URL: ".to_owned().concat(detail.as_str()),
            ShellError::WindowBuild(detail) => "Failed to build window: ".to_owned().concat(
                detail.as_str(),
            ),
            ShellError::Emit(detail) => "Failed to emit event: ".to_owned().concat(
                detail.as_str(),
            ),
            ShellError::SignalHandler(detail) => "Failed to set Ctrl+C handler: ".to_owned().concat(
                detail.as_str(),
            ),
        }
    }

    /// Whether the host is told of the error as of a bad value of its own
    /// rather than as of a failure at run time: only a bad URL is.
    pub fn is_value_error(&self) -> (bad_value: bool)
        ensures
            bad_value == (self is InvalidUrl),
    {
        match self {
            ShellError::InvalidUrl(_) => true,
            _ => false,
        }
    }
}

/// Whether the shell is there for an operation that goes out to it, such as
/// emitting an event or closing: it is once the application handle is kept,
/// and before that the operation fails as `NotInitialized`.
pub fn outbound_ready<A>(registry: &CallbackRegistry<A>) -> (ready: Result<(), ShellError>)
    ensures
        registry@.app_handle is Some ==> ready == Ok::<(), ShellError>(()),
        registry@.app_handle is None ==> ready == Err::<(), ShellError>(
            ShellError::NotInitialized,
        ),
{
    if app_handle(registry).is_some() {
        Ok(())
    } else {
        Err(ShellError::NotInitialized)
    }
}

/// A window to build.
#[derive(Debug, PartialEq, Eq)]
pub struct WindowPlan {
    pub label: String,
    pub title: String,
    pub url: String,
    pub user_agent: Option<String>,
    pub width: i32,
    pub height: i32,
    pub visible: bool,
    pub maximized: bool,
    pub center: bool,
    /// The script that the window runs first, with the title in it.
    pub initialization_script: String,
}

/// Plans a window.
///
/// `url_problem` is what the shell's parser said against `url`, if anything;
/// `script_template` is the script that every window runs first, in which
/// [`title_mark`] stands for the title.
///
/// Without an application handle the plan fails as `NotInitialized`,
/// whatever the URL; with one, a URL that did not parse fails the plan as
/// `InvalidUrl`. Otherwise the window is visible, 800 by 600 where no width
/// or height was given, and runs the script with every mark replaced by the
/// title.
pub fn create_window<A>(
    registry: &CallbackRegistry<A>,
    label: String,
    title: String,
    url: String,
    user_agent: Option<String>,
    width: Option<i32>,
    height: Option<i32>,
    maximized: bool,
    center: bool,
    url_problem: Option<String>,
    script_template: &str,
) -> (plan: Result<WindowPlan, ShellError>)
    ensures
        registry@.app_handle is None ==> plan == Err::<WindowPlan, ShellError>(
            ShellError::NotInitialized,
        ),
        registry@.app_handle is Some && url_problem is Some ==> {
            &&& plan matches Err(ShellError::InvalidUrl(detail))
            &&& detail@ == url_problem->0@
        },
        registry@.app_handle is Some && url_problem is None ==> {
            &&& plan matches Ok(window)
            &&& window.label@ == label@
            &&& window.title@ == title@
            &&& window.url@ == url@
            &&& window.user_agent is Some == user_agent is Some
            &&& user_agent matches Some(agent) ==> window.user_agent->0@ == agent@
            &&& window.width == if width is Some {
                width->0
            } else {
                DEFAULT_WIDTH
            }
            &&& window.height == if height is Some {
                height->0
            } else {
                DEFAULT_HEIGHT
            }
            &&& window.visible
            &&& window.maximized == maximized
            &&& window.center == center
            &&& window.initialization_script@ == replaced(script_template@, title_mark(), title@)
        },
{
    if let Err(error) = outbound_ready(registry) {
        return Err(error);
    }
    if let Some(detail) = url_problem {
        return Err(ShellError::InvalidUrl(detail));
    }
    proof {
        reveal_strlit("apptitle");
    }
    let initialization_script = replace_all(script_template, "apptitle", title.as_str());
    Ok(
        WindowPlan {
            label,
            title,
            url,
            user_agent,
            width: match width {
                Some(w) => w,
                None => DEFAULT_WIDTH,
            },
            height: match height {
                Some(h) => h,
                None => DEFAULT_HEIGHT,
            },
            visible: true,
            maximized,
            center,
            initialization_script,
        },
    )
}

/// How a run of the shell ends for the process.
#[derive(Debug, PartialEq, Eq)]
pub struct RunOutcome {
    /// The exit code.
    pub code: i32,
    /// What to print on the error stream, if anything.
    pub report: Option<String>,
}

/// What the error stream's line begins with when the shell failed.
pub open spec fn run_error_prefix() -> Seq<char> {
    "Application error: "@
}

/// The end of a run: exit code 0 and nothing to print where the shell shut
/// down cleanly; exit code 1 and the shell's error to print where it failed
/// to start or to run.
pub fn run(result: Result<(), String>) -> (outcome: RunOutcome)
    ensures
        match result {
            Ok(_) => outcome.code == 0 && outcome.report is None,
            Err(detail) => {
                &&& outcome.code == 1
                &&& outcome.report matches Some(line)
                &&& line@ == run_error_prefix() + detail@
            },
        },
{
    match result {
        Ok(_) => RunOutcome { code: 0, report: None },
        Err(detail) => RunOutcome {
            code: 1,
            report: Some("Application error: ".to_owned().concat(detail.as_str())),
        },
    }
}

} // verus!
