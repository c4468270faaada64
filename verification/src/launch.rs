//! The execution engine: what is done for one startup item.
//!
//! Launching an item takes work that only the caller can do: waiting, and
//! asking the operating system to start a process. The decisions are taken
//! here. `plan_item` says, for an item, whether it is skipped, how long to
//! wait, and what is then started or which error is reported;
//! `conclude_launch` says how the item ends once the caller has tried to
//! start the process.

use vstd::prelude::*;
use crate::error::{StartupError, StartupErrorView};
use crate::item::{StartupItem, StartupItemView};
use crate::quoting::{escape_single_quotes, escaped};
use crate::text::{joined, owned, same_text};
use crate::tokens::{split_whitespace, texts, words};

verus! {

/// A process that the caller is asked to start. The caller does not wait for
/// it to end.
#[derive(Clone, Debug, PartialEq, Eq)]
pub enum LaunchRequest {
    /// Start the program at `path`, each argument handed over as it is, with
    /// no console window.
    Program { path: String, arguments: Vec<String> },
    /// Start the program at `path` with administrator rights, through the
    /// operating system's own verb for that, applied to the program itself.
    /// The verb takes one line of parameters, not a list.
    ElevatedProgram { path: String, parameters: Option<String> },
    /// Start the command interpreter with these arguments, with no console
    /// window.
    Command { interpreter: String, arguments: Vec<String> },
}

/// A `LaunchRequest` with its texts as sequences of characters.
pub enum LaunchRequestView {
    Program { path: Seq<char>, arguments: Seq<Seq<char>> },
    ElevatedProgram { path: Seq<char>, parameters: Option<Seq<char>> },
    Command { interpreter: Seq<char>, arguments: Seq<Seq<char>> },
}

impl View for LaunchRequest {
    type V = LaunchRequestView;

    open spec fn view(&self) -> LaunchRequestView {
        match *self {
            LaunchRequest::Program { path, arguments } => LaunchRequestView::Program {
                path: path@,
                arguments: texts(arguments@),
            },
            LaunchRequest::ElevatedProgram { path, parameters } => {
                LaunchRequestView::ElevatedProgram {
                    path: path@,
                    parameters: match parameters {
                        Some(line) => Some(line@),
                        None => None,
                    },
                }
            },
            LaunchRequest::Command { interpreter, arguments } => LaunchRequestView::Command {
                interpreter: interpreter@,
                arguments: texts(arguments@),
            },
        }
    }
}

/// What is to be done for one item.
#[derive(Clone, Debug, PartialEq, Eq)]
pub enum ItemPlan {
    /// The item is switched off: nothing is done and nothing is waited for.
    Skip,
    /// Wait `delay_seconds`, then report `error`. Nothing is started.
    Reject { delay_seconds: u32, error: StartupError },
    /// Wait `delay_seconds`, then start what `request` describes.
    Launch { delay_seconds: u32, request: LaunchRequest },
}

/// An `ItemPlan` with its texts as sequences of characters.
pub enum ItemPlanView {
    Skip,
    Reject { delay_seconds: u32, error: StartupErrorView },
    Launch { delay_seconds: u32, request: LaunchRequestView },
}

impl View for ItemPlan {
    type V = ItemPlanView;

    open spec fn view(&self) -> ItemPlanView {
        match *self {
            ItemPlan::Skip => ItemPlanView::Skip,
            ItemPlan::Reject { delay_seconds, error } => ItemPlanView::Reject {
                delay_seconds,
                error: error@,
            },
            ItemPlan::Launch { delay_seconds, request } => ItemPlanView::Launch {
                delay_seconds,
                request: request@,
            },
        }
    }
}

/// How one item ended.
#[derive(Clone, Debug, PartialEq, Eq)]
pub enum ItemOutcome {
    /// The item is switched off and nothing was done.
    Skipped,
    /// The process was started. Whether it has ended, or how, is not known.
    Launched,
    /// Nothing was started, for the reason given.
    Failed(StartupError),
}

/// An `ItemOutcome` with its texts as sequences of characters.
pub enum ItemOutcomeView {
    Skipped,
    Launched,
    Failed(StartupErrorView),
}

impl View for ItemOutcome {
    type V = ItemOutcomeView;

    open spec fn view(&self) -> ItemOutcomeView {
        match *self {
            ItemOutcome::Skipped => ItemOutcomeView::Skipped,
            ItemOutcome::Launched => ItemOutcomeView::Launched,
            ItemOutcome::Failed(error) => ItemOutcomeView::Failed(error@),
        }
    }
}

/// What the caller of a single launch gets: an item that was skipped or
/// launched is a success, one that failed gives its error.
pub open spec fn result_of(outcome: ItemOutcomeView) -> Result<(), StartupErrorView> {
    match outcome {
        ItemOutcomeView::Skipped => Ok(()),
        ItemOutcomeView::Launched => Ok(()),
        ItemOutcomeView::Failed(error) => Err(error),
    }
}

impl ItemOutcome {
    /// Returns the outcome as the result of launching the one item: success
    /// for an item that was skipped or launched, the error for one that
    /// failed.
    pub fn into_result(self) -> (result: Result<(), StartupError>)
        ensures
            match result {
                Ok(_) => result_of(self@) == Ok::<(), StartupErrorView>(()),
                Err(error) => result_of(self@) == Err::<(), StartupErrorView>(error@),
            },
    {
        match self {
            ItemOutcome::Skipped => Ok(()),
            ItemOutcome::Launched => Ok(()),
            ItemOutcome::Failed(error) => Err(error),
        }
    }
}

/// The name under which the command interpreter is started.
pub open spec fn interpreter_name() -> Seq<char> {
    "powershell"@
}

/// The command line by which the interpreter starts a second, elevated
/// interpreter that runs `command`. The command stands in it between single
/// quotes, with its own single quotes doubled.
pub open spec fn elevating_command(command: Seq<char>) -> Seq<char> {
    "Start-Process powershell -ArgumentList @('-ExecutionPolicy', 'Bypass', '-Command', '"@
        + escaped(command) + "') -Verb RunAs -ErrorAction Stop"@
}

/// The arguments with which the interpreter is started to run `script`.
pub open spec fn interpreter_arguments(script: Seq<char>) -> Seq<Seq<char>> {
    seq!["-ExecutionPolicy"@, "Bypass"@, "-Command"@, script]
}

/// The seconds to wait before an enabled item is looked at further.
pub open spec fn delay_of(item: StartupItemView) -> u32 {
    if item.delay_enabled {
        item.delay_seconds
    } else {
        0
    }
}

/// What an enabled item asks to start, or why it cannot be started.
pub open spec fn dispatch_of(item: StartupItemView) -> Result<LaunchRequestView, StartupErrorView> {
    if item.mode == "normal"@ {
        if item.executable_path.len() == 0 {
            Err(StartupErrorView::EmptyTarget)
        } else if item.run_as_admin {
            Ok(
                LaunchRequestView::ElevatedProgram {
                    path: item.executable_path,
                    parameters: if item.arguments.len() == 0 {
                        None
                    } else {
                        Some(item.arguments)
                    },
                },
            )
        } else {
            Ok(
                LaunchRequestView::Program {
                    path: item.executable_path,
                    arguments: words(item.arguments),
                },
            )
        }
    } else if item.mode == "command"@ {
        if item.command.len() == 0 {
            Err(StartupErrorView::EmptyCommand)
        } else if item.run_as_admin {
            Ok(
                LaunchRequestView::Command {
                    interpreter: interpreter_name(),
                    arguments: interpreter_arguments(elevating_command(item.command)),
                },
            )
        } else {
            Ok(
                LaunchRequestView::Command {
                    interpreter: interpreter_name(),
                    arguments: interpreter_arguments(item.command),
                },
            )
        }
    } else {
        Err(StartupErrorView::UnknownMode(item.mode))
    }
}

/// What is to be done for an item.
pub open spec fn plan_of(item: StartupItemView) -> ItemPlanView {
    if !item.enabled {
        ItemPlanView::Skip
    } else {
        match dispatch_of(item) {
            Ok(request) => ItemPlanView::Launch { delay_seconds: delay_of(item), request },
            Err(error) => ItemPlanView::Reject { delay_seconds: delay_of(item), error },
        }
    }
}

/// How an item ends whose plan starts nothing; `None` for a plan that starts
/// a process.
pub open spec fn settled_of(plan: ItemPlanView) -> Option<ItemOutcomeView> {
    match plan {
        ItemPlanView::Skip => Some(ItemOutcomeView::Skipped),
        ItemPlanView::Reject { delay_seconds, error } => Some(ItemOutcomeView::Failed(error)),
        ItemPlanView::Launch { delay_seconds, request } => None,
    }
}

/// The message for a process that the operating system did not start.
/// `detail` is what the operating system said.
pub open spec fn refusal_text(request: LaunchRequestView, detail: Seq<char>) -> Seq<char> {
    match request {
        LaunchRequestView::Program { path, arguments } => "启动程序失败: "@ + detail,
        LaunchRequestView::ElevatedProgram { path, parameters } => "以管理员身份启动程序失败: "@
            + path + " ("@ + detail + ")"@,
        LaunchRequestView::Command { interpreter, arguments } => "执行命令失败: "@ + detail,
    }
}

/// How an item ends after the caller has tried to start its process.
pub open spec fn concluded(
    request: LaunchRequestView,
    started: Result<(), Seq<char>>,
) -> ItemOutcomeView {
    match started {
        Ok(_) => ItemOutcomeView::Launched,
        Err(detail) => ItemOutcomeView::Failed(
            StartupErrorView::Spawn(refusal_text(request, detail)),
        ),
    }
}

/// Builds the interpreter's arguments for `script`.
fn interpreter_call(script: String) -> (request: LaunchRequest)
    ensures
        request@ == (LaunchRequestView::Command {
            interpreter: interpreter_name(),
            arguments: interpreter_arguments(script@),
        }),
{
    let mut arguments: Vec<String> = Vec::new();
    arguments.push(owned("-ExecutionPolicy"));
    arguments.push(owned("Bypass"));
    arguments.push(owned("-Command"));
    arguments.push(script);
    assert(texts(arguments@) == interpreter_arguments(script@));
    LaunchRequest::Command { interpreter: owned("powershell"), arguments }
}

/// Returns the command line by which the interpreter starts a second,
/// elevated interpreter that runs `command`.
///
/// The part of the line that stands for the command is the command with its
/// single quotes doubled. By `lemma_escaped_reads_back` the interpreter reads
/// it, between its two quotes, as `command` itself.
pub fn elevating_command_line(command: &str) -> (line: String)
    ensures
        line@ == elevating_command(command@),
{
    let quoted = escape_single_quotes(command);
    let head = joined(
        "Start-Process powershell -ArgumentList @('-ExecutionPolicy', 'Bypass', '-Command', '",
        quoted.as_str(),
    );
    joined(head.as_str(), "') -Verb RunAs -ErrorAction Stop")
}

/// Decides what an enabled item asks to start.
///
/// A program is started with the words of its argument line, or, with
/// administrator rights, with the line as it is. A command is handed to the
/// interpreter as one argument, or, with administrator rights, inside the
/// command line that starts a second, elevated interpreter. An item without
/// the program or command that its mode needs, or with an unknown mode, is
/// refused.
pub fn dispatch_item(item: &StartupItem) -> (decision: Result<LaunchRequest, StartupError>)
    ensures
        match decision {
            Ok(request) => dispatch_of(item@) == Ok::<LaunchRequestView, StartupErrorView>(
                request@,
            ),
            Err(error) => dispatch_of(item@) == Err::<LaunchRequestView, StartupErrorView>(
                error@,
            ),
        },
{
    if same_text(item.mode.as_str(), "normal") {
        if item.executable_path.as_str().is_empty() {
            Err(StartupError::EmptyTarget)
        } else if item.run_as_admin {
            let parameters = if item.arguments.as_str().is_empty() {
                None
            } else {
                Some(item.arguments.clone())
            };
            Ok(LaunchRequest::ElevatedProgram { path: item.executable_path.clone(), parameters })
        } else {
            let arguments = split_whitespace(item.arguments.as_str());
            Ok(LaunchRequest::Program { path: item.executable_path.clone(), arguments })
        }
    } else if same_text(item.mode.as_str(), "command") {
        if item.command.as_str().is_empty() {
            Err(StartupError::EmptyCommand)
        } else if item.run_as_admin {
            Ok(interpreter_call(elevating_command_line(item.command.as_str())))
        } else {
            Ok(interpreter_call(item.command.clone()))
        }
    } else {
        Err(StartupError::UnknownMode(item.mode.clone()))
    }
}

/// Decides what is to be done for an item.
///
/// An item that is switched off is skipped, without any wait. For any other
/// item the wait is its delay, if that is switched on, and zero otherwise;
/// what follows the wait is what `dispatch_item` decides.
pub fn plan_item(item: &StartupItem) -> (plan: ItemPlan)
    ensures
        plan@ == plan_of(item@),
        !item.enabled <==> plan is Skip,
{
    if !item.enabled {
        return ItemPlan::Skip;
    }
    let delay_seconds: u32 = if item.delay_enabled {
        item.delay_seconds
    } else {
        0
    };
    match dispatch_item(item) {
        Ok(request) => ItemPlan::Launch { delay_seconds, request },
        Err(error) => ItemPlan::Reject { delay_seconds, error },
    }
}

impl ItemPlan {
    /// Returns the seconds to wait before anything else is done for the
    /// item: zero for an item that is skipped.
    pub fn delay_seconds(&self) -> (seconds: u32)
        ensures
            seconds == match self@ {
                ItemPlanView::Skip => 0u32,
                ItemPlanView::Reject { delay_seconds, error } => delay_seconds,
                ItemPlanView::Launch { delay_seconds, request } => delay_seconds,
            },
    {
        match self {
            ItemPlan::Skip => 0,
            ItemPlan::Reject { delay_seconds, .. } => *delay_seconds,
            ItemPlan::Launch { delay_seconds, .. } => *delay_seconds,
        }
    }

    /// Returns how the item ends if its plan starts no process, and `None`
    /// if it starts one: the outcome then depends on the operating system,
    /// and `conclude_launch` gives it.
    pub fn settled(&self) -> (outcome: Option<ItemOutcome>)
        ensures
            match outcome {
                Some(o) => settled_of(self@) == Some(o@),
                None => settled_of(self@) is None,
            },
    {
        match self {
            ItemPlan::Skip => Some(ItemOutcome::Skipped),
            ItemPlan::Reject { error, .. } => Some(ItemOutcome::Failed(error.duplicate())),
            ItemPlan::Launch { .. } => None,
        }
    }
}

/// Says how an item ends once the caller has tried to start its process.
///
/// `started` is `Ok` if the operating system created the process, whether or
/// not it has ended since, and otherwise holds what the operating system
/// said. A refusal becomes a spawn error whose message ends with those words.
pub fn conclude_launch(request: &LaunchRequest, started: Result<(), String>) -> (outcome:
    ItemOutcome)
    ensures
        outcome@ == concluded(
            request@,
            match started {
                Ok(_) => Ok(()),
                Err(detail) => Err(detail@),
            },
        ),
{
    match started {
        Ok(_) => ItemOutcome::Launched,
        Err(detail) => {
            let message = match request {
                LaunchRequest::Program { .. } => joined("启动程序失败: ", detail.as_str()),
                LaunchRequest::ElevatedProgram { path, .. } => {
                    let a = joined("以管理员身份启动程序失败: ", path.as_str());
                    let b = joined(a.as_str(), " (");
                    let c = joined(b.as_str(), detail.as_str());
                    joined(c.as_str(), ")")
                },
                LaunchRequest::Command { .. } => joined("执行命令失败: ", detail.as_str()),
            };
            ItemOutcome::Failed(StartupError::Spawn(message))
        },
    }
}

} // verus!
