//! Registering the application itself for launch at logon.
//!
//! There are two mechanisms. The run entry is a named value under the
//! current user's run-at-logon key and needs no special rights. The scheduled
//! task runs at logon with the highest rights available and can only be
//! installed by a process that already has administrator rights. At most one
//! of the two is meant to be active.
//!
//! The library decides which steps are taken and in which order, what is
//! written, and how the answers of the operating system are read. The caller
//! carries the steps out.

use vstd::prelude::*;
use crate::error::{StartupError, StartupErrorView};
use crate::settings::AppSettings;
use crate::text::{joined, owned};
use crate::tokens::texts;

verus! {

/// The key under which the current user's run-at-logon values stand.
pub const RUN_KEY_PATH: &'static str = "Software\\Microsoft\\Windows\\CurrentVersion\\Run";

/// The name of the application's value under the run key.
pub const RUN_VALUE_NAME: &'static str = "EasiStartup";

/// The name of the application's scheduled task.
pub const TASK_NAME: &'static str = "EasiStartup_AdminTask";

/// The program that manages scheduled tasks.
pub const TASK_PROGRAM: &'static str = "schtasks";

/// The flag by which the application is told that it was started at logon.
pub const AUTO_FLAG: &'static str = "--auto";

/// The task definition up to the path of the program to run.
pub const TASK_DEFINITION_HEAD: &'static str = "
<?xml version=\"1.0\" encoding=\"UTF-16\"?>
<Task version=\"1.2\" xmlns=\"http://schemas.microsoft.com/windows/2004/02/mit/task\">
  <RegistrationInfo>
    <Description>EasiStartup 自启动任务</Description>
  </RegistrationInfo>
  <Triggers>
    <LogonTrigger>
      <Enabled>true</Enabled>
    </LogonTrigger>
  </Triggers>
  <Principals>
    <Principal id=\"Author\">
      <RunLevel>HighestAvailable</RunLevel>
    </Principal>
  </Principals>
  <Settings>
    <MultipleInstancesPolicy>IgnoreNew</MultipleInstancesPolicy>
    <DisallowStartIfOnBatteries>false</DisallowStartIfOnBatteries>
    <StopIfGoingOnBatteries>false</StopIfGoingOnBatteries>
    <AllowHardTerminate>true</AllowHardTerminate>
    <StartWhenAvailable>false</StartWhenAvailable>
    <RunOnlyIfNetworkAvailable>false</RunOnlyIfNetworkAvailable>
    <IdleSettings>
      <StopOnIdleEnd>true</StopOnIdleEnd>
      <RestartOnIdle>false</RestartOnIdle>
    </IdleSettings>
    <AllowStartOnDemand>true</AllowStartOnDemand>
    <Enabled>true</Enabled>
    <Hidden>true</Hidden>
    <RunOnlyIfIdle>false</RunOnlyIfIdle>
    <WakeToRun>false</WakeToRun>
    <ExecutionTimeLimit>PT0S</ExecutionTimeLimit>
    <Priority>7</Priority>
  </Settings>
  <Actions Context=\"Author\">
    <Exec>
      <Command>";

/// The task definition from the path of the program to run onwards.
pub const TASK_DEFINITION_TAIL: &'static str = "</Command>
      <Arguments>--auto</Arguments>
    </Exec>
  </Actions>
</Task>
";

/// One of the two ways in which the application is started at logon.
#[derive(Clone, Copy, Debug, PartialEq, Eq, Structural)]
pub enum Mechanism {
    /// The value under the current user's run key.
    RunEntry,
    /// The scheduled task that runs with the highest rights available.
    ScheduledTask,
}

/// One step in bringing the two mechanisms to what the settings ask for.
#[derive(Clone, Copy, Debug, PartialEq, Eq, Structural)]
pub enum RegistrarStep {
    /// Remove the registration, if there is one.
    Disable(Mechanism),
    /// Write the registration, in place of one that may be there.
    Enable(Mechanism),
}

/// What is done with the scheduled task.
#[derive(Clone, Copy, Debug, PartialEq, Eq, Structural)]
pub enum TaskOperation {
    /// Create the task from a definition read from standard input, in place
    /// of one of the same name.
    Create,
    /// Delete the task without asking.
    Delete,
    /// Ask whether the task exists.
    Query,
}

/// A step of registering that could not be carried out.
#[derive(Clone, Copy, Debug, PartialEq, Eq, Structural)]
pub enum RegistrarFault {
    /// The path of the running program could not be found out.
    LocateProgram,
    /// The run key could not be opened.
    OpenRunKey,
    /// The value under the run key could not be written.
    WriteRunEntry,
    /// The value under the run key could not be removed, though it is there.
    RemoveRunEntry,
    /// The task program could not be started.
    StartTaskProgram,
    /// The task definition could not be handed to the task program.
    WriteTaskDefinition,
    /// The task program did not come to an end.
    AwaitTaskProgram,
    /// The task program refused to create the task.
    CreateTask,
    /// The task program could not be run to delete the task, or refused to
    /// delete a task that is there.
    DeleteTask,
    /// The task program could not be run to ask for the task.
    QueryTask,
}

/// The words that open the message for a step that could not be carried out.
pub open spec fn registrar_fault_prefix(fault: RegistrarFault) -> Seq<char> {
    match fault {
        RegistrarFault::LocateProgram => "获取可执行文件路径失败: "@,
        RegistrarFault::OpenRunKey => "打开注册表Run键失败: "@,
        RegistrarFault::WriteRunEntry => "设置注册表自启动失败: "@,
        RegistrarFault::RemoveRunEntry => "删除注册表自启动失败: "@,
        RegistrarFault::StartTaskProgram => "启动schtasks命令失败: "@,
        RegistrarFault::WriteTaskDefinition => "写入任务XML失败: "@,
        RegistrarFault::AwaitTaskProgram => "等待schtasks命令完成失败: "@,
        RegistrarFault::CreateTask => "创建计划任务失败: "@,
        RegistrarFault::DeleteTask => "删除计划任务失败: "@,
        RegistrarFault::QueryTask => "查询计划任务失败: "@,
    }
}

/// The stage at which running the task program broke off.
#[derive(Clone, Copy, Debug, PartialEq, Eq, Structural)]
pub enum TaskStage {
    /// The task program could not be started.
    Start,
    /// The task definition could not be written to its standard input.
    WriteDefinition,
    /// Its end could not be waited for.
    Await,
}

/// The fault that is reported when running the task program for an
/// operation breaks off at a stage. Creating a task names the stage; deleting
/// and asking are each reported as a whole, but for the definition, which
/// only creating writes.
pub open spec fn task_program_fault_of(operation: TaskOperation, stage: TaskStage) -> RegistrarFault {
    match (stage, operation) {
        (TaskStage::WriteDefinition, _) => RegistrarFault::WriteTaskDefinition,
        (TaskStage::Start, TaskOperation::Create) => RegistrarFault::StartTaskProgram,
        (TaskStage::Await, TaskOperation::Create) => RegistrarFault::AwaitTaskProgram,
        (_, TaskOperation::Delete) => RegistrarFault::DeleteTask,
        (_, TaskOperation::Query) => RegistrarFault::QueryTask,
    }
}

/// The step to carry out once `done` steps of `steps` have been carried out,
/// or `None` if none is left.
pub open spec fn step_after(steps: Seq<RegistrarStep>, done: int) -> Option<RegistrarStep> {
    if 0 <= done < steps.len() {
        Some(steps[done])
    } else {
        None
    }
}

/// The value written under the run key: the quoted path of the program,
/// followed by the flag for a start at logon.
pub open spec fn run_entry_text(exe_path: Seq<char>) -> Seq<char> {
    "\""@ + exe_path + "\" "@ + AUTO_FLAG@
}

/// The definition of the scheduled task for the program at `exe_path`: it is
/// triggered by logon, runs with the highest rights available, is hidden,
/// does not wait for a network, and ignores a second start while it runs.
pub open spec fn task_definition_text(exe_path: Seq<char>) -> Seq<char> {
    TASK_DEFINITION_HEAD@ + exe_path + TASK_DEFINITION_TAIL@
}

/// The arguments that the task program is started with for an operation.
pub open spec fn task_arguments_text(operation: TaskOperation) -> Seq<Seq<char>> {
    match operation {
        TaskOperation::Create => seq!["/create"@, "/tn"@, TASK_NAME@, "/xml"@, "-"@, "/f"@],
        TaskOperation::Delete => seq!["/delete"@, "/tn"@, TASK_NAME@, "/f"@],
        TaskOperation::Query => seq!["/query"@, "/tn"@, TASK_NAME@],
    }
}

/// The steps that bring the mechanisms to what the settings ask for, or
/// `None` where the settings ask for the scheduled task and the process has
/// no administrator rights.
///
/// With autostart switched off, both mechanisms are disabled. Otherwise the
/// mechanism that is not wanted is disabled first and the wanted one is
/// enabled after it.
pub open spec fn steps_for(settings: AppSettings, elevated: bool) -> Option<Seq<RegistrarStep>> {
    if !settings.auto_startup_enabled {
        Some(
            seq![
                RegistrarStep::Disable(Mechanism::RunEntry),
                RegistrarStep::Disable(Mechanism::ScheduledTask),
            ],
        )
    } else if settings.auto_startup_as_admin {
        if elevated {
            Some(
                seq![
                    RegistrarStep::Disable(Mechanism::RunEntry),
                    RegistrarStep::Enable(Mechanism::ScheduledTask),
                ],
            )
        } else {
            None
        }
    } else {
        Some(
            seq![
                RegistrarStep::Disable(Mechanism::ScheduledTask),
                RegistrarStep::Enable(Mechanism::RunEntry),
            ],
        )
    }
}

/// What is registered with the operating system under the application's
/// names: for each mechanism the text that was written, if the mechanism is
/// active. Each mechanism has one name, so it holds one registration or none.
pub struct Registrations {
    pub run_entry: Option<Seq<char>>,
    pub scheduled_task: Option<Seq<char>>,
}

impl Registrations {
    /// The mechanism is active.
    pub open spec fn is_enabled(self, mechanism: Mechanism) -> bool {
        match mechanism {
            Mechanism::RunEntry => self.run_entry is Some,
            Mechanism::ScheduledTask => self.scheduled_task is Some,
        }
    }

    /// Both mechanisms are active at once.
    pub open spec fn both_enabled(self) -> bool {
        self.is_enabled(Mechanism::RunEntry) && self.is_enabled(Mechanism::ScheduledTask)
    }

    /// What is registered after a step was carried out for the program at
    /// `exe_path`. Enabling writes the registration under the mechanism's
    /// name, over one that may be there; disabling removes it.
    pub open spec fn after(self, step: RegistrarStep, exe_path: Seq<char>) -> Registrations {
        match step {
            RegistrarStep::Enable(Mechanism::RunEntry) => Registrations {
                run_entry: Some(run_entry_text(exe_path)),
                ..self
            },
            RegistrarStep::Enable(Mechanism::ScheduledTask) => Registrations {
                scheduled_task: Some(task_definition_text(exe_path)),
                ..self
            },
            RegistrarStep::Disable(Mechanism::RunEntry) => Registrations { run_entry: None, ..self },
            RegistrarStep::Disable(Mechanism::ScheduledTask) => Registrations {
                scheduled_task: None,
                ..self
            },
        }
    }

    /// What is registered after a sequence of steps, carried out in order.
    pub open spec fn after_all(self, steps: Seq<RegistrarStep>, exe_path: Seq<char>) -> Registrations
        decreases steps.len(),
    {
        if steps.len() == 0 {
            self
        } else {
            self.after_all(steps.drop_last(), exe_path).after(steps.last(), exe_path)
        }
    }
}

/// Enabling a mechanism twice is the same as enabling it once: the mechanism
/// is active, it holds the one registration that enabling writes, and the
/// other mechanism is as it was.
pub proof fn lemma_enable_is_idempotent(
    state: Registrations,
    mechanism: Mechanism,
    exe_path: Seq<char>,
)
    ensures
        state.after(RegistrarStep::Enable(mechanism), exe_path).is_enabled(mechanism),
        state.after(RegistrarStep::Enable(mechanism), exe_path).after(
            RegistrarStep::Enable(mechanism),
            exe_path,
        ) == state.after(RegistrarStep::Enable(mechanism), exe_path),
        forall|other: Mechanism|
            other != mechanism ==> (#[trigger] state.after(
                RegistrarStep::Enable(mechanism),
                exe_path,
            ).is_enabled(other) <==> state.is_enabled(other)),
{
}

/// Disabling a mechanism that is not active changes nothing, and disabling
/// leaves a mechanism inactive in any case.
pub proof fn lemma_disable_of_absent_is_no_change(
    state: Registrations,
    mechanism: Mechanism,
    exe_path: Seq<char>,
)
    ensures
        !state.after(RegistrarStep::Disable(mechanism), exe_path).is_enabled(mechanism),
        !state.is_enabled(mechanism) ==> state.after(RegistrarStep::Disable(mechanism), exe_path)
            == state,
{
}

/// The steps for a pair of settings unfold into their two steps.
proof fn lemma_two_steps(
    state: Registrations,
    first: RegistrarStep,
    second: RegistrarStep,
    exe_path: Seq<char>,
)
    ensures
        state.after_all(seq![first, second].take(0), exe_path) == state,
        state.after_all(seq![first, second].take(1), exe_path) == state.after(first, exe_path),
        state.after_all(seq![first, second].take(2), exe_path) == state.after(
            first,
            exe_path,
        ).after(second, exe_path),
        state.after_all(seq![first, second], exe_path) == state.after(first, exe_path).after(
            second,
            exe_path,
        ),
{
    let steps = seq![first, second];
    assert(steps.take(0) == Seq::<RegistrarStep>::empty());
    assert(steps.take(1) == seq![first]);
    assert(steps.take(2) == steps);
    assert(seq![first].drop_last() == Seq::<RegistrarStep>::empty());
    assert(steps.drop_last() == seq![first]);
    assert(state.after_all(Seq::<RegistrarStep>::empty(), exe_path) == state);
    assert(state.after_all(seq![first], exe_path) == state.after(first, exe_path));
}

/// After the steps for a pair of settings, exactly what the settings ask for
/// is active: nothing if autostart is off, else the scheduled task alone if
/// it is to run as administrator, else the run entry alone. This holds
/// whatever was registered before.
pub proof fn lemma_applied_settings_are_exclusive(
    settings: AppSettings,
    elevated: bool,
    state: Registrations,
    exe_path: Seq<char>,
)
    requires
        steps_for(settings, elevated) is Some,
    ensures
        ({
            let reached = state.after_all(steps_for(settings, elevated)->Some_0, exe_path);
            &&& reached.is_enabled(Mechanism::RunEntry) <==> settings.auto_startup_enabled
                && !settings.auto_startup_as_admin
            &&& reached.is_enabled(Mechanism::ScheduledTask) <==> settings.auto_startup_enabled
                && settings.auto_startup_as_admin
            &&& !reached.both_enabled()
        }),
{
    let steps = steps_for(settings, elevated)->Some_0;
    lemma_two_steps(state, steps[0], steps[1], exe_path);
    assert(steps == seq![steps[0], steps[1]]);
}

/// No step of the way makes both mechanisms active: after the first step
/// for a pair of settings, and after every further one, at most one is. The
/// mechanism that is given up is disabled before the other is enabled.
pub proof fn lemma_never_both_on_the_way(
    settings: AppSettings,
    elevated: bool,
    state: Registrations,
    exe_path: Seq<char>,
    done: int,
)
    requires
        steps_for(settings, elevated) is Some,
        1 <= done <= steps_for(settings, elevated)->Some_0.len(),
    ensures
        !state.after_all(steps_for(settings, elevated)->Some_0.take(done), exe_path).both_enabled(),
{
    let steps = steps_for(settings, elevated)->Some_0;
    lemma_two_steps(state, steps[0], steps[1], exe_path);
    assert(steps == seq![steps[0], steps[1]]);
}

/// Asked for the scheduled task without administrator rights, there are no
/// steps, and with no steps nothing that is registered changes.
pub proof fn lemma_privilege_gate(settings: AppSettings, state: Registrations, exe_path: Seq<char>)
    requires
        settings.auto_startup_enabled,
        settings.auto_startup_as_admin,
    ensures
        steps_for(settings, false) is None,
        steps_for(settings, true) is Some,
        state.after_all(Seq::<RegistrarStep>::empty(), exe_path) == state,
{
}

/// Returns the value to write under the run key for the program at
/// `exe_path`.
pub fn run_entry_command(exe_path: &str) -> (command: String)
    ensures
        command@ == run_entry_text(exe_path@),
{
    let quoted = joined("\"", exe_path);
    let spaced = joined(quoted.as_str(), "\" ");
    joined(spaced.as_str(), AUTO_FLAG)
}

/// Returns the definition of the scheduled task for the program at
/// `exe_path`. The path is written into the definition as it is.
pub fn task_definition(exe_path: &str) -> (definition: String)
    ensures
        definition@ == task_definition_text(exe_path@),
{
    let head = joined(TASK_DEFINITION_HEAD, exe_path);
    joined(head.as_str(), TASK_DEFINITION_TAIL)
}

/// Returns the arguments with which the task program is started for
/// `operation`.
pub fn task_arguments(operation: TaskOperation) -> (arguments: Vec<String>)
    ensures
        texts(arguments@) == task_arguments_text(operation),
{
    let mut arguments: Vec<String> = Vec::new();
    match operation {
        TaskOperation::Create => {
            arguments.push(owned("/create"));
            arguments.push(owned("/tn"));
            arguments.push(owned(TASK_NAME));
            arguments.push(owned("/xml"));
            arguments.push(owned("-"));
            arguments.push(owned("/f"));
        },
        TaskOperation::Delete => {
            arguments.push(owned("/delete"));
            arguments.push(owned("/tn"));
            arguments.push(owned(TASK_NAME));
            arguments.push(owned("/f"));
        },
        TaskOperation::Query => {
            arguments.push(owned("/query"));
            arguments.push(owned("/tn"));
            arguments.push(owned(TASK_NAME));
        },
    }
    assert(texts(arguments@) == task_arguments_text(operation));
    arguments
}

/// Decides the steps that bring the two mechanisms to what `settings` ask
/// for. `elevated` says whether the process has administrator rights.
///
/// The scheduled task cannot be installed without administrator rights:
/// asked to do so, the function returns `PrivilegeRequired` and no step, so
/// that nothing is changed. In every other case it succeeds.
pub fn apply_startup_settings(settings: &AppSettings, elevated: bool) -> (decision: Result<
    Vec<RegistrarStep>,
    StartupError,
>)
    ensures
        match decision {
            Ok(steps) => steps_for(*settings, elevated) == Some(steps@),
            Err(error) => steps_for(*settings, elevated) is None && error@
                == StartupErrorView::PrivilegeRequired,
        },
        decision is Err <==> settings.auto_startup_enabled && settings.auto_startup_as_admin
            && !elevated,
{
    let mut steps: Vec<RegistrarStep> = Vec::new();
    if !settings.auto_startup_enabled {
        steps.push(RegistrarStep::Disable(Mechanism::RunEntry));
        steps.push(RegistrarStep::Disable(Mechanism::ScheduledTask));
    } else if settings.auto_startup_as_admin {
        if !elevated {
            return Err(StartupError::PrivilegeRequired);
        }
        steps.push(RegistrarStep::Disable(Mechanism::RunEntry));
        steps.push(RegistrarStep::Enable(Mechanism::ScheduledTask));
    } else {
        steps.push(RegistrarStep::Disable(Mechanism::ScheduledTask));
        steps.push(RegistrarStep::Enable(Mechanism::RunEntry));
    }
    assert(steps_for(*settings, elevated) == Some(steps@));
    Ok(steps)
}

/// Returns the error for a step of registering that could not be carried
/// out. `detail` is what the operating system said.
pub fn registrar_error(fault: RegistrarFault, detail: &str) -> (error: StartupError)
    ensures
        error@ == StartupErrorView::Io(registrar_fault_prefix(fault) + detail@),
{
    let prefix = match fault {
        RegistrarFault::LocateProgram => "获取可执行文件路径失败: ",
        RegistrarFault::OpenRunKey => "打开注册表Run键失败: ",
        RegistrarFault::WriteRunEntry => "设置注册表自启动失败: ",
        RegistrarFault::RemoveRunEntry => "删除注册表自启动失败: ",
        RegistrarFault::StartTaskProgram => "启动schtasks命令失败: ",
        RegistrarFault::WriteTaskDefinition => "写入任务XML失败: ",
        RegistrarFault::AwaitTaskProgram => "等待schtasks命令完成失败: ",
        RegistrarFault::CreateTask => "创建计划任务失败: ",
        RegistrarFault::DeleteTask => "删除计划任务失败: ",
        RegistrarFault::QueryTask => "查询计划任务失败: ",
    };
    StartupError::Io(joined(prefix, detail))
}

/// Returns the fault to report when running the task program for
/// `operation` breaks off at `stage`.
pub fn task_program_fault(operation: TaskOperation, stage: TaskStage) -> (fault: RegistrarFault)
    ensures
        fault == task_program_fault_of(operation, stage),
{
    match stage {
        TaskStage::WriteDefinition => RegistrarFault::WriteTaskDefinition,
        _ => match operation {
            TaskOperation::Create => match stage {
                TaskStage::Start => RegistrarFault::StartTaskProgram,
                _ => RegistrarFault::AwaitTaskProgram,
            },
            TaskOperation::Delete => RegistrarFault::DeleteTask,
            TaskOperation::Query => RegistrarFault::QueryTask,
        },
    }
}

/// Says how to go on after a step. `done` is the number of steps of `steps`
/// carried out so far and `last` the result of the last of them, or `Ok` if
/// none was carried out yet.
///
/// If the last step failed, its error is returned and no further step: the
/// first failure ends the way, nothing is tried again, and a mechanism that
/// was to be enabled after a failed disabling is left as it was. Otherwise
/// the step that follows is returned, or `None` when all are done.
pub fn next_step(steps: &Vec<RegistrarStep>, done: usize, last: Result<(), StartupError>) -> (next:
    Result<Option<RegistrarStep>, StartupError>)
    ensures
        match next {
            Ok(step) => last is Ok && step == step_after(steps@, done as int),
            Err(error) => last matches Err(failure) && error@ == failure@,
        },
{
    match last {
        Err(failure) => Err(failure),
        Ok(_) => {
            if done < steps.len() {
                Ok(Some(steps[done]))
            } else {
                Ok(None)
            }
        },
    }
}

/// Reads the answer of the task program to a request to create the task.
/// `succeeded` is its exit status, `stderr` what it wrote to standard error.
pub fn conclude_task_creation(succeeded: bool, stderr: &str) -> (result: Result<(), StartupError>)
    ensures
        result is Ok <==> succeeded,
        result matches Err(error) ==> error@ == StartupErrorView::Io(
            registrar_fault_prefix(RegistrarFault::CreateTask) + stderr@,
        ),
{
    if succeeded {
        Ok(())
    } else {
        Err(registrar_error(RegistrarFault::CreateTask, stderr))
    }
}

/// Reads the answer of the task program to a request to delete the task.
/// `succeeded` is its exit status and `stderr` what it wrote to standard
/// error; `absent` tells whether there is no such task. That there is none
/// counts as success, whatever the task program wrote.
pub fn conclude_task_removal(succeeded: bool, absent: bool, stderr: &str) -> (result: Result<
    (),
    StartupError,
>)
    ensures
        result is Ok <==> succeeded || absent,
        result matches Err(error) ==> error@ == StartupErrorView::Io(
            registrar_fault_prefix(RegistrarFault::DeleteTask) + stderr@,
        ),
{
    if succeeded || absent {
        Ok(())
    } else {
        Err(registrar_error(RegistrarFault::DeleteTask, stderr))
    }
}

/// Reads the answer of the registry to a request to remove the run entry.
/// `failure` is `None` if the value was removed, else what the registry
/// said; `absent` tells whether it said that there was no such value, which
/// counts as success.
pub fn conclude_run_entry_removal(failure: Option<&str>, absent: bool) -> (result: Result<
    (),
    StartupError,
>)
    ensures
        result is Ok <==> failure is None || absent,
        match result {
            Ok(_) => true,
            Err(error) => failure matches Some(detail) && error@ == StartupErrorView::Io(
                registrar_fault_prefix(RegistrarFault::RemoveRunEntry) + detail@,
            ),
        },
{
    match failure {
        None => Ok(()),
        Some(detail) => {
            if absent {
                Ok(())
            } else {
                Err(registrar_error(RegistrarFault::RemoveRunEntry, detail))
            }
        },
    }
}

} // verus!
