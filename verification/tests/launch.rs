use easi_startup::batch::{after_batch, BatchRun, Continuation, EXIT_GRACE_MILLIS};
use easi_startup::error::StartupError;
use easi_startup::item::{create_startup_item, StartupItem};
use easi_startup::launch::{
    conclude_launch, dispatch_item, elevating_command_line, plan_item, ItemOutcome, ItemPlan,
    LaunchRequest,
};
use easi_startup::settings::default_app_settings;

fn program(path: &str, arguments: &str) -> StartupItem {
    let mut item = create_startup_item();
    item.name = path.to_string();
    item.executable_path = path.to_string();
    item.arguments = arguments.to_string();
    item
}

fn command(line: &str) -> StartupItem {
    let mut item = create_startup_item();
    item.mode = "command".to_string();
    item.command = line.to_string();
    item
}

fn strings(words: &[&str]) -> Vec<String> {
    words.iter().map(|word| word.to_string()).collect()
}

#[test]
fn disabled_item_is_skipped_without_wait() {
    let mut item = program("C:\\tools\\a.exe", "-x");
    item.enabled = false;
    item.delay_enabled = true;
    item.delay_seconds = 30;
    let plan = plan_item(&item);
    assert_eq!(plan, ItemPlan::Skip);
    assert_eq!(plan.delay_seconds(), 0);
    assert_eq!(plan.settled(), Some(ItemOutcome::Skipped));
}

#[test]
fn disabled_item_is_skipped_whatever_it_holds() {
    let mut item = create_startup_item();
    item.enabled = false;
    item.mode = "nonsense".to_string();
    assert_eq!(plan_item(&item), ItemPlan::Skip);
    let mut empty = program("", "");
    empty.enabled = false;
    assert_eq!(plan_item(&empty), ItemPlan::Skip);
}

#[test]
fn delay_of_two_seconds_comes_before_the_launch() {
    let mut item = program("C:\\tools\\a.exe", "");
    item.delay_enabled = true;
    item.delay_seconds = 2;
    let plan = plan_item(&item);
    assert_eq!(plan.delay_seconds(), 2);
    assert_eq!(
        plan,
        ItemPlan::Launch {
            delay_seconds: 2,
            request: LaunchRequest::Program { path: "C:\\tools\\a.exe".to_string(), arguments: Vec::new() },
        }
    );
    assert_eq!(plan.settled(), None);
}

#[test]
fn delay_that_is_switched_off_is_not_waited() {
    let mut item = program("a.exe", "");
    item.delay_enabled = false;
    item.delay_seconds = 60;
    assert_eq!(plan_item(&item).delay_seconds(), 0);
    item.delay_enabled = true;
    item.delay_seconds = 0;
    assert_eq!(plan_item(&item).delay_seconds(), 0);
    item.delay_seconds = u32::MAX;
    assert_eq!(plan_item(&item).delay_seconds(), u32::MAX);
}

#[test]
fn program_gets_the_words_of_its_arguments() {
    let item = program("C:\\Program Files\\app.exe", "  --profile  work\t-v ");
    assert_eq!(
        dispatch_item(&item),
        Ok(LaunchRequest::Program {
            path: "C:\\Program Files\\app.exe".to_string(),
            arguments: strings(&["--profile", "work", "-v"]),
        })
    );
}

#[test]
fn program_arguments_are_not_unquoted() {
    let item = program("app.exe", "--title \"two words\"");
    assert_eq!(
        dispatch_item(&item),
        Ok(LaunchRequest::Program {
            path: "app.exe".to_string(),
            arguments: strings(&["--title", "\"two", "words\""]),
        })
    );
}

#[test]
fn program_without_path_is_refused() {
    let item = program("", "-x");
    assert_eq!(dispatch_item(&item), Err(StartupError::EmptyTarget));
    let mut delayed = program("", "");
    delayed.delay_enabled = true;
    delayed.delay_seconds = 3;
    delayed.run_as_admin = true;
    let plan = plan_item(&delayed);
    assert_eq!(plan, ItemPlan::Reject { delay_seconds: 3, error: StartupError::EmptyTarget });
    assert_eq!(plan.delay_seconds(), 3);
    assert_eq!(plan.settled(), Some(ItemOutcome::Failed(StartupError::EmptyTarget)));
}

#[test]
fn elevated_program_gets_its_argument_line() {
    let mut item = program("C:\\tools\\a.exe", "--one  two");
    item.run_as_admin = true;
    assert_eq!(
        dispatch_item(&item),
        Ok(LaunchRequest::ElevatedProgram {
            path: "C:\\tools\\a.exe".to_string(),
            parameters: Some("--one  two".to_string()),
        })
    );
    item.arguments = String::new();
    assert_eq!(
        dispatch_item(&item),
        Ok(LaunchRequest::ElevatedProgram { path: "C:\\tools\\a.exe".to_string(), parameters: None })
    );
}

#[test]
fn command_is_one_argument_of_the_interpreter() {
    let item = command("Get-Process | Out-File 'C:\\log.txt'");
    assert_eq!(
        dispatch_item(&item),
        Ok(LaunchRequest::Command {
            interpreter: "powershell".to_string(),
            arguments: strings(&["-ExecutionPolicy", "Bypass", "-Command", "Get-Process | Out-File 'C:\\log.txt'"]),
        })
    );
}

#[test]
fn command_without_text_is_refused() {
    let item = command("");
    assert_eq!(dispatch_item(&item), Err(StartupError::EmptyCommand));
    let mut admin = command("");
    admin.run_as_admin = true;
    assert_eq!(dispatch_item(&admin), Err(StartupError::EmptyCommand));
    assert_eq!(plan_item(&admin), ItemPlan::Reject { delay_seconds: 0, error: StartupError::EmptyCommand });
}

#[test]
fn elevated_command_is_nested_and_quoted() {
    let mut item = command("echo 'hi'");
    item.run_as_admin = true;
    let line = "Start-Process powershell -ArgumentList @('-ExecutionPolicy', 'Bypass', '-Command', 'echo ''hi''') -Verb RunAs -ErrorAction Stop";
    assert_eq!(elevating_command_line("echo 'hi'"), line);
    assert_eq!(
        dispatch_item(&item),
        Ok(LaunchRequest::Command {
            interpreter: "powershell".to_string(),
            arguments: strings(&["-ExecutionPolicy", "Bypass", "-Command", line]),
        })
    );
}

#[test]
fn elevated_command_cannot_leave_its_quotes() {
    let attack = "x') -Verb Open; Remove-Item C:\\ -Recurse; ('";
    let line = elevating_command_line(attack);
    let head = "Start-Process powershell -ArgumentList @('-ExecutionPolicy', 'Bypass', '-Command', '";
    let tail = "') -Verb RunAs -ErrorAction Stop";
    assert!(line.starts_with(head));
    assert!(line.ends_with(tail));
    let body = &line[head.len()..line.len() - tail.len()];
    assert_eq!(body, "x'') -Verb Open; Remove-Item C:\\ -Recurse; (''");
    assert_eq!(body.replace("''", ""), attack.replace("'", ""));
}

#[test]
fn unknown_mode_is_refused() {
    let mut item = program("a.exe", "");
    item.mode = "Normal".to_string();
    assert_eq!(dispatch_item(&item), Err(StartupError::UnknownMode("Normal".to_string())));
    item.mode = String::new();
    assert_eq!(dispatch_item(&item), Err(StartupError::UnknownMode(String::new())));
    item.mode = "shell".to_string();
    item.delay_enabled = true;
    item.delay_seconds = 7;
    assert_eq!(
        plan_item(&item),
        ItemPlan::Reject { delay_seconds: 7, error: StartupError::UnknownMode("shell".to_string()) }
    );
}

#[test]
fn started_process_counts_as_launched() {
    let request = LaunchRequest::Program { path: "a.exe".to_string(), arguments: Vec::new() };
    assert_eq!(conclude_launch(&request, Ok(())), ItemOutcome::Launched);
    let elevated = LaunchRequest::ElevatedProgram { path: "a.exe".to_string(), parameters: None };
    assert_eq!(conclude_launch(&elevated, Ok(())), ItemOutcome::Launched);
}

#[test]
fn refusal_becomes_a_spawn_error() {
    let request = LaunchRequest::Program { path: "a.exe".to_string(), arguments: Vec::new() };
    assert_eq!(
        conclude_launch(&request, Err("program not found".to_string())),
        ItemOutcome::Failed(StartupError::Spawn("启动程序失败: program not found".to_string()))
    );
    let shell = LaunchRequest::Command { interpreter: "powershell".to_string(), arguments: Vec::new() };
    assert_eq!(
        conclude_launch(&shell, Err("access denied".to_string())),
        ItemOutcome::Failed(StartupError::Spawn("执行命令失败: access denied".to_string()))
    );
    let elevated = LaunchRequest::ElevatedProgram { path: "C:\\a.exe".to_string(), parameters: None };
    assert_eq!(
        conclude_launch(&elevated, Err("code 5".to_string())),
        ItemOutcome::Failed(StartupError::Spawn("以管理员身份启动程序失败: C:\\a.exe (code 5)".to_string()))
    );
}

#[test]
fn outcome_as_the_result_of_one_launch() {
    assert_eq!(ItemOutcome::Skipped.into_result(), Ok(()));
    assert_eq!(ItemOutcome::Launched.into_result(), Ok(()));
    assert_eq!(ItemOutcome::Failed(StartupError::EmptyTarget).into_result(), Err(StartupError::EmptyTarget));
    assert_eq!(
        ItemOutcome::Failed(StartupError::Spawn("启动程序失败: x".to_string())).into_result(),
        Err(StartupError::Spawn("启动程序失败: x".to_string()))
    );
}

#[test]
fn batch_goes_on_after_a_failure() {
    let first = program("first.exe", "");
    let second = program("", "");
    let third = program("third.exe", "-x");
    let mut run = BatchRun::new(vec![first, second.clone(), third]);
    let mut attempted: Vec<String> = Vec::new();
    let mut lines: Vec<String> = Vec::new();
    while let Some(plan) = run.next_plan() {
        let started = match &plan {
            ItemPlan::Launch { request: LaunchRequest::Program { path, .. }, .. } => {
                attempted.push(path.clone());
                Some(Ok(()))
            }
            _ => None,
        };
        if let Some(line) = run.record(started) {
            lines.push(line);
        }
    }
    assert!(run.is_finished());
    assert_eq!(attempted, vec!["first.exe", "third.exe"]);
    assert_eq!(lines, vec![format!("执行启动项 '{}' 失败: 可执行文件路径为空", second.name)]);
    assert_eq!(
        run.into_outcomes(),
        vec![ItemOutcome::Launched, ItemOutcome::Failed(StartupError::EmptyTarget), ItemOutcome::Launched]
    );
}

#[test]
fn batch_goes_on_after_a_refused_spawn() {
    let mut run = BatchRun::new(vec![program("a.exe", ""), command("dir"), program("c.exe", "")]);
    assert!(!run.is_finished());
    assert_eq!(run.record(Some(Err("not found".to_string()))), Some("执行启动项 'a.exe' 失败: 启动程序失败: not found".to_string()));
    assert_eq!(run.record(Some(Err("denied".to_string()))), Some("执行启动项 '' 失败: 执行命令失败: denied".to_string()));
    assert_eq!(
        run.next_plan(),
        Some(ItemPlan::Launch {
            delay_seconds: 0,
            request: LaunchRequest::Program { path: "c.exe".to_string(), arguments: Vec::new() },
        })
    );
    assert_eq!(run.record(Some(Ok(()))), None);
    assert!(run.is_finished());
    assert_eq!(run.next_plan(), None);
    assert_eq!(
        run.into_outcomes(),
        vec![
            ItemOutcome::Failed(StartupError::Spawn("启动程序失败: not found".to_string())),
            ItemOutcome::Failed(StartupError::Spawn("执行命令失败: denied".to_string())),
            ItemOutcome::Launched,
        ]
    );
}

#[test]
fn batch_skips_disabled_items() {
    let mut off = program("off.exe", "");
    off.enabled = false;
    let mut run = BatchRun::new(vec![off, program("on.exe", "")]);
    assert_eq!(run.next_plan(), Some(ItemPlan::Skip));
    assert_eq!(run.record(None), None);
    assert_eq!(run.record(Some(Ok(()))), None);
    assert!(run.is_finished());
    assert_eq!(run.into_outcomes(), vec![ItemOutcome::Skipped, ItemOutcome::Launched]);
}

#[test]
fn batch_waits_for_the_report_of_a_launch() {
    let mut run = BatchRun::new(vec![program("a.exe", "")]);
    assert_eq!(run.record(None), None);
    assert!(!run.is_finished());
    assert_eq!(run.record(Some(Ok(()))), None);
    assert!(run.is_finished());
    assert_eq!(run.record(Some(Ok(()))), None);
    assert_eq!(run.into_outcomes(), vec![ItemOutcome::Launched]);
}

#[test]
fn empty_batch_is_finished() {
    let mut run = BatchRun::new(Vec::new());
    assert!(run.is_finished());
    assert_eq!(run.next_plan(), None);
    assert_eq!(run.record(Some(Ok(()))), None);
    assert_eq!(run.into_outcomes(), Vec::<ItemOutcome>::new());
}

#[test]
fn exit_policy_after_a_batch() {
    let mut settings = default_app_settings();
    assert_eq!(after_batch(&settings), Continuation::Return);
    settings.exit_after_startup = true;
    assert_eq!(EXIT_GRACE_MILLIS, 1000);
    assert_eq!(after_batch(&settings), Continuation::Terminate { grace_millis: 1000 });
}
