use drifter::executor::{
    conclude_execution, classify_exit, finish_command_run, process_output, CommandAction, CommandEvent, failure_status, fill_template, finalize_status, next_wait_step,
    observer_failure_message, timed_out_status, CommandFailure, ExitInfo, PollOutcome, WaitStep,
};
use drifter::harness::dummy_harness;
use drifter::{
    CommandExecutor, CommandExecutorConfig, ExecutionStatus, Executor, InProcessExecutor,
    InputDeliveryMode, NoOpObserver, Observer, ProcessOutput,
};
use std::sync::atomic::{AtomicBool, AtomicUsize, Ordering};
use std::time::Duration;

fn simple_ok_harness(_data: &[u8]) -> Result<(), String> {
    Ok(())
}

fn panicking_harness(data: &[u8]) -> Result<(), String> {
    if !data.is_empty() && data[0] == 0xFF {
        return Err("Test panic triggered by input 0xFF!".to_string());
    }
    Ok(())
}

#[derive(Default)]
struct TestObserverWithState {
    pre_exec_called: AtomicBool,
    post_exec_called: AtomicBool,
    reset_called: AtomicBool,
    input_byte_sum_on_post: AtomicUsize,
    name: &'static str,
}

impl TestObserverWithState {
    fn new(name: &'static str) -> Self {
        Self {
            name,
            ..Default::default()
        }
    }
}

impl Observer for TestObserverWithState {
    fn name(&self) -> &'static str {
        self.name
    }
    fn pre_exec(&mut self) -> Result<(), String> {
        self.reset()?;
        self.pre_exec_called.store(true, Ordering::SeqCst);
        Ok(())
    }
    fn post_exec(
        &mut self,
        _s: &ExecutionStatus,
        _to: Option<&ProcessOutput>,
        i_opt: Option<&[u8]>,
    ) -> Result<(), String> {
        self.post_exec_called.store(true, Ordering::SeqCst);
        if let Some(inp) = i_opt {
            self.input_byte_sum_on_post
                .store(inp.iter().map(|&b| b as usize).sum(), Ordering::SeqCst);
        }
        Ok(())
    }
    fn reset(&mut self) -> Result<(), String> {
        self.reset_called.store(true, Ordering::SeqCst);
        self.post_exec_called.store(false, Ordering::SeqCst);
        self.input_byte_sum_on_post.store(0, Ordering::SeqCst);
        Ok(())
    }
    fn serialize_data(&self) -> Option<Vec<u8>> {
        None
    }
}

#[test]
fn in_process_executor_runs_simple_harness_successfully() {
    let mut executor = InProcessExecutor::new(simple_ok_harness);
    let input_data: Vec<u8> = vec![1, 2, 3];
    let mut observers = vec![TestObserverWithState::new("obs1")];

    assert!(!observers[0].pre_exec_called.load(Ordering::Relaxed));
    assert!(!observers[0].reset_called.load(Ordering::Relaxed));

    let status = executor.execute_sync(&input_data, &mut observers);
    let observer = &observers[0];

    assert_eq!(status, ExecutionStatus::Success);
    assert!(
        observer.pre_exec_called.load(Ordering::SeqCst),
        "Observer pre_exec_called should be true after execution"
    );
    assert!(observer.post_exec_called.load(Ordering::SeqCst));
    assert!(
        observer.reset_called.load(Ordering::SeqCst),
        "Observer reset_called_flag (from pre_exec) should be true"
    );
    assert_eq!(observer.input_byte_sum_on_post.load(Ordering::SeqCst), 6);
}

#[test]
fn in_process_executor_catches_harness_panic() {
    let mut executor = InProcessExecutor::new(panicking_harness);
    let mut observers = vec![NoOpObserver];

    let crashing_input: Vec<u8> = vec![0xFF, 0xAA, 0xBB];
    let status = executor.execute_sync(&crashing_input, &mut observers);

    match status {
        ExecutionStatus::Crash(msg) => {
            assert!(
                msg.contains("Test panic triggered by input 0xFF!"),
                "Crash message mismatch. Got: {}",
                msg
            );
        }
        _ => panic!("Expected ExecutionStatus::Crash, got {:?}", status),
    }
}

struct FailingPreObserver;
impl Observer for FailingPreObserver {
    fn name(&self) -> &'static str {
        "FailingPre"
    }
    fn pre_exec(&mut self) -> Result<(), String> {
        Err("pre_exec failed".to_string())
    }
    fn post_exec(
        &mut self,
        _: &ExecutionStatus,
        _: Option<&ProcessOutput>,
        _: Option<&[u8]>,
    ) -> Result<(), String> {
        Ok(())
    }
    fn reset(&mut self) -> Result<(), String> {
        Ok(())
    }
    fn serialize_data(&self) -> Option<Vec<u8>> {
        None
    }
}

#[test]
fn in_process_executor_handles_observer_pre_exec_failure() {
    let mut executor = InProcessExecutor::new(simple_ok_harness);
    let input_data: Vec<u8> = vec![1];
    let mut observers = vec![FailingPreObserver];

    let status = executor.execute_sync(&input_data, &mut observers);
    match status {
        ExecutionStatus::ObserverError(msg) => assert!(msg.contains("pre_exec failed")),
        _ => panic!("Expected ObserverError, got {:?}", status),
    }
}

struct FailingPostObserver {
    post_exec_called_count: usize,
    name: &'static str,
    message: &'static str,
    expect_crash: bool,
}
impl Observer for FailingPostObserver {
    fn name(&self) -> &'static str {
        self.name
    }
    fn pre_exec(&mut self) -> Result<(), String> {
        Ok(())
    }
    fn post_exec(
        &mut self,
        status: &ExecutionStatus,
        _: Option<&ProcessOutput>,
        _: Option<&[u8]>,
    ) -> Result<(), String> {
        self.post_exec_called_count += 1;
        if self.expect_crash {
            assert!(
                matches!(status, ExecutionStatus::Crash(_)),
                "Observer should see Crash status in post_exec"
            );
        }
        Err(self.message.to_string())
    }
    fn reset(&mut self) -> Result<(), String> {
        Ok(())
    }
    fn serialize_data(&self) -> Option<Vec<u8>> {
        None
    }
}

#[test]
fn in_process_executor_handles_observer_post_exec_failure_when_harness_ok() {
    let mut executor = InProcessExecutor::new(simple_ok_harness);
    let input_data: Vec<u8> = vec![1];
    let mut observers = vec![FailingPostObserver {
        post_exec_called_count: 0,
        name: "FailingPost",
        message: "post_exec failed",
        expect_crash: false,
    }];

    let status = executor.execute_sync(&input_data, &mut observers);
    match status {
        ExecutionStatus::ObserverError(msg) => {
            assert!(msg.contains("post_exec failed"));
            assert_eq!(
                observers[0].post_exec_called_count, 1,
                "post_exec should have been called once"
            );
        }
        _ => panic!(
            "Expected ObserverError for post_exec failure, got {:?}",
            status
        ),
    }
}

#[test]
fn in_process_executor_reports_crash_even_if_post_exec_fails() {
    let mut executor = InProcessExecutor::new(panicking_harness);
    let mut observers = vec![FailingPostObserver {
        post_exec_called_count: 0,
        name: "FailingPostAfterCrash",
        message: "post_exec failed after crash",
        expect_crash: true,
    }];
    let crashing_input: Vec<u8> = vec![0xFF];

    let status = executor.execute_sync(&crashing_input, &mut observers);
    match status {
        ExecutionStatus::Crash(msg) => {
            assert!(msg.contains("Test panic triggered"));
            assert_eq!(
                observers[0].post_exec_called_count, 1,
                "post_exec should have been called once, even after crash"
            );
        }
        _ => panic!(
            "Expected Crash status, even with post_exec failure, got {:?}",
            status
        ),
    }
}

#[test]
fn observer_failure_message_has_the_exact_text() {
    let m = observer_failure_message("obs", "pre_exec", &"boom".to_string());
    assert_eq!(m, "Observer 'obs' pre_exec failed: boom");
}

#[test]
fn pre_exec_failure_names_the_observer() {
    let mut executor = InProcessExecutor::new(simple_ok_harness);
    let mut observers = vec![FailingPreObserver];
    let status = executor.execute_sync(&vec![1u8], &mut observers);
    assert_eq!(
        status,
        ExecutionStatus::ObserverError("Observer 'FailingPre' pre_exec failed: pre_exec failed".to_string())
    );
}

#[test]
fn finalize_status_precedence() {
    assert_eq!(
        finalize_status(ExecutionStatus::Success, Some("e".to_string())),
        ExecutionStatus::ObserverError("e".to_string())
    );
    assert_eq!(finalize_status(ExecutionStatus::Success, None), ExecutionStatus::Success);
    assert_eq!(
        finalize_status(ExecutionStatus::Crash("c".to_string()), Some("e".to_string())),
        ExecutionStatus::Crash("c".to_string())
    );
    assert_eq!(
        finalize_status(ExecutionStatus::Timeout, Some("e".to_string())),
        ExecutionStatus::Timeout
    );
}

#[test]
fn classify_exit_names_code_and_signal() {
    let ok = ExitInfo { success: true, code: Some(0), signal: None };
    assert_eq!(classify_exit(&ok), ExecutionStatus::Success);
    let code = ExitInfo { success: false, code: Some(77), signal: None };
    assert_eq!(
        classify_exit(&code),
        ExecutionStatus::Crash("Target exited with non-zero code: 77".to_string())
    );
    let neg = ExitInfo { success: false, code: Some(-3), signal: None };
    assert_eq!(
        classify_exit(&neg),
        ExecutionStatus::Crash("Target exited with non-zero code: -3".to_string())
    );
    let sig = ExitInfo { success: false, code: None, signal: Some(11) };
    assert_eq!(
        classify_exit(&sig),
        ExecutionStatus::Crash("Target terminated by signal: 11".to_string())
    );
    let unknown = ExitInfo { success: false, code: None, signal: None };
    assert_eq!(
        classify_exit(&unknown),
        ExecutionStatus::Crash("Target exited abnormally (unknown reason)".to_string())
    );
}

#[test]
fn fill_template_replaces_every_placeholder() {
    assert_eq!(fill_template("--use-file {}", "/tmp/x"), "--use-file /tmp/x");
    assert_eq!(fill_template("{}", "/p"), "/p");
    assert_eq!(fill_template("{}={}", "a"), "a=a");
    assert_eq!(fill_template("{{}}", "z"), "{z}");
    assert_eq!(fill_template("none", "z"), "none");
    assert_eq!(fill_template("{", "z"), "{");
}

fn config(mode: InputDeliveryMode, command: Vec<&str>) -> CommandExecutorConfig {
    CommandExecutorConfig {
        command_with_args: command.into_iter().map(|s| s.to_string()).collect(),
        input_delivery_mode: mode,
        execution_timeout: Duration::from_secs(1),
        working_directory: None,
    }
}

#[test]
fn command_plan_with_stdin_and_file_delivery() {
    let exec = CommandExecutor::new(config(InputDeliveryMode::StdIn, vec!["./t.sh", "77"]));
    assert!(exec.check_command().is_none());
    assert!(!exec.uses_input_file());
    let plan = exec.plan(None);
    assert_eq!(plan.program, "./t.sh");
    assert_eq!(plan.args, vec!["77".to_string()]);
    assert!(plan.pipe_stdin);

    let exec = CommandExecutor::new(config(
        InputDeliveryMode::File("--input {}".to_string()),
        vec!["./t.sh", "-v"],
    ));
    assert!(exec.uses_input_file());
    let plan = exec.plan(Some("/tmp/in"));
    assert_eq!(plan.args, vec!["-v".to_string(), "--input /tmp/in".to_string()]);
    assert!(!plan.pipe_stdin);
}

#[test]
fn empty_command_is_refused() {
    let exec = CommandExecutor::new(config(InputDeliveryMode::StdIn, vec![]));
    assert_eq!(
        exec.check_command(),
        Some(ExecutionStatus::Other(
            "Command executor configured with an empty command list.".to_string()
        ))
    );
}

#[test]
fn command_failures_have_their_texts() {
    assert_eq!(
        failure_status(&CommandFailure::Spawn {
            command_debug: "[\"./x\"]".to_string(),
            error: "No such file".to_string()
        }),
        ExecutionStatus::Other("Failed to spawn command '[\"./x\"]': No such file".to_string())
    );
    assert_eq!(
        failure_status(&CommandFailure::StdinUnavailable),
        ExecutionStatus::Other("Child stdin was not available after piping.".to_string())
    );
}

#[test]
fn waiting_decisions() {
    assert!(matches!(next_wait_step(PollOutcome::Running, false), WaitStep::SleepAndPoll));
    assert!(matches!(next_wait_step(PollOutcome::Running, true), WaitStep::KillAndReap));
    match next_wait_step(
        PollOutcome::Exited(ExitInfo { success: true, code: Some(0), signal: None }),
        true,
    ) {
        WaitStep::Done(e) => assert!(e.success),
        _ => panic!("expected Done"),
    }
    match next_wait_step(PollOutcome::Failed("io".to_string()), false) {
        WaitStep::Stop(s) => assert_eq!(
            s,
            ExecutionStatus::Other("Failed to wait for child process: io".to_string())
        ),
        _ => panic!("expected Stop"),
    }
    assert_eq!(timed_out_status(None, None), ExecutionStatus::Timeout);
    assert_eq!(
        timed_out_status(Some("k".to_string()), None),
        ExecutionStatus::Other("Target timed out, and failed to kill process: k".to_string())
    );
    assert_eq!(
        timed_out_status(None, Some("w".to_string())),
        ExecutionStatus::Other(
            "Target timed out, killed, but error during final wait: w".to_string()
        )
    );
}

#[test]
fn dummy_harness_verdicts() {
    assert!(dummy_harness(b"BAD!").is_err());
    assert_eq!(
        dummy_harness(b"BAD").unwrap_err(),
        "BAD input detected by dummy_harness!"
    );
    assert_eq!(
        dummy_harness(b"CRASH").unwrap_err(),
        "CRASH input detected by dummy_harness!"
    );
    assert!(dummy_harness(b"CRAS").is_ok());
    assert_eq!(dummy_harness(b"xBAD").unwrap_err(), "BAD input detected by dummy_harness!");
    assert_eq!(
        dummy_harness(b"..CRASH..").unwrap_err(),
        "CRASH input detected by dummy_harness!"
    );
    assert_eq!(dummy_harness(b"CRASH BAD").unwrap_err(), "BAD input detected by dummy_harness!");
    assert!(dummy_harness(b"B A D").is_ok());
    assert!(dummy_harness(b"CRA").is_ok());
    assert!(dummy_harness(b"BA").is_ok());
    assert!(dummy_harness(b"hello").is_ok());
    assert!(dummy_harness(b"").is_ok());
}

#[test]
fn dummy_harness_runs_in_process() {
    let mut executor = InProcessExecutor::new(dummy_harness);
    let mut observers = vec![NoOpObserver];
    assert_eq!(
        executor.execute_sync(&b"BADX".to_vec(), &mut observers),
        ExecutionStatus::Crash("BAD input detected by dummy_harness!".to_string())
    );
    assert_eq!(
        executor.execute_sync(&b"good".to_vec(), &mut observers),
        ExecutionStatus::Success
    );
}

#[test]
fn cloned_command_config_keeps_the_timeout() {
    let mut first = config(InputDeliveryMode::StdIn, vec!["./t.sh"]);
    first.execution_timeout = Duration::from_millis(2500);
    let copy = first.clone();
    assert_eq!(copy.execution_timeout, Duration::from_millis(2500));
    assert_eq!(copy.command_with_args, vec!["./t.sh".to_string()]);
}

#[test]
fn concluding_runs_post_exec_on_every_observer() {
    let mut observers = vec![
        FailingPostObserver {
            post_exec_called_count: 0,
            name: "First",
            message: "first failed",
            expect_crash: false,
        },
        FailingPostObserver {
            post_exec_called_count: 0,
            name: "Second",
            message: "second failed",
            expect_crash: false,
        },
    ];
    let status = conclude_execution(&mut observers, ExecutionStatus::Success, None, &[1, 2]);
    assert_eq!(
        status,
        ExecutionStatus::ObserverError("Observer 'First' post_exec failed: first failed".to_string())
    );
    assert_eq!(observers[0].post_exec_called_count, 1);
    assert_eq!(observers[1].post_exec_called_count, 1);

    let spawn_failure = ExecutionStatus::Other("Failed to spawn command 'x': nope".to_string());
    let status = conclude_execution(&mut observers, spawn_failure.clone(), None, &[]);
    assert_eq!(status, spawn_failure);
    assert_eq!(observers[0].post_exec_called_count, 2);
    assert_eq!(observers[1].post_exec_called_count, 2);

    let output = ProcessOutput { exit_code: Some(3), ..Default::default() };
    let mut watchers = vec![TestObserverWithState::new("w")];
    let status = conclude_execution(&mut watchers, ExecutionStatus::Timeout, Some(&output), &[5, 5]);
    assert_eq!(status, ExecutionStatus::Timeout);
    assert_eq!(watchers[0].input_byte_sum_on_post.load(Ordering::SeqCst), 10);
}

#[test]
fn command_run_steps() {
    let stdin_exec = CommandExecutor::new(config(InputDeliveryMode::StdIn, vec!["./t.sh", "a"]));
    match stdin_exec.next_action(CommandEvent::Started) {
        CommandAction::Spawn(plan) => {
            assert_eq!(plan.program, "./t.sh");
            assert_eq!(plan.args, vec!["a".to_string()]);
            assert!(plan.pipe_stdin);
        }
        other => panic!("unexpected {:?}", other),
    }
    assert!(matches!(stdin_exec.next_action(CommandEvent::SpawnResult(None)), CommandAction::WriteStdin));
    assert!(matches!(stdin_exec.next_action(CommandEvent::StdinResult(None)), CommandAction::Wait));
    match stdin_exec.next_action(CommandEvent::StdinResult(Some(CommandFailure::StdinUnavailable))) {
        CommandAction::KillAndFinish(ExecutionStatus::Other(m)) => {
            assert_eq!(m, "Child stdin was not available after piping.")
        }
        other => panic!("unexpected {:?}", other),
    }
    let exit = ExitInfo { success: false, code: Some(1), signal: None };
    match stdin_exec.next_action(CommandEvent::Waited(Ok(exit))) {
        CommandAction::Finish(ExecutionStatus::Crash(m)) => {
            assert_eq!(m, "Target exited with non-zero code: 1")
        }
        other => panic!("unexpected {:?}", other),
    }
    assert!(matches!(
        stdin_exec.next_action(CommandEvent::Waited(Err(ExecutionStatus::Timeout))),
        CommandAction::Finish(ExecutionStatus::Timeout)
    ));
    match stdin_exec.next_action(CommandEvent::SpawnResult(Some(CommandFailure::Spawn {
        command_debug: "[\"./t.sh\"]".to_string(),
        error: "not found".to_string(),
    }))) {
        CommandAction::Finish(ExecutionStatus::Other(m)) => {
            assert!(m.contains("Failed to spawn command"))
        }
        other => panic!("unexpected {:?}", other),
    }

    let file_exec = CommandExecutor::new(config(
        InputDeliveryMode::File("--in={}".to_string()),
        vec!["./t.sh"],
    ));
    assert!(matches!(file_exec.next_action(CommandEvent::Started), CommandAction::CreateTempFile));
    match file_exec.next_action(CommandEvent::TempFileReady("/tmp/x".to_string())) {
        CommandAction::Spawn(plan) => {
            assert_eq!(plan.args, vec!["--in=/tmp/x".to_string()]);
            assert!(!plan.pipe_stdin);
        }
        other => panic!("unexpected {:?}", other),
    }
    assert!(matches!(file_exec.next_action(CommandEvent::SpawnResult(None)), CommandAction::Wait));

    let empty = CommandExecutor::new(config(InputDeliveryMode::StdIn, vec![]));
    match empty.next_action(CommandEvent::Started) {
        CommandAction::Finish(ExecutionStatus::Other(m)) => {
            assert_eq!(m, "Command executor configured with an empty command list.")
        }
        other => panic!("unexpected {:?}", other),
    }
}

#[test]
fn observers_receive_the_process_output() {
    let exit = ExitInfo { success: false, code: None, signal: Some(9) };
    let p = process_output(Some(&exit), b"out".to_vec(), b"err".to_vec());
    assert_eq!(p.exit_code, None);
    assert_eq!(p.signal_code, Some(9));
    assert_eq!(p.stdout_bytes, b"out".to_vec());
    assert_eq!(p.stderr_bytes, b"err".to_vec());
    let p = process_output(None, vec![], vec![1]);
    assert_eq!((p.exit_code, p.signal_code), (None, None));

    let mut observers = vec![NoOpObserver];
    let exit = ExitInfo { success: true, code: Some(0), signal: None };
    let status = finish_command_run(
        &mut observers,
        ExecutionStatus::Success,
        Some(exit),
        Some((b"hi".to_vec(), vec![])),
        b"in",
    );
    assert_eq!(status, ExecutionStatus::Success);
}
