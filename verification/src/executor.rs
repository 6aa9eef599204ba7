use std::time::Duration;
use vstd::prelude::*;

use crate::input::Input;
use crate::observer::{input_view, output_view, Observer};
use crate::text::{push_signed_decimal, push_str_chars, signed_decimal, string_from_chars};

verus! {

/// The outcome of one execution of the target.
#[derive(Debug, Clone, PartialEq, Eq)]
pub enum ExecutionStatus {
    /// The target ran without any detected issue.
    Success,
    /// The target ran longer than the configured timeout.
    Timeout,
    /// The target crashed or panicked; the text describes how.
    Crash(String),
    /// An observer failed in `pre_exec` or `post_exec`.
    ObserverError(String),
    /// Any other failure (spawning the process, temporary files, waiting).
    Other(String),
}

/// Output collected from an external process, handed to observers.
#[derive(Debug, Clone)]
pub struct ProcessOutput {
    pub stdout_bytes: Vec<u8>,
    pub stderr_bytes: Vec<u8>,
    pub exit_code: Option<i32>,
    pub signal_code: Option<i32>,
}

impl Default for ProcessOutput {
    fn default() -> (p: Self)
        ensures
            p.stdout_bytes@.len() == 0,
            p.stderr_bytes@.len() == 0,
            p.exit_code is None,
            p.signal_code is None,
    {
        ProcessOutput {
            stdout_bytes: Vec::new(),
            stderr_bytes: Vec::new(),
            exit_code: None,
            signal_code: None,
        }
    }
}

/// Runs a target with an input and reports the outcome, letting observers
/// watch the execution.
pub trait Executor<I: Input> {
    fn execute_sync<O: Observer>(&mut self, input: &I, observers: &mut Vec<O>) -> ExecutionStatus;
}

/// The text that reports a failing observer: `Observer '<name>' <phase> failed: <error>`.
pub open spec fn observer_failure_text(name: Seq<char>, phase: Seq<char>, error: Seq<char>) -> Seq<
    char,
> {
    "Observer '"@ + name + "' "@ + phase + " failed: "@ + error
}

/// What calling `pre_exec` on the observers `before`, in order until the
/// first failure, leaves (`after`) and reports (`r`). Without a failure
/// every observer's call returned `Ok` and the result is `None`. Otherwise
/// observer `k` is the first whose call returned `Err(e)`: the observers
/// before it returned `Ok`, those after it were not called, and the report
/// is an `ObserverError` built from observer `k`'s name and `e`.
pub open spec fn pre_exec_outcome<O: Observer>(
    before: Seq<O>,
    after: Seq<O>,
    r: Option<ExecutionStatus>,
) -> bool {
    &&& after.len() == before.len()
    &&& match r {
        None => forall|j: int|
            0 <= j < before.len() ==> #[trigger] O::pre_exec_step(before[j], after[j], Ok(())),
        Some(s) => exists|k: int, e: String, n: Seq<char>|
            #![trigger O::pre_exec_step(before[k], after[k], Err(e)), before[k].is_named(n)]
            {
                &&& 0 <= k < before.len()
                &&& forall|j: int|
                    0 <= j < k ==> #[trigger] O::pre_exec_step(before[j], after[j], Ok(()))
                &&& O::pre_exec_step(before[k], after[k], Err(e))
                &&& forall|j: int| k < j < before.len() ==> #[trigger] after[j] == before[j]
                &&& before[k].is_named(n)
                &&& s matches ExecutionStatus::ObserverError(m) && m@ == observer_failure_text(
                    n,
                    "pre_exec"@,
                    e@,
                )
            },
    }
}

/// The report of the first failure among the results of `post_exec` calls on
/// `observers`: `None` when every call returned `Ok`, otherwise the text
/// built from the first failing observer's name and error.
pub open spec fn first_post_exec_failure<O: Observer>(
    observers: Seq<O>,
    results: Seq<Result<(), String>>,
    r: Option<String>,
) -> bool {
    match r {
        None => forall|j: int| 0 <= j < results.len() ==> (#[trigger] results[j]) is Ok,
        Some(m) => exists|k: int, n: Seq<char>|
            #![trigger results[k], observers[k].is_named(n)]
            {
                &&& 0 <= k < results.len()
                &&& forall|j: int| 0 <= j < k ==> (#[trigger] results[j]) is Ok
                &&& results[k] is Err
                &&& observers[k].is_named(n)
                &&& m@ == observer_failure_text(n, "post_exec"@, results[k]->Err_0@)
            },
    }
}

/// What calling `post_exec` once on each of the observers `before`, in order,
/// with these arguments, leaves (`after`) and reports (`r`, the first
/// failure).
pub open spec fn post_exec_outcome<O: Observer>(
    before: Seq<O>,
    after: Seq<O>,
    status: ExecutionStatus,
    target_output: Option<ProcessOutput>,
    input: Seq<u8>,
    r: Option<String>,
) -> bool {
    &&& after.len() == before.len()
    &&& exists|results: Seq<Result<(), String>>|
        {
            &&& results.len() == before.len()
            &&& forall|j: int|
                0 <= j < before.len() ==> #[trigger] O::post_exec_step(
                    before[j],
                    after[j],
                    status,
                    target_output,
                    Some(input),
                    results[j],
                )
            &&& #[trigger] first_post_exec_failure(before, results, r)
        }
}

/// Builds the text that reports a failing observer.
pub fn observer_failure_message(name: &str, phase: &str, error: &String) -> (m: String)
    ensures
        m@ == observer_failure_text(name@, phase@, error@),
{
    let mut chars: Vec<char> = Vec::new();
    push_str_chars("Observer '", &mut chars);
    push_str_chars(name, &mut chars);
    push_str_chars("' ", &mut chars);
    push_str_chars(phase, &mut chars);
    push_str_chars(" failed: ", &mut chars);
    push_str_chars(error.as_str(), &mut chars);
    let m = string_from_chars(&chars);
    assert(m@ =~= observer_failure_text(name@, phase@, error@));
    m
}

/// Calls `pre_exec` on every observer, in order, and stops at the first one
/// that fails, reporting it as an `ObserverError` that names it.
pub fn run_pre_exec<O: Observer>(observers: &mut Vec<O>) -> (r: Option<ExecutionStatus>)
    ensures
        pre_exec_outcome(old(observers)@, final(observers)@, r),
{
    let ghost before = observers@;
    let n = observers.len();
    let mut i: usize = 0;
    while i < n
        invariant
            before == old(observers)@,
            n == before.len(),
            observers@.len() == n,
            i <= n,
            forall|j: int| 0 <= j < i ==> #[trigger] O::pre_exec_step(before[j], observers@[j], Ok(())),
            forall|j: int| i <= j < n ==> #[trigger] observers@[j] == before[j],
        decreases n - i,
    {
        assert(observers@[i as int] == before[i as int]);
        let name = observers[i].name();
        let mut obs = observers.remove(i);
        let res = obs.pre_exec();
        let ghost after_obs = obs;
        let ghost prev = observers@;
        observers.insert(i, obs);
        assert(observers@ =~= prev.insert(i as int, after_obs));
        assert(observers@[i as int] == after_obs);
        assert(O::pre_exec_step(before[i as int], after_obs, res));
        match res {
            Err(e) => {
                let msg = observer_failure_message(name, "pre_exec", &e);
                let r = Some(ExecutionStatus::ObserverError(msg));
                assert(before[i as int].is_named(name@));
                assert(O::pre_exec_step(before[i as int], observers@[i as int], Err(e)));
                return r;
            },
            Ok(u) => {
                assert(res == Ok::<(), String>(u));
                assert(O::pre_exec_step(before[i as int], observers@[i as int], Ok(())));
            },
        }
        i = i + 1;
    }
    None
}

/// A first failure already found stays the first whatever later calls return.
proof fn lemma_first_failure_stays<O: Observer>(
    observers: Seq<O>,
    results: Seq<Result<(), String>>,
    next: Result<(), String>,
    m: String,
)
    requires
        first_post_exec_failure(observers, results, Some(m)),
    ensures
        first_post_exec_failure(observers, results.push(next), Some(m)),
{
    let (k, n) = choose|k: int, n: Seq<char>|
        #![trigger results[k], observers[k].is_named(n)]
        {
            &&& 0 <= k < results.len()
            &&& forall|j: int| 0 <= j < k ==> (#[trigger] results[j]) is Ok
            &&& results[k] is Err
            &&& observers[k].is_named(n)
            &&& m@ == observer_failure_text(n, "post_exec"@, results[k]->Err_0@)
        };
    let pushed = results.push(next);
    assert(pushed[k] == results[k]);
    assert(forall|j: int| 0 <= j < k ==> (#[trigger] pushed[j]) == results[j]);
}

/// Calls `post_exec` once on every observer, in order, even after one fails,
/// and returns the report of the first failure, if any, naming that observer.
pub fn run_post_exec<O: Observer>(
    observers: &mut Vec<O>,
    status: &ExecutionStatus,
    target_output: Option<&ProcessOutput>,
    input: &[u8],
) -> (r: Option<String>)
    ensures
        post_exec_outcome(
            old(observers)@,
            final(observers)@,
            *status,
            output_view(target_output),
            input@,
            r,
        ),
{
    let ghost before = observers@;
    let n = observers.len();
    let mut first_error: Option<String> = None;
    let ghost mut results: Seq<Result<(), String>> = Seq::empty();
    let mut i: usize = 0;
    while i < n
        invariant
            before == old(observers)@,
            n == before.len(),
            observers@.len() == n,
            i <= n,
            results.len() == i,
            forall|j: int|
                0 <= j < i ==> #[trigger] O::post_exec_step(
                    before[j],
                    observers@[j],
                    *status,
                    output_view(target_output),
                    Some(input@),
                    results[j],
                ),
            forall|j: int| i <= j < n ==> #[trigger] observers@[j] == before[j],
            first_post_exec_failure(before, results, first_error),
        decreases n - i,
    {
        let name = observers[i].name();
        let mut obs = observers.remove(i);
        let res = obs.post_exec(status, target_output, Some(input));
        let ghost after_obs = obs;
        observers.insert(i, obs);
        assert(observers@[i as int] == after_obs);
        assert(input_view(Some(input)) == Some(input@));
        let ghost old_results = results;
        proof {
            results = results.push(res);
        }
        assert(forall|j: int| 0 <= j < i ==> results[j] == old_results[j]);
        match res {
            Err(e) => {
                if first_error.is_none() {
                    let msg = observer_failure_message(name, "post_exec", &e);
                    assert(before[i as int].is_named(name@));
                    assert(results[i as int] is Err);
                    assert(forall|j: int| 0 <= j < i ==> (#[trigger] results[j]) is Ok);
                    first_error = Some(msg);
                    assert(first_post_exec_failure(before, results, first_error));
                } else {
                    proof {
                        lemma_first_failure_stays(before, old_results, res, first_error->Some_0);
                    }
                }
            },
            Ok(()) => {
                proof {
                    if first_error is Some {
                        lemma_first_failure_stays(before, old_results, res, first_error->Some_0);
                    } else {
                        assert(forall|j: int| 0 <= j < results.len() ==> (#[trigger] results[j]) is Ok);
                    }
                }
            },
        }
        i = i + 1;
    }
    assert(first_post_exec_failure(before, results, first_error));
    first_error
}

/// The overall outcome once observers have run after the target: a `Success`
/// run with a failing observer becomes an `ObserverError`; any other outcome
/// (a crash, a timeout, ...) takes precedence over observer failures.
pub open spec fn combined_status(primary: ExecutionStatus, post_error: Option<String>) -> ExecutionStatus {
    match primary {
        ExecutionStatus::Success => match post_error {
            Some(m) => ExecutionStatus::ObserverError(m),
            None => ExecutionStatus::Success,
        },
        _ => primary,
    }
}

/// Combines the target's outcome with the first `post_exec` failure.
pub fn finalize_status(primary: ExecutionStatus, post_error: Option<String>) -> (r: ExecutionStatus)
    ensures
        r == combined_status(primary, post_error),
{
    match primary {
        ExecutionStatus::Success => match post_error {
            Some(m) => ExecutionStatus::ObserverError(m),
            None => ExecutionStatus::Success,
        },
        other => other,
    }
}

/// Finishes an execution whose own outcome is `primary`: calls `post_exec`
/// once on every observer, in order, with `primary`, the process output and
/// the input, and combines `primary` with the first failure
/// (`combined_status`).
pub fn conclude_execution<O: Observer>(
    observers: &mut Vec<O>,
    primary: ExecutionStatus,
    target_output: Option<&ProcessOutput>,
    input: &[u8],
) -> (r: ExecutionStatus)
    ensures
        exists|post: Option<String>|
            #[trigger] post_exec_outcome(
                old(observers)@,
                final(observers)@,
                primary,
                output_view(target_output),
                input@,
                post,
            ) && r == combined_status(primary, post),
{
    let post = run_post_exec(observers, &primary, target_output, input);
    finalize_status(primary, post)
}

/// `harness`, called with bytes whose view is `data`, may return `result`.
pub open spec fn harness_returned<F: Fn(&[u8]) -> Result<(), String>>(
    harness: F,
    data: Seq<u8>,
    result: Result<(), String>,
) -> bool {
    exists|d: &[u8]| d@ == data && #[trigger] call_ensures(harness, (d,), result)
}

/// An executor that calls a harness function inside the fuzzer's process.
///
/// The harness returns `Err(message)` where it fails (the fuzzer's driver
/// turns a panic of a user harness into such a message); that becomes a
/// `Crash(message)`.
pub struct InProcessExecutor<F> where F: Fn(&[u8]) -> Result<(), String> {
    harness_fn: F,
}

impl<F> InProcessExecutor<F> where F: Fn(&[u8]) -> Result<(), String> {
    #[verifier::type_invariant]
    spec fn harness_accepts_any_input(self) -> bool {
        forall|d: &[u8]| #[trigger] call_requires(self.harness_fn, (d,))
    }

    /// The harness this executor runs.
    pub closed spec fn harness(&self) -> F {
        self.harness_fn
    }

    /// Creates an executor for a harness that accepts every input.
    pub fn new(harness_fn: F) -> (e: Self)
        requires
            forall|d: &[u8]| #[trigger] call_requires(harness_fn, (d,)),
        ensures
            e.harness() == harness_fn,
    {
        InProcessExecutor { harness_fn }
    }
}

/// The status of a harness run: `Success` for `Ok`, a `Crash` with the
/// message for `Err`.
pub open spec fn harness_status(result: Result<(), String>) -> ExecutionStatus {
    match result {
        Ok(()) => ExecutionStatus::Success,
        Err(m) => ExecutionStatus::Crash(m),
    }
}

/// What an in-process execution of `harness` on `input` with the observers
/// `before` leaves (`after`) and returns (`r`): either a `pre_exec` failure,
/// with neither the harness nor any `post_exec` run, or every `pre_exec`
/// succeeded, the harness returned `res`, `post_exec` ran once on every
/// observer with the harness's status, no process output and the input, and
/// `r` combines the harness's status with the first `post_exec` failure.
pub open spec fn in_process_outcome<O: Observer, F: Fn(&[u8]) -> Result<(), String>>(
    harness: F,
    input: Seq<u8>,
    before: Seq<O>,
    after: Seq<O>,
    r: ExecutionStatus,
) -> bool {
    ||| pre_exec_outcome(before, after, Some(r))
    ||| exists|mid: Seq<O>, res: Result<(), String>, post: Option<String>|
        #![trigger post_exec_outcome(mid, after, harness_status(res), None, input, post)]
        {
            &&& pre_exec_outcome(before, mid, None)
            &&& harness_returned(harness, input, res)
            &&& post_exec_outcome(mid, after, harness_status(res), None, input, post)
            &&& r == combined_status(harness_status(res), post)
        }
}

/// When no observer's `pre_exec` or `post_exec` can fail (as with
/// `NoOpObserver` and `MockCoverageObserver`, or no observers at all), an
/// in-process execution reports exactly what the harness returned:
/// `Success` for `Ok`, `Crash(m)` for `Err(m)`.
pub proof fn law_quiet_observers_report_the_harness<O: Observer, F: Fn(&[u8]) -> Result<(), String>>(
    harness: F,
    input: Seq<u8>,
    before: Seq<O>,
    after: Seq<O>,
    r: ExecutionStatus,
)
    requires
        forall|b: O, a: O, res: Result<(), String>| #[trigger] O::pre_exec_step(b, a, res) ==> res is Ok,
        forall|
            b: O,
            a: O,
            st: ExecutionStatus,
            out: Option<ProcessOutput>,
            inp: Option<Seq<u8>>,
            res: Result<(), String>,
        | #[trigger] O::post_exec_step(b, a, st, out, inp, res) ==> res is Ok,
        in_process_outcome(harness, input, before, after, r),
    ensures
        exists|res: Result<(), String>|
            #[trigger] harness_returned(harness, input, res) && r == harness_status(res),
{
    if pre_exec_outcome(before, after, Some(r)) {
        let (k, e, n) = choose|k: int, e: String, n: Seq<char>|
            #![trigger O::pre_exec_step(before[k], after[k], Err(e)), before[k].is_named(n)]
            {
                &&& 0 <= k < before.len()
                &&& O::pre_exec_step(before[k], after[k], Err(e))
                &&& before[k].is_named(n)
            };
        assert(O::pre_exec_step(before[k], after[k], Err(e)));
        assert(false);
    }
    let (mid, res, post) = choose|mid: Seq<O>, res: Result<(), String>, post: Option<String>|
        #![trigger post_exec_outcome(mid, after, harness_status(res), None, input, post)]
        {
            &&& pre_exec_outcome(before, mid, None)
            &&& harness_returned(harness, input, res)
            &&& post_exec_outcome(mid, after, harness_status(res), None, input, post)
            &&& r == combined_status(harness_status(res), post)
        };
    let results = choose|results: Seq<Result<(), String>>|
        {
            &&& results.len() == mid.len()
            &&& forall|j: int|
                0 <= j < mid.len() ==> #[trigger] O::post_exec_step(
                    mid[j],
                    after[j],
                    harness_status(res),
                    None,
                    Some(input),
                    results[j],
                )
            &&& #[trigger] first_post_exec_failure(mid, results, post)
        };
    if post is Some {
        let (k, n) = choose|k: int, n: Seq<char>|
            #![trigger results[k], mid[k].is_named(n)]
            {
                &&& 0 <= k < results.len()
                &&& results[k] is Err
                &&& mid[k].is_named(n)
            };
        assert(O::post_exec_step(mid[k], after[k], harness_status(res), None, Some(input), results[k]));
        assert(false);
    }
    assert(harness_returned(harness, input, res));
}

impl<I: Input, F> Executor<I> for InProcessExecutor<F> where F: Fn(&[u8]) -> Result<(), String> {
    /// Runs `pre_exec` on every observer, stopping at the first failure, in
    /// which case neither the harness nor any `post_exec` runs and the
    /// result is that failure. Otherwise runs the harness on the input's
    /// bytes, then `post_exec` once on every observer with the harness's
    /// status, no process output and the input, and combines: a harness
    /// error is a `Crash`, which takes precedence over observer failures.
    fn execute_sync<O: Observer>(&mut self, input: &I, observers: &mut Vec<O>) -> (r:
        ExecutionStatus)
        ensures
            final(self).harness() == old(self).harness(),
            in_process_outcome(old(self).harness(), input.byte_view(), old(observers)@, final(observers)@, r),
    {
        proof {
            use_type_invariant(&*self);
        }
        if let Some(status) = run_pre_exec(observers) {
            return status;
        }
        let ghost mid = observers@;
        let bytes = input.as_bytes();
        let outcome = (self.harness_fn)(bytes);
        let ghost res = outcome;
        assert(call_ensures(self.harness_fn, (bytes,), res));
        assert(harness_returned(self.harness_fn, input.byte_view(), res));
        let primary = match outcome {
            Ok(()) => ExecutionStatus::Success,
            Err(message) => ExecutionStatus::Crash(message),
        };
        proof {
            if res is Ok {
                let u: () = res->Ok_0;
                assert(res == Ok::<(), String>(u));
            }
            assert(primary == harness_status(res));
        }
        let post_error = run_post_exec(observers, &primary, None, bytes);
        assert(output_view(None) == None::<ProcessOutput>);
        let r = finalize_status(primary, post_error);
        assert(post_exec_outcome(mid, observers@, harness_status(res), None, input.byte_view(), post_error));
        r
    }
}

/// How a `CommandExecutor` hands the input to the target.
#[derive(Debug, Clone)]
pub enum InputDeliveryMode {
    /// Through the target's standard input.
    StdIn,
    /// Through a temporary file whose path replaces each `{}` of this
    /// argument template.
    File(String),
}

/// `Duration` is `Copy`, so its `clone` (`<Duration as Clone>::clone`)
/// gives back an equal value.
pub assume_specification[ <Duration as Clone>::clone ](d: &Duration) -> (res: Duration)
    ensures
        res == *d,
;

/// Configuration of a `CommandExecutor`.
#[derive(Debug, Clone)]
pub struct CommandExecutorConfig {
    /// The executable, then its arguments.
    pub command_with_args: Vec<String>,
    pub input_delivery_mode: InputDeliveryMode,
    pub execution_timeout: Duration,
    pub working_directory: Option<String>,
}

/// How a target process ended, as far as the executor needs to know.
#[derive(Debug, Clone)]
pub struct ExitInfo {
    /// The process exited with code zero.
    pub success: bool,
    /// The exit code, when the process exited normally.
    pub code: Option<i32>,
    /// The signal that terminated the process, where the platform has signals.
    pub signal: Option<i32>,
}

/// The text of a crash report for a process that ended with `exit`.
pub open spec fn crash_text(exit: ExitInfo) -> Seq<char> {
    match exit.code {
        Some(c) => "Target exited with non-zero code: "@ + signed_decimal(c as int),
        None => match exit.signal {
            Some(s) => "Target terminated by signal: "@ + signed_decimal(s as int),
            None => "Target exited abnormally (unknown reason)"@,
        },
    }
}

/// `status` is the outcome of a process that ended with `exit`.
pub open spec fn is_exit_status(exit: ExitInfo, status: ExecutionStatus) -> bool {
    if exit.success {
        status is Success
    } else {
        status matches ExecutionStatus::Crash(m) && m@ == crash_text(exit)
    }
}

/// Turns the way a process ended into an execution status: success is `Success`,
/// anything else a `Crash` that names the exit code or the signal.
pub fn classify_exit(exit: &ExitInfo) -> (r: ExecutionStatus)
    ensures
        is_exit_status(*exit, r),
{
    if exit.success {
        return ExecutionStatus::Success;
    }
    let mut chars: Vec<char> = Vec::new();
    match exit.code {
        Some(c) => {
            push_str_chars("Target exited with non-zero code: ", &mut chars);
            push_signed_decimal(c as i64, &mut chars);
        },
        None => match exit.signal {
            Some(s) => {
                push_str_chars("Target terminated by signal: ", &mut chars);
                push_signed_decimal(s as i64, &mut chars);
            },
            None => {
                push_str_chars("Target exited abnormally (unknown reason)", &mut chars);
            },
        },
    }
    let m = string_from_chars(&chars);
    assert(m@ =~= crash_text(*exit));
    ExecutionStatus::Crash(m)
}

/// The process output observers receive from a run: the captured standard
/// output and error, and the exit code and signal of how the process ended
/// (none when it did not end on its own, as after a timeout).
pub open spec fn observed_output(
    exit: Option<ExitInfo>,
    stdout_bytes: Vec<u8>,
    stderr_bytes: Vec<u8>,
) -> ProcessOutput {
    ProcessOutput {
        stdout_bytes,
        stderr_bytes,
        exit_code: match exit {
            Some(e) => e.code,
            None => None,
        },
        signal_code: match exit {
            Some(e) => e.signal,
            None => None,
        },
    }
}

/// The process output handed to observers at the end of a run: the
/// `observed_output` when a process was started and its output `captured`,
/// none otherwise.
pub open spec fn handed_output(exit: Option<ExitInfo>, captured: Option<(Vec<u8>, Vec<u8>)>) -> Option<
    ProcessOutput,
> {
    match captured {
        Some(c) => Some(observed_output(exit, c.0, c.1)),
        None => None,
    }
}

/// Builds the process output observers receive (`observed_output`).
pub fn process_output(exit: Option<&ExitInfo>, stdout_bytes: Vec<u8>, stderr_bytes: Vec<u8>) -> (p:
    ProcessOutput)
    ensures
        p == observed_output(
            match exit {
                Some(e) => Some(*e),
                None => None,
            },
            stdout_bytes,
            stderr_bytes,
        ),
{
    let (exit_code, signal_code) = match exit {
        Some(e) => (e.code, e.signal),
        None => (None, None),
    };
    ProcessOutput { stdout_bytes, stderr_bytes, exit_code, signal_code }
}

/// Finishes a run of an external command with `status`: when a process was
/// started, its output (`captured`: standard output and error) and how it
/// ended (`exit`) go to the observers as `observed_output`; otherwise they
/// get no process output. Every observer's `post_exec` runs once, in order,
/// and `status` is combined with the first failure.
pub fn finish_command_run<O: Observer>(
    observers: &mut Vec<O>,
    status: ExecutionStatus,
    exit: Option<ExitInfo>,
    captured: Option<(Vec<u8>, Vec<u8>)>,
    input: &[u8],
) -> (r: ExecutionStatus)
    ensures
        exists|post: Option<String>|
            #[trigger] post_exec_outcome(
                old(observers)@,
                final(observers)@,
                status,
                handed_output(exit, captured),
                input@,
                post,
            ) && r == combined_status(status, post),
{
    match captured {
        Some((stdout_bytes, stderr_bytes)) => {
            let output = process_output(exit.as_ref(), stdout_bytes, stderr_bytes);
            conclude_execution(observers, status, Some(&output), input)
        },
        None => conclude_execution(observers, status, None, input),
    }
}

/// The ways running an external command can fail before the target's own
/// outcome is known. The `*_debug` fields hold the debug rendering of a path
/// or of the command line.
#[derive(Debug, Clone)]
pub enum CommandFailure {
    EmptyCommand,
    TempFileCreate(String),
    TempFileWrite { path_debug: String, error: String },
    TempPathNotUtf8 { path_debug: String },
    Spawn { command_debug: String, error: String },
    StdinWrite(String),
    StdinUnavailable,
    WaitFailed(String),
    KillFailed(String),
    FinalWaitFailed(String),
}

/// The text that reports a command failure.
pub open spec fn failure_text(f: CommandFailure) -> Seq<char> {
    match f {
        CommandFailure::EmptyCommand => "Command executor configured with an empty command list."@,
        CommandFailure::TempFileCreate(e) => "Failed to create temporary file for input: "@ + e@,
        CommandFailure::TempFileWrite { path_debug, error } => "Failed to write input to temporary file "@
            + path_debug@ + ": "@ + error@,
        CommandFailure::TempPathNotUtf8 { path_debug } => "Temporary file path "@ + path_debug@
            + " is not valid UTF-8"@,
        CommandFailure::Spawn { command_debug, error } => "Failed to spawn command '"@
            + command_debug@ + "': "@ + error@,
        CommandFailure::StdinWrite(e) => "Failed to write to target's stdin: "@ + e@,
        CommandFailure::StdinUnavailable => "Child stdin was not available after piping."@,
        CommandFailure::WaitFailed(e) => "Failed to wait for child process: "@ + e@,
        CommandFailure::KillFailed(e) => "Target timed out, and failed to kill process: "@ + e@,
        CommandFailure::FinalWaitFailed(e) => "Target timed out, killed, but error during final wait: "@
            + e@,
    }
}

/// Reports a command failure as an `Other` status.
pub fn failure_status(f: &CommandFailure) -> (r: ExecutionStatus)
    ensures
        r matches ExecutionStatus::Other(m) && m@ == failure_text(*f),
{
    let mut chars: Vec<char> = Vec::new();
    match f {
        CommandFailure::EmptyCommand => {
            push_str_chars("Command executor configured with an empty command list.", &mut chars);
        },
        CommandFailure::TempFileCreate(e) => {
            push_str_chars("Failed to create temporary file for input: ", &mut chars);
            push_str_chars(e.as_str(), &mut chars);
        },
        CommandFailure::TempFileWrite { path_debug, error } => {
            push_str_chars("Failed to write input to temporary file ", &mut chars);
            push_str_chars(path_debug.as_str(), &mut chars);
            push_str_chars(": ", &mut chars);
            push_str_chars(error.as_str(), &mut chars);
        },
        CommandFailure::TempPathNotUtf8 { path_debug } => {
            push_str_chars("Temporary file path ", &mut chars);
            push_str_chars(path_debug.as_str(), &mut chars);
            push_str_chars(" is not valid UTF-8", &mut chars);
        },
        CommandFailure::Spawn { command_debug, error } => {
            push_str_chars("Failed to spawn command '", &mut chars);
            push_str_chars(command_debug.as_str(), &mut chars);
            push_str_chars("': ", &mut chars);
            push_str_chars(error.as_str(), &mut chars);
        },
        CommandFailure::StdinWrite(e) => {
            push_str_chars("Failed to write to target's stdin: ", &mut chars);
            push_str_chars(e.as_str(), &mut chars);
        },
        CommandFailure::StdinUnavailable => {
            push_str_chars("Child stdin was not available after piping.", &mut chars);
        },
        CommandFailure::WaitFailed(e) => {
            push_str_chars("Failed to wait for child process: ", &mut chars);
            push_str_chars(e.as_str(), &mut chars);
        },
        CommandFailure::KillFailed(e) => {
            push_str_chars("Target timed out, and failed to kill process: ", &mut chars);
            push_str_chars(e.as_str(), &mut chars);
        },
        CommandFailure::FinalWaitFailed(e) => {
            push_str_chars("Target timed out, killed, but error during final wait: ", &mut chars);
            push_str_chars(e.as_str(), &mut chars);
        },
    }
    let m = string_from_chars(&chars);
    assert(m@ =~= failure_text(*f));
    ExecutionStatus::Other(m)
}


/// Replaces every `{}` of `template`, scanning from the left, by `path`
/// (what `str::replace(template, "{}", path)` computes).
pub open spec fn replace_placeholder(template: Seq<char>, path: Seq<char>) -> Seq<char>
    decreases template.len(),
{
    if template.len() < 2 {
        template
    } else if template[0] == '{' && template[1] == '}' {
        path + replace_placeholder(template.skip(2), path)
    } else {
        seq![template[0]] + replace_placeholder(template.skip(1), path)
    }
}

/// Fills the argument template of file delivery with the temporary file's path.
pub fn fill_template(template: &str, path: &str) -> (r: String)
    ensures
        r@ == replace_placeholder(template@, path@),
{
    let n = template.unicode_len();
    let mut out: Vec<char> = Vec::new();
    let mut i: usize = 0;
    assert(template@.skip(0) =~= template@);
    while i < n
        invariant
            n == template@.len(),
            i <= n,
            out@ + replace_placeholder(template@.skip(i as int), path@) == replace_placeholder(
                template@,
                path@,
            ),
        decreases n - i,
    {
        let ghost rest = template@.skip(i as int);
        let c = template.get_char(i);
        if i + 1 < n && c == '{' && template.get_char(i + 1) == '}' {
            assert(rest[0] == '{' && rest[1] == '}');
            assert(rest.skip(2) =~= template@.skip(i + 2));
            push_str_chars(path, &mut out);
            i = i + 2;
            assert(out@ + replace_placeholder(template@.skip(i as int), path@) =~= replace_placeholder(
                template@,
                path@,
            ));
        } else {
            if i + 1 < n {
                assert(rest.skip(1) =~= template@.skip(i + 1));
                assert(!(rest[0] == '{' && rest[1] == '}'));
            } else {
                assert(rest.len() == 1);
                assert(template@.skip(i + 1).len() == 0);
                assert(replace_placeholder(rest, path@) == rest);
                assert(rest =~= seq![c] + template@.skip(i + 1));
            }
            out.push(c);
            i = i + 1;
            assert(out@ + replace_placeholder(template@.skip(i as int), path@) =~= replace_placeholder(
                template@,
                path@,
            ));
        }
    }
    assert(template@.skip(n as int).len() == 0);
    assert(out@ =~= replace_placeholder(template@, path@));
    string_from_chars(&out)
}

/// The process that a `CommandExecutor` is about to start.
#[derive(Debug, Clone)]
pub struct CommandPlan {
    pub program: String,
    pub args: Vec<String>,
    /// The input goes to the process through a piped standard input.
    pub pipe_stdin: bool,
    pub working_directory: Option<String>,
}

/// `p` is what to start for `config`, with the temporary file's path
/// `temp_path` under file delivery (see `CommandExecutor::plan`).
pub open spec fn plan_for(config: CommandExecutorConfig, temp_path: Seq<char>, p: CommandPlan) -> bool {
    &&& p.program == config.command_with_args@[0]
    &&& p.pipe_stdin == (config.input_delivery_mode is StdIn)
    &&& p.working_directory == config.working_directory
    &&& match config.input_delivery_mode {
        InputDeliveryMode::StdIn => p.args@ == config.command_with_args@.skip(1),
        InputDeliveryMode::File(t) => p.args@.len() == config.command_with_args@.len()
            && p.args@.take(p.args@.len() - 1) == config.command_with_args@.skip(1)
            && p.args@.last()@ == replace_placeholder(t@, temp_path),
    }
}

/// `s` reports the command failure `f`.
pub open spec fn is_failure_status(s: ExecutionStatus, f: CommandFailure) -> bool {
    s matches ExecutionStatus::Other(m) && m@ == failure_text(f)
}

/// What happened last in a run of an external command (once every
/// observer's `pre_exec` has succeeded).
#[derive(Debug)]
pub enum CommandEvent {
    /// The run begins.
    Started,
    /// The input was written to a temporary file at this path.
    TempFileReady(String),
    /// Creating, writing or naming the temporary file failed.
    TempFileFailed(CommandFailure),
    /// Spawning the process worked (`None`) or failed.
    SpawnResult(Option<CommandFailure>),
    /// Writing the input to the process's standard input worked (`None`)
    /// or failed.
    StdinResult(Option<CommandFailure>),
    /// Waiting for the process ended: it exited, or waiting gave this
    /// status (a timeout, a failed wait or kill).
    Waited(Result<ExitInfo, ExecutionStatus>),
}

/// What the driver of a command run does next.
#[derive(Debug)]
pub enum CommandAction {
    /// Write the input to a temporary file.
    CreateTempFile,
    /// Start this process.
    Spawn(CommandPlan),
    /// Write the input to the process's standard input.
    WriteStdin,
    /// Wait for the process, with the configured timeout.
    Wait,
    /// Kill the process, reap it, and finish with this status.
    KillAndFinish(ExecutionStatus),
    /// Finish with this status: every observer's `post_exec` runs
    /// (`conclude_execution`).
    Finish(ExecutionStatus),
}

/// An executor that runs the target as an external program.
///
/// Starting the process, feeding it and waiting for it are the driver's
/// work; this type decides what to start, how to deliver the input, and what
/// each way of ending means.
pub struct CommandExecutor {
    config: CommandExecutorConfig,
}

impl CommandExecutor {
    /// The configuration this executor was created with.
    pub closed spec fn configuration(&self) -> CommandExecutorConfig {
        self.config
    }

    /// Creates an executor with the given configuration.
    pub fn new(config: CommandExecutorConfig) -> (e: Self)
        ensures
            e.configuration() == config,
    {
        CommandExecutor { config }
    }

    /// The configuration this executor was created with.
    pub fn config(&self) -> (c: &CommandExecutorConfig)
        ensures
            *c == self.configuration(),
    {
        &self.config
    }

    /// Whether the input is delivered through a temporary file.
    pub fn uses_input_file(&self) -> (b: bool)
        ensures
            b == (self.configuration().input_delivery_mode is File),
    {
        match self.config.input_delivery_mode {
            InputDeliveryMode::File(_) => true,
            InputDeliveryMode::StdIn => false,
        }
    }

    /// Refuses an empty command list, which names no program to run.
    pub fn check_command(&self) -> (r: Option<ExecutionStatus>)
        ensures
            r is Some <==> self.configuration().command_with_args@.len() == 0,
            r matches Some(s) ==> (s matches ExecutionStatus::Other(m) && m@ == failure_text(
                CommandFailure::EmptyCommand,
            )),
    {
        if self.config.command_with_args.len() == 0 {
            Some(failure_status(&CommandFailure::EmptyCommand))
        } else {
            None
        }
    }

    /// What to start: the first element of the command is the program, the
    /// others its arguments; with file delivery one more argument follows,
    /// the template with each `{}` replaced by the temporary file's path.
    pub fn plan(&self, temp_file_path: Option<&str>) -> (p: CommandPlan)
        requires
            self.configuration().command_with_args@.len() > 0,
            temp_file_path is Some <==> self.configuration().input_delivery_mode is File,
        ensures
            p.program == self.configuration().command_with_args@[0],
            p.pipe_stdin == (self.configuration().input_delivery_mode is StdIn),
            p.working_directory == self.configuration().working_directory,
            match self.configuration().input_delivery_mode {
                InputDeliveryMode::StdIn => p.args@ == self.configuration().command_with_args@.skip(
                    1,
                ),
                InputDeliveryMode::File(t) => p.args@.len() == self.configuration().command_with_args@.len()
                    && p.args@.take(p.args@.len() - 1)
                    == self.configuration().command_with_args@.skip(1) && p.args@.last()@
                    == replace_placeholder(t@, temp_file_path->Some_0@),
            },
    {
        let cmd = &self.config.command_with_args;
        let program = cmd[0].clone();
        let mut args: Vec<String> = Vec::new();
        let mut i: usize = 1;
        while i < cmd.len()
            invariant
                1 <= i <= cmd@.len(),
                args@ == cmd@.subrange(1, i as int),
            decreases cmd@.len() - i,
        {
            args.push(cmd[i].clone());
            i = i + 1;
            assert(args@ =~= cmd@.subrange(1, i as int));
        }
        assert(cmd@.subrange(1, cmd@.len() as int) =~= cmd@.skip(1));
        let pipe_stdin = match &self.config.input_delivery_mode {
            InputDeliveryMode::StdIn => true,
            InputDeliveryMode::File(template) => {
                let path = match temp_file_path {
                    Some(p) => p,
                    None => "",
                };
                let arg = fill_template(template.as_str(), path);
                let ghost before = args@;
                args.push(arg);
                assert(args@.take(args@.len() - 1) =~= before);
                false
            },
        };
        CommandPlan {
            program,
            args,
            pipe_stdin,
            working_directory: self.config.working_directory.clone(),
        }
    }

    /// Decides the next step of a run from what happened last: refuse an
    /// empty command; with file delivery, write the temporary file first;
    /// start the process as `plan` says; feed its standard input when it is
    /// piped; wait for it; and finish with the status that each failure or
    /// the process's exit gives. A failed write to the standard input also
    /// kills the process.
    pub fn next_action(&self, event: CommandEvent) -> (a: CommandAction)
        ensures
            match event {
                CommandEvent::Started => if self.configuration().command_with_args@.len() == 0 {
                    a matches CommandAction::Finish(s) && is_failure_status(
                        s,
                        CommandFailure::EmptyCommand,
                    )
                } else if self.configuration().input_delivery_mode is File {
                    a is CreateTempFile
                } else {
                    a matches CommandAction::Spawn(p) && plan_for(self.configuration(), Seq::empty(), p)
                },
                CommandEvent::TempFileReady(path) => if self.configuration().command_with_args@.len() == 0 {
                    a matches CommandAction::Finish(s) && is_failure_status(
                        s,
                        CommandFailure::EmptyCommand,
                    )
                } else {
                    a matches CommandAction::Spawn(p) && plan_for(self.configuration(), path@, p)
                },
                CommandEvent::TempFileFailed(f) => a matches CommandAction::Finish(s)
                    && is_failure_status(s, f),
                CommandEvent::SpawnResult(None) => if self.configuration().input_delivery_mode is StdIn {
                    a is WriteStdin
                } else {
                    a is Wait
                },
                CommandEvent::SpawnResult(Some(f)) => a matches CommandAction::Finish(s)
                    && is_failure_status(s, f),
                CommandEvent::StdinResult(None) => a is Wait,
                CommandEvent::StdinResult(Some(f)) => a matches CommandAction::KillAndFinish(s)
                    && is_failure_status(s, f),
                CommandEvent::Waited(Ok(exit)) => a matches CommandAction::Finish(s)
                    && is_exit_status(exit, s),
                CommandEvent::Waited(Err(s)) => a == CommandAction::Finish(s),
            },
            match a {
                CommandAction::Spawn(p) => {
                    &&& p.working_directory == self.configuration().working_directory
                    &&& p.program == self.configuration().command_with_args@[0]
                    &&& p.pipe_stdin == (self.configuration().input_delivery_mode is StdIn)
                    &&& match self.configuration().input_delivery_mode {
                        InputDeliveryMode::StdIn => p.args@
                            == self.configuration().command_with_args@.skip(1),
                        InputDeliveryMode::File(t) => match event {
                            CommandEvent::TempFileReady(path) => {
                                &&& p.args@.len() == self.configuration().command_with_args@.len()
                                &&& forall|k: int|
                                    0 <= k < p.args@.len() - 1 ==> #[trigger] p.args@[k]
                                        == self.configuration().command_with_args@[k + 1]
                                &&& p.args@.last()@ == replace_placeholder(t@, path@)
                            },
                            _ => false,
                        },
                    }
                },
                _ => true,
            },
    {
        match event {
            CommandEvent::Started => {
                if let Some(s) = self.check_command() {
                    CommandAction::Finish(s)
                } else if self.uses_input_file() {
                    CommandAction::CreateTempFile
                } else {
                    CommandAction::Spawn(self.plan(None))
                }
            },
            CommandEvent::TempFileReady(path) => {
                if let Some(s) = self.check_command() {
                    CommandAction::Finish(s)
                } else if self.uses_input_file() {
                    let p = self.plan(Some(path.as_str()));
                    assert forall|k: int| 0 <= k < p.args@.len() - 1 implies #[trigger] p.args@[k]
                        == self.configuration().command_with_args@[k + 1] by {
                        assert(p.args@[k] == p.args@.take(p.args@.len() - 1)[k]);
                    }
                    CommandAction::Spawn(p)
                } else {
                    CommandAction::Spawn(self.plan(None))
                }
            },
            CommandEvent::TempFileFailed(f) => CommandAction::Finish(failure_status(&f)),
            CommandEvent::SpawnResult(None) => {
                if self.uses_input_file() {
                    CommandAction::Wait
                } else {
                    CommandAction::WriteStdin
                }
            },
            CommandEvent::SpawnResult(Some(f)) => CommandAction::Finish(failure_status(&f)),
            CommandEvent::StdinResult(None) => CommandAction::Wait,
            CommandEvent::StdinResult(Some(f)) => CommandAction::KillAndFinish(failure_status(&f)),
            CommandEvent::Waited(Ok(exit)) => CommandAction::Finish(classify_exit(&exit)),
            CommandEvent::Waited(Err(s)) => CommandAction::Finish(s),
        }
    }
}

/// The result of one non-blocking look at a running process.
#[derive(Debug, Clone)]
pub enum PollOutcome {
    /// The process has ended.
    Exited(ExitInfo),
    /// The process is still running.
    Running,
    /// The look itself failed.
    Failed(String),
}

/// What the driver does next while waiting for a process.
#[derive(Debug, Clone)]
pub enum WaitStep {
    /// The process ended: classify how.
    Done(ExitInfo),
    /// The timeout passed: kill the process and reap it.
    KillAndReap,
    /// Wait a little and look again.
    SleepAndPoll,
    /// Give up with this status.
    Stop(ExecutionStatus),
}

/// Decides the next step of waiting for a process, given the latest look at
/// it and whether the timeout has passed.
pub fn next_wait_step(poll: PollOutcome, timed_out: bool) -> (step: WaitStep)
    ensures
        match poll {
            PollOutcome::Exited(e) => step == WaitStep::Done(e),
            PollOutcome::Running => if timed_out {
                step is KillAndReap
            } else {
                step is SleepAndPoll
            },
            PollOutcome::Failed(e) => step matches WaitStep::Stop(s) && s matches ExecutionStatus::Other(
                m,
            ) && m@ == failure_text(CommandFailure::WaitFailed(e)),
        },
{
    match poll {
        PollOutcome::Exited(e) => WaitStep::Done(e),
        PollOutcome::Running => if timed_out {
            WaitStep::KillAndReap
        } else {
            WaitStep::SleepAndPoll
        },
        PollOutcome::Failed(e) => {
            let s = failure_status(&CommandFailure::WaitFailed(e));
            WaitStep::Stop(s)
        },
    }
}

/// The outcome once a timed-out process has been killed: `Timeout` when both
/// the kill and the final wait worked, otherwise an `Other` that says which
/// step failed (after a failed kill there is no final wait).
pub fn timed_out_status(kill_error: Option<String>, final_wait_error: Option<String>) -> (r:
    ExecutionStatus)
    ensures
        match kill_error {
            Some(e) => r matches ExecutionStatus::Other(m) && m@ == failure_text(
                CommandFailure::KillFailed(e),
            ),
            None => match final_wait_error {
                Some(e) => r matches ExecutionStatus::Other(m) && m@ == failure_text(
                    CommandFailure::FinalWaitFailed(e),
                ),
                None => r is Timeout,
            },
        },
{
    match kill_error {
        Some(e) => failure_status(&CommandFailure::KillFailed(e)),
        None => match final_wait_error {
            Some(e) => failure_status(&CommandFailure::FinalWaitFailed(e)),
            None => ExecutionStatus::Timeout,
        },
    }
}

} // verus!
