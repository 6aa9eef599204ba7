use vstd::prelude::*;

use crate::digest::{md5_digest, md5_hex};
use crate::executor::{ExecutionStatus, ProcessOutput};
use crate::input::Input;
use crate::text::lower_hex;

verus! {

/// The severity that `CrashOracle` gives to the crashes it reports.
pub const DEFAULT_CRASH_SEVERITY: u8 = 10;

/// A bug found by an oracle.
#[derive(Debug)]
pub struct BugReport<I: Input> {
    /// The input that triggered the bug.
    pub input: I,
    /// What went wrong.
    pub description: String,
    /// The MD5 digest of the input in lowercase hexadecimal.
    pub input_hash: String,
    /// How severe the bug is.
    pub severity: u8,
}

/// Examines the outcome of an execution and reports a bug when it sees one.
pub trait Oracle<I: Input> {
    fn examine(
        &self,
        input: &I,
        status: &ExecutionStatus,
        target_output: Option<&ProcessOutput>,
    ) -> Option<BugReport<I>>;
}

/// An oracle that reports every crash, and nothing else.
#[derive(Debug, Default)]
pub struct CrashOracle;

impl CrashOracle {
    /// Creates a `CrashOracle`.
    pub fn new() -> (o: Self) {
        CrashOracle
    }
}

impl<I: Input + Clone> Oracle<I> for CrashOracle {
    /// Reports a bug exactly when the status is a crash: the report holds a
    /// clone of the input, the crash description, the input's MD5 digest in
    /// lowercase hexadecimal and the default crash severity. The process
    /// output is not consulted.
    fn examine(
        &self,
        input: &I,
        status: &ExecutionStatus,
        target_output: Option<&ProcessOutput>,
    ) -> (r: Option<BugReport<I>>)
        ensures
            r is Some <==> status is Crash,
            r matches Some(report) ==> {
                &&& cloned::<I>(*input, report.input)
                &&& report.description == status->Crash_0
                &&& report.input_hash@ == lower_hex(md5_digest(input.byte_view()))
                &&& report.severity == DEFAULT_CRASH_SEVERITY
            },
    {
        match status {
            ExecutionStatus::Crash(description) => {
                let input_hash = md5_hex(input.as_bytes());
                Some(
                    BugReport {
                        input: input.clone(),
                        description: description.clone(),
                        input_hash,
                        severity: DEFAULT_CRASH_SEVERITY,
                    },
                )
            },
            _ => None,
        }
    }
}

} // verus!
