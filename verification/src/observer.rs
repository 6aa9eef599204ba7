use vstd::prelude::*;

use crate::digest::{md5_compute, md5_digest};
use crate::executor::{ExecutionStatus, ProcessOutput};

verus! {

/// The process output handed to an observer, as a value.
pub open spec fn output_view(target_output: Option<&ProcessOutput>) -> Option<ProcessOutput> {
    match target_output {
        Some(p) => Some(*p),
        None => None,
    }
}

/// The input bytes handed to an observer, as a sequence.
pub open spec fn input_view(input_opt: Option<&[u8]>) -> Option<Seq<u8>> {
    match input_opt {
        Some(b) => Some(b@),
        None => None,
    }
}

/// Watches one execution of the target and collects data about it.
///
/// Executors call `pre_exec` before the target runs and `post_exec` after it,
/// handing over the outcome, the collected process output (if any) and the
/// bytes of the input. An `Err` carries a description of what went wrong.
///
/// The spec functions say what an implementation promises of each call. By
/// default they promise nothing; the observers of this library state exactly
/// what they do.
pub trait Observer: Sized {
    /// `n` is a name this observer goes by.
    open spec fn is_named(&self, n: Seq<char>) -> bool {
        true
    }

    /// `after` is the observer once `pre_exec`, called on `before`, has
    /// returned `result`.
    open spec fn pre_exec_step(before: Self, after: Self, result: Result<(), String>) -> bool {
        true
    }

    /// `after` is the observer once `post_exec`, called on `before` with
    /// these arguments, has returned `result`.
    open spec fn post_exec_step(
        before: Self,
        after: Self,
        status: ExecutionStatus,
        target_output: Option<ProcessOutput>,
        input: Option<Seq<u8>>,
        result: Result<(), String>,
    ) -> bool {
        true
    }

    fn name(&self) -> (n: &'static str)
        ensures
            self.is_named(n@),
    ;

    fn pre_exec(&mut self) -> (r: Result<(), String>)
        ensures
            Self::pre_exec_step(*old(self), *final(self), r),
    ;

    fn post_exec(
        &mut self,
        status: &ExecutionStatus,
        target_output: Option<&ProcessOutput>,
        input_opt: Option<&[u8]>,
    ) -> (r: Result<(), String>)
        ensures
            Self::post_exec_step(
                *old(self),
                *final(self),
                *status,
                output_view(target_output),
                input_view(input_opt),
                r,
            ),
    ;

    fn reset(&mut self) -> Result<(), String>;

    fn serialize_data(&self) -> Option<Vec<u8>>;
}

/// An observer that does nothing and never fails.
pub struct NoOpObserver;

impl Default for NoOpObserver {
    fn default() -> (o: Self) {
        NoOpObserver
    }
}

impl Observer for NoOpObserver {
    open spec fn is_named(&self, n: Seq<char>) -> bool {
        n == "NoOpObserver"@
    }

    open spec fn pre_exec_step(before: Self, after: Self, result: Result<(), String>) -> bool {
        result is Ok
    }

    open spec fn post_exec_step(
        before: Self,
        after: Self,
        status: ExecutionStatus,
        target_output: Option<ProcessOutput>,
        input: Option<Seq<u8>>,
        result: Result<(), String>,
    ) -> bool {
        result is Ok
    }

    fn name(&self) -> (n: &'static str)
        ensures
            n@ == "NoOpObserver"@,
    {
        "NoOpObserver"
    }

    fn pre_exec(&mut self) -> (r: Result<(), String>)
        ensures
            r is Ok,
    {
        Ok(())
    }

    fn post_exec(
        &mut self,
        status: &ExecutionStatus,
        target_output: Option<&ProcessOutput>,
        input_opt: Option<&[u8]>,
    ) -> (r: Result<(), String>)
        ensures
            r is Ok,
    {
        Ok(())
    }

    fn reset(&mut self) -> (r: Result<(), String>)
        ensures
            r is Ok,
    {
        Ok(())
    }

    fn serialize_data(&self) -> (r: Option<Vec<u8>>)
        ensures
            r is None,
    {
        None
    }
}

/// An observer that stands in for coverage: after an execution it records the
/// MD5 digest of the input, as if every distinct input covered distinct code.
pub struct MockCoverageObserver {
    current_input_hash: Option<[u8; 16]>,
}

impl MockCoverageObserver {
    /// The digest recorded for the last execution, if any.
    pub closed spec fn recorded(&self) -> Option<Seq<u8>> {
        match self.current_input_hash {
            Some(h) => Some(h@),
            None => None,
        }
    }

    /// Creates an observer that has recorded nothing yet.
    pub fn new() -> (o: Self)
        ensures
            o.recorded() is None,
    {
        MockCoverageObserver { current_input_hash: None }
    }
}

impl Default for MockCoverageObserver {
    fn default() -> (o: Self)
        ensures
            o.recorded() is None,
    {
        MockCoverageObserver::new()
    }
}

impl Observer for MockCoverageObserver {
    open spec fn is_named(&self, n: Seq<char>) -> bool {
        n == "MockCoverageObserver"@
    }

    /// Never fails, and forgets the recorded digest.
    open spec fn pre_exec_step(before: Self, after: Self, result: Result<(), String>) -> bool {
        result is Ok && after.recorded() is None
    }

    /// Never fails; records the digest of the input when one is given.
    open spec fn post_exec_step(
        before: Self,
        after: Self,
        status: ExecutionStatus,
        target_output: Option<ProcessOutput>,
        input: Option<Seq<u8>>,
        result: Result<(), String>,
    ) -> bool {
        &&& result is Ok
        &&& match input {
            Some(bytes) => after.recorded() == Some(md5_digest(bytes)),
            None => after.recorded() == before.recorded(),
        }
    }

    fn name(&self) -> (n: &'static str)
        ensures
            n@ == "MockCoverageObserver"@,
    {
        "MockCoverageObserver"
    }

    /// Forgets the recorded digest.
    fn pre_exec(&mut self) -> (r: Result<(), String>)
        ensures
            r is Ok,
            final(self).recorded() is None,
    {
        self.reset()
    }

    /// Records the digest of the input when one is given; otherwise keeps what
    /// was recorded.
    fn post_exec(
        &mut self,
        status: &ExecutionStatus,
        target_output: Option<&ProcessOutput>,
        input_opt: Option<&[u8]>,
    ) -> (r: Result<(), String>)
        ensures
            r is Ok,
            match input_opt {
                Some(bytes) => final(self).recorded() == Some(md5_digest(bytes@)),
                None => final(self).recorded() == old(self).recorded(),
            },
    {
        if let Some(bytes) = input_opt {
            let hash = md5_compute(bytes);
            self.current_input_hash = Some(hash);
        }
        Ok(())
    }

    /// Forgets the recorded digest.
    fn reset(&mut self) -> (r: Result<(), String>)
        ensures
            r is Ok,
            final(self).recorded() is None,
    {
        self.current_input_hash = None;
        Ok(())
    }

    /// The recorded digest as 16 bytes, if there is one.
    fn serialize_data(&self) -> (r: Option<Vec<u8>>)
        ensures
            match self.recorded() {
                Some(h) => r is Some && r->Some_0@ == h,
                None => r is None,
            },
    {
        match &self.current_input_hash {
            Some(h) => {
                let mut v: Vec<u8> = Vec::new();
                let mut i: usize = 0;
                while i < 16
                    invariant
                        i <= 16,
                        v@ == h@.take(i as int),
                    decreases 16 - i,
                {
                    v.push(h[i]);
                    i = i + 1;
                    assert(v@ =~= h@.take(i as int));
                }
                assert(h@.take(16) =~= h@);
                Some(v)
            },
            None => None,
        }
    }
}

} // verus!
