use rand_chacha::ChaCha8Rng;
use vstd::prelude::*;

use crate::corpus::{Corpus, CorpusError};
use crate::input::Input;

verus! {

/// Errors of scheduler operations.
#[derive(Debug)]
pub enum SchedulerError {
    /// The corpus is empty, so no input can be scheduled.
    CorpusEmpty,
    /// The corpus failed during a scheduler operation.
    CorpusInteractionError(CorpusError),
}

/// Chooses the next corpus entry to fuzz.
pub trait Scheduler<I: Input> {
    /// The ID of the next entry to fuzz.
    fn next<M, C: Corpus<I, M>>(&mut self, corpus: &mut C, rng: &mut ChaCha8Rng) -> Result<
        usize,
        SchedulerError,
    >;

    /// Reports what came of fuzzing the entry `input_id`.
    fn report_feedback<V>(&mut self, input_id: usize, feedback_value: &V, is_solution: bool);
}

/// A scheduler that picks entries uniformly at random and ignores feedback.
#[derive(Debug, Default)]
pub struct RandomScheduler;

impl RandomScheduler {
    /// Creates a `RandomScheduler`.
    pub fn new() -> (s: Self) {
        RandomScheduler
    }
}

impl<I: Input> Scheduler<I> for RandomScheduler {
    /// Fails with `CorpusEmpty` exactly when the corpus is empty; otherwise
    /// returns the ID of an existing entry. The corpus is left unchanged.
    fn next<M, C: Corpus<I, M>>(&mut self, corpus: &mut C, rng: &mut ChaCha8Rng) -> (r: Result<
        usize,
        SchedulerError,
    >)
        ensures
            final(corpus).entries() == old(corpus).entries(),
            match r {
                Ok(id) => id < old(corpus).entries().len() && old(corpus).selects(
                    *old(rng),
                    *final(rng),
                    id,
                ),
                Err(e) => e is CorpusEmpty && old(corpus).entries().len() == 0,
            },
            old(corpus).entries().len() > 0 ==> r is Ok,
            old(corpus).entries().len() == 0 ==> *final(rng) == *old(rng),
    {
        if corpus.is_empty() {
            return Err(SchedulerError::CorpusEmpty);
        }
        match corpus.random_select(rng) {
            Some((id, _input, _metadata)) => Ok(id),
            None => Err(SchedulerError::CorpusEmpty),
        }
    }

    /// Does nothing: random selection takes no feedback into account.
    fn report_feedback<V>(&mut self, input_id: usize, feedback_value: &V, is_solution: bool)
        ensures
            *final(self) == *old(self),
    {
    }
}

} // verus!
