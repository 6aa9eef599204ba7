use vstd::prelude::*;

use crate::corpus::{Corpus, OnDiskCorpusEntryMetadata};
use crate::feedback::{input_key, MockBitmapCoverageFeedback, UniqueInputFeedback};
use crate::scheduler::SchedulerError;
use crate::digest::md5_compute;
use crate::text::{decimal, push_decimal, push_str_chars, string_from_chars};

verus! {

/// The keys of the digests of the inputs of `entries`.
pub open spec fn input_keys<M>(entries: Seq<(Vec<u8>, M)>) -> Set<u128>
    decreases entries.len(),
{
    if entries.len() == 0 {
        Set::empty()
    } else {
        input_keys(entries.drop_last()).insert(input_key(entries.last().0@))
    }
}

/// Lets a unique-input feedback know every input already in the corpus, so
/// that only inputs new to the corpus count as interesting.
pub fn prime_unique_feedback<M, C: Corpus<Vec<u8>, M>>(
    feedback: &mut UniqueInputFeedback,
    corpus: &mut C,
)
    ensures
        final(corpus).entries() == old(corpus).entries(),
        final(feedback).known() == old(feedback).known().union(input_keys(old(corpus).entries())),
        forall|j: int|
            0 <= j < old(corpus).entries().len() ==> final(feedback).known().contains(
                input_key(#[trigger] old(corpus).entries()[j].0@),
            ),
        forall|k: u128|
            #[trigger] final(feedback).known().contains(k) ==> old(feedback).known().contains(k)
                || exists|j: int|
                0 <= j < old(corpus).entries().len() && k == input_key(
                    #[trigger] old(corpus).entries()[j].0@,
                ),
{
    let n = corpus.len();
    let mut i: usize = 0;
    assert(old(corpus).entries().take(0) =~= Seq::<(Vec<u8>, M)>::empty());
    assert(old(feedback).known().union(Set::<u128>::empty()) =~= old(feedback).known());
    while i < n
        invariant
            n == corpus.entries().len(),
            corpus.entries() == old(corpus).entries(),
            i <= n,
            feedback.known() == old(feedback).known().union(
                input_keys(corpus.entries().take(i as int)),
            ),
            forall|j: int|
                0 <= j < i ==> feedback.known().contains(input_key(#[trigger] corpus.entries()[j].0@)),
            forall|key: u128|
                #[trigger] feedback.known().contains(key) ==> old(feedback).known().contains(key)
                    || exists|j: int| 0 <= j < i && key == input_key(#[trigger] corpus.entries()[j].0@),
        decreases n - i,
    {
        let ghost prefix = corpus.entries().take(i + 1);
        assert(prefix.drop_last() =~= corpus.entries().take(i as int));
        match corpus.get(i) {
            Some((input, _metadata)) => {
                assert(prefix.last().0 == *input);
                feedback.add_known_input_hash(input);
            },
            None => {},
        }
        i = i + 1;
        assert(feedback.known() =~= old(feedback).known().union(
            input_keys(corpus.entries().take(i as int)),
        ));
    }
    assert(corpus.entries().take(n as int) =~= corpus.entries());
}

/// Lets a mock coverage feedback count every input already in the corpus as
/// covered, so that only new coverage counts as interesting.
pub fn prime_coverage_feedback<M, C: Corpus<Vec<u8>, M>>(
    feedback: &mut MockBitmapCoverageFeedback,
    corpus: &mut C,
)
    ensures
        final(corpus).entries() == old(corpus).entries(),
        final(feedback).seen() == old(feedback).seen().union(input_keys(old(corpus).entries())),
        forall|j: int|
            0 <= j < old(corpus).entries().len() ==> final(feedback).seen().contains(
                input_key(#[trigger] old(corpus).entries()[j].0@),
            ),
        forall|k: u128|
            #[trigger] final(feedback).seen().contains(k) ==> old(feedback).seen().contains(k)
                || exists|j: int|
                0 <= j < old(corpus).entries().len() && k == input_key(
                    #[trigger] old(corpus).entries()[j].0@,
                ),
        final(feedback).target_name() == old(feedback).target_name(),
{
    let n = corpus.len();
    let mut i: usize = 0;
    assert(old(corpus).entries().take(0) =~= Seq::<(Vec<u8>, M)>::empty());
    assert(old(feedback).seen().union(Set::<u128>::empty()) =~= old(feedback).seen());
    while i < n
        invariant
            n == corpus.entries().len(),
            corpus.entries() == old(corpus).entries(),
            i <= n,
            feedback.target_name() == old(feedback).target_name(),
            feedback.seen() == old(feedback).seen().union(
                input_keys(corpus.entries().take(i as int)),
            ),
            forall|j: int|
                0 <= j < i ==> feedback.seen().contains(input_key(#[trigger] corpus.entries()[j].0@)),
            forall|key: u128|
                #[trigger] feedback.seen().contains(key) ==> old(feedback).seen().contains(key)
                    || exists|j: int| 0 <= j < i && key == input_key(#[trigger] corpus.entries()[j].0@),
        decreases n - i,
    {
        let ghost prefix = corpus.entries().take(i + 1);
        assert(prefix.drop_last() =~= corpus.entries().take(i as int));
        match corpus.get(i) {
            Some((input, _metadata)) => {
                assert(prefix.last().0 == *input);
                let digest = md5_compute(input.as_slice());
                feedback.add_known_digest(&digest);
            },
            None => {},
        }
        i = i + 1;
        assert(feedback.seen() =~= old(feedback).seen().union(
            input_keys(corpus.entries().take(i as int)),
        ));
    }
    assert(corpus.entries().take(n as int) =~= corpus.entries());
}

/// The description of a crashing input kept in the corpus.
pub open spec fn crash_text(solution: nat, description: Seq<char>, execution: nat) -> Seq<char> {
    "Crash #"@ + decimal(solution) + ": "@ + description + " (Exec: "@ + decimal(execution) + ")"@
}

/// Describes the `solution`-th crash, found at execution number `execution`.
pub fn crash_description(solution: u64, description: &str, execution: u64) -> (s: String)
    ensures
        s@ == crash_text(solution as nat, description@, execution as nat),
{
    let mut chars: Vec<char> = Vec::new();
    push_str_chars("Crash #", &mut chars);
    push_decimal(solution, &mut chars);
    push_str_chars(": ", &mut chars);
    push_str_chars(description, &mut chars);
    push_str_chars(" (Exec: ", &mut chars);
    push_decimal(execution, &mut chars);
    push_str_chars(")", &mut chars);
    let s = string_from_chars(&chars);
    assert(s@ =~= crash_text(solution as nat, description@, execution as nat));
    s
}

/// What a fuzzing iteration does after asking the scheduler for an entry.
#[derive(Debug, Clone, PartialEq, Eq)]
pub enum ScheduleStep {
    /// Mutate the entry with this ID.
    Fuzz(usize),
    /// The corpus is empty: make a seed from scratch and fuzz that.
    GenerateSeed,
    /// The scheduler found no entry though the corpus has some: skip this
    /// iteration.
    Skip,
    /// The scheduler failed: stop the campaign.
    Stop,
}

/// Decides how an iteration goes on from the scheduler's answer.
pub fn schedule_step(answer: &Result<usize, SchedulerError>, corpus_is_empty: bool) -> (s: ScheduleStep)
    ensures
        match answer {
            Ok(id) => s == ScheduleStep::Fuzz(*id),
            Err(SchedulerError::CorpusEmpty) => if corpus_is_empty {
                s is GenerateSeed
            } else {
                s is Skip
            },
            Err(_) => s is Stop,
        },
{
    match answer {
        Ok(id) => ScheduleStep::Fuzz(*id),
        Err(SchedulerError::CorpusEmpty) => if corpus_is_empty {
            ScheduleStep::GenerateSeed
        } else {
            ScheduleStep::Skip
        },
        Err(_) => ScheduleStep::Stop,
    }
}

/// The running totals of a fuzzing campaign.
#[derive(Debug, Clone, Copy)]
pub struct CampaignStats {
    /// Executions of the target so far.
    pub total_executions: u64,
    /// Bugs reported by the oracle so far.
    pub solutions_found: u64,
}

impl CampaignStats {
    /// A campaign that has not run yet.
    pub fn new() -> (s: Self)
        ensures
            s.total_executions == 0,
            s.solutions_found == 0,
    {
        CampaignStats { total_executions: 0, solutions_found: 0 }
    }

    /// Counts one execution of the target.
    pub fn count_execution(&mut self)
        requires
            old(self).total_executions < u64::MAX,
        ensures
            final(self).total_executions == old(self).total_executions + 1,
            final(self).solutions_found == old(self).solutions_found,
    {
        self.total_executions = self.total_executions + 1;
    }

    /// Counts a bug that the oracle reported with `description`. A crashing
    /// input that the feedback did not already add joins the corpus: the
    /// result is the metadata it joins with, naming the bug's number and the
    /// execution that found it.
    pub fn count_bug(&mut self, description: &str, added_by_feedback: bool) -> (m: Option<
        OnDiskCorpusEntryMetadata,
    >)
        requires
            old(self).solutions_found < u64::MAX,
        ensures
            final(self).solutions_found == old(self).solutions_found + 1,
            final(self).total_executions == old(self).total_executions,
            m is Some <==> !added_by_feedback,
            m matches Some(meta) ==> meta.source_description@ == crash_text(
                final(self).solutions_found as nat,
                description@,
                final(self).total_executions as nat,
            ),
    {
        self.solutions_found = self.solutions_found + 1;
        if added_by_feedback {
            None
        } else {
            let d = crash_description(self.solutions_found, description, self.total_executions);
            Some(OnDiskCorpusEntryMetadata { source_description: d })
        }
    }
}

} // verus!
