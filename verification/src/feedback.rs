use std::collections::HashSet;
use vstd::bytes::{spec_u128_from_le_bytes, u128_from_le_bytes};
use vstd::prelude::*;

use crate::corpus::{Corpus, CorpusError, OnDiskCorpusEntryMetadata};
use crate::digest::{md5_compute, md5_digest};
use crate::input::Input;
use crate::text::{lower_hex, push_decimal, push_lower_hex, push_str_chars, decimal, string_from_chars};

verus! {

broadcast use vstd::std_specs::hash::group_hash_axioms;

/// Errors of feedback mechanisms.
#[derive(Debug)]
pub enum FeedbackError {
    /// The feedback could not be initialised.
    InitError(String),
    /// The corpus failed while the feedback used it.
    CorpusInteractionError(CorpusError),
    /// The data of the target observer is missing or malformed.
    ObserverDataError(String),
}

/// The key under which a 16-byte digest is remembered: its bytes read as a
/// little-endian `u128`.
pub open spec fn digest_key(digest: Seq<u8>) -> u128 {
    spec_u128_from_le_bytes(digest)
}

/// The key under which the digest of an input's bytes is remembered.
pub open spec fn input_key(bytes: Seq<u8>) -> u128 {
    digest_key(md5_digest(bytes))
}

/// Computes the key of a 16-byte digest.
pub fn digest_to_key(digest: &[u8; 16]) -> (k: u128)
    ensures
        k == digest_key(digest@),
{
    u128_from_le_bytes(digest)
}

/// Two distinct digests never share a key.
pub proof fn lemma_digest_key_injective(a: Seq<u8>, b: Seq<u8>)
    requires
        a.len() == 16,
        b.len() == 16,
        digest_key(a) == digest_key(b),
    ensures
        a == b,
{
    vstd::bytes::lemma_auto_spec_u128_to_from_le_bytes();
    assert(vstd::bytes::spec_u128_to_le_bytes(spec_u128_from_le_bytes(a)) == a);
    assert(vstd::bytes::spec_u128_to_le_bytes(spec_u128_from_le_bytes(b)) == b);
}

/// The data that observers reported for one execution: pairs of observer
/// name and serialized data, in the order they were gathered. A later pair
/// for the same name supersedes an earlier one.
pub open spec fn observer_data(
    data: Seq<(&'static str, Option<Vec<u8>>)>,
    name: Seq<char>,
) -> Option<Option<Vec<u8>>>
    decreases data.len(),
{
    if data.len() == 0 {
        None
    } else if data.last().0@ == name {
        Some(data.last().1)
    } else {
        observer_data(data.drop_last(), name)
    }
}

/// Compares two strings character by character.
pub fn str_equal(a: &str, b: &str) -> (r: bool)
    ensures
        r == (a@ == b@),
{
    let n = a.unicode_len();
    let m = b.unicode_len();
    if n != m {
        return false;
    }
    let mut i: usize = 0;
    while i < n
        invariant
            n == a@.len(),
            m == b@.len(),
            n == m,
            i <= n,
            a@.take(i as int) == b@.take(i as int),
        decreases n - i,
    {
        if a.get_char(i) != b.get_char(i) {
            assert(a@[i as int] != b@[i as int]);
            return false;
        }
        i = i + 1;
        assert(a@.take(i as int) =~= b@.take(i as int));
    }
    assert(a@ =~= a@.take(n as int));
    assert(b@ =~= b@.take(n as int));
    true
}

/// Looks up what the observer called `name` reported.
pub fn lookup_observer_data<'a>(
    data: &'a Vec<(&'static str, Option<Vec<u8>>)>,
    name: &str,
) -> (r: Option<&'a Option<Vec<u8>>>)
    ensures
        match observer_data(data@, name@) {
            Some(d) => r is Some && *r->Some_0 == d,
            None => r is None,
        },
{
    let mut i: usize = data.len();
    assert(data@.take(i as int) =~= data@);
    while i > 0
        invariant
            i <= data@.len(),
            observer_data(data@, name@) == observer_data(data@.take(i as int), name@),
        decreases i,
    {
        let ghost prefix = data@.take(i as int);
        assert(prefix.drop_last() =~= data@.take(i - 1));
        let entry = &data[i - 1];
        if str_equal(entry.0, name) {
            return Some(&entry.1);
        }
        i = i - 1;
    }
    assert(data@.take(0).len() == 0);
    None
}

/// Decides whether a new input is worth keeping, and keeps it in the corpus.
pub trait Feedback<I: Input> {
    /// The name of this feedback mechanism.
    spec fn feedback_name(&self) -> Seq<char>;

    fn name(&self) -> (n: &'static str)
        ensures
            n@ == self.feedback_name(),
    ;

    fn init<M, C: Corpus<I, M>>(&mut self, corpus: &C) -> Result<(), FeedbackError>;

    fn is_interesting<C>(
        &mut self,
        input: &I,
        observers_data: &Vec<(&'static str, Option<Vec<u8>>)>,
        corpus: &C,
    ) -> Result<bool, FeedbackError>;

    fn add_to_corpus<C: Corpus<I, OnDiskCorpusEntryMetadata>>(
        &mut self,
        input_to_add: I,
        corpus: &mut C,
    ) -> Result<bool, FeedbackError>;
}

/// Builds `<prefix><digest in lowercase hex>`, the description of an entry
/// that a feedback adds.
pub fn digest_description(prefix: &str, digest: &[u8; 16]) -> (s: String)
    ensures
        s@ == prefix@ + lower_hex(digest@),
{
    let mut chars: Vec<char> = Vec::new();
    push_str_chars(prefix, &mut chars);
    push_lower_hex(digest, &mut chars);
    let s = string_from_chars(&chars);
    assert(s@ =~= prefix@ + lower_hex(digest@));
    s
}

/// Adds an admitted input to the corpus, turning a corpus failure into a
/// feedback error.
fn add_admitted<I, C: Corpus<I, OnDiskCorpusEntryMetadata>>(
    corpus: &mut C,
    input: I,
    metadata: OnDiskCorpusEntryMetadata,
) -> (r: Result<bool, FeedbackError>)
    ensures
        match r {
            Ok(b) => b && final(corpus).entries() == old(corpus).entries().push((input, metadata)),
            Err(e) => (e matches FeedbackError::CorpusInteractionError(ce) && old(
                corpus,
            ).add_may_fail_with(ce)) && final(corpus).entries() == old(corpus).entries(),
        },
        old(corpus).add_infallible() ==> r is Ok,
{
    match corpus.add(input, metadata) {
        Ok(_) => Ok(true),
        Err(e) => Err(FeedbackError::CorpusInteractionError(e)),
    }
}

/// A feedback that treats an input as new coverage when the digest reported
/// by a target observer has not been seen before.
pub struct MockBitmapCoverageFeedback {
    /// Keys (see `digest_key`) of the coverage digests seen so far.
    pub global_coverage_hashes: HashSet<u128>,
    target_observer_name: String,
}

impl MockBitmapCoverageFeedback {
    /// The keys of the coverage digests seen so far.
    pub closed spec fn seen(&self) -> Set<u128> {
        self.global_coverage_hashes@
    }

    /// The name of the observer whose data this feedback reads.
    pub closed spec fn target_name(&self) -> Seq<char> {
        self.target_observer_name@
    }

    /// Creates a feedback reading the observer called `target_observer_name`,
    /// with no coverage seen yet.
    pub fn new(target_observer_name: String) -> (f: Self)
        ensures
            f.seen() == Set::<u128>::empty(),
            f.target_name() == target_observer_name@,
    {
        MockBitmapCoverageFeedback { global_coverage_hashes: HashSet::new(), target_observer_name }
    }

    /// Remembers a coverage digest as seen.
    pub fn add_known_digest(&mut self, digest: &[u8; 16])
        ensures
            final(self).seen() == old(self).seen().insert(digest_key(digest@)),
            final(self).target_name() == old(self).target_name(),
    {
        let k = digest_to_key(digest);
        self.global_coverage_hashes.insert(k);
    }

    /// Remembers the digest of `input` as coverage; when it was new, returns
    /// the metadata under which the input joins the corpus.
    pub fn claim_new_input<J: Input>(&mut self, input: &J) -> (r: Option<OnDiskCorpusEntryMetadata>)
        ensures
            final(self).seen() == old(self).seen().insert(input_key(input.byte_view())),
            final(self).target_name() == old(self).target_name(),
            r is Some <==> !old(self).seen().contains(input_key(input.byte_view())),
            r matches Some(m) ==> m.source_description@ == "New mock coverage: "@ + lower_hex(
                md5_digest(input.byte_view()),
            ),
    {
        let digest = md5_compute(input.as_bytes());
        let k = digest_to_key(&digest);
        if self.global_coverage_hashes.insert(k) {
            let d = digest_description("New mock coverage: ", &digest);
            Some(OnDiskCorpusEntryMetadata { source_description: d })
        } else {
            None
        }
    }

    /// The text of the error for coverage data of the wrong length.
    pub open spec fn wrong_length_text(name: Seq<char>, len: nat) -> Seq<char> {
        "Expected 16 bytes of coverage data from "@ + name + ", got "@ + decimal(len)
    }

    /// The text of the error for a target observer that reported nothing.
    pub open spec fn missing_data_text(name: Seq<char>) -> Seq<char> {
        "Target observer '"@ + name + "' data not found in observers_data map."@
    }

    /// The coverage decision for the data `reported` by the target observer
    /// (`None`: the observer is not in the reported data at all).
    pub open spec fn coverage_verdict(
        &self,
        reported: Option<Option<Vec<u8>>>,
        r: Result<bool, FeedbackError>,
    ) -> bool {
        match reported {
            Some(Some(bytes)) => if bytes@.len() == 16 {
                r == Ok::<bool, FeedbackError>(!self.seen().contains(digest_key(bytes@)))
            } else {
                r matches Err(FeedbackError::ObserverDataError(m)) && m@
                    == Self::wrong_length_text(self.target_name(), bytes@.len())
            },
            Some(None) => r == Ok::<bool, FeedbackError>(false),
            None => r matches Err(FeedbackError::ObserverDataError(m)) && m@
                == Self::missing_data_text(self.target_name()),
        }
    }
}

impl Default for MockBitmapCoverageFeedback {
    fn default() -> (f: Self)
        ensures
            f.seen() == Set::<u128>::empty(),
            f.target_name() == Seq::<char>::empty(),
    {
        MockBitmapCoverageFeedback::new(String::new())
    }
}

impl<I: Input> Feedback<I> for MockBitmapCoverageFeedback {
    open spec fn feedback_name(&self) -> Seq<char> {
        "MockBitmapCoverageFeedback"@
    }

    fn name(&self) -> (n: &'static str) {
        "MockBitmapCoverageFeedback"
    }

    /// Nothing to prepare: coverage is built up as inputs are added.
    fn init<M, C: Corpus<I, M>>(&mut self, corpus: &C) -> (r: Result<(), FeedbackError>)
        ensures
            r is Ok,
            final(self).seen() == old(self).seen(),
            final(self).target_name() == old(self).target_name(),
    {
        Ok(())
    }

    /// Reads the data of the target observer: 16 bytes of coverage are
    /// interesting when they were not seen before; no data is not
    /// interesting; data of another length, or no entry for the observer, is
    /// an error.
    fn is_interesting<C>(
        &mut self,
        input: &I,
        observers_data: &Vec<(&'static str, Option<Vec<u8>>)>,
        corpus: &C,
    ) -> (r: Result<bool, FeedbackError>)
        ensures
            final(self).seen() == old(self).seen(),
            final(self).target_name() == old(self).target_name(),
            old(self).coverage_verdict(observer_data(observers_data@, old(self).target_name()), r),
    {
        match lookup_observer_data(observers_data, self.target_observer_name.as_str()) {
            Some(Some(bytes)) => {
                if bytes.len() == 16 {
                    let mut digest = [0u8; 16];
                    let mut i: usize = 0;
                    while i < 16
                        invariant
                            i <= 16,
                            bytes@.len() == 16,
                            forall|j: int| 0 <= j < i ==> digest@[j] == bytes@[j],
                        decreases 16 - i,
                    {
                        digest[i] = bytes[i];
                        i = i + 1;
                    }
                    assert(digest@ =~= bytes@);
                    let k = digest_to_key(&digest);
                    Ok(!self.global_coverage_hashes.contains(&k))
                } else {
                    let mut chars: Vec<char> = Vec::new();
                    push_str_chars("Expected 16 bytes of coverage data from ", &mut chars);
                    push_str_chars(self.target_observer_name.as_str(), &mut chars);
                    push_str_chars(", got ", &mut chars);
                    push_decimal(bytes.len() as u64, &mut chars);
                    let m = string_from_chars(&chars);
                    assert(m@ =~= Self::wrong_length_text(self.target_name(), bytes@.len()));
                    Err(FeedbackError::ObserverDataError(m))
                }
            },
            Some(None) => Ok(false),
            None => {
                let mut chars: Vec<char> = Vec::new();
                push_str_chars("Target observer '", &mut chars);
                push_str_chars(self.target_observer_name.as_str(), &mut chars);
                push_str_chars("' data not found in observers_data map.", &mut chars);
                let m = string_from_chars(&chars);
                assert(m@ =~= Self::missing_data_text(self.target_name()));
                Err(FeedbackError::ObserverDataError(m))
            },
        }
    }

    /// Remembers the digest of the input; when it was new, adds the input to
    /// the corpus (described as new mock coverage) and returns `true`.
    fn add_to_corpus<C: Corpus<I, OnDiskCorpusEntryMetadata>>(
        &mut self,
        input_to_add: I,
        corpus: &mut C,
    ) -> (r: Result<bool, FeedbackError>)
        ensures
            final(self).seen() == old(self).seen().insert(input_key(input_to_add.byte_view())),
            final(self).target_name() == old(self).target_name(),
            match r {
                Ok(true) => !old(self).seen().contains(input_key(input_to_add.byte_view()))
                    && final(corpus).entries() == old(corpus).entries().push(
                    (input_to_add, final(corpus).entries().last().1),
                ) && final(corpus).entries().last().1.source_description@ == "New mock coverage: "@ + lower_hex(
                    md5_digest(input_to_add.byte_view()),
                ),
                Ok(false) => old(self).seen().contains(input_key(input_to_add.byte_view()))
                    && final(corpus).entries() == old(corpus).entries(),
                Err(e) => (e matches FeedbackError::CorpusInteractionError(ce) && old(
                    corpus,
                ).add_may_fail_with(ce)) && !old(self).seen().contains(
                    input_key(input_to_add.byte_view()),
                ) && final(corpus).entries() == old(corpus).entries(),
            },
            old(corpus).add_infallible() ==> r is Ok,
    {
        match self.claim_new_input(&input_to_add) {
            Some(m) => add_admitted(corpus, input_to_add, m),
            None => Ok(false),
        }
    }
}

/// A feedback that treats an input as interesting when the digest of its own
/// bytes has not been seen before.
pub struct UniqueInputFeedback {
    known_hashes: HashSet<u128>,
}

impl UniqueInputFeedback {
    /// The keys of the input digests seen so far.
    pub closed spec fn known(&self) -> Set<u128> {
        self.known_hashes@
    }

    /// Creates a feedback that has seen nothing.
    pub fn new() -> (f: Self)
        ensures
            f.known() == Set::<u128>::empty(),
    {
        UniqueInputFeedback { known_hashes: HashSet::new() }
    }

    /// Remembers the digest of `input` as seen.
    pub fn add_known_input_hash<J: Input>(&mut self, input: &J)
        ensures
            final(self).known() == old(self).known().insert(input_key(input.byte_view())),
    {
        let digest = md5_compute(input.as_bytes());
        let k = digest_to_key(&digest);
        self.known_hashes.insert(k);
    }
    /// Remembers the digest of `input`; when it was new, returns the
    /// metadata under which the input joins the corpus.
    pub fn claim_new_input<J: Input>(&mut self, input: &J) -> (r: Option<OnDiskCorpusEntryMetadata>)
        ensures
            final(self).known() == old(self).known().insert(input_key(input.byte_view())),
            r is Some <==> !old(self).known().contains(input_key(input.byte_view())),
            r matches Some(m) ==> m.source_description@ == "Unique hash: "@ + lower_hex(
                md5_digest(input.byte_view()),
            ),
    {
        let digest = md5_compute(input.as_bytes());
        let k = digest_to_key(&digest);
        if self.known_hashes.insert(k) {
            let d = digest_description("Unique hash: ", &digest);
            Some(OnDiskCorpusEntryMetadata { source_description: d })
        } else {
            None
        }
    }
}

impl Default for UniqueInputFeedback {
    fn default() -> (f: Self)
        ensures
            f.known() == Set::<u128>::empty(),
    {
        UniqueInputFeedback::new()
    }
}

impl<I: Input> Feedback<I> for UniqueInputFeedback {
    open spec fn feedback_name(&self) -> Seq<char> {
        "UniqueInputFeedback"@
    }

    fn name(&self) -> (n: &'static str) {
        "UniqueInputFeedback"
    }

    fn init<M, C: Corpus<I, M>>(&mut self, corpus: &C) -> (r: Result<(), FeedbackError>)
        ensures
            r is Ok,
            final(self).known() == old(self).known(),
    {
        Ok(())
    }

    /// An input is interesting exactly when its digest has not been seen.
    fn is_interesting<C>(
        &mut self,
        input: &I,
        observers_data: &Vec<(&'static str, Option<Vec<u8>>)>,
        corpus: &C,
    ) -> (r: Result<bool, FeedbackError>)
        ensures
            final(self).known() == old(self).known(),
            r == Ok::<bool, FeedbackError>(!old(self).known().contains(input_key(input.byte_view()))),
    {
        let digest = md5_compute(input.as_bytes());
        let k = digest_to_key(&digest);
        Ok(!self.known_hashes.contains(&k))
    }

    /// Remembers the digest of the input; when it was new, adds the input to
    /// the corpus (described by its digest) and returns `true`.
    fn add_to_corpus<C: Corpus<I, OnDiskCorpusEntryMetadata>>(
        &mut self,
        input_to_add: I,
        corpus: &mut C,
    ) -> (r: Result<bool, FeedbackError>)
        ensures
            final(self).known() == old(self).known().insert(input_key(input_to_add.byte_view())),
            match r {
                Ok(true) => !old(self).known().contains(input_key(input_to_add.byte_view()))
                    && final(corpus).entries() == old(corpus).entries().push(
                    (input_to_add, final(corpus).entries().last().1),
                ) && final(corpus).entries().last().1.source_description@ == "Unique hash: "@ + lower_hex(
                    md5_digest(input_to_add.byte_view()),
                ),
                Ok(false) => old(self).known().contains(input_key(input_to_add.byte_view()))
                    && final(corpus).entries() == old(corpus).entries(),
                Err(e) => (e matches FeedbackError::CorpusInteractionError(ce) && old(
                    corpus,
                ).add_may_fail_with(ce)) && !old(self).known().contains(
                    input_key(input_to_add.byte_view()),
                ) && final(corpus).entries() == old(corpus).entries(),
            },
            old(corpus).add_infallible() ==> r is Ok,
    {
        match self.claim_new_input(&input_to_add) {
            Some(m) => add_admitted(corpus, input_to_add, m),
            None => Ok(false),
        }
    }
}


/// Once an input has been offered to a unique-input feedback (whether or not
/// it joined the corpus), the feedback no longer finds it interesting.
pub proof fn law_offered_input_not_interesting(
    before: UniqueInputFeedback,
    after: UniqueInputFeedback,
    input: Seq<u8>,
)
    requires
        after.known() == before.known().insert(input_key(input)),
    ensures
        after.known().contains(input_key(input)),
        forall|k: u128| before.known().contains(k) ==> after.known().contains(k),
{
}

/// Once an input has been offered to a mock coverage feedback, coverage data
/// equal to the input's digest is no longer interesting.
pub proof fn law_offered_coverage_not_interesting(
    before: MockBitmapCoverageFeedback,
    after: MockBitmapCoverageFeedback,
    input: Seq<u8>,
)
    requires
        after.seen() == before.seen().insert(input_key(input)),
    ensures
        after.seen().contains(digest_key(md5_digest(input))),
        forall|k: u128| before.seen().contains(k) ==> after.seen().contains(k),
{
}

} // verus!
