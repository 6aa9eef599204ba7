use rand_chacha::ChaCha8Rng;
use vstd::prelude::*;

use crate::input::Input;
use crate::rng::next_u64;

verus! {

/// Errors of corpus operations.
#[derive(Debug)]
pub enum CorpusError {
    /// The requested input ID is not in the corpus or its index.
    InputNotFound(usize),
    /// The corpus is empty, so no input can be selected.
    CorpusIsEmpty,
    /// Reading or writing the corpus storage failed.
    Io(String),
    /// Encoding an input or the index failed.
    Serialization(String),
    /// Decoding an input or the index failed.
    Deserialization(String),
}

/// Metadata kept for each entry of an on-disk corpus (and used by the
/// feedback mechanisms when they add inputs).
#[derive(Debug)]
pub struct OnDiskCorpusEntryMetadata {
    /// Where the entry came from or why it was kept.
    pub source_description: String,
}

impl Clone for OnDiskCorpusEntryMetadata {
    fn clone(&self) -> (m: Self)
        ensures
            m == *self,
    {
        OnDiskCorpusEntryMetadata { source_description: self.source_description.clone() }
    }
}

/// A collection of fuzzing inputs, each with metadata of type `M`, numbered
/// from 0 in the order they were added.
pub trait Corpus<I, M> {
    /// The entries in ID order.
    spec fn entries(&self) -> Seq<(I, M)>;

    /// Adding to this corpus cannot fail.
    spec fn add_infallible(&self) -> bool;

    /// `add` on this corpus may fail with the error `e`.
    spec fn add_may_fail_with(&self, e: CorpusError) -> bool;

    /// `random_select`, called with the generator in state `rng_before`,
    /// may choose entry `id` and leave the generator in state `rng_after`.
    spec fn selects(&self, rng_before: ChaCha8Rng, rng_after: ChaCha8Rng, id: usize) -> bool;

    /// Adds an input with its metadata and returns its ID, the number of
    /// entries before the addition.
    fn add(&mut self, input: I, metadata: M) -> (r: Result<usize, CorpusError>)
        ensures
            match r {
                Ok(id) => {
                    &&& id == old(self).entries().len()
                    &&& final(self).entries() == old(self).entries().push((input, metadata))
                },
                Err(e) => final(self).entries() == old(self).entries() && old(
                    self,
                ).add_may_fail_with(e),
            },
            old(self).add_infallible() ==> r is Ok,
    ;

    /// The input and metadata with the given ID, if there is such an entry.
    fn get(&mut self, id: usize) -> (r: Option<(&I, &M)>)
        ensures
            final(self).entries() == old(self).entries(),
            r is Some <==> id < old(self).entries().len(),
            r matches Some(p) ==> (*p.0, *p.1) == old(self).entries()[id as int],
    ;

    /// Picks an entry with the help of `rng`; `None` when the corpus is empty.
    fn random_select(&mut self, rng: &mut ChaCha8Rng) -> (r: Option<(usize, &I, &M)>)
        ensures
            final(self).entries() == old(self).entries(),
            r is None <==> old(self).entries().len() == 0,
            r matches Some(t) ==> t.0 < old(self).entries().len() && (*t.1, *t.2)
                == old(self).entries()[t.0 as int] && old(self).selects(*old(rng), *final(rng), t.0),
            old(self).entries().len() == 0 ==> *final(rng) == *old(rng),
    ;

    /// The number of entries.
    fn len(&self) -> (n: usize)
        ensures
            n == self.entries().len(),
    ;

    /// Whether the corpus has no entries.
    fn is_empty(&self) -> (b: bool)
        ensures
            b == (self.entries().len() == 0),
    ;
}

/// Reading back an entry gives what was added, and the entries added before
/// it are unchanged.
pub proof fn law_get_after_add<I, M, C: Corpus<I, M>>(
    before: C,
    after: C,
    input: I,
    metadata: M,
    id: usize,
)
    requires
        id == before.entries().len(),
        after.entries() == before.entries().push((input, metadata)),
    ensures
        after.entries().len() == id + 1,
        after.entries()[id as int] == (input, metadata),
        forall|j: int| 0 <= j < id ==> after.entries()[j] == before.entries()[j],
{
}

/// The index that a draw of 64 random bits selects among `len` entries.
pub open spec fn selected_index(draw: u64, len: usize) -> usize {
    ((draw as usize) % len) as usize
}

/// Maps a draw of 64 random bits to an index below `len`.
pub fn select_index(draw: u64, len: usize) -> (i: usize)
    requires
        len > 0,
    ensures
        i == selected_index(draw, len),
        i < len,
{
    (draw as usize) % len
}

/// A corpus held entirely in memory.
#[derive(Debug)]
pub struct InMemoryCorpus<I: Input, M> {
    entries: Vec<(I, M)>,
}

impl<I: Input, M> InMemoryCorpus<I, M> {
    /// Creates an empty corpus.
    pub fn new() -> (c: Self)
        ensures
            c.entries().len() == 0,
    {
        InMemoryCorpus { entries: Vec::new() }
    }
}

impl<I: Input, M> Default for InMemoryCorpus<I, M> {
    fn default() -> (c: Self)
        ensures
            c.entries().len() == 0,
    {
        Self::new()
    }
}

impl<I: Input, M> Corpus<I, M> for InMemoryCorpus<I, M> {
    closed spec fn entries(&self) -> Seq<(I, M)> {
        self.entries@
    }

    open spec fn add_infallible(&self) -> bool {
        true
    }

    open spec fn add_may_fail_with(&self, e: CorpusError) -> bool {
        false
    }

    /// The entry whose index is some draw of 64 random bits modulo the
    /// number of entries.
    open spec fn selects(&self, rng_before: ChaCha8Rng, rng_after: ChaCha8Rng, id: usize) -> bool {
        exists|draw: u64| id == #[trigger] selected_index(draw, self.entries().len() as usize)
    }

    /// Never fails.
    fn add(&mut self, input: I, metadata: M) -> (r: Result<usize, CorpusError>)
        ensures
            r is Ok,
    {
        let id = self.entries.len();
        self.entries.push((input, metadata));
        Ok(id)
    }

    fn get(&mut self, id: usize) -> (r: Option<(&I, &M)>) {
        if id < self.entries.len() {
            let e = &self.entries[id];
            Some((&e.0, &e.1))
        } else {
            None
        }
    }

    /// Selects the entry whose index is the next 64 random bits of `rng`
    /// modulo the number of entries.
    fn random_select(&mut self, rng: &mut ChaCha8Rng) -> (r: Option<(usize, &I, &M)>) {
        if self.entries.len() == 0 {
            return None;
        }
        let draw = next_u64(rng);
        let index = select_index(draw, self.entries.len());
        assert(index == selected_index(draw, self.entries().len() as usize));
        let e = &self.entries[index];
        Some((index, &e.0, &e.1))
    }

    fn len(&self) -> (n: usize) {
        self.entries.len()
    }

    fn is_empty(&self) -> (b: bool) {
        self.entries.len() == 0
    }
}

} // verus!
