use rand_chacha::ChaCha8Rng;
use vstd::bytes::{spec_u64_from_le_bytes, spec_u64_to_le_bytes, u64_from_le_bytes};
use vstd::prelude::*;

use crate::corpus::{select_index, CorpusError, OnDiskCorpusEntryMetadata};
use crate::feedback::str_equal;
use crate::rng::next_u64;
use crate::text::{
    decimal, hex_digit, push_decimal, push_str_chars, push_zero_padded_decimal, string_from_chars,
    zero_padded_decimal,
};

verus! {

/// The file, inside the corpus directory, that holds the corpus index.
pub const INDEX_FILENAME: &'static str = "corpus_index.json";

/// The extension of the files that hold the inputs of an on-disk corpus.
pub const INPUT_FILE_EXTENSION: &'static str = "fuzzinput";

/// The bytes that bincode writes for a byte vector: its length as eight
/// little-endian bytes, then the bytes themselves.
pub open spec fn encoded_input(input: Seq<u8>) -> Seq<u8> {
    spec_u64_to_le_bytes(input.len() as u64) + input
}

/// The length that the first eight bytes of `bytes` announce.
pub open spec fn announced_len(bytes: Seq<u8>) -> u64 {
    spec_u64_from_le_bytes(bytes.take(8))
}

/// Encodes an input for an input file with `bincode::encode_to_vec`
/// (configuration: little endian, fixed-size integers, no limit).
/// For a `Vec<u8>` and this configuration bincode writes the length as a
/// little-endian `u64` followed by the bytes, and does not fail.
#[verifier::external_body]
pub(crate) fn encode_input(input: &Vec<u8>) -> (bytes: Vec<u8>)
    requires
        input@.len() <= u64::MAX,
    ensures
        bytes@ == encoded_input(input@),
{
    let config = bincode::config::standard().with_little_endian().with_fixed_int_encoding();
    bincode::encode_to_vec(input, config).unwrap()
}

/// The text of bincode's `DecodeError::UnexpectedEnd` (its `Display` is its
/// `Debug` form): `additional` more bytes were needed.
pub open spec fn unexpected_end_text(additional: nat) -> Seq<char> {
    "UnexpectedEnd { additional: "@ + decimal(additional) + " }"@
}

/// Decodes a byte vector with `bincode::decode_from_slice`, turning the
/// error into its text. Fewer than eight bytes hold no length: reading the
/// `u64` length fails with `UnexpectedEnd` for the bytes missing.
/// Otherwise, when the announced length fits in what follows (which
/// `requires` demands, as bincode allocates the announced length before
/// reading), the result is the bytes that follow the length; bytes after
/// them are ignored.
#[verifier::external_body]
fn bincode_decode_input(bytes: &[u8]) -> (r: Result<Vec<u8>, String>)
    requires
        bytes@.len() >= 8 ==> announced_len(bytes@) <= bytes@.len() - 8,
    ensures
        match r {
            Ok(v) => bytes@.len() >= 8 && v@ == bytes@.subrange(
                8,
                8 + announced_len(bytes@) as int,
            ),
            Err(t) => bytes@.len() < 8 && t@ == unexpected_end_text((8 - bytes@.len()) as nat),
        },
{
    let config = bincode::config::standard().with_little_endian().with_fixed_int_encoding();
    match bincode::decode_from_slice::<Vec<u8>, _>(bytes, config) {
        Ok((v, _)) => Ok(v),
        Err(e) => Err(e.to_string()),
    }
}

/// The text for an input file that holds no bytes.
pub open spec fn empty_file_text(path_debug: Seq<char>) -> Seq<char> {
    "Input file "@ + path_debug + " is empty, cannot deserialize."@
}

/// The text for an input file whose content does not decode.
pub open spec fn decode_failure_text(path_debug: Seq<char>, detail: Seq<char>) -> Seq<char> {
    "Bincode deserialization failed for input file "@ + path_debug + ": "@ + detail
}

/// The detail text bincode gives for a length prefix that announces more
/// bytes than follow: the length does not fit in a `usize`, or the bytes run
/// out after those that are there.
pub open spec fn overlong_text(announced: nat, available: nat) -> Seq<char> {
    if announced > usize::MAX {
        "OutsideUsizeRange("@ + decimal(announced) + ")"@
    } else {
        unexpected_end_text((announced - available) as nat)
    }
}

/// What decoding the content of an input file gives.
pub open spec fn decoded_input(content: Seq<u8>, path_debug: Seq<char>, r: Result<
    Vec<u8>,
    CorpusError,
>) -> bool {
    if content.len() == 0 {
        r matches Err(CorpusError::Deserialization(m)) && m@ == empty_file_text(path_debug)
    } else if content.len() < 8 {
        r matches Err(CorpusError::Deserialization(m)) && m@ == decode_failure_text(
            path_debug,
            unexpected_end_text((8 - content.len()) as nat),
        )
    } else if announced_len(content) > content.len() - 8 {
        r matches Err(CorpusError::Deserialization(m)) && m@ == decode_failure_text(
            path_debug,
            overlong_text(announced_len(content) as nat, (content.len() - 8) as nat),
        )
    } else {
        r matches Ok(v) && v@ == content.subrange(8, 8 + announced_len(content) as int)
    }
}

/// Decodes the content of an input file. `path_debug` is the debug
/// rendering of the file's path, used in error texts.
pub fn decode_input_file(content: &[u8], path_debug: &str) -> (r: Result<Vec<u8>, CorpusError>)
    ensures
        decoded_input(content@, path_debug@, r),
{
    if content.len() == 0 {
        let mut chars: Vec<char> = Vec::new();
        push_str_chars("Input file ", &mut chars);
        push_str_chars(path_debug, &mut chars);
        push_str_chars(" is empty, cannot deserialize.", &mut chars);
        let m = string_from_chars(&chars);
        assert(m@ =~= empty_file_text(path_debug@));
        return Err(CorpusError::Deserialization(m));
    }
    let detail: String;
    if content.len() < 8 {
        match bincode_decode_input(content) {
            Ok(v) => {
                return Ok(v);
            },
            Err(t) => {
                detail = t;
            },
        }
    } else {
        let mut prefix: Vec<u8> = Vec::new();
        let mut i: usize = 0;
        while i < 8
            invariant
                i <= 8,
                content@.len() >= 8,
                prefix@ == content@.take(i as int),
            decreases 8 - i,
        {
            prefix.push(content[i]);
            i = i + 1;
            assert(prefix@ =~= content@.take(i as int));
        }
        let announced = u64_from_le_bytes(prefix.as_slice());
        let available: usize = content.len() - 8;
        if announced > available as u64 {
            let mut chars: Vec<char> = Vec::new();
            if announced > usize::MAX as u64 {
                push_str_chars("OutsideUsizeRange(", &mut chars);
                push_decimal(announced, &mut chars);
                push_str_chars(")", &mut chars);
            } else {
                push_str_chars("UnexpectedEnd { additional: ", &mut chars);
                push_decimal(announced - available as u64, &mut chars);
                push_str_chars(" }", &mut chars);
            }
            let t = string_from_chars(&chars);
            assert(t@ =~= overlong_text(announced as nat, available as nat));
            detail = t;
        } else {
            match bincode_decode_input(content) {
                Ok(v) => {
                    return Ok(v);
                },
                Err(t) => {
                    detail = t;
                },
            }
        }
    }
    let mut chars: Vec<char> = Vec::new();
    push_str_chars("Bincode deserialization failed for input file ", &mut chars);
    push_str_chars(path_debug, &mut chars);
    push_str_chars(": ", &mut chars);
    push_str_chars(detail.as_str(), &mut chars);
    let m = string_from_chars(&chars);
    assert(m@ =~= decode_failure_text(path_debug@, detail@));
    Err(CorpusError::Deserialization(m))
}

/// Decoding what `encode_input` wrote gives the input back.
pub proof fn law_decode_after_encode(input: Seq<u8>, path_debug: Seq<char>, r: Result<
    Vec<u8>,
    CorpusError,
>)
    requires
        input.len() <= u64::MAX,
        decoded_input(encoded_input(input), path_debug, r),
    ensures
        r matches Ok(v) && v@ == input,
{
    vstd::bytes::lemma_auto_spec_u64_to_from_le_bytes();
    let e = encoded_input(input);
    let n = input.len() as u64;
    assert(spec_u64_to_le_bytes(n).len() == 8);
    assert(e.take(8) =~= spec_u64_to_le_bytes(n));
    assert(announced_len(e) == n);
    assert(e.subrange(8, 8 + n as int) =~= input);
}

/// The name (without extension) of the file that holds entry `id`:
/// `input_` and the ID padded with zeros to eight digits.
pub open spec fn stem_of(id: nat) -> Seq<char> {
    "input_"@ + zero_padded_decimal(id, 8)
}

/// Builds the file name stem of entry `id`.
pub fn filename_stem(id: usize) -> (s: String)
    ensures
        s@ == stem_of(id as nat),
{
    let mut chars: Vec<char> = Vec::new();
    push_str_chars("input_", &mut chars);
    push_zero_padded_decimal(id as u64, 8, &mut chars);
    let s = string_from_chars(&chars);
    assert(s@ =~= stem_of(id as nat));
    s
}

/// The file name of the input file with the given stem.
pub fn input_file_name(stem: &str) -> (s: String)
    ensures
        s@ == stem@ + "."@ + INPUT_FILE_EXTENSION@,
{
    let mut chars: Vec<char> = Vec::new();
    push_str_chars(stem, &mut chars);
    push_str_chars(".", &mut chars);
    push_str_chars(INPUT_FILE_EXTENSION, &mut chars);
    let s = string_from_chars(&chars);
    assert(s@ =~= stem@ + "."@ + INPUT_FILE_EXTENSION@);
    s
}

/// Whether a file found in a seed directory is left out: the corpus index
/// file, and hidden files (whose name starts with a dot).
pub fn is_skipped_seed_file_name(name: &str) -> (b: bool)
    ensures
        b == (name@ == INDEX_FILENAME@ || (name@.len() > 0 && name@[0] == '.')),
{
    if str_equal(name, INDEX_FILENAME) {
        return true;
    }
    name.unicode_len() > 0 && name.get_char(0) == '.'
}

/// Whether a seed given as a file is left out: the corpus's own index file,
/// that is, a file named `INDEX_FILENAME` (`name` is `None` for a path
/// without a file name, or one that is not valid Unicode) inside the corpus
/// directory.
pub fn is_own_index_file(name: Option<&str>, in_corpus_dir: bool) -> (b: bool)
    ensures
        b == (in_corpus_dir && (match name {
            Some(n) => n@ == INDEX_FILENAME@,
            None => false,
        })),
{
    match name {
        Some(n) => in_corpus_dir && str_equal(n, INDEX_FILENAME),
        None => false,
    }
}

/// The metadata handed to an on-disk corpus together with an input: its
/// own metadata, a bare description, or something else.
#[derive(Debug, Clone)]
pub enum MetadataSource {
    Entry(OnDiskCorpusEntryMetadata),
    Text(String),
    Other,
}

/// The text given to an entry whose metadata says nothing usable.
pub open spec fn default_entry_text(entry_count: nat) -> Seq<char> {
    "Input entry #"@ + decimal(entry_count)
}

/// The metadata that an on-disk corpus stores for an entry: metadata of its
/// own kind is kept, a bare description becomes one, and anything else is
/// described by the number of entries before it.
pub fn entry_metadata(source: MetadataSource, entry_count: usize) -> (m: OnDiskCorpusEntryMetadata)
    ensures
        match source {
            MetadataSource::Entry(e) => m == e,
            MetadataSource::Text(t) => m.source_description == t,
            MetadataSource::Other => m.source_description@ == default_entry_text(
                entry_count as nat,
            ),
        },
{
    match source {
        MetadataSource::Entry(e) => e,
        MetadataSource::Text(t) => OnDiskCorpusEntryMetadata { source_description: t },
        MetadataSource::Other => {
            let mut chars: Vec<char> = Vec::new();
            push_str_chars("Input entry #", &mut chars);
            push_decimal(entry_count as u64, &mut chars);
            let t = string_from_chars(&chars);
            assert(t@ =~= default_entry_text(entry_count as nat));
            OnDiskCorpusEntryMetadata { source_description: t }
        },
    }
}

/// The last entry read from an on-disk corpus, kept to save disk reads.
#[derive(Debug)]
pub struct CachedInput {
    pub id: usize,
    pub input: Vec<u8>,
    pub metadata: OnDiskCorpusEntryMetadata,
}

/// The metadata recorded for a file name stem in an index: the last pair
/// for that stem (a later pair replaces an earlier one).
pub open spec fn metadata_for(
    pairs: Seq<(String, OnDiskCorpusEntryMetadata)>,
    stem: Seq<char>,
) -> Option<OnDiskCorpusEntryMetadata>
    decreases pairs.len(),
{
    if pairs.len() == 0 {
        None
    } else if pairs.last().0@ == stem {
        Some(pairs.last().1)
    } else {
        metadata_for(pairs.drop_last(), stem)
    }
}

/// What the driver does to serve a read of entry `id`.
#[derive(Debug)]
pub enum Lookup {
    /// The entry is in the cache.
    Cached,
    /// Read and decode the input file with this stem, then cache it
    /// (`store_in_cache`); `metadata` is the metadata recorded for the entry.
    Load { stem: String, metadata: OnDiskCorpusEntryMetadata },
    /// There is no entry with this ID.
    Missing,
    /// The index lists the stem but holds no metadata for it.
    Inconsistent { stem: String },
}

/// An entry about to be added to an on-disk corpus: once `bytes` are
/// written to the file `file_name`, `stem` and `metadata` are recorded.
#[derive(Debug)]
pub struct PendingEntry {
    pub id: usize,
    pub stem: String,
    pub file_name: String,
    pub bytes: Vec<u8>,
    pub metadata: OnDiskCorpusEntryMetadata,
}

/// The index of an on-disk corpus: the file name stem of each entry in ID
/// order, the metadata of each stem, and a cache of the last entry read.
/// Reading and writing files is the driver's work.
pub struct OnDiskIndex {
    id_to_filename_stem: Vec<String>,
    filename_to_metadata_index: Vec<(String, OnDiskCorpusEntryMetadata)>,
    last_accessed_cache: Option<CachedInput>,
}

impl OnDiskIndex {
    /// The stem of each entry, in ID order.
    pub closed spec fn stems(&self) -> Seq<String> {
        self.id_to_filename_stem@
    }

    /// The metadata pairs, in the order they were recorded.
    pub closed spec fn metadata_pairs(&self) -> Seq<(String, OnDiskCorpusEntryMetadata)> {
        self.filename_to_metadata_index@
    }

    /// The cached entry: its ID, input bytes and metadata.
    pub closed spec fn cache(&self) -> Option<(usize, Seq<u8>, OnDiskCorpusEntryMetadata)> {
        match self.last_accessed_cache {
            Some(c) => Some((c.id, c.input@, c.metadata)),
            None => None,
        }
    }

    /// The cached entry, when there is one, is an entry of the index, and
    /// its metadata is the metadata recorded for its stem.
    #[verifier::type_invariant]
    spec fn cache_is_an_entry(self) -> bool {
        match self.last_accessed_cache {
            Some(c) => c.id < self.id_to_filename_stem@.len() && metadata_for(
                self.filename_to_metadata_index@,
                self.id_to_filename_stem@[c.id as int]@,
            ) == Some(c.metadata),
            None => true,
        }
    }

    /// `c` is the cache of an entry of this index: its ID names an entry and
    /// its metadata is the metadata recorded for that entry's stem.
    pub open spec fn is_entry_cache(&self, c: (usize, Seq<u8>, OnDiskCorpusEntryMetadata)) -> bool {
        c.0 < self.stems().len() && metadata_for(self.metadata_pairs(), self.stems()[c.0 as int]@)
            == Some(c.2)
    }

    /// An empty index.
    pub fn new() -> (x: Self)
        ensures
            x.stems().len() == 0,
            x.metadata_pairs().len() == 0,
            x.cache() is None,
    {
        OnDiskIndex {
            id_to_filename_stem: Vec::new(),
            filename_to_metadata_index: Vec::new(),
            last_accessed_cache: None,
        }
    }

    /// An index loaded from its file.
    pub fn from_parts(
        stems: Vec<String>,
        metadata: Vec<(String, OnDiskCorpusEntryMetadata)>,
    ) -> (x: Self)
        ensures
            x.stems() == stems@,
            x.metadata_pairs() == metadata@,
            x.cache() is None,
    {
        OnDiskIndex {
            id_to_filename_stem: stems,
            filename_to_metadata_index: metadata,
            last_accessed_cache: None,
        }
    }

    /// The number of entries.
    pub fn len(&self) -> (n: usize)
        ensures
            n == self.stems().len(),
    {
        self.id_to_filename_stem.len()
    }

    /// The stems, for saving the index.
    pub fn stem_list(&self) -> (s: &Vec<String>)
        ensures
            s@ == self.stems(),
    {
        &self.id_to_filename_stem
    }

    /// The metadata pairs, for saving the index.
    pub fn metadata_list(&self) -> (m: &Vec<(String, OnDiskCorpusEntryMetadata)>)
        ensures
            m@ == self.metadata_pairs(),
    {
        &self.filename_to_metadata_index
    }

    /// The ID and stem that the next added entry gets.
    pub fn next_entry(&self) -> (r: (usize, String))
        ensures
            r.0 == self.stems().len(),
            r.1@ == stem_of(r.0 as nat),
    {
        let id = self.id_to_filename_stem.len();
        (id, filename_stem(id))
    }

    /// Everything the driver needs to add `input`: the entry's ID and stem,
    /// the name of its input file, the bytes to write there, and the
    /// metadata to record (see `entry_metadata`).
    pub fn prepare_add(&self, input: &Vec<u8>, metadata: MetadataSource) -> (p: PendingEntry)
        ensures
            p.id == self.stems().len(),
            p.stem@ == stem_of(p.id as nat),
            p.file_name@ == p.stem@ + "."@ + INPUT_FILE_EXTENSION@,
            p.bytes@ == encoded_input(input@),
            match metadata {
                MetadataSource::Entry(e) => p.metadata == e,
                MetadataSource::Text(t) => p.metadata.source_description == t,
                MetadataSource::Other => p.metadata.source_description@ == default_entry_text(
                    self.stems().len(),
                ),
            },
    {
        let (id, stem) = self.next_entry();
        let file_name = input_file_name(stem.as_str());
        let n: usize = input.len();
        assert(input@.len() == n as nat);
        let bytes = encode_input(input);
        let metadata = entry_metadata(metadata, id);
        PendingEntry { id, stem, file_name, bytes, metadata }
    }

    /// Records an entry whose input file has been written. Returns the
    /// entry's ID. The cached entry stays (the driver forgets it with
    /// `forget_cache` once the index is saved), unless the new entry reuses
    /// its stem, which would give it other metadata.
    pub fn record_added(&mut self, stem: String, metadata: OnDiskCorpusEntryMetadata) -> (id: usize)
        ensures
            id == old(self).stems().len(),
            final(self).stems() == old(self).stems().push(stem),
            final(self).metadata_pairs() == old(self).metadata_pairs().push((stem, metadata)),
            match old(self).cache() {
                Some(c) => if old(self).stems()[c.0 as int]@ == stem@ {
                    final(self).cache() is None
                } else {
                    final(self).cache() == old(self).cache()
                },
                None => final(self).cache() is None,
            },
    {
        proof {
            use_type_invariant(&*self);
        }
        let id = self.id_to_filename_stem.len();
        let keep = match &self.last_accessed_cache {
            Some(c) => !str_equal(self.id_to_filename_stem[c.id].as_str(), stem.as_str()),
            None => false,
        };
        let ghost old_pairs = self.filename_to_metadata_index@;
        let ghost old_stems = self.id_to_filename_stem@;
        let mut cache: Option<CachedInput> = None;
        std::mem::swap(&mut cache, &mut self.last_accessed_cache);
        let mut stems: Vec<String> = Vec::new();
        std::mem::swap(&mut stems, &mut self.id_to_filename_stem);
        stems.push(stem.clone());
        std::mem::swap(&mut stems, &mut self.id_to_filename_stem);
        let mut pairs: Vec<(String, OnDiskCorpusEntryMetadata)> = Vec::new();
        std::mem::swap(&mut pairs, &mut self.filename_to_metadata_index);
        pairs.push((stem, metadata));
        std::mem::swap(&mut pairs, &mut self.filename_to_metadata_index);
        if keep {
            proof {
                let c = cache->Some_0;
                let cached_stem = old_stems[c.id as int]@;
                assert(self.id_to_filename_stem@[c.id as int] == old_stems[c.id as int]);
                assert(self.filename_to_metadata_index@.drop_last() =~= old_pairs);
                assert(metadata_for(self.filename_to_metadata_index@, cached_stem) == metadata_for(
                    old_pairs,
                    cached_stem,
                ));
            }
            self.last_accessed_cache = cache;
        }
        id
    }

    /// Forgets the cached entry.
    pub fn forget_cache(&mut self)
        ensures
            final(self).stems() == old(self).stems(),
            final(self).metadata_pairs() == old(self).metadata_pairs(),
            final(self).cache() is None,
    {
        self.last_accessed_cache = None;
    }

    /// Finds the metadata recorded for a stem.
    pub fn find_metadata(&self, stem: &String) -> (r: Option<&OnDiskCorpusEntryMetadata>)
        ensures
            match metadata_for(self.metadata_pairs(), stem@) {
                Some(m) => r is Some && *r->Some_0 == m,
                None => r is None,
            },
    {
        let pairs = &self.filename_to_metadata_index;
        let mut i: usize = pairs.len();
        assert(pairs@.take(i as int) =~= pairs@);
        while i > 0
            invariant
                i <= pairs@.len(),
                pairs@ == self.metadata_pairs(),
                metadata_for(pairs@, stem@) == metadata_for(pairs@.take(i as int), stem@),
            decreases i,
        {
            assert(pairs@.take(i as int).drop_last() =~= pairs@.take(i - 1));
            assert(pairs@.take(i as int).last() == pairs@[i - 1]);
            let pair = &pairs[i - 1];
            if str_equal(pair.0.as_str(), stem.as_str()) {
                assert(pair.0@ == stem@);
                assert(metadata_for(pairs@.take(i as int), stem@) == Some(pair.1));
                return Some(&pair.1);
            }
            i = i - 1;
        }
        None
    }

    /// Decides how to serve a read of entry `id`. A cached entry with this
    /// ID is served from the cache and stays there; otherwise the cache is
    /// emptied, and the index says which file to read, or that there is no
    /// such entry, or that its metadata is missing.
    pub fn lookup(&mut self, id: usize) -> (r: Lookup)
        ensures
            final(self).stems() == old(self).stems(),
            final(self).metadata_pairs() == old(self).metadata_pairs(),
            match old(self).cache() {
                Some(c) if c.0 == id => r is Cached && final(self).cache() == old(self).cache()
                    && old(self).is_entry_cache(c),
                _ => final(self).cache() is None && match r {
                    Lookup::Missing => id >= old(self).stems().len(),
                    Lookup::Load { stem, metadata } => id < old(self).stems().len() && stem
                        == old(self).stems()[id as int] && metadata_for(
                        old(self).metadata_pairs(),
                        stem@,
                    ) == Some(metadata),
                    Lookup::Inconsistent { stem } => id < old(self).stems().len() && stem
                        == old(self).stems()[id as int] && metadata_for(
                        old(self).metadata_pairs(),
                        stem@,
                    ) is None,
                    Lookup::Cached => false,
                },
            },
    {
        proof {
            use_type_invariant(&*self);
        }
        let hit = match &self.last_accessed_cache {
            Some(c) => c.id == id,
            None => false,
        };
        if hit {
            return Lookup::Cached;
        }
        self.last_accessed_cache = None;
        if id >= self.id_to_filename_stem.len() {
            return Lookup::Missing;
        }
        let stem = self.id_to_filename_stem[id].clone();
        match self.find_metadata(&stem) {
            Some(m) => Lookup::Load { stem, metadata: m.clone() },
            None => Lookup::Inconsistent { stem },
        }
    }

    /// Keeps the input just read for entry `id` in the cache, with the
    /// metadata recorded for the entry's stem. Nothing is kept (and `false`
    /// returned) for an ID that names no entry or an entry without metadata.
    pub fn store_in_cache(&mut self, id: usize, input: Vec<u8>) -> (stored: bool)
        ensures
            final(self).stems() == old(self).stems(),
            final(self).metadata_pairs() == old(self).metadata_pairs(),
            stored == (id < old(self).stems().len() && metadata_for(
                old(self).metadata_pairs(),
                old(self).stems()[id as int]@,
            ) is Some),
            stored ==> final(self).cache() == Some(
                (
                    id,
                    input@,
                    metadata_for(old(self).metadata_pairs(), old(self).stems()[id as int]@)->Some_0,
                ),
            ),
            !stored ==> final(self).cache() == old(self).cache(),
    {
        if id >= self.id_to_filename_stem.len() {
            return false;
        }
        let found = match self.find_metadata(&self.id_to_filename_stem[id]) {
            Some(m) => Some(m.clone()),
            None => None,
        };
        match found {
            Some(metadata) => {
                self.last_accessed_cache = Some(CachedInput { id, input, metadata });
                true
            },
            None => false,
        }
    }

    /// The cached entry, if any.
    pub fn cached(&self) -> (r: Option<&CachedInput>)
        ensures
            match self.cache() {
                Some(c) => r is Some && r->Some_0.id == c.0 && r->Some_0.input@ == c.1
                    && r->Some_0.metadata == c.2 && self.is_entry_cache(c),
                None => r is None,
            },
    {
        proof {
            use_type_invariant(self);
        }
        match &self.last_accessed_cache {
            Some(c) => Some(c),
            None => None,
        }
    }

    /// Picks the ID of an entry to read: the next 64 random bits modulo the
    /// number of entries. An empty index picks nothing and empties the cache.
    pub fn select(&mut self, rng: &mut ChaCha8Rng) -> (r: Option<usize>)
        ensures
            final(self).stems() == old(self).stems(),
            final(self).metadata_pairs() == old(self).metadata_pairs(),
            r is None <==> old(self).stems().len() == 0,
            r is None ==> final(self).cache() is None && *final(rng) == *old(rng),
            r is Some ==> r->Some_0 < old(self).stems().len() && final(self).cache() == old(
                self,
            ).cache(),
    {
        let n = self.id_to_filename_stem.len();
        if n == 0 {
            self.last_accessed_cache = None;
            return None;
        }
        let draw = next_u64(rng);
        Some(select_index(draw, n))
    }
}

/// An entry that was just recorded is found again: its ID names its stem,
/// and its stem names the metadata it was recorded with, whatever was
/// recorded before (a stem recorded again takes the new metadata). Once the
/// cache is emptied (`forget_cache`), `lookup` of that ID therefore answers
/// `Load` with this stem and metadata.
pub proof fn law_lookup_after_record(
    before: OnDiskIndex,
    after: OnDiskIndex,
    stem: String,
    metadata: OnDiskCorpusEntryMetadata,
    id: usize,
)
    requires
        id == before.stems().len(),
        after.stems() == before.stems().push(stem),
        after.metadata_pairs() == before.metadata_pairs().push((stem, metadata)),
    ensures
        id < after.stems().len(),
        after.stems()[id as int] == stem,
        metadata_for(after.metadata_pairs(), stem@) == Some(metadata),
        forall|j: int| 0 <= j < id ==> after.stems()[j] == before.stems()[j],
{
    assert(after.metadata_pairs().drop_last() =~= before.metadata_pairs());
}

/// Two entries with different IDs get different stems, and every stem of
/// an ID below 10^8 has the same length.
pub proof fn law_stems_distinct(a: nat, b: nat)
    requires
        a != b,
    ensures
        stem_of(a) != stem_of(b),
        a < 100_000_000 ==> stem_of(a).len() == 14,
{
    reveal_strlit("input_");
    lemma_padded_value_of(a, 8);
    lemma_padded_value_of(b, 8);
    if stem_of(a) == stem_of(b) {
        assert(stem_of(a).skip(6) =~= zero_padded_decimal(a, 8));
        assert(stem_of(b).skip(6) =~= zero_padded_decimal(b, 8));
    }
    if a < 100_000_000 {
        reveal_with_fuel(pow10, 9);
        assert(pow10(8) == 100_000_000);
        lemma_padded_value(a, 8, 100_000_000);
    }
}

/// `a` comes before `b`, a sequence of the same length, in lexicographic
/// order of character codes.
pub open spec fn lex_before(a: Seq<char>, b: Seq<char>) -> bool {
    a.len() == b.len() && exists|i: int|
        0 <= i < a.len() && #[trigger] a.take(i) == b.take(i) && (a[i] as int) < (b[i] as int)
}

/// Stems of IDs below 10^8 sort in ID order: a smaller ID gives a stem
/// that comes first in lexicographic order.
pub proof fn law_stems_sort_by_id(a: nat, b: nat)
    requires
        a < b,
        b < 100_000_000,
    ensures
        lex_before(stem_of(a), stem_of(b)),
{
    reveal_strlit("input_");
    reveal_with_fuel(pow10, 9);
    assert(pow10(8) == 100_000_000);
    lemma_padded_value(a, 8, 100_000_000);
    lemma_padded_value(b, 8, 100_000_000);
    let pa = zero_padded_decimal(a, 8);
    let pb = zero_padded_decimal(b, 8);
    lemma_padded_digits(a, 8);
    lemma_padded_digits(b, 8);
    lemma_lex_of_value(pa, pb);
    let i = choose|i: int| 0 <= i < pa.len() && #[trigger] pa.take(i) == pb.take(i) && (pa[i] as int) < (pb[i] as int);
    let prefix = "input_"@;
    let sa = stem_of(a);
    let sb = stem_of(b);
    assert(sa == prefix + pa);
    assert(sb == prefix + pb);
    assert(sa.take(i + 6) =~= prefix + pa.take(i));
    assert(sb.take(i + 6) =~= prefix + pb.take(i));
    assert(sa[i + 6] == pa[i]);
    assert(sb[i + 6] == pb[i]);
    assert(sa.take(i + 6) == sb.take(i + 6));
}

/// Every character of `s` is a decimal digit.
pub open spec fn is_digits(s: Seq<char>) -> bool {
    forall|i: int| 0 <= i < s.len() ==> '0' <= #[trigger] s[i] <= '9'
}

proof fn lemma_decimal_digits(n: nat)
    ensures
        is_digits(decimal(n)),
    decreases n,
{
    if n < 10 {
        lemma_digit_char(n as int);
    } else {
        lemma_decimal_digits(n / 10);
        lemma_digit_char((n % 10) as int);
    }
}

proof fn lemma_padded_digits(n: nat, width: nat)
    ensures
        is_digits(zero_padded_decimal(n, width)),
{
    lemma_decimal_digits(n);
    let d = decimal(n);
    if d.len() < width {
        let z = Seq::new((width - d.len()) as nat, |i: int| '0');
        let p = z + d;
        assert forall|i: int| 0 <= i < p.len() implies '0' <= #[trigger] p[i] <= '9' by {
            if i >= z.len() {
                assert(p[i] == d[i - z.len()]);
            }
        }
    }
}

/// Two digit strings of the same length that denote the same number are equal.
proof fn lemma_digits_value_injective(s: Seq<char>, t: Seq<char>)
    requires
        is_digits(s),
        is_digits(t),
        s.len() == t.len(),
        decimal_value(s) == decimal_value(t),
    ensures
        s == t,
    decreases s.len(),
{
    if s.len() > 0 {
        let s1 = s.drop_last();
        let t1 = t.drop_last();
        assert(is_digits(s1)) by {
            assert forall|i: int| 0 <= i < s1.len() implies '0' <= #[trigger] s1[i] <= '9' by {
                assert(s1[i] == s[i]);
            }
        }
        assert(is_digits(t1)) by {
            assert forall|i: int| 0 <= i < t1.len() implies '0' <= #[trigger] t1[i] <= '9' by {
                assert(t1[i] == t[i]);
            }
        }
        let x = s.last() as int - '0' as int;
        let y = t.last() as int - '0' as int;
        assert(s.last() == s[s.len() - 1]);
        assert(t.last() == t[t.len() - 1]);
        assert(0 <= x <= 9 && 0 <= y <= 9);
        assert(decimal_value(s) == decimal_value(s1) * 10 + x);
        assert(decimal_value(t) == decimal_value(t1) * 10 + y);
        assert(decimal_value(s1) == decimal_value(t1) && x == y);
        lemma_digits_value_injective(s1, t1);
        assert(s =~= s1.push(s.last()));
        assert(t =~= t1.push(t.last()));
    }
}

/// For digit strings of the same length, a smaller number comes first in
/// lexicographic order.
proof fn lemma_lex_of_value(s: Seq<char>, t: Seq<char>)
    requires
        is_digits(s),
        is_digits(t),
        s.len() == t.len(),
        decimal_value(s) < decimal_value(t),
    ensures
        lex_before(s, t),
    decreases s.len(),
{
    let n = s.len();
    if n == 0 {
        assert(decimal_value(s) == 0 && decimal_value(t) == 0);
    } else {
        let s1 = s.drop_last();
        let t1 = t.drop_last();
        assert(is_digits(s1)) by {
            assert forall|i: int| 0 <= i < s1.len() implies '0' <= #[trigger] s1[i] <= '9' by {
                assert(s1[i] == s[i]);
            }
        }
        assert(is_digits(t1)) by {
            assert forall|i: int| 0 <= i < t1.len() implies '0' <= #[trigger] t1[i] <= '9' by {
                assert(t1[i] == t[i]);
            }
        }
        let x = s.last() as int - '0' as int;
        let y = t.last() as int - '0' as int;
        assert(s.last() == s[n - 1]);
        assert(t.last() == t[n - 1]);
        assert(0 <= x <= 9 && 0 <= y <= 9);
        assert(decimal_value(s) == decimal_value(s1) * 10 + x);
        assert(decimal_value(t) == decimal_value(t1) * 10 + y);
        if decimal_value(s1) < decimal_value(t1) {
            lemma_lex_of_value(s1, t1);
            let i = choose|i: int|
                0 <= i < s1.len() && #[trigger] s1.take(i) == t1.take(i) && (s1[i] as int) < (
                t1[i] as int);
            assert(s.take(i) =~= s1.take(i));
            assert(t.take(i) =~= t1.take(i));
            assert(s[i] == s1[i] && t[i] == t1[i]);
            assert(s.take(i) == t.take(i));
        } else if decimal_value(s1) == decimal_value(t1) {
            lemma_digits_value_injective(s1, t1);
            assert(s.take(n - 1) =~= s1);
            assert(t.take(n - 1) =~= t1);
            assert(s.take(n - 1) == t.take(n - 1));
        } else {
            assert(decimal_value(s1) >= decimal_value(t1) + 1);
            assert(false);
        }
    }
}

/// The number that a string of decimal digits denotes.
pub open spec fn decimal_value(s: Seq<char>) -> int
    decreases s.len(),
{
    if s.len() == 0 {
        0
    } else {
        decimal_value(s.drop_last()) * 10 + (s.last() as int - '0' as int)
    }
}

proof fn lemma_digit_char(d: int)
    requires
        0 <= d < 10,
    ensures
        hex_digit(d) as int == '0' as int + d,
{
    assert(d == 0 || d == 1 || d == 2 || d == 3 || d == 4 || d == 5 || d == 6 || d == 7 || d == 8
        || d == 9);
}

proof fn lemma_decimal_value(n: nat)
    ensures
        decimal_value(decimal(n)) == n,
    decreases n,
{
    let d = decimal(n);
    if n < 10 {
        lemma_digit_char(n as int);
        assert(d =~= seq![hex_digit(n as int)]);
        assert(d.drop_last() =~= Seq::<char>::empty());
        assert(decimal_value(d.drop_last()) == 0);
        assert(d.last() == hex_digit(n as int));
        assert(decimal_value(d) == decimal_value(d.drop_last()) * 10 + (d.last() as int - '0' as int));
    } else {
        lemma_decimal_value(n / 10);
        lemma_digit_char((n % 10) as int);
        assert(d == decimal(n / 10).push(hex_digit((n % 10) as int)));
        assert(d.drop_last() =~= decimal(n / 10));
        assert(d.last() == hex_digit((n % 10) as int));
        assert(decimal_value(d) == decimal_value(d.drop_last()) * 10 + (d.last() as int - '0' as int));
        assert((n / 10) * 10 + n % 10 == n) by (nonlinear_arith);
    }
}

proof fn lemma_decimal_len(n: nat, k: nat, bound: nat)
    requires
        k >= 1,
        bound == pow10(k),
        n < bound,
    ensures
        decimal(n).len() <= k,
    decreases n,
{
    if n >= 10 {
        assert(k >= 2) by {
            if k == 1 {
                assert(pow10(1) == 10 * pow10(0));
            }
        }
        assert(pow10(k) == 10 * pow10((k - 1) as nat));
        assert(n / 10 < pow10((k - 1) as nat)) by (nonlinear_arith)
            requires
                n < 10 * pow10((k - 1) as nat),
        ;
        lemma_decimal_len(n / 10, (k - 1) as nat, pow10((k - 1) as nat));
    }
}

/// Ten to the power `k`.
pub open spec fn pow10(k: nat) -> nat
    decreases k,
{
    if k == 0 {
        1
    } else {
        10 * pow10((k - 1) as nat)
    }
}

proof fn lemma_zeros_value(z: Seq<char>, s: Seq<char>)
    requires
        forall|i: int| 0 <= i < z.len() ==> z[i] == '0',
    ensures
        decimal_value(z + s) == decimal_value(s),
    decreases s.len() + z.len(),
{
    if s.len() == 0 {
        assert(z + s =~= z);
        if z.len() > 0 {
            lemma_zeros_value(z.drop_last(), s);
            assert(z.drop_last() + s =~= z.drop_last());
            assert((z + s).drop_last() =~= z.drop_last());
        }
    } else {
        lemma_zeros_value(z, s.drop_last());
        assert((z + s).drop_last() =~= z + s.drop_last());
    }
}

/// Padding with zeros does not change the number a decimal denotes.
proof fn lemma_padded_value_of(n: nat, width: nat)
    ensures
        decimal_value(zero_padded_decimal(n, width)) == n,
{
    lemma_decimal_value(n);
    let d = decimal(n);
    if d.len() < width {
        let z = Seq::new((width - d.len()) as nat, |i: int| '0');
        lemma_zeros_value(z, d);
    }
}

proof fn lemma_padded_value(n: nat, width: nat, bound: nat)
    requires
        width >= 1,
        bound == pow10(width),
        n < bound,
    ensures
        decimal_value(zero_padded_decimal(n, width)) == n,
        zero_padded_decimal(n, width).len() == width,
{
    lemma_decimal_value(n);
    lemma_decimal_len(n, width, bound);
    let d = decimal(n);
    if d.len() < width {
        let z = Seq::new((width - d.len()) as nat, |i: int| '0');
        lemma_zeros_value(z, d);
    } else {
        assert(d.len() == width);
    }
}

} // verus!
