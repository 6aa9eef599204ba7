use rand_chacha::ChaCha8Rng;
use vstd::prelude::*;

use crate::rng::{random_index, random_u8_inclusive};
use crate::text::string_from_chars;

verus! {

/// The smallest amount that `FlipSingleByteMutator` adds to a byte.
pub const FLIP_DELTA_MIN: u8 = 1;

/// The largest amount that `FlipSingleByteMutator` adds to a byte.
pub const FLIP_DELTA_MAX: u8 = 15;

/// Transforms an input into a new, potentially different input.
///
/// `corpus_opt` gives a mutator access to the current corpus, should it want
/// to draw material from it; the mutators of this library do not use it.
pub trait Mutator<I> {
    fn mutate<C>(
        &mut self,
        input_opt: Option<&I>,
        rng: &mut ChaCha8Rng,
        corpus_opt: Option<&C>,
    ) -> Result<I, String>;
}

/// The bytes a single-byte flip starts from: the given input, or a single zero
/// byte when there is no input or the input is empty.
pub open spec fn flip_base(input_opt: Option<Seq<u8>>) -> Seq<u8> {
    match input_opt {
        Some(s) => if s.len() == 0 {
            seq![0u8]
        } else {
            s
        },
        None => seq![0u8],
    }
}

/// `out` is `base` with the byte at `index` increased by `delta`, wrapping at 256.
pub open spec fn byte_added(base: Seq<u8>, index: int, delta: int, out: Seq<u8>) -> bool {
    &&& 0 <= index < base.len()
    &&& out == base.update(index, ((base[index] + delta) % 256) as u8)
}

/// `out` comes from `base` by adding an amount in `FLIP_DELTA_MIN..=FLIP_DELTA_MAX`
/// to exactly one byte.
pub open spec fn is_single_byte_flip(base: Seq<u8>, out: Seq<u8>) -> bool {
    exists|index: int, delta: int|
        FLIP_DELTA_MIN <= delta <= FLIP_DELTA_MAX && #[trigger] byte_added(base, index, delta, out)
}

/// Adds `delta` (wrapping) to the byte at `index`.
pub fn add_to_byte(bytes: Vec<u8>, index: usize, delta: u8) -> (out: Vec<u8>)
    requires
        index < bytes@.len(),
    ensures
        byte_added(bytes@, index as int, delta as int, out@),
{
    let mut out = bytes;
    let old_byte = out[index];
    let new_byte = old_byte.wrapping_add(delta);
    assert(new_byte == ((old_byte + delta) % 256) as u8) by (bit_vector)
        requires
            new_byte == old_byte.wrapping_add(delta),
    ;
    out.set(index, new_byte);
    out
}

/// A mutator that adds a small random amount (1 to 15, wrapping) to one
/// randomly chosen byte of the input.
///
/// An empty input, or no input at all, is treated as a single zero byte.
pub struct FlipSingleByteMutator;

impl FlipSingleByteMutator {
    /// Mutates the input as `Mutator::mutate` does, drawing the amount and the
    /// position from `rng`.
    pub fn flip(&self, input_opt: Option<&Vec<u8>>, rng: &mut ChaCha8Rng) -> (out: Vec<u8>)
        ensures
            is_single_byte_flip(
                flip_base(
                    match input_opt {
                        Some(v) => Some(v@),
                        None => None,
                    },
                ),
                out@,
            ),
            out@.len() == flip_base(
                match input_opt {
                    Some(v) => Some(v@),
                    None => None,
                },
            ).len(),
            out@ != flip_base(
                match input_opt {
                    Some(v) => Some(v@),
                    None => None,
                },
            ),
            match input_opt {
                Some(v) if v@.len() > 0 => exists|i: int, d: int|
                    0 <= i < v@.len() && 1 <= d <= 15 && #[trigger] v@.update(
                        i,
                        ((v@[i] + d) % 256) as u8,
                    ) == out@,
                _ => out@.len() == 1 && 1 <= out@[0] <= 15,
            },
    {
        let mut bytes: Vec<u8> = match input_opt {
            Some(v) => v.clone(),
            None => vec![0u8],
        };
        if bytes.len() == 0 {
            bytes.push(0);
        }
        let ghost base = bytes@;
        proof {
            let opt = match input_opt {
                Some(v) => Some(v@),
                None => None,
            };
            assert(base =~= flip_base(opt));
        }
        let delta = random_u8_inclusive(rng, FLIP_DELTA_MIN, FLIP_DELTA_MAX);
        let index = random_index(rng, bytes.len());
        let out = add_to_byte(bytes, index, delta);
        assert(byte_added(base, index as int, delta as int, out@));
        proof {
            match input_opt {
                Some(v) => {
                    if v@.len() > 0 {
                        assert(base == v@);
                        assert(v@.update(index as int, ((v@[index as int] + delta) % 256) as u8)
                            == out@);
                    } else {
                        assert(out@[0] == ((0 + delta as int) % 256) as u8);
                    }
                },
                None => {
                    assert(out@[0] == ((0 + delta as int) % 256) as u8);
                },
            }
        }
        proof {
            lemma_single_byte_flip_changes(base, out@);
        }
        out
    }
}

impl Mutator<Vec<u8>> for FlipSingleByteMutator {
    /// Never fails; the result is the input with one byte changed (see `flip`).
    fn mutate<C>(
        &mut self,
        input_opt: Option<&Vec<u8>>,
        rng: &mut ChaCha8Rng,
        corpus_opt: Option<&C>,
    ) -> (r: Result<Vec<u8>, String>)
        ensures
            r is Ok,
            is_single_byte_flip(
                flip_base(
                    match input_opt {
                        Some(v) => Some(v@),
                        None => None,
                    },
                ),
                r->Ok_0@,
            ),
            r->Ok_0@.len() == flip_base(
                match input_opt {
                    Some(v) => Some(v@),
                    None => None,
                },
            ).len(),
            r->Ok_0@ != flip_base(
                match input_opt {
                    Some(v) => Some(v@),
                    None => None,
                },
            ),
            match input_opt {
                Some(v) if v@.len() > 0 => exists|i: int, d: int|
                    0 <= i < v@.len() && 1 <= d <= 15 && #[trigger] v@.update(
                        i,
                        ((v@[i] + d) % 256) as u8,
                    ) == r->Ok_0@,
                _ => r->Ok_0@.len() == 1 && 1 <= r->Ok_0@[0] <= 15,
            },
    {
        Ok(self.flip(input_opt, rng))
    }
}

/// A single-byte flip keeps the length and always changes the input.
pub proof fn lemma_single_byte_flip_changes(base: Seq<u8>, out: Seq<u8>)
    requires
        is_single_byte_flip(base, out),
    ensures
        out.len() == base.len(),
        out != base,
{
    let (index, delta) = choose|index: int, delta: int|
        FLIP_DELTA_MIN <= delta <= FLIP_DELTA_MAX && #[trigger] byte_added(base, index, delta, out);
    assert(out[index] != base[index]);
}


/// The default maximum nesting depth of the structure-aware JSON mutator.
pub const DEFAULT_JSON_MAX_MUTATION_DEPTH: usize = 10;

/// The maximum nesting depth a JSON mutator works with: the requested one,
/// or the default when zero is requested.
pub fn effective_max_depth(requested: usize) -> (d: usize)
    ensures
        d == (if requested == 0 {
            DEFAULT_JSON_MAX_MUTATION_DEPTH
        } else {
            requested
        }),
        d > 0,
{
    if requested == 0 {
        DEFAULT_JSON_MAX_MUTATION_DEPTH
    } else {
        requested
    }
}

/// `c` is an ASCII letter.
pub open spec fn is_ascii_letter(c: char) -> bool {
    ('a' <= c && c <= 'z') || ('A' <= c && c <= 'Z')
}

/// `c` with the case of an ASCII letter swapped.
pub open spec fn swapped_case(c: char) -> char {
    if 'a' <= c && c <= 'z' {
        ((c as int) - 32) as char
    } else if 'A' <= c && c <= 'Z' {
        ((c as int) + 32) as char
    } else {
        c
    }
}

/// The character that the JSON mutator puts at a position of a string:
/// when asked to swap case and the character is an ASCII letter, the same
/// letter in the other case; otherwise the printable ASCII `replacement`.
pub open spec fn mutated_char(c: char, swap_case: bool, replacement: u8) -> char {
    if swap_case && is_ascii_letter(c) {
        swapped_case(c)
    } else {
        replacement as char
    }
}

/// Changes the character at `index` of a JSON string as `mutated_char` says.
pub fn mutate_string_at(s: &str, index: usize, swap_case: bool, replacement: u8) -> (r: String)
    requires
        index < s@.len(),
        32 <= replacement < 127,
    ensures
        r@ == s@.update(index as int, mutated_char(s@[index as int], swap_case, replacement)),
{
    let n = s.unicode_len();
    let mut chars: Vec<char> = Vec::new();
    let mut i: usize = 0;
    while i < n
        invariant
            n == s@.len(),
            index < n,
            i <= n,
            32 <= replacement < 127,
            chars@.len() == i,
            forall|j: int|
                0 <= j < i ==> #[trigger] chars@[j] == (if j == index {
                    mutated_char(s@[index as int], swap_case, replacement)
                } else {
                    s@[j]
                }),
        decreases n - i,
    {
        let c = s.get_char(i);
        if i == index {
            let new_c: char = if swap_case && c >= 'a' && c <= 'z' {
                ((c as u32) - 32) as u8 as char
            } else if swap_case && c >= 'A' && c <= 'Z' {
                ((c as u32) + 32) as u8 as char
            } else {
                replacement as char
            };
            chars.push(new_c);
        } else {
            chars.push(c);
        }
        i = i + 1;
    }
    assert(chars@ =~= s@.update(index as int, mutated_char(s@[index as int], swap_case, replacement)));
    string_from_chars(&chars)
}


/// `x` clamped to the range of `i64`.
pub open spec fn saturated_i64(x: int) -> i64 {
    if x > i64::MAX {
        i64::MAX
    } else if x < i64::MIN {
        i64::MIN
    } else {
        x as i64
    }
}

/// Adds `delta` to a JSON integer, saturating at the bounds of `i64`
/// (as `i64::saturating_add` does).
pub fn nudge_i64(value: i64, delta: i64) -> (r: i64)
    ensures
        r == saturated_i64(value + delta),
{
    let sum: i128 = (value as i128) + (delta as i128);
    if sum > i64::MAX as i128 {
        i64::MAX
    } else if sum < i64::MIN as i128 {
        i64::MIN
    } else {
        sum as i64
    }
}

} // verus!
