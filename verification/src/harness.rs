use vstd::prelude::*;

verus! {

/// `pattern` occurs in `data` as a contiguous run of bytes.
pub open spec fn contains_run(data: Seq<u8>, pattern: Seq<u8>) -> bool {
    exists|i: int|
        0 <= i && i + pattern.len() <= data.len() && #[trigger] data.subrange(
            i,
            i + pattern.len(),
        ) == pattern
}

/// The bytes `BAD`.
pub open spec fn bad_marker() -> Seq<u8> {
    seq![66u8, 65u8, 68u8]
}

/// The bytes `CRASH`.
pub open spec fn crash_marker() -> Seq<u8> {
    seq![67u8, 82u8, 65u8, 83u8, 72u8]
}

/// Whether `pattern` occurs in `data` as a contiguous run of bytes.
pub fn contains_bytes(data: &[u8], pattern: &[u8]) -> (b: bool)
    ensures
        b == contains_run(data@, pattern@),
{
    let n = data.len();
    let m = pattern.len();
    if m > n {
        proof {
            assert forall|i: int| 0 <= i && i + m <= n implies #[trigger] data@.subrange(
                i,
                i + m,
            ) != pattern@ by {}
        }
        return false;
    }
    let mut i: usize = 0;
    while i <= n - m
        invariant
            m <= n,
            n == data@.len(),
            m == pattern@.len(),
            i <= n - m + 1,
            forall|k: int| 0 <= k < i ==> #[trigger] data@.subrange(k, k + m) != pattern@,
        decreases n - i,
    {
        let mut j: usize = 0;
        let mut same = true;
        while j < m
            invariant
                i + m <= n,
                n == data@.len(),
                m == pattern@.len(),
                j <= m,
                same == (forall|t: int| 0 <= t < j ==> data@[i + t] == pattern@[t]),
            decreases m - j,
        {
            if data[i + j] != pattern[j] {
                same = false;
            }
            j = j + 1;
        }
        if same {
            assert(data@.subrange(i as int, i + m) =~= pattern@);
            return true;
        }
        proof {
            let t = choose|t: int| 0 <= t < m && data@[i + t] != pattern@[t];
            assert(data@.subrange(i as int, i + m)[t] == data@[i + t]);
        }
        i = i + 1;
    }
    false
}

/// A demonstration harness for in-process fuzzing. It fails on inputs that
/// contain `BAD` or `CRASH` (`BAD` is reported first), and accepts everything
/// else.
pub fn dummy_harness(data: &[u8]) -> (r: Result<(), String>)
    ensures
        match r {
            Ok(()) => !contains_run(data@, bad_marker()) && !contains_run(data@, crash_marker()),
            Err(m) => if contains_run(data@, bad_marker()) {
                m@ == "BAD input detected by dummy_harness!"@
            } else {
                contains_run(data@, crash_marker()) && m@
                    == "CRASH input detected by dummy_harness!"@
            },
        },
{
    let bad: [u8; 3] = [66u8, 65u8, 68u8];
    let crash: [u8; 5] = [67u8, 82u8, 65u8, 83u8, 72u8];
    assert(bad@ =~= bad_marker());
    assert(crash@ =~= crash_marker());
    if contains_bytes(data, &bad) {
        return Err("BAD input detected by dummy_harness!".to_owned());
    }
    if contains_bytes(data, &crash) {
        return Err("CRASH input detected by dummy_harness!".to_owned());
    }
    Ok(())
}

} // verus!
