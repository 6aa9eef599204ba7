# Drifter

Drifter is an extensible fuzzing framework: inputs are picked from a corpus,
mutated, run against a target, and kept when a feedback mechanism finds them
interesting; an oracle reports the runs that crash.

## Layout

* `src/` is the library, written in Verus. Its functions carry contracts
  that the verifier proves: the mutator changes exactly one byte; an
  in-memory corpus gives back what was added; feedback mechanisms remember
  what they were shown; executors call each observer's `pre_exec` and
  `post_exec` in order and report the first failure, turn harness errors
  into crashes and give crashes precedence over observer failures; the
  on-disk index gives every entry its own stem (stems of IDs below 10^8 sort
  in ID order) and caches only real entries; and so on.
  Calls into other crates (MD5, the random number generator, bincode) go
  through a few small trusted wrappers whose contracts say what those crates
  do.
* `tests/` runs the library on concrete values.
* `app/` is the command-line fuzzer: reading the TOML configuration, file and
  process I/O, the on-disk corpus files, panics of user harnesses, and the
  JSON structure-aware mutator, which draws its decisions with
  floating-point probabilities.
