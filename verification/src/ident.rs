//! Identifiers, timestamps and what an operation takes from outside.

use vstd::prelude::*;
use vstd::relations::injective_on;
use vstd::seq_lib::seq_to_set_is_finite;
use vstd::set_lib::{lemma_int_range, lemma_len_subset, lemma_map_size, set_int_range};
use crate::model::{has_id, CycleMetaView};
use crate::outside::{random_u64, seconds_since_epoch};
use crate::paths::{platform_has_verbatim_paths, verbatim_paths_here};
use crate::text::{
    copy_str, decimal, lemma_lower_hex_injective, lower_hex, push_lower_hex, to_decimal,
};

verus! {

/// Prefix of the id of every cycle.
pub const CYCLE_ID_PREFIX: &'static str = "cycle";

/// What an operation takes from outside the library: a random number, the
/// clock and the path syntax of the platform.
#[derive(Clone, Copy, Debug, PartialEq, Eq, Structural)]
pub struct Ambient {
    /// Random number from which fresh ids are derived.
    pub random: u64,
    /// Seconds since the Unix epoch.
    pub unix_seconds: u64,
    /// Whether the platform writes verbatim paths.
    pub verbatim_paths: bool,
}

/// The seconds that a reading of the clock counts as: the reading itself,
/// and zero for a clock that stands before the Unix epoch.
pub open spec fn clock_seconds(clock: Option<u64>) -> u64 {
    match clock {
        Some(seconds) => seconds,
        None => 0,
    }
}

impl Ambient {
    /// What is taken from a random number, a reading of the clock and the
    /// path syntax of a platform.
    pub open spec fn of_readings(random: u64, clock: Option<u64>, verbatim_paths: bool) -> Ambient {
        Ambient { random, unix_seconds: clock_seconds(clock), verbatim_paths }
    }

    /// Draws a random number, reads the clock and asks the platform for its
    /// path syntax. A clock that stands before the Unix epoch reads as zero.
    pub fn capture() -> (ambient: Ambient)
        ensures
            ambient.verbatim_paths == verbatim_paths_here(),
            exists|random: u64, clock: Option<u64>|
                ambient == #[trigger] Ambient::of_readings(random, clock, verbatim_paths_here()),
    {
        let clock = seconds_since_epoch();
        let random = random_u64();
        let ambient = Ambient::from_readings(random, clock, platform_has_verbatim_paths());
        assert(ambient == Ambient::of_readings(random, clock, verbatim_paths_here()));
        ambient
    }

    /// What is taken from a random number, a reading of the clock, which is
    /// `None` where the clock stands before the Unix epoch, and the path
    /// syntax of a platform.
    pub fn from_readings(random: u64, clock: Option<u64>, verbatim_paths: bool) -> (ambient:
        Ambient)
        ensures
            ambient == Ambient::of_readings(random, clock, verbatim_paths),
    {
        let unix_seconds = match clock {
            Some(seconds) => seconds,
            None => 0,
        };
        Ambient { random, unix_seconds, verbatim_paths }
    }
}

/// The id made of `prefix` and the number `n`: the prefix, an underscore and
/// `n` in lower case hexadecimal.
pub open spec fn uid_text(prefix: Seq<char>, n: u64) -> Seq<char> {
    prefix + seq!['_'] + lower_hex(n as nat)
}

/// The id of a cycle made of the number `n`.
pub open spec fn cycle_id(n: u64) -> Seq<char> {
    uid_text(CYCLE_ID_PREFIX@, n)
}

/// The timestamp of the second `seconds` after the Unix epoch: the number
/// in decimal.
pub open spec fn timestamp(seconds: u64) -> Seq<char> {
    decimal(seconds as nat)
}

/// Different numbers make different ids under one prefix.
pub proof fn lemma_uid_injective(prefix: Seq<char>, a: u64, b: u64)
    requires
        uid_text(prefix, a) == uid_text(prefix, b),
    ensures
        a == b,
{
    let head = prefix + seq!['_'];
    assert(uid_text(prefix, a).skip(head.len() as int) =~= lower_hex(a as nat));
    assert(uid_text(prefix, b).skip(head.len() as int) =~= lower_hex(b as nat));
    lemma_lower_hex_injective(a as nat, b as nat);
}

/// An id is longer than its prefix, so it is never empty.
pub proof fn lemma_uid_nonempty(prefix: Seq<char>, n: u64)
    ensures
        uid_text(prefix, n).len() > prefix.len(),
{
}

/// The id made of `prefix` and `n`.
pub fn uid_from(prefix: &str, n: u64) -> (id: String)
    ensures
        id@ == uid_text(prefix@, n),
{
    let mut id = copy_str(prefix);
    id.push('_');
    push_lower_hex(&mut id, n);
    assert(id@ =~= uid_text(prefix@, n));
    id
}

/// An id made of `prefix` and a random number.
pub fn uid(prefix: &str) -> (id: String)
    ensures
        exists|n: u64| id@ == #[trigger] uid_text(prefix@, n),
{
    let n = random_u64();
    let id = uid_from(prefix, n);
    assert(id@ == uid_text(prefix@, n));
    id
}

/// The timestamp of the second `seconds` after the Unix epoch.
pub fn format_timestamp(seconds: u64) -> (stamp: String)
    ensures
        stamp@ == timestamp(seconds),
{
    to_decimal(seconds)
}

/// The timestamp of the present second; of zero where the clock stands
/// before the Unix epoch.
pub fn now_iso() -> (stamp: String)
    ensures
        exists|seconds: u64| stamp@ == #[trigger] timestamp(seconds),
{
    let seconds = match seconds_since_epoch() {
        Some(seconds) => seconds,
        None => 0,
    };
    let stamp = format_timestamp(seconds);
    assert(stamp@ == timestamp(seconds));
    stamp
}

/// The number tried `k` steps after `seed`: their sum, wrapping around at
/// the end of the 64-bit range.
pub open spec fn probe(seed: u64, k: int) -> u64 {
    if seed + k <= u64::MAX {
        (seed + k) as u64
    } else {
        (seed + k - 0x1_0000_0000_0000_0000) as u64
    }
}

/// The id tried `k` steps after `seed`.
pub open spec fn candidate(seed: u64, k: int) -> Seq<char> {
    cycle_id(probe(seed, k))
}

/// Whether `k` is the first step at which the candidate id is not the id of
/// any cycle of `cycles`.
pub open spec fn is_fresh_offset(cycles: Seq<CycleMetaView>, seed: u64, k: int) -> bool {
    &&& 0 <= k
    &&& !has_id(cycles, candidate(seed, k))
    &&& forall|j: int| 0 <= j < k ==> has_id(cycles, #[trigger] candidate(seed, j))
}

/// The first step at which the candidate id is unused.
pub open spec fn fresh_offset(cycles: Seq<CycleMetaView>, seed: u64) -> int {
    choose|k: int| is_fresh_offset(cycles, seed, k)
}

/// The id of a new cycle: the first candidate after `seed` that no cycle of
/// `cycles` has.
pub open spec fn fresh_cycle_id(cycles: Seq<CycleMetaView>, seed: u64) -> Seq<char> {
    candidate(seed, fresh_offset(cycles, seed))
}

/// Within one turn of the 64-bit range, different steps try different ids.
pub proof fn lemma_candidate_injective(seed: u64, a: int, b: int)
    requires
        0 <= a < 0x1_0000_0000_0000_0000,
        0 <= b < 0x1_0000_0000_0000_0000,
        candidate(seed, a) == candidate(seed, b),
    ensures
        a == b,
{
    lemma_uid_injective(CYCLE_ID_PREFIX@, probe(seed, a), probe(seed, b));
}

/// Among the first `cycles.len() + 1` candidates at least one is unused:
/// they are all different, and there are more of them than cycles.
pub proof fn lemma_some_candidate_unused(cycles: Seq<CycleMetaView>, seed: u64)
    requires
        cycles.len() < 0x1_0000_0000_0000_0000,
    ensures
        exists|k: int| 0 <= k <= cycles.len() && !has_id(cycles, #[trigger] candidate(seed, k)),
{
    broadcast use seq_to_set_is_finite;

    if forall|k: int| 0 <= k <= cycles.len() ==> has_id(cycles, #[trigger] candidate(seed, k)) {
        let len = cycles.len() as int;
        let offsets = set_int_range(0, len + 1);
        lemma_int_range(0, len + 1);
        let f = |k: int| candidate(seed, k);
        assert(injective_on(f, offsets)) by {
            assert forall|a: int, b: int|
                offsets.contains(a) && offsets.contains(b) && #[trigger] f(a) == #[trigger] f(
                    b,
                ) implies a == b by {
                lemma_candidate_injective(seed, a, b);
            }
        }
        let candidates = offsets.map(f);
        lemma_map_size(offsets, candidates, f);
        let ids = cycles.map_values(|cycle: CycleMetaView| cycle.id);
        ids.lemma_cardinality_of_set();
        assert forall|id: Seq<char>| candidates.contains(id) implies ids.to_set().contains(id) by {
            let k = choose|k: int| offsets.contains(k) && id == f(k);
            assert(has_id(cycles, candidate(seed, k)));
            let i = choose|i: int| 0 <= i < cycles.len() && (#[trigger] cycles[i]).id == id;
            assert(ids[i] == id);
        }
        assert(candidates.subset_of(ids.to_set()));
        lemma_len_subset(candidates, ids.to_set());
        assert(false);
    }
}

/// Below an unused candidate there is a first unused one.
proof fn lemma_first_unused(cycles: Seq<CycleMetaView>, seed: u64, k: int)
    requires
        0 <= k,
        !has_id(cycles, candidate(seed, k)),
    ensures
        exists|first: int| first <= k && is_fresh_offset(cycles, seed, first),
    decreases k,
{
    if forall|j: int| 0 <= j < k ==> has_id(cycles, #[trigger] candidate(seed, j)) {
        assert(is_fresh_offset(cycles, seed, k));
    } else {
        let j = choose|j: int| 0 <= j < k && !has_id(cycles, #[trigger] candidate(seed, j));
        lemma_first_unused(cycles, seed, j);
    }
}

/// There is only one first unused candidate.
pub proof fn lemma_fresh_offset_unique(cycles: Seq<CycleMetaView>, seed: u64, a: int, b: int)
    requires
        is_fresh_offset(cycles, seed, a),
        is_fresh_offset(cycles, seed, b),
    ensures
        a == b,
{
    if a < b {
        assert(has_id(cycles, candidate(seed, a)));
    } else if b < a {
        assert(has_id(cycles, candidate(seed, b)));
    }
}

/// A fresh id is the id of no cycle that is already known, it is found
/// within `cycles.len()` steps, and it is not empty.
pub proof fn lemma_fresh_cycle_id_unused(cycles: Seq<CycleMetaView>, seed: u64)
    requires
        cycles.len() < 0x1_0000_0000_0000_0000,
    ensures
        is_fresh_offset(cycles, seed, fresh_offset(cycles, seed)),
        fresh_offset(cycles, seed) <= cycles.len(),
        !has_id(cycles, fresh_cycle_id(cycles, seed)),
        fresh_cycle_id(cycles, seed).len() > 0,
{
    lemma_some_candidate_unused(cycles, seed);
    let k = choose|k: int| 0 <= k <= cycles.len() && !has_id(cycles, #[trigger] candidate(seed, k));
    lemma_first_unused(cycles, seed, k);
    let first = choose|first: int| first <= k && is_fresh_offset(cycles, seed, first);
    lemma_fresh_offset_unique(cycles, seed, first, fresh_offset(cycles, seed));
}

} // verus!
