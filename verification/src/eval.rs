//! Rollout buckets and the evaluation rules for flags.
use std::collections::hash_map::DefaultHasher;
use std::hash::Hasher;
use vstd::prelude::*;
use vstd::std_specs::hash::DefaultHasherAdditionalSpecFns;
use vstd::utf8::encode_utf8;

use crate::flag::{Flag, FlagName, FlagView};

verus! {

/// The bytes that hashing a `str` feeds to a hasher: its UTF-8 encoding,
/// followed by the terminator byte `0xff`.
pub open spec fn str_hash_writes(s: Seq<char>) -> Seq<Seq<u8>> {
    seq![encode_utf8(s), seq![0xffu8]]
}

/// The hasher writes for a flag name followed by a user id.
pub open spec fn bucket_writes(flag_name: Seq<char>, user_id: Seq<char>) -> Seq<Seq<u8>> {
    str_hash_writes(flag_name) + str_hash_writes(user_id)
}

/// The hasher writes for a flag name, a user id and, if given, an org id.
pub open spec fn bucket_writes_with_org(
    flag_name: Seq<char>,
    user_id: Seq<char>,
    org_id: Option<Seq<char>>,
) -> Seq<Seq<u8>> {
    match org_id {
        Some(org) => bucket_writes(flag_name, user_id) + str_hash_writes(org),
        None => bucket_writes(flag_name, user_id),
    }
}

/// Digests at or above this bound are rejected: it is the largest multiple
/// of 100 that is at most `2^64`, so the accepted digests `0..UNBIASED_LIMIT`
/// fall into the 100 buckets in equal numbers.
pub const UNBIASED_LIMIT: u64 = 18446744073709551600;

/// The most extra rounds taken before the last digest is used as it is; it
/// only gives the rejection loop a measure.
pub const MAX_ROUNDS: u64 = 18446744073709551615;

/// The given writes followed by `n` retry writes, each the single byte `0`.
pub open spec fn retry_writes(writes: Seq<Seq<u8>>, n: nat) -> Seq<Seq<u8>> {
    writes + Seq::new(n, |i: int| seq![0u8])
}

/// The SipHash digest after `n` retry writes.
pub open spec fn round_digest(writes: Seq<Seq<u8>>, n: nat) -> u64 {
    DefaultHasher::spec_finish(retry_writes(writes, n))
}

/// The bucket reached from round `n` on: the first digest below
/// `UNBIASED_LIMIT`, reduced modulo 100.
pub open spec fn unbiased_bucket_from(writes: Seq<Seq<u8>>, n: nat) -> u8
    decreases MAX_ROUNDS - n,
{
    if round_digest(writes, n) < UNBIASED_LIMIT || n >= MAX_ROUNDS {
        (round_digest(writes, n) % 100) as u8
    } else {
        unbiased_bucket_from(writes, n + 1)
    }
}

/// The bucket `0..100` of the given writes, without modulo bias: a digest at
/// or above `UNBIASED_LIMIT` is rejected, a retry byte is written and the
/// digest taken again.
pub open spec fn unbiased_bucket(writes: Seq<Seq<u8>>) -> u8 {
    unbiased_bucket_from(writes, 0)
}

/// The rollout bucket of a user for a flag.
pub open spec fn bucket_value(flag_name: Seq<char>, user_id: Seq<char>) -> u8 {
    unbiased_bucket(bucket_writes(flag_name, user_id))
}

/// The bucket of a user for a flag that also takes an org into account.
pub open spec fn bucket_value_with_org(
    flag_name: Seq<char>,
    user_id: Seq<char>,
    org_id: Option<Seq<char>>,
) -> u8 {
    unbiased_bucket(bucket_writes_with_org(flag_name, user_id, org_id))
}

/// Feeds `s` to the hasher the way `str::hash` does: its bytes, then `0xff`.
fn hash_str(hasher: &mut DefaultHasher, s: &str)
    ensures
        final(hasher)@ == old(hasher)@ + str_hash_writes(s@),
{
    hasher.write(s.as_bytes());
    let terminator: [u8; 1] = [0xff];
    hasher.write(&terminator);
    assert(terminator@ =~= seq![0xffu8]);
    assert(final(hasher)@ =~= old(hasher)@ + str_hash_writes(s@));
}

/// Reduces the hasher's digest to a bucket `0..100` without modulo bias:
/// while the digest is at or above `UNBIASED_LIMIT`, writes the retry byte
/// `0` and takes the digest again.
fn unbiased_reduce(hasher: &mut DefaultHasher) -> (b: u8)
    ensures
        b == unbiased_bucket(old(hasher)@),
        b < 100,
{
    let ghost writes = hasher@;
    let mut rounds: u64 = 0;
    assert(retry_writes(writes, 0) =~= writes);
    let mut digest = (*hasher).finish();
    while digest >= UNBIASED_LIMIT && rounds < MAX_ROUNDS
        invariant
            hasher@ == retry_writes(writes, rounds as nat),
            digest == DefaultHasher::spec_finish(hasher@),
            unbiased_bucket_from(writes, rounds as nat) == unbiased_bucket(writes),
        decreases MAX_ROUNDS - rounds,
    {
        let retry: [u8; 1] = [0];
        hasher.write(&retry);
        assert(retry@ =~= seq![0u8]);
        rounds = rounds + 1;
        assert(hasher@ =~= retry_writes(writes, rounds as nat));
        digest = (*hasher).finish();
    }
    (digest % 100) as u8
}

/// Deterministic bucket `0..100` for a given flag and user.
///
/// Uses `DefaultHasher` (SipHash) over `flag_name` and `user_id`, hashing
/// each as `str::hash` does, and reduces the digest modulo 100 after
/// rejecting the top 16 digests (see `UNBIASED_LIMIT`), so that no bucket is
/// favoured.
pub fn bucket(flag_name: &str, user_id: &str) -> (b: u8)
    ensures
        b == bucket_value(flag_name@, user_id@),
        b == unbiased_bucket(
            seq![encode_utf8(flag_name@), seq![0xffu8], encode_utf8(user_id@), seq![0xffu8]],
        ),
        b < 100,
{
    let mut hasher = DefaultHasher::new();
    hash_str(&mut hasher, flag_name);
    hash_str(&mut hasher, user_id);
    assert(hasher@ =~= bucket_writes(flag_name@, user_id@));
    proof {
        lemma_bucket_writes_are_full_strings(flag_name@, user_id@);
    }
    unbiased_reduce(&mut hasher)
}

/// Alternative bucket that also hashes the org id, when one is given.
pub fn bucket_with_org(flag_name: &str, user_id: &str, org_id: Option<&str>) -> (b: u8)
    ensures
        b == bucket_value_with_org(
            flag_name@,
            user_id@,
            match org_id {
                Some(org) => Some(org@),
                None => None,
            },
        ),
        org_id is None ==> b == unbiased_bucket(
            seq![encode_utf8(flag_name@), seq![0xffu8], encode_utf8(user_id@), seq![0xffu8]],
        ),
        org_id matches Some(org) ==> b == unbiased_bucket(
            seq![
                encode_utf8(flag_name@),
                seq![0xffu8],
                encode_utf8(user_id@),
                seq![0xffu8],
                encode_utf8(org@),
                seq![0xffu8],
            ],
        ),
        b < 100,
{
    let mut hasher = DefaultHasher::new();
    hash_str(&mut hasher, flag_name);
    hash_str(&mut hasher, user_id);
    assert(hasher@ =~= bucket_writes(flag_name@, user_id@));
    if let Some(org) = org_id {
        hash_str(&mut hasher, org);
    }
    proof {
        lemma_org_bucket_writes_are_full_strings(
            flag_name@,
            user_id@,
            match org_id {
                Some(org) => Some(org@),
                None => None,
            },
        );
    }
    unbiased_reduce(&mut hasher)
}

} // verus!

verus! {

/// The views of an optional flag.
pub open spec fn flag_view_opt(flag: Option<Flag>) -> Option<FlagView> {
    match flag {
        Some(f) => Some(f@),
        None => None,
    }
}

/// The global check: a flag counts as on when it exists and is enabled.
/// The rollout percentage plays no part.
pub open spec fn global_decision(flag: Option<FlagView>) -> bool {
    match flag {
        Some(f) => f.enabled,
        None => false,
    }
}

/// The per-user rollout check for the flag looked up under `name`.
///
/// Off when the flag is missing or disabled, or its percentage is `0`; on when
/// its percentage is `100`; otherwise on exactly when the user's bucket is
/// below the percentage.
pub open spec fn rollout_decision(flag: Option<FlagView>, name: Seq<char>, user_id: Seq<char>) -> bool {
    match flag {
        None => false,
        Some(f) => {
            if !f.enabled {
                false
            } else if f.percentage == 0 {
                false
            } else if f.percentage == 100 {
                true
            } else {
                bucket_value(name, user_id) < f.percentage
            }
        },
    }
}

/// Global check on the result of a flag lookup.
///
/// Returns `false` if the flag does not exist or is disabled; the rollout
/// percentage is ignored.
pub fn evaluate_enabled(flag: &Option<Flag>) -> (b: bool)
    ensures
        b == global_decision(flag_view_opt(*flag)),
        flag matches Some(f) ==> b == f.enabled,
        flag is None ==> !b,
{
    match flag {
        Some(f) => f.enabled,
        None => false,
    }
}

/// Per-user rollout check on the result of looking up `name`.
///
/// - If the flag is missing or disabled: `false`.
/// - If the percentage is `0`: `false`; if it is `100`: `true`.
/// - Otherwise `bucket(name, user_id) < percentage`.
///
/// `org_id` is accepted for future targeting; it does not affect the result.
pub fn evaluate_enabled_for(
    name: &FlagName,
    flag: &Option<Flag>,
    user_id: &str,
    org_id: Option<&str>,
) -> (b: bool)
    ensures
        b == rollout_decision(flag_view_opt(*flag), name@, user_id@),
        (match *flag {
            None => !b,
            Some(f) => {
                &&& !f.enabled ==> !b
                &&& f.enabled && f.percentage == 0 ==> !b
                &&& f.enabled && f.percentage >= 100 ==> b
                &&& f.enabled && 0 < f.percentage && f.percentage < 100 ==> (b <==> bucket_value(
                    name@,
                    user_id@,
                ) < f.percentage)
            },
        }),
{
    proof {
        if let Some(f) = flag {
            lemma_rollout_rule(f@, name@, user_id@);
        }
    }
    let _ = org_id;
    match flag {
        Some(f) => rollout_for_flag(name, f, user_id),
        None => false,
    }
}

/// The rollout rule for a flag that was found under `name`.
fn rollout_for_flag(name: &FlagName, f: &Flag, user_id: &str) -> (b: bool)
    ensures
        b == rollout_decision(Some(f@), name@, user_id@),
{
    if !f.enabled {
        return false;
    }
    if f.percentage == 0 {
        return false;
    }
    if f.percentage == 100 {
        return true;
    }
    let b = bucket(name.as_str(), user_id);
    b < f.percentage
}

/// Rollout check of one user against every flag of a listing, each under
/// its own name, in the order of the listing.
pub fn evaluate_all(flags: Vec<Flag>, user_id: &str, org_id: Option<&str>) -> (r: Vec<(FlagName, bool)>)
    ensures
        r.len() == flags.len(),
        forall|i: int|
            0 <= i < r.len() ==> {
                &&& (#[trigger] r[i]).0@ == flags[i].name@
                &&& r[i].1 == rollout_decision(Some(flags[i]@), flags[i].name@, user_id@)
            },
        forall|i: int|
            0 <= i < r.len() ==> (#[trigger] r[i]).1 == (flags[i].enabled && flags[i].percentage
                != 0 && (flags[i].percentage >= 100 || bucket_value(flags[i].name@, user_id@)
                < flags[i].percentage)),
{
    let _ = org_id;
    let mut out: Vec<(FlagName, bool)> = Vec::new();
    let n = flags.len();
    let mut i: usize = 0;
    while i < n
        invariant
            n == flags.len(),
            i <= n,
            out.len() == i,
            forall|j: int|
                0 <= j < i ==> {
                    &&& (#[trigger] out[j]).0@ == flags[j].name@
                    &&& out[j].1 == rollout_decision(Some(flags[j]@), flags[j].name@, user_id@)
                },
            forall|j: int|
                0 <= j < i ==> (#[trigger] out[j]).1 == (flags[j].enabled && flags[j].percentage
                    != 0 && (flags[j].percentage >= 100 || bucket_value(flags[j].name@, user_id@)
                    < flags[j].percentage)),
        decreases n - i,
    {
        let flag = &flags[i];
        let on = rollout_for_flag(&flag.name, flag, user_id);
        proof {
            lemma_rollout_rule(flag@, flag.name@, user_id@);
        }
        out.push((flag.name.duplicate(), on));
        i = i + 1;
    }
    out
}

/// The unbiased reduction always lands in `0..100`.
pub proof fn lemma_unbiased_bucket_in_range(writes: Seq<Seq<u8>>, n: nat)
    ensures
        unbiased_bucket_from(writes, n) < 100,
    decreases MAX_ROUNDS - n,
{
    if !(round_digest(writes, n) < UNBIASED_LIMIT || n >= MAX_ROUNDS) {
        lemma_unbiased_bucket_in_range(writes, n + 1);
    }
}

/// The digests below `100 * m` whose remainder modulo 100 is `b`.
pub open spec fn residue_class(m: nat, b: int) -> Set<int> {
    Set::new(|d: int| 0 <= d < 100 * m && d % 100 == b)
}

/// Below any multiple `100 * m`, each remainder `b` modulo 100 is taken by
/// exactly `m` values.
pub proof fn lemma_residue_class_size(m: nat, b: int)
    requires
        0 <= b < 100,
    ensures
        residue_class(m, b).finite(),
        residue_class(m, b).len() == m,
    decreases m,
{
    if m == 0 {
        assert(residue_class(0, b) =~= Set::empty());
    } else {
        let k = (m - 1) as nat;
        lemma_residue_class_size(k, b);
        let x = 100 * k + b;
        assert(x % 100 == b) by (nonlinear_arith)
            requires
                x == 100 * k + b,
                0 <= b < 100,
        ;
        assert forall|d: int| #[trigger] residue_class(m, b).contains(d) implies residue_class(
            k,
            b,
        ).insert(x).contains(d) by {
            if d >= 100 * k {
                assert(d == x) by (nonlinear_arith)
                    requires
                        100 * k <= d < 100 * k + 100,
                        d % 100 == b,
                        x == 100 * k + b,
                        0 <= b < 100,
                ;
            }
        }
        assert(residue_class(m, b) =~= residue_class(k, b).insert(x));
        assert(!residue_class(k, b).contains(x));
    }
}

/// No modulo bias: the digests that the first round accepts (those below
/// `UNBIASED_LIMIT`) give each bucket `b` its digest `% 100` and, for every
/// `b`, the same number of accepted digests lead to it.
pub proof fn lemma_buckets_unbiased(writes: Seq<Seq<u8>>, b: int)
    requires
        0 <= b < 100,
    ensures
        UNBIASED_LIMIT % 100 == 0,
        round_digest(writes, 0) < UNBIASED_LIMIT ==> unbiased_bucket(writes) == round_digest(
            writes,
            0,
        ) % 100,
        Set::new(|d: int| 0 <= d < UNBIASED_LIMIT && d % 100 == b).finite(),
        Set::new(|d: int| 0 <= d < UNBIASED_LIMIT && d % 100 == b).len() == UNBIASED_LIMIT / 100,
{
    let m: nat = (UNBIASED_LIMIT / 100) as nat;
    lemma_residue_class_size(m, b);
    assert(Set::new(|d: int| 0 <= d < UNBIASED_LIMIT && d % 100 == b) =~= residue_class(m, b));
}

/// The writes behind a bucket are the complete `str::hash` writes of the
/// flag name and of the user id: each string's whole UTF-8 encoding followed
/// by `0xff`.
pub proof fn lemma_bucket_writes_are_full_strings(flag_name: Seq<char>, user_id: Seq<char>)
    ensures
        bucket_writes(flag_name, user_id) == seq![
            encode_utf8(flag_name),
            seq![0xffu8],
            encode_utf8(user_id),
            seq![0xffu8],
        ],
        bucket_value(flag_name, user_id) == unbiased_bucket(
            seq![encode_utf8(flag_name), seq![0xffu8], encode_utf8(user_id), seq![0xffu8]],
        ),
{
    assert(bucket_writes(flag_name, user_id) =~= seq![
        encode_utf8(flag_name),
        seq![0xffu8],
        encode_utf8(user_id),
        seq![0xffu8],
    ]);
}

/// The org-aware writes are the plain writes followed, when an org is given,
/// by the complete `str::hash` writes of the org id.
pub proof fn lemma_org_bucket_writes_are_full_strings(
    flag_name: Seq<char>,
    user_id: Seq<char>,
    org_id: Option<Seq<char>>,
)
    ensures
        org_id is None ==> bucket_writes_with_org(flag_name, user_id, org_id) == seq![
            encode_utf8(flag_name),
            seq![0xffu8],
            encode_utf8(user_id),
            seq![0xffu8],
        ],
        org_id matches Some(org) ==> bucket_writes_with_org(flag_name, user_id, org_id) == seq![
            encode_utf8(flag_name),
            seq![0xffu8],
            encode_utf8(user_id),
            seq![0xffu8],
            encode_utf8(org),
            seq![0xffu8],
        ],
{
    lemma_bucket_writes_are_full_strings(flag_name, user_id);
    if let Some(org) = org_id {
        assert(bucket_writes_with_org(flag_name, user_id, org_id) =~= seq![
            encode_utf8(flag_name),
            seq![0xffu8],
            encode_utf8(user_id),
            seq![0xffu8],
            encode_utf8(org),
            seq![0xffu8],
        ]);
    }
}

/// When the first digest is below `UNBIASED_LIMIT` (all but 16 of the 2^64
/// digests), the bucket is that SipHash digest modulo 100.
pub proof fn lemma_unbiased_bucket_first_round(writes: Seq<Seq<u8>>)
    requires
        DefaultHasher::spec_finish(writes) < UNBIASED_LIMIT,
    ensures
        unbiased_bucket(writes) == DefaultHasher::spec_finish(writes) % 100,
{
    assert(retry_writes(writes, 0) =~= writes);
}

/// The global check is the flag's `enabled` field, whatever its percentage;
/// a missing flag is off.
pub proof fn lemma_global_rule(flag: Option<FlagView>)
    ensures
        flag matches Some(f) ==> global_decision(flag) == f.enabled,
        flag is None ==> !global_decision(flag),
{
}

/// The rollout rule: a missing or disabled flag is off for everyone; an
/// enabled flag at `0` is off and at `100` or more is on; in between, a user
/// is in exactly when their bucket is below the percentage.
pub proof fn lemma_rollout_rule(f: FlagView, name: Seq<char>, user_id: Seq<char>)
    ensures
        !rollout_decision(None, name, user_id),
        !f.enabled ==> !rollout_decision(Some(f), name, user_id),
        f.enabled && f.percentage == 0 ==> !rollout_decision(Some(f), name, user_id),
        f.enabled && f.percentage >= 100 ==> rollout_decision(Some(f), name, user_id),
        f.enabled && 0 < f.percentage < 100 ==> rollout_decision(Some(f), name, user_id) == (
        bucket_value(name, user_id) < f.percentage),
{
    lemma_bucket_in_range(name, user_id);
}

/// Every user whose bucket is below `p` is in a `p`% rollout of an enabled
/// flag, and nobody else is.
pub proof fn lemma_rollout_reaches_buckets_below(f: FlagView, name: Seq<char>, user_id: Seq<char>)
    requires
        f.enabled,
    ensures
        (bucket_value(name, user_id) < f.percentage) <==> rollout_decision(Some(f), name, user_id),
{
    lemma_rollout_rule(f, name, user_id);
    lemma_bucket_in_range(name, user_id);
}

/// Every bucket lies in `0..100`.
pub proof fn lemma_bucket_in_range(flag_name: Seq<char>, user_id: Seq<char>)
    ensures
        bucket_value(flag_name, user_id) < 100,
{
    lemma_unbiased_bucket_in_range(bucket_writes(flag_name, user_id), 0);
}

/// Without an org, the org-aware bucket is the plain bucket.
pub proof fn lemma_bucket_without_org(flag_name: Seq<char>, user_id: Seq<char>)
    ensures
        bucket_value_with_org(flag_name, user_id, None) == bucket_value(flag_name, user_id),
{
}

/// Rollout is monotone in the percentage: a user who is in at `p` is still
/// in at any `q >= p`, all else equal.
pub proof fn lemma_rollout_monotone(f: FlagView, name: Seq<char>, user_id: Seq<char>, p: u8, q: u8)
    requires
        p <= q,
        rollout_decision(Some(FlagView { percentage: p, ..f }), name, user_id),
    ensures
        rollout_decision(Some(FlagView { percentage: q, ..f }), name, user_id),
{
    lemma_bucket_in_range(name, user_id);
}

/// A user can only be in the rollout of a flag that is globally on.
pub proof fn lemma_rollout_implies_global(flag: Option<FlagView>, name: Seq<char>, user_id: Seq<char>)
    ensures
        rollout_decision(flag, name, user_id) ==> global_decision(flag),
{
}

/// An enabled flag at `0` includes no user, and at `100` (or above) every user.
pub proof fn lemma_rollout_extremes(f: FlagView, name: Seq<char>, user_id: Seq<char>)
    requires
        f.enabled,
    ensures
        f.percentage == 0 ==> !rollout_decision(Some(f), name, user_id),
        f.percentage >= 100 ==> rollout_decision(Some(f), name, user_id),
{
    lemma_bucket_in_range(name, user_id);
}

} // verus!
