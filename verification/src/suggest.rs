use vstd::prelude::*;

use crate::package_json::{script_entries, scripts_get_index, scripts_len, PackageJson};

verus! {

/// strsim's Jaro similarity of `a` and `b`, as the bit pattern of the double
/// it returns (a number from zero to one).
pub uninterp spec fn jaro_key(a: Seq<char>, b: Seq<char>) -> u64;

/// strsim's `jaro`: the Jaro similarity of `a` and `b`, handed back as the bit
/// pattern of the double. The similarity is never negative and never NaN, and
/// such doubles compare as their bit patterns do, so comparing two keys
/// compares the two similarities. Nothing more is claimed of the value.
#[verifier::external_body]
fn jaro_similarity_key(a: &str, b: &str) -> (k: u64)
    ensures
        k == jaro_key(a@, b@),
{
    strsim::jaro(a, b).to_bits()
}

/// The key of the least similarity that earns a suggestion: the bit pattern
/// of the double nearest to seven tenths. A name is suggested only when its
/// key is above this one.
pub const SUGGESTION_THRESHOLD: u64 = 0x3FE6_6666_6666_6666;

/// Names with their similarity keys, as plain values.
pub open spec fn scored_view(scored: Seq<(String, u64)>) -> Seq<(Seq<char>, u64)> {
    scored.map_values(|e: (String, u64)| (e.0@, e.1))
}

/// Whether entry `i` clears the threshold and no entry scores above it.
pub open spec fn is_best(scored: Seq<(Seq<char>, u64)>, i: int) -> bool {
    &&& 0 <= i < scored.len()
    &&& scored[i].1 > SUGGESTION_THRESHOLD
    &&& forall|j: int| 0 <= j < scored.len() ==> #[trigger] scored[j].1 <= scored[i].1
}

/// Whether no entry clears the threshold.
pub open spec fn none_close(scored: Seq<(Seq<char>, u64)>) -> bool {
    forall|j: int| 0 <= j < scored.len() ==> #[trigger] scored[j].1 <= SUGGESTION_THRESHOLD
}

/// What a suggestion may be for these scores: nothing exactly when no entry
/// clears the threshold, and otherwise the name of a best-scoring entry (among
/// equal scores, any of them).
pub open spec fn suggestion_allowed(scored: Seq<(Seq<char>, u64)>, r: Option<Seq<char>>) -> bool {
    match r {
        None => none_close(scored),
        Some(s) => exists|i: int| is_best(scored, i) && #[trigger] scored[i].0 == s,
    }
}

/// Picks the name to suggest from names scored by similarity: the first of the
/// best scores above the threshold.
pub fn pick_suggestion(scored: &Vec<(String, u64)>) -> (r: Option<String>)
    ensures
        suggestion_allowed(
            scored_view(scored@),
            match r {
                Some(s) => Some(s@),
                None => None,
            },
        ),
{
    let ghost sv = scored_view(scored@);
    let mut best: Option<usize> = None;
    let mut i: usize = 0;
    while i < scored.len()
        invariant
            i <= scored.len(),
            sv == scored_view(scored@),
            sv.len() == scored.len(),
            match best {
                None => forall|j: int| 0 <= j < i ==> #[trigger] sv[j].1 <= SUGGESTION_THRESHOLD,
                Some(b) => b < i && sv[b as int].1 > SUGGESTION_THRESHOLD && forall|j: int|
                    0 <= j < i ==> #[trigger] sv[j].1 <= sv[b as int].1,
            },
        decreases scored.len() - i,
    {
        let score = scored[i].1;
        assert(sv[i as int].1 == score);
        match best {
            None => {
                if score > SUGGESTION_THRESHOLD {
                    best = Some(i);
                }
            },
            Some(b) => {
                if score > scored[b].1 {
                    best = Some(i);
                }
            },
        }
        i = i + 1;
    }
    match best {
        None => None,
        Some(b) => {
            let name = scored[b].0.clone();
            assert(sv[b as int].0 == name@);
            assert(is_best(sv, b as int));
            Some(name)
        },
    }
}

/// The script names of a package, each with its similarity key to `input`.
pub open spec fn scores_for(input: Seq<char>, entries: Seq<(Seq<char>, Seq<char>)>) -> Seq<(Seq<char>, u64)> {
    entries.map_values(|e: (Seq<char>, Seq<char>)| (e.0, jaro_key(input, e.0)))
}

/// The script of `package` to suggest for the mistyped name `input`: one whose
/// Jaro similarity to `input` is above seven tenths and highest.
pub fn suggest(input: &str, package: &PackageJson) -> (r: Option<String>)
    ensures
        suggestion_allowed(
            scores_for(input@, package@.scripts),
            match r {
                Some(s) => Some(s@),
                None => None,
            },
        ),
{
    let ghost entries = script_entries(package.scripts);
    let n = scripts_len(&package.scripts);
    let mut scored: Vec<(String, u64)> = Vec::new();
    let mut i: usize = 0;
    while i < n
        invariant
            n == entries.len(),
            entries == script_entries(package.scripts),
            i <= n,
            scored@.len() == i,
            scored_view(scored@) =~= scores_for(input@, entries).subrange(0, i as int),
        decreases n - i,
    {
        match scripts_get_index(&package.scripts, i) {
            Some(kv) => {
                let key = jaro_similarity_key(input, kv.0.as_str());
                let name = kv.0.clone();
                let ghost before = scored@;
                scored.push((name, key));
                proof {
                    let want = scores_for(input@, entries).subrange(0, i + 1);
                    assert forall|j: int| 0 <= j < i + 1 implies #[trigger] scored_view(scored@)[j]
                        == want[j] by {
                        if j < i {
                            assert(scored@[j] == before[j]);
                            assert(scored_view(before)[j] == scores_for(input@, entries).subrange(
                                0,
                                i as int,
                            )[j]);
                        }
                    }
                    assert(scored_view(scored@) =~= want);
                }
            },
            None => {},
        }
        i = i + 1;
    }
    assert(scores_for(input@, entries).subrange(0, n as int) =~= scores_for(input@, entries));
    pick_suggestion(&scored)
}

} // verus!
