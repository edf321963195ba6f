use vstd::prelude::*;

use crate::env_file::owned_pairs;
use crate::package_json::{lookup, script_entries, scripts_get_index, scripts_len, PackageJson};

verus! {

/// Whether `a` sorts before `b`: character by character, a proper prefix
/// first. (On UTF-8 text this is the order of `String`'s `Ord`.)
pub open spec fn text_lt(a: Seq<char>, b: Seq<char>) -> bool
    decreases a.len(),
{
    if a.len() == 0 {
        b.len() > 0
    } else if b.len() == 0 {
        false
    } else if a[0] != b[0] {
        a[0] < b[0]
    } else {
        text_lt(a.drop_first(), b.drop_first())
    }
}

/// Exactly one of `a < b`, `a == b`, `b < a` holds.
pub proof fn lemma_text_trichotomy(a: Seq<char>, b: Seq<char>)
    ensures
        text_lt(a, b) || a == b || text_lt(b, a),
        !(text_lt(a, b) && text_lt(b, a)),
        !(text_lt(a, b) && a == b),
    decreases a.len(),
{
    if a.len() > 0 && b.len() > 0 && a[0] == b[0] {
        lemma_text_trichotomy(a.drop_first(), b.drop_first());
        if a.drop_first() == b.drop_first() {
            assert(a =~= b) by {
                assert forall|i: int| 0 <= i < a.len() implies a[i] == b[i] by {
                    if i > 0 {
                        assert(a[i] == a.drop_first()[i - 1]);
                        assert(b[i] == b.drop_first()[i - 1]);
                    }
                }
            }
        }
    } else if a.len() == 0 && b.len() == 0 {
        assert(a =~= b);
    }
}

/// The order is transitive.
pub proof fn lemma_text_trans(a: Seq<char>, b: Seq<char>, c: Seq<char>)
    requires
        text_lt(a, b),
        text_lt(b, c),
    ensures
        text_lt(a, c),
    decreases a.len(),
{
    if a.len() > 0 && b.len() > 0 && c.len() > 0 && a[0] == b[0] && b[0] == c[0] {
        lemma_text_trans(a.drop_first(), b.drop_first(), c.drop_first());
    }
}

/// The result of comparing two texts.
#[derive(Clone, Copy, Debug, PartialEq, Eq, Structural)]
pub enum TextOrder {
    Less,
    Equal,
    Greater,
}

/// Compares two texts in the order of `text_lt`.
pub fn compare_text(a: &str, b: &str) -> (r: TextOrder)
    ensures
        (r == TextOrder::Less) == text_lt(a@, b@),
        (r == TextOrder::Equal) == (a@ == b@),
        (r == TextOrder::Greater) == text_lt(b@, a@),
{
    proof {
        lemma_text_trichotomy(a@, b@);
    }
    let la = a.unicode_len();
    let lb = b.unicode_len();
    let mut i: usize = 0;
    assert(a@.skip(0) =~= a@);
    assert(b@.skip(0) =~= b@);
    while i < la && i < lb
        invariant
            la == a@.len(),
            lb == b@.len(),
            i <= la,
            i <= lb,
            text_lt(a@, b@) == text_lt(a@.skip(i as int), b@.skip(i as int)),
            text_lt(b@, a@) == text_lt(b@.skip(i as int), a@.skip(i as int)),
            a@.take(i as int) =~= b@.take(i as int),
        decreases la - i,
    {
        let ca = a.get_char(i);
        let cb = b.get_char(i);
        assert(a@.skip(i as int)[0] == ca);
        assert(b@.skip(i as int)[0] == cb);
        if ca < cb {
            return TextOrder::Less;
        }
        if cb < ca {
            return TextOrder::Greater;
        }
        assert(a@.skip(i as int).drop_first() =~= a@.skip(i + 1));
        assert(b@.skip(i as int).drop_first() =~= b@.skip(i + 1));
        assert(a@.take(i + 1) =~= a@.take(i as int).push(ca));
        assert(b@.take(i + 1) =~= b@.take(i as int).push(cb));
        i = i + 1;
    }
    if la < lb {
        assert(a@.skip(i as int).len() == 0);
        TextOrder::Less
    } else if lb < la {
        assert(b@.skip(i as int).len() == 0);
        TextOrder::Greater
    } else {
        assert(a@ =~= a@.take(i as int));
        assert(b@ =~= b@.take(i as int));
        TextOrder::Equal
    }
}

/// The command that the first of `maps` defining `key` gives it.
pub open spec fn first_def(maps: Seq<Seq<(Seq<char>, Seq<char>)>>, key: Seq<char>) -> Option<Seq<char>>
    decreases maps.len(),
{
    if maps.len() == 0 {
        None
    } else {
        match lookup(maps[0], key) {
            Some(v) => Some(v),
            None => first_def(maps.drop_first(), key),
        }
    }
}

/// The script entries of each package, in order.
pub open spec fn package_scripts(packages: Seq<PackageJson>) -> Seq<Seq<(Seq<char>, Seq<char>)>> {
    packages.map_values(|p: PackageJson| p@.scripts)
}

/// Whether the names strictly increase.
pub open spec fn strictly_sorted(v: Seq<(Seq<char>, Seq<char>)>) -> bool {
    forall|i: int, j: int| 0 <= i < j < v.len() ==> text_lt(#[trigger] v[i].0, #[trigger] v[j].0)
}

/// Whether `r` lists, sorted by name and once each, every script name that one
/// of `maps` defines, each with the command of the first map defining it.
pub open spec fn merged(maps: Seq<Seq<(Seq<char>, Seq<char>)>>, r: Seq<(Seq<char>, Seq<char>)>) -> bool {
    &&& strictly_sorted(r)
    &&& forall|i: int| 0 <= i < r.len() ==> first_def(maps, (#[trigger] r[i]).0) == Some(r[i].1)
    &&& forall|key: Seq<char>| #[trigger] first_def(maps, key) is Some ==> exists|i: int|
        0 <= i < r.len() && (#[trigger] r[i]).0 == key
}

proof fn lemma_first_def_push(maps: Seq<Seq<(Seq<char>, Seq<char>)>>, m: Seq<(Seq<char>, Seq<char>)>, key: Seq<char>)
    ensures
        first_def(maps.push(m), key) == match first_def(maps, key) {
            Some(v) => Some(v),
            None => lookup(m, key),
        },
    decreases maps.len(),
{
    if maps.len() == 0 {
        assert(maps.push(m)[0] == m);
        assert(maps.push(m).drop_first() =~= Seq::<Seq<(Seq<char>, Seq<char>)>>::empty());
    } else {
        assert(maps.push(m)[0] == maps[0]);
        assert(maps.push(m).drop_first() =~= maps.drop_first().push(m));
        lemma_first_def_push(maps.drop_first(), m, key);
    }
}

proof fn lemma_lookup_take(s: Seq<(Seq<char>, Seq<char>)>, j: int, key: Seq<char>)
    requires
        0 <= j < s.len(),
    ensures
        lookup(s.take(j + 1), key) == match lookup(s.take(j), key) {
            Some(v) => Some(v),
            None => if s[j].0 == key {
                Some(s[j].1)
            } else {
                None
            },
        },
    decreases j,
{
    assert(s.take(j + 1)[0] == s[0]);
    if j > 0 {
        assert(s.take(j)[0] == s[0]);
        assert(s.take(j + 1).drop_first() =~= s.drop_first().take(j));
        assert(s.take(j).drop_first() =~= s.drop_first().take(j - 1));
        lemma_lookup_take(s.drop_first(), j - 1, key);
    } else {
        assert(s.take(0).len() == 0);
        assert(s.take(1).drop_first() =~= Seq::<(Seq<char>, Seq<char>)>::empty());
    }
}

/// Inserts `(key, value)` into the sorted `res` unless `key` is there already.
fn insert_new(res: &mut Vec<(String, String)>, key: &String, value: &String)
    requires
        strictly_sorted(owned_pairs(old(res)@)),
    ensures
        strictly_sorted(owned_pairs(final(res)@)),
        (exists|i: int| 0 <= i < old(res)@.len() && (#[trigger] owned_pairs(old(res)@)[i]).0 == key@)
            ==> owned_pairs(final(res)@) == owned_pairs(old(res)@),
        !(exists|i: int| 0 <= i < old(res)@.len() && (#[trigger] owned_pairs(old(res)@)[i]).0 == key@)
            ==> exists|p: int|
            0 <= p <= old(res)@.len() && owned_pairs(final(res)@) == owned_pairs(old(res)@).insert(
                p,
                (key@, value@),
            ),
{
    let ghost old_view = owned_pairs(res@);
    let mut p: usize = 0;
    let mut stop = false;
    while p < res.len() && !stop
        invariant
            p <= res.len(),
            res@ == old(res)@,
            old_view == owned_pairs(res@),
            strictly_sorted(old_view),
            forall|i: int| 0 <= i < p ==> text_lt(#[trigger] old_view[i].0, key@),
            stop ==> p < res.len() && text_lt(key@, old_view[p as int].0),
        decreases res.len() - p, (if stop { 0int } else { 1int }),
    {
        assert(old_view[p as int].0 == res@[p as int].0@);
        match compare_text(res[p].0.as_str(), key.as_str()) {
            TextOrder::Less => {
                p = p + 1;
            },
            TextOrder::Equal => {
                assert(old_view[p as int].0 == key@);
                return;
            },
            TextOrder::Greater => {
                stop = true;
            },
        }
    }
    let ghost len = old_view.len();
    proof {
        // every later name is greater than the key
        assert forall|j: int| p <= j < len implies text_lt(key@, #[trigger] old_view[j].0) by {
            if j > p {
                assert(text_lt(old_view[p as int].0, old_view[j].0));
                lemma_text_trans(key@, old_view[p as int].0, old_view[j].0);
            }
        }
        assert(!(exists|i: int| 0 <= i < len && (#[trigger] old_view[i]).0 == key@)) by {
            if exists|i: int| 0 <= i < len && (#[trigger] old_view[i]).0 == key@ {
                let i = choose|i: int| 0 <= i < len && (#[trigger] old_view[i]).0 == key@;
                lemma_text_trichotomy(key@, key@);
                if i < p {
                    assert(text_lt(old_view[i].0, key@));
                } else {
                    assert(text_lt(key@, old_view[i].0));
                }
            }
        }
    }
    res.insert(p, (key.clone(), value.clone()));
    proof {
        let nv = owned_pairs(res@);
        let want = old_view.insert(p as int, (key@, value@));
        assert forall|j: int| 0 <= j < nv.len() implies #[trigger] nv[j] == want[j] by {
            if j < p {
                assert(res@[j] == old(res)@[j]);
            } else if j > p {
                assert(res@[j] == old(res)@[j - 1]);
            }
        }
        assert(nv =~= want);
        assert forall|i: int, j: int| 0 <= i < j < nv.len() implies text_lt(#[trigger] nv[i].0, #[trigger] nv[j].0) by {
            if i < p && j == p {
            } else if i < p && j > p {
                assert(nv[j] == old_view[j - 1]);
            } else if i == p && j > p {
                assert(nv[j] == old_view[j - 1]);
            } else if i > p {
                assert(nv[i] == old_view[i - 1]);
                assert(nv[j] == old_view[j - 1]);
            } else {
                assert(nv[i] == old_view[i]);
                assert(nv[j] == old_view[j]);
            }
        }
    }
}

/// The scripts offered for completion: every script name of the packages
/// (nearest first), sorted by name, each with the command of the nearest
/// package that defines it.
pub fn completion_scripts(packages: &Vec<PackageJson>) -> (r: Vec<(String, String)>)
    ensures
        merged(package_scripts(packages@), owned_pairs(r@)),
{
    let ghost maps = package_scripts(packages@);
    let mut res: Vec<(String, String)> = Vec::new();
    let mut k: usize = 0;
    while k < packages.len()
        invariant
            k <= packages.len(),
            maps == package_scripts(packages@),
            maps.len() == packages@.len(),
            merged(maps.take(k as int), owned_pairs(res@)),
        decreases packages.len() - k,
    {
        let package = &packages[k];
        let ghost entries = script_entries(package.scripts);
        assert(maps[k as int] == entries);
        let n = scripts_len(&package.scripts);
        let mut j: usize = 0;
        assert(entries.take(0) =~= Seq::<(Seq<char>, Seq<char>)>::empty());
        assert forall|key: Seq<char>| #[trigger] first_def(maps.take(k as int).push(entries.take(0)), key)
            == first_def(maps.take(k as int), key) by {
            lemma_first_def_push(maps.take(k as int), entries.take(0), key);
        }
        while j < n
            invariant
                k < packages.len(),
                n == entries.len(),
                entries == script_entries(packages@[k as int].scripts),
                maps == package_scripts(packages@),
                j <= n,
                merged(maps.take(k as int).push(entries.take(j as int)), owned_pairs(res@)),
            decreases n - j,
        {
            let ghost before = owned_pairs(res@);
            let ghost seen = maps.take(k as int).push(entries.take(j as int));
            let ghost seen2 = maps.take(k as int).push(entries.take(j + 1));
            match scripts_get_index(&packages[k].scripts, j) {
                Some(kv) => {
                    insert_new(&mut res, kv.0, kv.1);
                    proof {
                        let key = kv.0@;
                        assert forall|q: Seq<char>| #[trigger] first_def(seen2, q) == match first_def(seen, q) {
                            Some(v) => Some(v),
                            None => if q == key {
                                Some(kv.1@)
                            } else {
                                None
                            },
                        } by {
                            lemma_first_def_push(maps.take(k as int), entries.take(j as int), q);
                            lemma_first_def_push(maps.take(k as int), entries.take(j + 1), q);
                            lemma_lookup_take(entries, j as int, q);
                            assert(maps.take(k as int).push(entries.take(j as int)) == seen);
                        }
                        let after = owned_pairs(res@);
                        if exists|i: int| 0 <= i < before.len() && (#[trigger] before[i]).0 == key {
                            let i = choose|i: int| 0 <= i < before.len() && (#[trigger] before[i]).0 == key;
                            assert(first_def(seen, key) is Some);
                            assert forall|q: Seq<char>| #[trigger] first_def(seen2, q) == first_def(seen, q) by {
                                if q == key {
                                    assert(first_def(seen, before[i].0) == Some(before[i].1));
                                }
                            }
                            assert(merged(seen2, after));
                        } else {
                            let p = choose|p: int| 0 <= p <= before.len() && after == before.insert(p, (key, kv.1@));
                            assert(first_def(seen, key) is None);
                            assert forall|i: int| 0 <= i < after.len() implies first_def(seen2, (#[trigger] after[i]).0) == Some(after[i].1) by {
                                if i < p {
                                    assert(after[i] == before[i]);
                                } else if i > p {
                                    assert(after[i] == before[i - 1]);
                                }
                            }
                            assert forall|q: Seq<char>| #[trigger] first_def(seen2, q) is Some implies exists|i: int|
                                0 <= i < after.len() && (#[trigger] after[i]).0 == q by {
                                if q == key {
                                    assert(after[p].0 == q);
                                } else {
                                    assert(first_def(seen, q) is Some);
                                    let i = choose|i: int| 0 <= i < before.len() && (#[trigger] before[i]).0 == q;
                                    if i < p {
                                        assert(after[i] == before[i]);
                                    } else {
                                        assert(after[i + 1] == before[i]);
                                    }
                                }
                            }
                        }
                    }
                },
                None => {},
            }
            j = j + 1;
        }
        proof {
            assert(entries.take(n as int) =~= entries);
            assert(maps.take(k + 1) =~= maps.take(k as int).push(entries));
        }
        k = k + 1;
    }
    assert(maps.take(packages@.len() as int) =~= maps);
    res
}

} // verus!
