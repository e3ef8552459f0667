//! Detecting configuration keys that no option reads.
use vstd::prelude::*;

use super::http_client_options::{join_config_path, join_path};
use super::sensitive_headers::strictly_sorted;
use crate::text::{
    str_texts, texts,
    compare_str, lemma_seq_less_total, lemma_seq_less_transitive, push_str, seq_less,
    starts_with_seq, str_starts_with, Order,
};

verus! {

/// Inserts `value` into a list kept in strictly increasing code-point order,
/// unless it is already there.
pub fn insert_sorted_unique(v: &mut Vec<String>, value: String)
    requires
        strictly_sorted(texts(old(v)@)),
    ensures
        strictly_sorted(texts(final(v)@)),
        texts(final(v)@).to_set() == texts(old(v)@).to_set().insert(value@),
{
    let ghost names = texts(v@);
    let n = v.len();
    let mut p: usize = 0;
    while p < n && compare_str(v[p].as_str(), value.as_str()) == Order::Less
        invariant
            n == v@.len(),
            names == texts(v@),
            p <= n,
            forall|j: int| 0 <= j < p ==> seq_less(#[trigger] names[j], value@),
        decreases n - p,
    {
        p = p + 1;
    }
    if p < n && compare_str(v[p].as_str(), value.as_str()) == Order::Equal {
        proof {
            assert(names[p as int] == value@);
            assert(names.contains(value@));
            assert(names.to_set().insert(value@) =~= names.to_set());
        }
        return;
    }
    proof {
        if p < n {
            lemma_seq_less_total(names[p as int], value@);
        }
    }
    let ghost vview = value@;
    v.insert(p, value);
    proof {
        let new_names = texts(v@);
        assert(new_names =~= names.insert(p as int, vview));
        assert forall|i: int, j: int| 0 <= i < j < new_names.len() implies seq_less(
            #[trigger] new_names[i],
            #[trigger] new_names[j],
        ) by {
            if j < p {
            } else if j == p {
            } else if i < p {
                if j - 1 > p {
                    lemma_seq_less_transitive(vview, names[p as int], names[j - 1]);
                }
                lemma_seq_less_transitive(names[i], vview, names[j - 1]);
            } else if i == p {
                if j - 1 > p {
                    lemma_seq_less_transitive(vview, names[p as int], names[j - 1]);
                }
            } else {
            }
        }
        assert(new_names.to_set() =~= names.to_set().insert(vview)) by {
            assert forall|x: Seq<char>| new_names.to_set().contains(x) <==> names.to_set().insert(
                vview,
            ).contains(x) by {
                if new_names.contains(x) {
                    let k = choose|k: int| 0 <= k < new_names.len() && new_names[k] == x;
                    if k < p {
                        assert(names[k] == x);
                    } else if k > p {
                        assert(names[k - 1] == x);
                    }
                }
                if names.contains(x) {
                    let k = choose|k: int| 0 <= k < names.len() && names[k] == x;
                    if k < p {
                        assert(new_names[k] == x);
                    } else {
                        assert(new_names[k + 1] == x);
                    }
                }
                if x == vview {
                    assert(new_names[p as int] == x);
                }
            }
        }
    }
}

/// A key some option reads: a listed field, or a key inside a listed
/// nested section.
pub open spec fn key_is_known(key: Seq<char>, fields: Seq<Seq<char>>, sections: Seq<Seq<char>>) -> bool {
    fields.contains(key) || exists|i: int|
        0 <= i < sections.len() && #[trigger] starts_with_seq(key, sections[i] + "."@)
}

/// The root paths of the keys of `keys[..n]` that no option reads.
pub open spec fn unknown_paths(
    section: Seq<char>,
    keys: Seq<Seq<char>>,
    fields: Seq<Seq<char>>,
    sections: Seq<Seq<char>>,
) -> Set<Seq<char>> {
    Set::new(
        |p: Seq<char>|
            exists|i: int|
                0 <= i < keys.len() && !key_is_known(keys[i], fields, sections) && #[trigger] join_path(
                    section,
                    keys[i],
                ) == p,
    )
}

fn is_known(key: &str, fields: &[&str], sections: &[&str]) -> (r: bool)
    ensures
        r == key_is_known(key@, str_texts(fields@), str_texts(sections@)),
{
    let ghost fs = str_texts(fields@);
    let ghost ss = str_texts(sections@);
    let mut i: usize = 0;
    while i < fields.len()
        invariant
            i <= fields@.len(),
            fs == str_texts(fields@),
            fs.len() == fields@.len(),
            forall|j: int| 0 <= j < i ==> fs[j] != key@,
        decreases fields@.len() - i,
    {
        assert(fs[i as int] == fields@[i as int]@);
        if compare_str(fields[i], key) == Order::Equal {
            assert(fs.contains(key@));
            return true;
        }
        i = i + 1;
    }
    assert(!fs.contains(key@));
    let mut k: usize = 0;
    while k < sections.len()
        invariant
            k <= sections@.len(),
            ss == str_texts(sections@),
            ss.len() == sections@.len(),
            forall|j: int| 0 <= j < k ==> !#[trigger] starts_with_seq(key@, ss[j] + "."@),
        decreases sections@.len() - k,
    {
        let mut prefix = sections[k].to_owned();
        push_str(&mut prefix, ".");
        assert(ss[k as int] == sections@[k as int]@);
        if str_starts_with(key, prefix.as_str()) {
            return true;
        }
        k = k + 1;
    }
    false
}

/// The root paths of configuration keys (relative to the reader at
/// `section_path`) that are neither a listed field nor inside a listed
/// nested section, in ascending order and without repeats.
pub fn unknown_config_paths(section_path: &str, keys: &[String], fields: &[&str], sections: &[&str]) -> (r:
    Vec<String>)
    ensures
        strictly_sorted(texts(r@)),
        texts(r@).to_set() == unknown_paths(section_path@, texts(keys@), str_texts(fields@), str_texts(sections@)),
{
    let ghost ks = texts(keys@);
    let ghost fs = str_texts(fields@);
    let ghost ss = str_texts(sections@);
    let mut out: Vec<String> = Vec::new();
    let mut i: usize = 0;
    assert(texts(out@).to_set() =~= unknown_paths(section_path@, ks.take(0), fs, ss));
    while i < keys.len()
        invariant
            i <= keys@.len(),
            ks == texts(keys@),
            ks.len() == keys@.len(),
            fs == str_texts(fields@),
            ss == str_texts(sections@),
            strictly_sorted(texts(out@)),
            texts(out@).to_set() == unknown_paths(section_path@, ks.take(i as int), fs, ss),
        decreases keys@.len() - i,
    {
        let ghost before = texts(out@).to_set();
        assert(ks[i as int] == keys@[i as int]@);
        if !is_known(keys[i].as_str(), fields, sections) {
            let path = join_config_path(section_path, keys[i].as_str());
            insert_sorted_unique(&mut out, path);
            proof {
                assert(unknown_paths(section_path@, ks.take(i + 1), fs, ss) =~= before.insert(
                    join_path(section_path@, ks[i as int]),
                )) by {
                    assert forall|p: Seq<char>|
                        unknown_paths(section_path@, ks.take(i + 1), fs, ss).contains(p) <==> before.insert(
                            join_path(section_path@, ks[i as int]),
                        ).contains(p) by {
                        if unknown_paths(section_path@, ks.take(i + 1), fs, ss).contains(p) {
                            let j = choose|j: int|
                                0 <= j < i + 1 && !key_is_known(ks.take(i + 1)[j], fs, ss)
                                    && #[trigger] join_path(section_path@, ks.take(i + 1)[j]) == p;
                            if j < i {
                                assert(ks.take(i as int)[j] == ks.take(i + 1)[j]);
                            }
                        }
                        if before.contains(p) {
                            let j = choose|j: int|
                                0 <= j < i && !key_is_known(ks.take(i as int)[j], fs, ss)
                                    && #[trigger] join_path(section_path@, ks.take(i as int)[j]) == p;
                            assert(ks.take(i as int)[j] == ks.take(i + 1)[j]);
                        }
                        if p == join_path(section_path@, ks[i as int]) {
                            assert(ks.take(i + 1)[i as int] == ks[i as int]);
                        }
                    }
                }
            }
        } else {
            proof {
                assert(unknown_paths(section_path@, ks.take(i + 1), fs, ss) =~= before) by {
                    assert forall|p: Seq<char>|
                        unknown_paths(section_path@, ks.take(i + 1), fs, ss).contains(p) <==> before.contains(p) by {
                        if unknown_paths(section_path@, ks.take(i + 1), fs, ss).contains(p) {
                            let j = choose|j: int|
                                0 <= j < i + 1 && !key_is_known(ks.take(i + 1)[j], fs, ss)
                                    && #[trigger] join_path(section_path@, ks.take(i + 1)[j]) == p;
                            assert(ks.take(i + 1)[j] == ks[j]);
                            if j < i {
                                assert(ks.take(i as int)[j] == ks.take(i + 1)[j]);
                            }
                        }
                        if before.contains(p) {
                            let j = choose|j: int|
                                0 <= j < i && !key_is_known(ks.take(i as int)[j], fs, ss)
                                    && #[trigger] join_path(section_path@, ks.take(i as int)[j]) == p;
                            assert(ks.take(i as int)[j] == ks.take(i + 1)[j]);
                        }
                    }
                }
            }
        }
        i = i + 1;
    }
    assert(ks.take(i as int) =~= ks);
    out
}

} // verus!
