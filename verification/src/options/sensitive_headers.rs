//! Case-insensitive set of header names whose values are masked in logs.
use vstd::prelude::*;

use crate::text::{
    texts,
    ascii_fold, ascii_lower_char, ascii_lowercase_seq, compare_str, eq_ignore_ascii_case_seq,
    is_ascii_seq, is_white_space, lemma_seq_less_irreflexive, lemma_seq_less_total,
    lemma_seq_less_transitive, seq_less, to_lowercase, trim, trim_seq, unicode_lowercase, Order,
};

verus! {

/// A sequence is strictly increasing in code-point order.
pub open spec fn strictly_sorted(s: Seq<Seq<char>>) -> bool {
    forall|i: int, j: int| 0 <= i < j < s.len() ==> seq_less(#[trigger] s[i], #[trigger] s[j])
}

/// The normalized form under which a header name is stored: trimmed, then
/// lower-cased.
pub open spec fn normalized_header(name: Seq<char>) -> Seq<char> {
    unicode_lowercase(trim_seq(name))
}

/// The names that inserting each of `names` in turn adds.
pub open spec fn normalized_headers(names: Seq<Seq<char>>) -> Set<Seq<char>> {
    Set::new(
        |x: Seq<char>|
            exists|i: int|
                0 <= i < names.len() && #[trigger] normalized_header(names[i]) == x && x.len() > 0,
    )
}

/// `n` is what inserting `x` stores: its normalized form, which is already
/// trimmed and fixed by (ASCII) lower-casing when `x` is ASCII.
pub open spec fn stored_from(n: Seq<char>, x: Seq<char>) -> bool {
    &&& normalized_header(x) == n
    &&& is_ascii_seq(x) ==> is_ascii_seq(n) && trim_seq(n) == n && ascii_lowercase_seq(n) == n
}

/// A stored name is what inserting some name stores.
pub open spec fn is_stored_form(n: Seq<char>) -> bool {
    exists|x: Seq<char>| #[trigger] stored_from(n, x)
}

/// The stored strings are strictly ascending and none is empty.
pub open spec fn sorted_nonempty(v: Seq<String>) -> bool {
    &&& strictly_sorted(texts(v))
    &&& forall|i: int| 0 <= i < v.len() ==> (#[trigger] v[i])@.len() > 0
}

/// Case-insensitive set of HTTP header names whose values should be masked in
/// logs. Names are kept trimmed and lower-cased, in ascending order.
#[derive(Debug)]
pub struct SensitiveHeaders {
    /// Normalized names, strictly ascending.
    headers: Vec<String>,
}

impl View for SensitiveHeaders {
    type V = Set<Seq<char>>;

    closed spec fn view(&self) -> Set<Seq<char>> {
        texts(self.headers@).to_set()
    }
}

impl SensitiveHeaders {
    /// The stored names in ascending order.
    pub closed spec fn names(&self) -> Seq<Seq<char>> {
        texts(self.headers@)
    }

    #[verifier::type_invariant]
    closed spec fn well_formed(&self) -> bool {
        &&& sorted_nonempty(self.headers@)
        &&& forall|i: int| 0 <= i < self.headers@.len() ==> is_stored_form(#[trigger] self.headers@[i]@)
    }

    /// The stored names are strictly ascending, non-empty, and are exactly
    /// the members of the set.
    proof fn lemma_names(&self)
        requires
            sorted_nonempty(self.headers@),
        ensures
            strictly_sorted(self.names()),
            forall|i: int| 0 <= i < self.names().len() ==> (#[trigger] self.names()[i]).len() > 0,
            self.names().to_set() == self@,
            self.names().no_duplicates(),
            self.names().len() == self@.len(),
    {
        let s = self.names();
        assert forall|i: int| 0 <= i < s.len() implies (#[trigger] s[i]).len() > 0 by {
            assert(s[i] == self.headers@[i]@);
        }
        assert forall|i: int, j: int| 0 <= i < s.len() && 0 <= j < s.len() && i != j implies s[i]
            != s[j] by {
            if i < j {
                lemma_seq_less_irreflexive(s[i]);
            } else {
                lemma_seq_less_irreflexive(s[j]);
            }
        }
        s.unique_seq_to_set();
    }

    /// Creates an empty set (no names marked sensitive).
    pub fn new() -> (r: Self)
        ensures
            r@ == Set::<Seq<char>>::empty(),
    {
        let r = SensitiveHeaders { headers: Vec::new() };
        assert(texts(r.headers@).to_set() =~= Set::<Seq<char>>::empty());
        r
    }

    /// Returns whether `header_name` is treated as sensitive, compared
    /// case-insensitively (by Unicode lower-casing).
    pub fn contains(&self, header_name: &str) -> (r: bool)
        ensures
            r == self@.contains(unicode_lowercase(header_name@)),
            is_ascii_seq(header_name@) ==> r == self@.contains(ascii_lowercase_seq(header_name@)),
    {
        proof {
            use_type_invariant(self);
            self.lemma_names();
        }
        let lower = to_lowercase(header_name);
        let n = self.headers.len();
        let mut i: usize = 0;
        while i < n
            invariant
                n == self.headers@.len(),
                self.names() == texts(self.headers@),
                self.names().to_set() == self@,
                lower@ == unicode_lowercase(header_name@),
                is_ascii_seq(header_name@) ==> lower@ == ascii_lowercase_seq(header_name@),
                i <= n,
                forall|j: int| 0 <= j < i ==> self.names()[j] != lower@,
            decreases n - i,
        {
            if compare_str(self.headers[i].as_str(), lower.as_str()) == Order::Equal {
                assert(self.names()[i as int] == lower@);
                assert(self.names().contains(lower@));
                return true;
            }
            i = i + 1;
        }
        assert(!self.names().contains(lower@));
        false
    }

    /// Inserts one header name after trimming and lower-casing; ignores names
    /// that normalize to the empty string.
    pub fn insert(&mut self, header_name: &str)
        ensures
            normalized_header(header_name@).len() > 0 ==> final(self)@ == old(self)@.insert(
                normalized_header(header_name@),
            ),
            normalized_header(header_name@).len() == 0 ==> final(self)@ == old(self)@,
            trim_seq(header_name@).len() > 0 ==> normalized_header(header_name@).len() > 0,
            is_ascii_seq(header_name@) ==> normalized_header(header_name@) == ascii_lowercase_seq(
                trim_seq(header_name@),
            ),
    {
        proof {
            use_type_invariant(&*self);
        }
        let trimmed = trim(header_name);
        proof {
            lemma_trim_ascii(header_name@);
        }
        let ghost old_names = texts(self.headers@);
        assert forall|i: int| 0 <= i < old_names.len() implies is_stored_form(#[trigger] old_names[i]) by {
            assert(old_names[i] == self.headers@[i]@);
        }
        let value = to_lowercase(trimmed);
        if value.unicode_len() == 0 {
            return;
        }
        let ghost names = texts(self.headers@);
        let n = self.headers.len();
        let mut p: usize = 0;
        while p < n && compare_str(self.headers[p].as_str(), value.as_str()) == Order::Less
            invariant
                n == self.headers@.len(),
                names == texts(self.headers@),
                p <= n,
                forall|j: int| 0 <= j < p ==> seq_less(#[trigger] names[j], value@),
            decreases n - p,
        {
            p = p + 1;
        }
        if p < n && compare_str(self.headers[p].as_str(), value.as_str()) == Order::Equal {
            proof {
                assert(names[p as int] == value@);
                assert(names.contains(value@));
                assert(names.to_set().insert(value@) =~= names.to_set());
            }
            return;
        }
        proof {
            if p < n {
                lemma_seq_less_total(names[p as int], value@);
            }
        }
        let ghost vview = value@;
        let mut headers: Vec<String> = Vec::new();
        std::mem::swap(&mut headers, &mut self.headers);
        headers.insert(p, value);
        proof {
            let new_names = texts(headers@);
            assert(new_names =~= names.insert(p as int, vview));
            assert forall|i: int, j: int| 0 <= i < j < new_names.len() implies seq_less(
                #[trigger] new_names[i],
                #[trigger] new_names[j],
            ) by {
                if j < p {
                } else if j == p {
                } else if i < p {
                    // names[i] < value < names[j - 1] = new_names[j]
                    if j - 1 > p {
                        lemma_seq_less_transitive(vview, names[p as int], names[j - 1]);
                    }
                    lemma_seq_less_transitive(names[i], vview, names[j - 1]);
                } else if i == p {
                    if j - 1 > p {
                        lemma_seq_less_transitive(vview, names[p as int], names[j - 1]);
                    }
                } else {
                }
            }
            assert forall|i: int| 0 <= i < headers@.len() implies (#[trigger] headers@[i])@.len()
                > 0 by {
                assert(headers@[i]@ == new_names[i]);
            }
            assert(normalized_header(header_name@) == vview);
            if is_ascii_seq(header_name@) {
                law_ascii_name_normal_form(header_name@);
            }
            assert(stored_from(vview, header_name@));
            assert forall|i: int| 0 <= i < headers@.len() implies is_stored_form(#[trigger] headers@[i]@) by {
                assert(headers@[i]@ == new_names[i]);
                if i < p {
                    assert(new_names[i] == names[i]);
                } else if i > p {
                    assert(new_names[i] == names[i - 1]);
                }
            }
            assert(new_names.to_set() =~= names.to_set().insert(vview)) by {
                assert forall|x: Seq<char>| new_names.to_set().contains(x) <==> names.to_set().insert(
                    vview,
                ).contains(x) by {
                    if new_names.contains(x) {
                        let k = choose|k: int| 0 <= k < new_names.len() && new_names[k] == x;
                        if k < p {
                            assert(names[k] == x);
                        } else if k > p {
                            assert(names[k - 1] == x);
                        }
                    }
                    if names.contains(x) {
                        let k = choose|k: int| 0 <= k < names.len() && names[k] == x;
                        if k < p {
                            assert(new_names[k] == x);
                        } else {
                            assert(new_names[k + 1] == x);
                        }
                    }
                    if x == vview {
                        assert(new_names[p as int] == x);
                    }
                }
            }
        }
        self.headers = headers;
    }

    /// Inserts each header via [`SensitiveHeaders::insert`].
    pub fn extend(&mut self, headers: &[&str])
        ensures
            final(self)@ == old(self)@.union(
                normalized_headers(headers@.map_values(|h: &str| h@)),
            ),
    {
        let ghost names = headers@.map_values(|h: &str| h@);
        let ghost start = self@;
        let n = headers.len();
        let mut i: usize = 0;
        assert(start.union(normalized_headers(names.take(0))) =~= start);
        while i < n
            invariant
                n == headers@.len(),
                names == headers@.map_values(|h: &str| h@),
                i <= n,
                self@ == start.union(normalized_headers(names.take(i as int))),
            decreases n - i,
        {
            let h = headers[i];
            self.insert(h);
            proof {
                assert(names[i as int] == h@);
                let before = normalized_headers(names.take(i as int));
                let after = normalized_headers(names.take(i + 1));
                if normalized_header(h@).len() > 0 {
                    assert(after =~= before.insert(normalized_header(h@))) by {
                        assert forall|x: Seq<char>| after.contains(x) <==> before.insert(
                            normalized_header(h@),
                        ).contains(x) by {
                            if after.contains(x) {
                                let k = choose|k: int|
                                    0 <= k < i + 1 && #[trigger] normalized_header(
                                        names.take(i + 1)[k],
                                    ) == x && x.len() > 0;
                                if k < i {
                                    assert(names.take(i as int)[k] == names.take(i + 1)[k]);
                                }
                            }
                            if before.contains(x) {
                                let k = choose|k: int|
                                    0 <= k < i && #[trigger] normalized_header(
                                        names.take(i as int)[k],
                                    ) == x && x.len() > 0;
                                assert(names.take(i as int)[k] == names.take(i + 1)[k]);
                            }
                            if x == normalized_header(h@) {
                                assert(names.take(i + 1)[i as int] == h@);
                            }
                        }
                    }
                } else {
                    assert(after =~= before) by {
                        assert forall|x: Seq<char>| after.contains(x) <==> before.contains(x) by {
                            if after.contains(x) {
                                let k = choose|k: int|
                                    0 <= k < i + 1 && #[trigger] normalized_header(
                                        names.take(i + 1)[k],
                                    ) == x && x.len() > 0;
                                if k < i {
                                    assert(names.take(i as int)[k] == names.take(i + 1)[k]);
                                } else {
                                    assert(names.take(i + 1)[k] == h@);
                                }
                            }
                            if before.contains(x) {
                                let k = choose|k: int|
                                    0 <= k < i && #[trigger] normalized_header(
                                        names.take(i as int)[k],
                                    ) == x && x.len() > 0;
                                assert(names.take(i as int)[k] == names.take(i + 1)[k]);
                            }
                        }
                    }
                }
            }
            i = i + 1;
        }
        assert(names.take(n as int) =~= names);
    }

    /// Clears all stored sensitive header names.
    pub fn clear(&mut self)
        ensures
            final(self)@ == Set::<Seq<char>>::empty(),
    {
        self.headers = Vec::new();
        assert(texts(self.headers@).to_set() =~= Set::<Seq<char>>::empty());
    }

    /// Returns how many sensitive header names are stored.
    pub fn len(&self) -> (r: usize)
        ensures
            r == self@.len(),
    {
        proof {
            use_type_invariant(self);
            self.lemma_names();
        }
        self.headers.len()
    }

    /// Returns whether no sensitive names are registered.
    pub fn is_empty(&self) -> (r: bool)
        ensures
            r == (self@.len() == 0),
    {
        self.len() == 0
    }

    /// A copy holding the same names.
    pub fn duplicate(&self) -> (r: Self)
        ensures
            r@ == self@,
            r.names() == self.names(),
    {
        proof {
            use_type_invariant(self);
        }
        let headers = self.iter();
        proof {
            self.lemma_names();
            assert forall|i: int| 0 <= i < headers@.len() implies (#[trigger] headers@[i])@.len()
                > 0 by {
                assert(headers@[i]@ == texts(headers@)[i]);
            }
        }
        SensitiveHeaders { headers }
    }

    /// The normalized (lower-case) sensitive header names, in ascending
    /// order; each is non-empty and is what inserting some name stores (see
    /// [`stored_from`]: for a name inserted as ASCII text, it is trimmed and
    /// fixed by lower-casing).
    pub fn iter(&self) -> (r: Vec<String>)
        ensures
            texts(r@) == self.names(),
            strictly_sorted(texts(r@)),
            texts(r@).to_set() == self@,
            forall|i: int| 0 <= i < r@.len() ==> (#[trigger] r@[i])@.len() > 0 && is_stored_form(r@[i]@),
    {
        proof {
            use_type_invariant(self);
            self.lemma_names();
        }
        let mut out: Vec<String> = Vec::new();
        let n = self.headers.len();
        let mut i: usize = 0;
        while i < n
            invariant
                n == self.headers@.len(),
                i <= n,
                texts(out@) == self.names().take(i as int),
                self.names() == texts(self.headers@),
            decreases n - i,
        {
            let name = self.headers[i].clone();
            let ghost before = out@;
            out.push(name);
            proof {
                assert(name@ == self.names()[i as int]);
                assert(texts(out@) =~= texts(before).push(name@));
                assert(self.names().take(i + 1) =~= self.names().take(i as int).push(
                    self.names()[i as int],
                ));
            }
            i = i + 1;
        }
        assert(self.names().take(n as int) =~= self.names());
        assert forall|k: int| 0 <= k < out@.len() implies (#[trigger] out@[k])@.len() > 0 && is_stored_form(
            out@[k]@,
        ) by {
            assert(out@[k]@ == texts(out@)[k]);
            assert(self.names()[k] == self.headers@[k]@);
        }
        out
    }
}

impl Clone for SensitiveHeaders {
    fn clone(&self) -> (r: Self)
        ensures
            r@ == self@,
    {
        self.duplicate()
    }
}

/// A name inserted into the set is then reported as sensitive when looked
/// up in any letter case (unless it is blank): the lookup lower-cases, the
/// insertion trims and lower-cases.
pub proof fn law_insert_then_contains(before: Set<Seq<char>>, name: Seq<char>)
    requires
        normalized_header(name).len() > 0,
    ensures
        before.insert(normalized_header(name)).contains(unicode_lowercase(trim_seq(name))),
{
}

/// Inserting the same name twice leaves the same set as inserting it once.
pub proof fn law_insert_idempotent(before: Set<Seq<char>>, name: Seq<char>)
    ensures
        before.insert(normalized_header(name)).insert(normalized_header(name)) == before.insert(
            normalized_header(name),
        ),
{
    assert(before.insert(normalized_header(name)).insert(normalized_header(name)) =~= before.insert(
        normalized_header(name),
    ));
}

/// Trimming keeps an ASCII text ASCII, and leaves no white space at either
/// end.
pub proof fn lemma_trim_ascii(s: Seq<char>)
    ensures
        is_ascii_seq(s) ==> is_ascii_seq(trim_seq(s)),
        trim_seq(s).len() > 0 ==> !is_white_space(trim_seq(s)[0]) && !is_white_space(
            trim_seq(s).last(),
        ),
    decreases s.len(),
{
    if s.len() > 0 {
        if is_white_space(s[0]) {
            lemma_trim_ascii(s.drop_first());
            if is_ascii_seq(s) {
                assert(is_ascii_seq(s.drop_first())) by {
                    assert forall|i: int| 0 <= i < s.drop_first().len() implies (#[trigger] s.drop_first()[i]
                        as u32) < 128 by {
                        assert(s.drop_first()[i] == s[i + 1]);
                    }
                }
            }
        } else if is_white_space(s.last()) {
            lemma_trim_ascii(s.drop_last());
            if is_ascii_seq(s) {
                assert(is_ascii_seq(s.drop_last())) by {
                    assert forall|i: int| 0 <= i < s.drop_last().len() implies (#[trigger] s.drop_last()[i]
                        as u32) < 128 by {
                        assert(s.drop_last()[i] == s[i]);
                    }
                }
            }
        }
    }
}

/// For an ASCII name, the stored form is already trimmed and lower-case:
/// trimming and ASCII lower-casing (what lower-casing does to ASCII text)
/// leave it unchanged, and it is ASCII.
pub proof fn law_ascii_name_normal_form(name: Seq<char>)
    requires
        is_ascii_seq(name),
    ensures
        ({
            let n = ascii_lowercase_seq(trim_seq(name));
            &&& is_ascii_seq(n)
            &&& trim_seq(n) == n
            &&& ascii_lowercase_seq(n) == n
        }),
{
    lemma_trim_ascii(name);
    let t = trim_seq(name);
    let n = ascii_lowercase_seq(t);
    assert forall|i: int| 0 <= i < n.len() implies (#[trigger] n[i] as u32) < 128 by {
        assert(n[i] == ascii_lower_char(t[i]));
        assert((t[i] as u32) < 128);
    }
    if n.len() > 0 {
        assert(n[0] == ascii_lower_char(t[0]));
        assert(n.last() == ascii_lower_char(t.last()));
    }
    assert(ascii_lowercase_seq(n) =~= n);
}

/// Names equal up to ASCII case are stored and looked up under the same
/// lower-case form: `X-Api-Key` and `x-api-key` are one name.
pub proof fn law_ascii_case_insensitive(a: Seq<char>, b: Seq<char>)
    requires
        eq_ignore_ascii_case_seq(a, b),
    ensures
        ascii_lowercase_seq(a) == ascii_lowercase_seq(b),
{
    assert forall|i: int| 0 <= i < a.len() implies ascii_lower_char(a[i]) == ascii_lower_char(b[i]) by {
        assert(ascii_fold(a[i]) == ascii_fold(b[i]));
    }
    assert(ascii_lowercase_seq(a) =~= ascii_lowercase_seq(b));
}

/// The set after inserting a name: its normalized form is added unless it
/// is empty.
pub open spec fn insert_name(set: Set<Seq<char>>, name: Seq<char>) -> Set<Seq<char>> {
    if normalized_header(name).len() > 0 {
        set.insert(normalized_header(name))
    } else {
        set
    }
}

/// The set after inserting each name in turn.
pub open spec fn insert_names(set: Set<Seq<char>>, names: Seq<Seq<char>>) -> Set<Seq<char>>
    decreases names.len(),
{
    if names.len() == 0 {
        set
    } else {
        insert_name(insert_names(set, names.drop_last()), names.last())
    }
}

/// Extending by a list of names gives the same set as inserting the names
/// one by one, in order.
pub proof fn law_extend_is_inserts_in_turn(set: Set<Seq<char>>, names: Seq<Seq<char>>)
    ensures
        set.union(normalized_headers(names)) == insert_names(set, names),
    decreases names.len(),
{
    if names.len() == 0 {
        assert(normalized_headers(names) =~= Set::<Seq<char>>::empty());
        assert(set.union(normalized_headers(names)) =~= set);
    } else {
        let init = names.drop_last();
        law_extend_is_inserts_in_turn(set, init);
        let last = names.last();
        assert forall|x: Seq<char>| normalized_headers(names).contains(x) <==> (normalized_headers(
            init,
        ).contains(x) || (x == normalized_header(last) && x.len() > 0)) by {
            if normalized_headers(names).contains(x) {
                let k = choose|k: int| 0 <= k < names.len() && #[trigger] normalized_header(names[k]) == x
                    && x.len() > 0;
                if k < names.len() - 1 {
                    assert(init[k] == names[k]);
                }
            }
            if normalized_headers(init).contains(x) {
                let k = choose|k: int| 0 <= k < init.len() && #[trigger] normalized_header(init[k]) == x
                    && x.len() > 0;
                assert(names[k] == init[k]);
            }
            if x == normalized_header(last) && x.len() > 0 {
                assert(normalized_header(names[names.len() - 1]) == x);
            }
        }
        assert(set.union(normalized_headers(names)) =~= insert_name(set.union(normalized_headers(init)), last));
    }
}

} // verus!
