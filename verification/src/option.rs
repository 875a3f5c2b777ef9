//! The option store: a string-to-string mapping with deterministic, sorted
//! iteration and merge-with-override semantics.
//!
//! The store is modelled by its sequence of `(key, value)` entries, kept
//! strictly sorted by key (so keys are unique, and serialisation to a query
//! string is reproducible).  `lookup` reads the model, `insert_entry` and
//! `merge_entries` describe mutation, and the public lemmas state the merge
//! laws: merging a set with itself changes nothing, and on a common key the
//! right-hand side wins.

use vstd::prelude::*;
use crate::strutil::{
    lex_lt, lemma_lex_lt_irrefl, lemma_lex_lt_trans, lemma_lex_lt_total, str_eq, str_lt,
};

verus! {

/// Keys strictly ascend: sorted, and therefore unique.
pub open spec fn sorted_keys(s: Seq<(Seq<char>, Seq<char>)>) -> bool {
    forall|i: int, j: int| 0 <= i < j < s.len() ==> lex_lt(s[i].0, s[j].0)
}

/// The value stored under `k`, if any; of duplicate keys the last wins.
pub open spec fn lookup(s: Seq<(Seq<char>, Seq<char>)>, k: Seq<char>) -> Option<Seq<char>>
    decreases s.len(),
{
    if s.len() == 0 {
        None
    } else if s.last().0 == k {
        Some(s.last().1)
    } else {
        lookup(s.drop_last(), k)
    }
}

/// Entries after storing `v` under `k`: sorted position found from the front,
/// an existing entry for `k` replaced.
pub open spec fn insert_entry(
    s: Seq<(Seq<char>, Seq<char>)>,
    k: Seq<char>,
    v: Seq<char>,
) -> Seq<(Seq<char>, Seq<char>)>
    decreases s.len(),
{
    if s.len() == 0 {
        seq![(k, v)]
    } else if lex_lt(k, s[0].0) {
        seq![(k, v)] + s
    } else if k == s[0].0 {
        seq![(k, v)] + s.drop_first()
    } else {
        seq![s[0]] + insert_entry(s.drop_first(), k, v)
    }
}

/// Entries after storing every entry of `b` into `a`, in order: keys present
/// in both end with `b`'s value.
pub open spec fn merge_entries(
    a: Seq<(Seq<char>, Seq<char>)>,
    b: Seq<(Seq<char>, Seq<char>)>,
) -> Seq<(Seq<char>, Seq<char>)>
    decreases b.len(),
{
    if b.len() == 0 {
        a
    } else {
        insert_entry(merge_entries(a, b.drop_last()), b.last().0, b.last().1)
    }
}

/// Entries after dropping every entry whose key is `k`.
pub open spec fn remove_entry(
    s: Seq<(Seq<char>, Seq<char>)>,
    k: Seq<char>,
) -> Seq<(Seq<char>, Seq<char>)>
    decreases s.len(),
{
    if s.len() == 0 {
        s
    } else if s.last().0 == k {
        remove_entry(s.drop_last(), k)
    } else {
        remove_entry(s.drop_last(), k) + seq![s.last()]
    }
}

/// `lookup` finds nothing exactly when no entry has the key.
pub proof fn lemma_lookup_none(s: Seq<(Seq<char>, Seq<char>)>, k: Seq<char>)
    ensures
        (lookup(s, k) is None) <==> (forall|j: int| 0 <= j < s.len() ==> s[j].0 != k),
    decreases s.len(),
{
    if s.len() > 0 {
        lemma_lookup_none(s.drop_last(), k);
        if s.last().0 != k && (lookup(s.drop_last(), k) is None) {
            assert forall|j: int| 0 <= j < s.len() implies s[j].0 != k by {
                if j < s.len() - 1 {
                    assert(s.drop_last()[j] == s[j]);
                }
            }
        }
    }
}

/// In a sorted entry sequence, `lookup` of the key at any position returns
/// the value at that position.
pub proof fn lemma_lookup_index(s: Seq<(Seq<char>, Seq<char>)>, j: int)
    requires
        sorted_keys(s),
        0 <= j < s.len(),
    ensures
        lookup(s, s[j].0) == Some(s[j].1),
    decreases s.len(),
{
    if j == s.len() - 1 {
    } else {
        lemma_lex_lt_irrefl(s[j].0);
        assert(s.last().0 != s[j].0);
        assert(sorted_keys(s.drop_last())) by {
            assert forall|i2: int, j2: int|
                0 <= i2 < j2 < s.drop_last().len() implies lex_lt(
                s.drop_last()[i2].0,
                s.drop_last()[j2].0,
            ) by {
                assert(s.drop_last()[i2] == s[i2]);
                assert(s.drop_last()[j2] == s[j2]);
            }
        }
        lemma_lookup_index(s.drop_last(), j);
        assert(s.drop_last()[j] == s[j]);
    }
}

/// Dropping the last entry keeps the keys sorted.
proof fn lemma_sorted_drop_last(s: Seq<(Seq<char>, Seq<char>)>)
    requires
        sorted_keys(s),
        s.len() > 0,
    ensures
        sorted_keys(s.drop_last()),
{
    assert forall|i2: int, j2: int|
        0 <= i2 < j2 < s.drop_last().len() implies lex_lt(
        s.drop_last()[i2].0,
        s.drop_last()[j2].0,
    ) by {
        assert(s.drop_last()[i2] == s[i2]);
        assert(s.drop_last()[j2] == s[j2]);
    }
}

/// Dropping the first entry keeps the keys sorted.
proof fn lemma_sorted_drop_first(s: Seq<(Seq<char>, Seq<char>)>)
    requires
        sorted_keys(s),
        s.len() > 0,
    ensures
        sorted_keys(s.drop_first()),
{
    assert forall|i2: int, j2: int|
        0 <= i2 < j2 < s.drop_first().len() implies lex_lt(
        s.drop_first()[i2].0,
        s.drop_first()[j2].0,
    ) by {
        assert(s.drop_first()[i2] == s[i2 + 1]);
        assert(s.drop_first()[j2] == s[j2 + 1]);
    }
}

/// `lookup` on a concatenation prefers the right-hand part.
proof fn lemma_lookup_append(
    a: Seq<(Seq<char>, Seq<char>)>,
    b: Seq<(Seq<char>, Seq<char>)>,
    k: Seq<char>,
)
    ensures
        lookup(a + b, k) == if lookup(b, k) is Some {
            lookup(b, k)
        } else {
            lookup(a, k)
        },
    decreases b.len(),
{
    if b.len() == 0 {
        assert(a + b =~= a);
    } else {
        assert((a + b).last() == b.last());
        assert((a + b).drop_last() =~= a + b.drop_last());
        lemma_lookup_append(a, b.drop_last(), k);
    }
}

/// `lookup` on a single-entry sequence.
proof fn lemma_lookup_singleton(p: (Seq<char>, Seq<char>), x: Seq<char>)
    ensures
        lookup(seq![p], x) == if x == p.0 {
            Some(p.1)
        } else {
            Option::<Seq<char>>::None
        },
{
    let s1: Seq<(Seq<char>, Seq<char>)> = seq![p];
    assert(s1.last() == p);
    assert(s1.drop_last() =~= Seq::<(Seq<char>, Seq<char>)>::empty());
    assert(lookup(s1.drop_last(), x) is None);
}

/// What inserting does to the model: the keys stay sorted, the stored key
/// reads back as the new value, every other key is untouched.
pub proof fn lemma_insert_entry_props(
    s: Seq<(Seq<char>, Seq<char>)>,
    k: Seq<char>,
    v: Seq<char>,
)
    requires
        sorted_keys(s),
    ensures
        sorted_keys(insert_entry(s, k, v)),
        forall|x: Seq<char>|
            #[trigger] lookup(insert_entry(s, k, v), x) == if x == k {
                Some(v)
            } else {
                lookup(s, x)
            },
    decreases s.len(),
{
    let r = insert_entry(s, k, v);
    if s.len() == 0 {
        assert forall|x: Seq<char>|
            #[trigger] lookup(r, x) == if x == k {
                Some(v)
            } else {
                lookup(s, x)
            } by {
            lemma_lookup_singleton((k, v), x);
        }
    } else if lex_lt(k, s[0].0) {
        // All keys of s exceed k.
        assert forall|j: int| 0 <= j < s.len() implies s[j].0 != k && lex_lt(k, s[j].0) by {
            if j > 0 {
                lemma_lex_lt_trans(k, s[0].0, s[j].0);
            }
            lemma_lex_lt_irrefl(k);
        }
        assert(sorted_keys(r)) by {
            assert forall|i2: int, j2: int| 0 <= i2 < j2 < r.len() implies lex_lt(
                r[i2].0,
                r[j2].0,
            ) by {
                if i2 == 0 {
                    assert(r[j2] == s[j2 - 1]);
                } else {
                    assert(r[i2] == s[i2 - 1]);
                    assert(r[j2] == s[j2 - 1]);
                }
            }
        }
        assert forall|x: Seq<char>|
            #[trigger] lookup(r, x) == if x == k {
                Some(v)
            } else {
                lookup(s, x)
            } by {
            assert(r =~= seq![(k, v)] + s);
            lemma_lookup_append(seq![(k, v)], s, x);
            lemma_lookup_none(s, k);
            lemma_lookup_singleton((k, v), x);
        }
    } else if k == s[0].0 {
        lemma_lex_lt_irrefl(k);
        let d = s.drop_first();
        lemma_sorted_drop_first(s);
        // All keys of d exceed k.
        assert forall|j: int| 0 <= j < d.len() implies d[j].0 != k by {
            assert(d[j] == s[j + 1]);
            lemma_lex_lt_irrefl(k);
        }
        assert(sorted_keys(r)) by {
            assert forall|i2: int, j2: int| 0 <= i2 < j2 < r.len() implies lex_lt(
                r[i2].0,
                r[j2].0,
            ) by {
                if i2 == 0 {
                    assert(r[j2] == s[j2]);
                } else {
                    assert(r[i2] == s[i2]);
                    assert(r[j2] == s[j2]);
                }
            }
        }
        assert forall|x: Seq<char>|
            #[trigger] lookup(r, x) == if x == k {
                Some(v)
            } else {
                lookup(s, x)
            } by {
            assert(r =~= seq![(k, v)] + d);
            assert(s =~= seq![s[0]] + d);
            lemma_lookup_append(seq![(k, v)], d, x);
            lemma_lookup_append(seq![s[0]], d, x);
            lemma_lookup_none(d, k);
            lemma_lookup_singleton((k, v), x);
            lemma_lookup_singleton(s[0], x);
        }
    } else {
        lemma_lex_lt_total(k, s[0].0);
        assert(lex_lt(s[0].0, k));
        let d = s.drop_first();
        lemma_sorted_drop_first(s);
        lemma_insert_entry_props(d, k, v);
        let rd = insert_entry(d, k, v);
        assert(r =~= seq![s[0]] + rd);
        // The first key is below every key of rd.
        assert forall|j: int| 0 <= j < rd.len() implies lex_lt(s[0].0, rd[j].0) by {
            let x = rd[j].0;
            lemma_lookup_none(rd, x);
            assert(lookup(rd, x) is Some);
            if x == k {
            } else {
                assert(lookup(d, x) is Some);
                lemma_lookup_none(d, x);
                let j2 = choose|j2: int| 0 <= j2 < d.len() && d[j2].0 == x;
                assert(d[j2] == s[j2 + 1]);
            }
        }
        assert(sorted_keys(r)) by {
            assert forall|i2: int, j2: int| 0 <= i2 < j2 < r.len() implies lex_lt(
                r[i2].0,
                r[j2].0,
            ) by {
                if i2 == 0 {
                    assert(r[j2] == rd[j2 - 1]);
                } else {
                    assert(r[i2] == rd[i2 - 1]);
                    assert(r[j2] == rd[j2 - 1]);
                }
            }
        }
        assert forall|x: Seq<char>|
            #[trigger] lookup(r, x) == if x == k {
                Some(v)
            } else {
                lookup(s, x)
            } by {
            lemma_lookup_append(seq![s[0]], rd, x);
            assert(s =~= seq![s[0]] + d);
            lemma_lookup_append(seq![s[0]], d, x);
            lemma_lookup_singleton(s[0], x);
            lemma_lex_lt_irrefl(k);
        }
    }
}

/// Merging updates the model entry by entry: on any key, a value from `b`
/// wins; keys untouched by `b` keep `a`'s value.  This is the general
/// right-bias law of the option merge.
pub proof fn lemma_merge_props(
    a: Seq<(Seq<char>, Seq<char>)>,
    b: Seq<(Seq<char>, Seq<char>)>,
)
    requires
        sorted_keys(a),
    ensures
        sorted_keys(merge_entries(a, b)),
        forall|x: Seq<char>|
            #[trigger] lookup(merge_entries(a, b), x) == if lookup(b, x) is Some {
                lookup(b, x)
            } else {
                lookup(a, x)
            },
    decreases b.len(),
{
    if b.len() > 0 {
        lemma_merge_props(a, b.drop_last());
        lemma_insert_entry_props(merge_entries(a, b.drop_last()), b.last().0, b.last().1);
    }
}

/// Storing a pair that is already present changes nothing.
proof fn lemma_insert_existing(s: Seq<(Seq<char>, Seq<char>)>, k: Seq<char>, v: Seq<char>)
    requires
        sorted_keys(s),
        lookup(s, k) == Some(v),
    ensures
        insert_entry(s, k, v) == s,
    decreases s.len(),
{
    lemma_lookup_none(s, k);
    assert(s.len() > 0);
    if lex_lt(k, s[0].0) {
        assert forall|j: int| 0 <= j < s.len() implies s[j].0 != k by {
            if j > 0 {
                lemma_lex_lt_trans(k, s[0].0, s[j].0);
            }
            lemma_lex_lt_irrefl(k);
        }
        assert(false);
    } else if k == s[0].0 {
        lemma_lex_lt_irrefl(k);
        lemma_lookup_index(s, 0);
        assert(v == s[0].1);
        assert((k, v) == s[0]);
        assert(insert_entry(s, k, v) =~= s);
    } else {
        let d = s.drop_first();
        lemma_sorted_drop_first(s);
        assert(s =~= seq![s[0]] + d);
        lemma_lookup_append(seq![s[0]], d, k);
        lemma_lex_lt_total(k, s[0].0);
        lemma_lex_lt_irrefl(s[0].0);
        lemma_lookup_singleton(s[0], k);
        assert(lookup(seq![s[0]], k) is None);
        assert(lookup(d, k) == Some(v));
        lemma_insert_existing(d, k, v);
        assert(insert_entry(s, k, v) =~= s);
    }
}

/// Merging entries that are all already present changes nothing.
proof fn lemma_merge_contained(a: Seq<(Seq<char>, Seq<char>)>, b: Seq<(Seq<char>, Seq<char>)>)
    requires
        sorted_keys(a),
        forall|j: int| 0 <= j < b.len() ==> lookup(a, #[trigger] b[j].0) == Some(b[j].1),
    ensures
        merge_entries(a, b) == a,
    decreases b.len(),
{
    if b.len() > 0 {
        assert forall|j: int| 0 <= j < b.drop_last().len() implies lookup(
            a,
            #[trigger] b.drop_last()[j].0,
        ) == Some(b.drop_last()[j].1) by {
            assert(b.drop_last()[j] == b[j]);
        }
        lemma_merge_contained(a, b.drop_last());
        lemma_insert_existing(a, b.last().0, b.last().1);
    }
}

/// Merging an option set with itself gives the set back unchanged.
pub proof fn lemma_merge_idempotent(a: Seq<(Seq<char>, Seq<char>)>)
    requires
        sorted_keys(a),
    ensures
        merge_entries(a, a) == a,
{
    assert forall|j: int| 0 <= j < a.len() implies lookup(a, #[trigger] a[j].0) == Some(
        a[j].1,
    ) by {
        lemma_lookup_index(a, j);
    }
    lemma_merge_contained(a, a);
}

/// What removing a key does to the model: the keys stay sorted, the removed
/// key reads back as absent, every other key is untouched.
pub proof fn lemma_remove_entry_props(s: Seq<(Seq<char>, Seq<char>)>, k: Seq<char>)
    requires
        sorted_keys(s),
    ensures
        sorted_keys(remove_entry(s, k)),
        forall|x: Seq<char>|
            #[trigger] lookup(remove_entry(s, k), x) == if x == k {
                Option::<Seq<char>>::None
            } else {
                lookup(s, x)
            },
        forall|j: int| 0 <= j < remove_entry(s, k).len() ==> remove_entry(s, k)[j].0 != k,
    decreases s.len(),
{
    let r = remove_entry(s, k);
    if s.len() == 0 {
    } else {
        lemma_sorted_drop_last(s);
        lemma_remove_entry_props(s.drop_last(), k);
        let rd = remove_entry(s.drop_last(), k);
        if s.last().0 == k {
            assert forall|x: Seq<char>|
                #[trigger] lookup(r, x) == if x == k {
                    Option::<Seq<char>>::None
                } else {
                    lookup(s, x)
                } by {}
        } else {
            assert(r =~= rd + seq![s.last()]);
            // The appended key exceeds every key kept from the front part.
            assert forall|j: int| 0 <= j < rd.len() implies lex_lt(rd[j].0, s.last().0) by {
                let x = rd[j].0;
                lemma_lookup_none(rd, x);
                assert(lookup(rd, x) is Some);
                assert(lookup(s.drop_last(), x) is Some);
                lemma_lookup_none(s.drop_last(), x);
                let j2 = choose|j2: int|
                    0 <= j2 < s.drop_last().len() && s.drop_last()[j2].0 == x;
                assert(s.drop_last()[j2] == s[j2]);
            }
            assert(sorted_keys(r)) by {
                assert forall|i2: int, j2: int| 0 <= i2 < j2 < r.len() implies lex_lt(
                    r[i2].0,
                    r[j2].0,
                ) by {
                    if j2 < r.len() - 1 {
                        assert(r[i2] == rd[i2]);
                        assert(r[j2] == rd[j2]);
                    } else {
                        assert(r[i2] == rd[i2]);
                    }
                }
            }
            assert forall|x: Seq<char>|
                #[trigger] lookup(r, x) == if x == k {
                    Option::<Seq<char>>::None
                } else {
                    lookup(s, x)
                } by {
                lemma_lookup_append(rd, seq![s.last()], x);
                lemma_lookup_singleton(s.last(), x);
            }
        }
    }
}


/// Where an insert lands: with all keys before `i` below `k` and the key at
/// `i` (if any) not below `k`, inserting splices at position `i`, replacing
/// the entry there when its key is exactly `k`.
proof fn lemma_insert_entry_at(s: Seq<(Seq<char>, Seq<char>)>, k: Seq<char>, v: Seq<char>, i: int)
    requires
        sorted_keys(s),
        0 <= i <= s.len(),
        forall|j: int| 0 <= j < i ==> lex_lt(s[j].0, k),
        i < s.len() ==> !lex_lt(s[i].0, k),
    ensures
        insert_entry(s, k, v) == if i < s.len() && s[i].0 == k {
            s.take(i) + seq![(k, v)] + s.skip(i + 1)
        } else {
            s.take(i) + seq![(k, v)] + s.skip(i)
        },
    decreases i,
{
    if i == 0 {
        if s.len() == 0 {
            assert(insert_entry(s, k, v) =~= s.take(0) + seq![(k, v)] + s.skip(0));
        } else if s[0].0 == k {
            lemma_lex_lt_irrefl(k);
            assert(insert_entry(s, k, v) =~= s.take(0) + seq![(k, v)] + s.skip(1));
        } else {
            lemma_lex_lt_total(k, s[0].0);
            assert(lex_lt(k, s[0].0));
            assert(insert_entry(s, k, v) =~= s.take(0) + seq![(k, v)] + s.skip(0));
        }
    } else {
        assert(lex_lt(s[0].0, k));
        if s[0].0 == k {
            lemma_lex_lt_irrefl(k);
            assert(false);
        }
        if lex_lt(k, s[0].0) {
            lemma_lex_lt_trans(s[0].0, k, s[0].0);
            lemma_lex_lt_irrefl(s[0].0);
            assert(false);
        }
        let d = s.drop_first();
        lemma_sorted_drop_first(s);
        assert forall|j: int| 0 <= j < i - 1 implies lex_lt(d[j].0, k) by {
            assert(d[j] == s[j + 1]);
        }
        assert(i - 1 < d.len() ==> d[i - 1] == s[i]);
        lemma_insert_entry_at(d, k, v, i - 1);
        assert(insert_entry(s, k, v) == seq![s[0]] + insert_entry(d, k, v));
        if i < s.len() && s[i].0 == k {
            assert(seq![s[0]] + (d.take(i - 1) + seq![(k, v)] + d.skip(i)) =~= s.take(i) + seq![
                (k, v),
            ] + s.skip(i + 1));
        } else {
            assert(seq![s[0]] + (d.take(i - 1) + seq![(k, v)] + d.skip(i - 1)) =~= s.take(i)
                + seq![(k, v)] + s.skip(i));
        }
    }
}

/// One `key=value` fragment of a query string.
pub open spec fn pair_qs(p: (Seq<char>, Seq<char>)) -> Seq<char> {
    p.0 + seq!['='] + p.1
}

/// The `key=value` fragments of the given entries, joined by `'&'`.
pub open spec fn qs_pairs(s: Seq<(Seq<char>, Seq<char>)>) -> Seq<char>
    decreases s.len(),
{
    if s.len() == 0 {
        Seq::empty()
    } else if s.len() == 1 {
        pair_qs(s[0])
    } else {
        qs_pairs(s.drop_last()) + seq!['&'] + pair_qs(s.last())
    }
}

/// A full query string: `'?'`, then the fragments in entry order.
pub open spec fn query_string_of(s: Seq<(Seq<char>, Seq<char>)>) -> Seq<char> {
    seq!['?'] + qs_pairs(s)
}

/// The option store.  Entries are kept strictly sorted by key, so iteration
/// order and the serialised query string are deterministic.
#[derive(Debug, PartialEq, Eq)]
pub struct Options {
    pairs: Vec<(String, String)>,
}

impl Options {
    /// The mathematical model: the `(key, value)` entries, as character
    /// sequences, in storage order.
    pub closed spec fn entries(&self) -> Seq<(Seq<char>, Seq<char>)> {
        self.pairs@.map_values(|p: (String, String)| (p.0@, p.1@))
    }

    /// Well-formedness: keys strictly sorted (hence unique).
    pub open spec fn wf(&self) -> bool {
        sorted_keys(self.entries())
    }

    /// An empty option store.
    pub fn new() -> (r: Options)
        ensures
            r.wf(),
            r.entries() == Seq::<(Seq<char>, Seq<char>)>::empty(),
    {
        let r = Options { pairs: Vec::new() };
        proof {
            assert(r.entries() =~= Seq::<(Seq<char>, Seq<char>)>::empty());
        }
        r
    }

    /// The number of options.
    pub fn len(&self) -> (n: usize)
        ensures
            n == self.entries().len(),
    {
        self.pairs.len()
    }

    /// Whether the store holds no option.
    pub fn is_empty(&self) -> (r: bool)
        ensures
            r == (self.entries().len() == 0),
    {
        self.pairs.is_empty()
    }

    /// A copy with the same entries.
    pub fn duplicate(&self) -> (r: Options)
        ensures
            r.entries() == self.entries(),
            r.wf() == self.wf(),
    {
        let mut pairs: Vec<(String, String)> = Vec::new();
        let n = self.pairs.len();
        let mut i: usize = 0;
        while i < n
            invariant
                i <= n,
                n == self.pairs@.len(),
                pairs@.len() == i,
                forall|j: int| 0 <= j < i ==> pairs@[j] == self.pairs@[j],
            decreases n - i,
        {
            let p = &self.pairs[i];
            pairs.push((p.0.clone(), p.1.clone()));
            i = i + 1;
        }
        let r = Options { pairs };
        proof {
            assert(r.entries() =~= self.entries());
        }
        r
    }

    /// Index of the first entry whose key is not below `k`.
    fn find_pos(&self, k: &str) -> (i: usize)
        requires
            self.wf(),
        ensures
            i <= self.entries().len(),
            forall|j: int| 0 <= j < i ==> lex_lt(self.entries()[j].0, k@),
            i < self.entries().len() ==> !lex_lt(self.entries()[i as int].0, k@),
    {
        let n = self.pairs.len();
        let mut i: usize = 0;
        while i < n
            invariant
                i <= n,
                n == self.pairs@.len(),
                forall|j: int| 0 <= j < i ==> lex_lt(self.entries()[j].0, k@),
            decreases n - i,
        {
            let below = str_lt(self.pairs[i].0.as_str(), k);
            assert(self.entries()[i as int].0 == self.pairs@[i as int].0@);
            if !below {
                return i;
            }
            i = i + 1;
        }
        i
    }

    /// Store `v` under `k`, keeping the entries sorted; returns the value
    /// previously stored under `k`, if any.
    pub fn insert(&mut self, k: String, v: String) -> (prev: Option<String>)
        requires
            old(self).wf(),
        ensures
            final(self).wf(),
            final(self).entries() == insert_entry(old(self).entries(), k@, v@),
            (prev is Some) == (lookup(old(self).entries(), k@) is Some),
            prev matches Some(p) ==> lookup(old(self).entries(), k@) == Some(p@),
    {
        let ghost s0 = self.entries();
        proof {
            lemma_insert_entry_props(s0, k@, v@);
        }
        let i = self.find_pos(k.as_str());
        let n = self.pairs.len();
        if i < n {
            let same = str_eq(self.pairs[i].0.as_str(), k.as_str());
            if same {
                assert(s0[i as int].0 == k@);
                let old_pair = self.pairs.remove(i);
                self.pairs.insert(i, (k, v));
                proof {
                    lemma_insert_entry_at(s0, k@, v@, i as int);
                    assert(self.entries() =~= s0.take(i as int) + seq![(k@, v@)] + s0.skip(
                        i as int + 1,
                    ));
                    lemma_lookup_index(s0, i as int);
                }
                return Some(old_pair.1);
            }
        }
        self.pairs.insert(i, (k, v));
        proof {
            if i < n {
                assert(s0[i as int].0 != k@);
            }
            lemma_insert_entry_at(s0, k@, v@, i as int);
            assert(self.entries() =~= s0.take(i as int) + seq![(k@, v@)] + s0.skip(i as int));
            assert forall|j: int| 0 <= j < s0.len() implies s0[j].0 != k@ by {
                if j < i {
                    lemma_lex_lt_irrefl(k@);
                } else if j == i {
                } else {
                    lemma_lex_lt_total(k@, s0[i as int].0);
                    lemma_lex_lt_trans(k@, s0[i as int].0, s0[j].0);
                    lemma_lex_lt_irrefl(k@);
                }
            }
            lemma_lookup_none(s0, k@);
        }
        None
    }

    /// The value stored under `k`, if any.
    pub fn get(&self, k: &str) -> (r: Option<String>)
        requires
            self.wf(),
        ensures
            (r is Some) == (lookup(self.entries(), k@) is Some),
            r matches Some(v) ==> lookup(self.entries(), k@) == Some(v@),
    {
        let n = self.pairs.len();
        let mut i: usize = 0;
        while i < n
            invariant
                i <= n,
                n == self.pairs@.len(),
                self.wf(),
                forall|j: int| 0 <= j < i ==> self.entries()[j].0 != k@,
            decreases n - i,
        {
            let same = str_eq(self.pairs[i].0.as_str(), k);
            assert(self.entries()[i as int].0 == self.pairs@[i as int].0@);
            if same {
                proof {
                    lemma_lookup_index(self.entries(), i as int);
                }
                return Some(self.pairs[i].1.clone());
            }
            i = i + 1;
        }
        proof {
            lemma_lookup_none(self.entries(), k@);
        }
        None
    }

    /// Whether an option named `k` is stored.
    pub fn contains_key(&self, k: &str) -> (r: bool)
        requires
            self.wf(),
        ensures
            r == (lookup(self.entries(), k@) is Some),
    {
        let g = self.get(k);
        g.is_some()
    }

    /// Merge another option store into this one; on keys present in both,
    /// the other store's value wins.
    pub fn merge(&mut self, o: &Options)
        requires
            old(self).wf(),
        ensures
            final(self).wf(),
            final(self).entries() == merge_entries(old(self).entries(), o.entries()),
    {
        let ghost a0 = self.entries();
        let ghost b = o.entries();
        let n = o.pairs.len();
        let mut i: usize = 0;
        proof {
            assert(b.take(0) =~= Seq::<(Seq<char>, Seq<char>)>::empty());
        }
        while i < n
            invariant
                i <= n,
                n == o.pairs@.len(),
                b == o.entries(),
                self.wf(),
                self.entries() == merge_entries(a0, b.take(i as int)),
            decreases n - i,
        {
            let p = &o.pairs[i];
            let kk = p.0.clone();
            let vv = p.1.clone();
            self.insert(kk, vv);
            proof {
                assert(b.take(i + 1).drop_last() =~= b.take(i as int));
                assert(b.take(i + 1).last() == b[i as int]);
            }
            i = i + 1;
        }
        proof {
            assert(b.take(n as int) =~= b);
        }
    }

    /// A copy of this store with every entry named `k` left out.
    pub fn removed(&self, k: &str) -> (r: Options)
        requires
            self.wf(),
        ensures
            r.wf(),
            r.entries() == remove_entry(self.entries(), k@),
    {
        let ghost s = self.entries();
        let mut pairs: Vec<(String, String)> = Vec::new();
        let n = self.pairs.len();
        let mut i: usize = 0;
        proof {
            assert(s.take(0) =~= Seq::<(Seq<char>, Seq<char>)>::empty());
        }
        while i < n
            invariant
                i <= n,
                n == self.pairs@.len(),
                s == self.entries(),
                pairs@.map_values(|p: (String, String)| (p.0@, p.1@)) == remove_entry(
                    s.take(i as int),
                    k@,
                ),
            decreases n - i,
        {
            let p = &self.pairs[i];
            let same = str_eq(p.0.as_str(), k);
            assert(s[i as int] == (self.pairs@[i as int].0@, self.pairs@[i as int].1@));
            let ghost before = pairs@.map_values(|q: (String, String)| (q.0@, q.1@));
            if !same {
                pairs.push((p.0.clone(), p.1.clone()));
            }
            proof {
                assert(s.take(i + 1).drop_last() =~= s.take(i as int));
                assert(s.take(i + 1).last() == s[i as int]);
                if !same {
                    assert(pairs@.map_values(|q: (String, String)| (q.0@, q.1@)) =~= before
                        + seq![s[i as int]]);
                }
            }
            i = i + 1;
        }
        proof {
            assert(s.take(n as int) =~= s);
            lemma_remove_entry_props(s, k@);
        }
        Options { pairs }
    }

    /// Serialise to a query string: `'?'`, then `key=value` fragments joined
    /// by `'&'`, keys in ascending order.
    pub fn to_query_string(&self) -> (r: String)
        ensures
            r@ == query_string_of(self.entries()),
    {
        let ghost s = self.entries();
        proof {
            reveal_strlit("?");
            reveal_strlit("&");
            reveal_strlit("=");
        }
        let mut out = String::new();
        out.append("?");
        assert(out@ =~= seq!['?'] + qs_pairs(s.take(0))) by {
            assert(s.take(0) =~= Seq::<(Seq<char>, Seq<char>)>::empty());
        }
        let n = self.pairs.len();
        let mut i: usize = 0;
        while i < n
            invariant
                i <= n,
                n == self.pairs@.len(),
                s == self.entries(),
                out@ == seq!['?'] + qs_pairs(s.take(i as int)),
            decreases n - i,
        {
            proof {
                reveal_strlit("&");
                reveal_strlit("=");
            }
            if i > 0 {
                out.append("&");
            }
            let p = &self.pairs[i];
            out.append(p.0.as_str());
            out.append("=");
            out.append(p.1.as_str());
            proof {
                assert(s[i as int] == (self.pairs@[i as int].0@, self.pairs@[i as int].1@));
                assert(s.take(i + 1).drop_last() =~= s.take(i as int));
                assert(s.take(i + 1).last() == s[i as int]);
                if i == 0 {
                    assert(out@ =~= seq!['?'] + qs_pairs(s.take(1)));
                } else {
                    assert(out@ =~= seq!['?'] + qs_pairs(s.take(i + 1)));
                }
            }
            i = i + 1;
        }
        proof {
            assert(s.take(n as int) =~= s);
        }
        out
    }

    /// The option names, in ascending order.
    pub fn keys(&self) -> (r: Vec<String>)
        ensures
            r@.len() == self.entries().len(),
            forall|j: int| 0 <= j < r@.len() ==> r@[j]@ == self.entries()[j].0,
    {
        let mut out: Vec<String> = Vec::new();
        let n = self.pairs.len();
        let mut i: usize = 0;
        while i < n
            invariant
                i <= n,
                n == self.pairs@.len(),
                out@.len() == i,
                forall|j: int| 0 <= j < i ==> out@[j]@ == self.entries()[j].0,
            decreases n - i,
        {
            out.push(self.pairs[i].0.clone());
            i = i + 1;
        }
        out
    }

    /// The option values, in key order.
    pub fn values(&self) -> (r: Vec<String>)
        ensures
            r@.len() == self.entries().len(),
            forall|j: int| 0 <= j < r@.len() ==> r@[j]@ == self.entries()[j].1,
    {
        let mut out: Vec<String> = Vec::new();
        let n = self.pairs.len();
        let mut i: usize = 0;
        while i < n
            invariant
                i <= n,
                n == self.pairs@.len(),
                out@.len() == i,
                forall|j: int| 0 <= j < i ==> out@[j]@ == self.entries()[j].1,
            decreases n - i,
        {
            out.push(self.pairs[i].1.clone());
            i = i + 1;
        }
        out
    }

    /// The option values, in key order, consuming the store.
    pub fn into_values(self) -> (r: Vec<String>)
        ensures
            r@.len() == self.entries().len(),
            forall|j: int| 0 <= j < r@.len() ==> r@[j]@ == self.entries()[j].1,
    {
        self.values()
    }

    /// The `(name, value)` pairs, in key order.
    pub fn iter(&self) -> (r: Vec<(String, String)>)
        ensures
            r@.len() == self.entries().len(),
            forall|j: int|
                0 <= j < r@.len() ==> r@[j].0@ == self.entries()[j].0 && r@[j].1@
                    == self.entries()[j].1,
    {
        let mut out: Vec<(String, String)> = Vec::new();
        let n = self.pairs.len();
        let mut i: usize = 0;
        while i < n
            invariant
                i <= n,
                n == self.pairs@.len(),
                out@.len() == i,
                forall|j: int|
                    0 <= j < i ==> out@[j].0@ == self.entries()[j].0 && out@[j].1@
                        == self.entries()[j].1,
            decreases n - i,
        {
            let p = &self.pairs[i];
            out.push((p.0.clone(), p.1.clone()));
            i = i + 1;
        }
        out
    }
}

impl Default for Options {
    /// An empty option store.
    fn default() -> (r: Options)
        ensures
            r.wf(),
            r.entries() == Seq::<(Seq<char>, Seq<char>)>::empty(),
    {
        Options::new()
    }
}

/// The keys of a well-formed option store ascend strictly in lexicographic
/// order; together with `to_query_string`'s contract this pins the serialised
/// key order for any store.
pub proof fn lemma_query_keys_sorted(o: &Options)
    requires
        o.wf(),
    ensures
        forall|i: int, j: int|
            0 <= i < j < o.entries().len() ==> lex_lt(o.entries()[i].0, o.entries()[j].0),
{
}
} // verus!
