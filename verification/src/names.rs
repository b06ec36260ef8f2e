//! Normalization of enumerated family names.
//!
//! Every backend reports installed fonts in its own order, with repeats
//! when several faces share a family. The query engine hands every raw
//! name list to [`normalize_family_names`], which produces the one shape
//! callers see: exact duplicates removed, names sorted ascending.

use vstd::prelude::*;
use vstd::relations::sorted_by;

use crate::order::lemma_lex_le_antisym;
use crate::order::lemma_lex_le_refl;
use crate::order::lemma_lex_le_total;
use crate::order::lemma_lex_lt_trans;
use crate::order::lex_lt;
use crate::order::lex_lt_rel;
use crate::order::str_lex_le;

verus! {

/// The character sequences of a list of strings.
pub open spec fn views(s: Seq<String>) -> Seq<Seq<char>> {
    s.map_values(|x: String| x@)
}

/// Strictly ascending lexicographic order: sorted, hence free of duplicates.
pub open spec fn strictly_sorted(s: Seq<Seq<char>>) -> bool {
    sorted_by(s, lex_lt_rel())
}

/// Inserting an element into a sequence adds exactly that element to its
/// contents.
proof fn lemma_insert_contains<A>(s: Seq<A>, j: int, x: A)
    requires
        0 <= j <= s.len(),
    ensures
        forall|y: A| #[trigger] s.insert(j, x).contains(y) <==> (s.contains(y) || y == x),
{
    let t = s.insert(j, x);
    assert forall|y: A| #[trigger] t.contains(y) implies (s.contains(y) || y == x) by {
        let k = choose|k: int| 0 <= k < t.len() && t[k] == y;
        if k < j {
            assert(s[k] == y);
        } else if k == j {
            assert(y == x);
        } else {
            assert(s[k - 1] == y);
        }
    }
    assert forall|y: A| (s.contains(y) || y == x) implies #[trigger] t.contains(y) by {
        if y == x {
            assert(t[j] == y);
        } else {
            let k = choose|k: int| 0 <= k < s.len() && s[k] == y;
            if k < j {
                assert(t[k] == y);
            } else {
                assert(t[k + 1] == y);
            }
        }
    }
}

/// Place one name into an already normalized list, keeping it normalized:
/// the name is inserted at its ascending position, or dropped when an
/// equal name is already present.
fn insert_name(out: &mut Vec<String>, name: &String)
    requires
        strictly_sorted(views(old(out)@)),
    ensures
        strictly_sorted(views(final(out)@)),
        forall|s: Seq<char>|
            views(final(out)@).contains(s) <==> (views(old(out)@).contains(s) || s == name@),
{
    let mut j: usize = 0;
    let mut found: bool = false;
    let mut above: bool = false;
    while j < out.len() && !found && !above
        invariant
            j <= out.len(),
            out@ == old(out)@,
            strictly_sorted(views(out@)),
            forall|k: int| 0 <= k < j ==> lex_lt(#[trigger] views(out@)[k], name@),
            found ==> j < out.len() && views(out@)[j as int] == name@,
            above ==> j < out.len() && lex_lt(name@, views(out@)[j as int]),
        decreases
                out.len() - j,
                (if found || above {
                    0int
                } else {
                    1int
                }),
    {
        if out[j] == *name {
            found = true;
        } else if str_lex_le(out[j].as_str(), name.as_str()) {
            proof {
                assert(lex_lt(views(out@)[j as int], name@));
            }
            j = j + 1;
        } else {
            proof {
                lemma_lex_le_total(views(out@)[j as int], name@);
                if views(out@)[j as int] == name@ {
                    lemma_lex_le_refl(name@);
                }
            }
            above = true;
        }
    }
    if found {
        proof {
            assert(views(out@).contains(name@));
        }
        return ;
    }
    // Every name before position `j` is strictly below `name`, and if a name
    // stands at `j` then `name` is strictly below it.
    let ghost pre = views(out@);
    out.insert(j, name.clone());
    proof {
        assert(views(out@) =~= pre.insert(j as int, name@)) by {
            assert forall|k: int| 0 <= k < views(out@).len() implies views(out@)[k] == pre.insert(
                j as int,
                name@,
            )[k] by {}
        }
        let t = pre.insert(j as int, name@);
        assert forall|p: int, q: int| 0 <= p < q < t.len() implies #[trigger] lex_lt_rel()(
            t[p],
            t[q],
        ) by {
            if p < j && q < j {
                assert(lex_lt_rel()(pre[p], pre[q]));
            } else if p < j && q == j {
                assert(lex_lt(pre[p], name@));
            } else if p < j && q > j {
                assert(lex_lt_rel()(pre[p], pre[q - 1]));
            } else if p == j {
                assert(lex_lt(name@, pre[j as int]));
                if q > j + 1 {
                    assert(lex_lt_rel()(pre[j as int], pre[q - 1]));
                    lemma_lex_lt_trans(name@, pre[j as int], pre[q - 1]);
                }
            } else {
                assert(lex_lt_rel()(pre[p - 1], pre[q - 1]));
            }
        }
        lemma_insert_contains(pre, j as int, name@);
    }
}

/// The normalized shape is canonical: two strictly sorted name lists with
/// the same contents are the same list. Whatever order — and with whatever
/// repetition — a backend enumerates a set of family names in, exactly one
/// list satisfies [`normalize_family_names`]' contract for it, the same on
/// every backend.
pub proof fn lemma_normalized_unique(x: Seq<Seq<char>>, y: Seq<Seq<char>>)
    requires
        strictly_sorted(x),
        strictly_sorted(y),
        forall|s: Seq<char>| x.contains(s) <==> y.contains(s),
    ensures
        x == y,
    decreases x.len(),
{
    if x.len() == 0 {
        if y.len() > 0 {
            assert(y.contains(y[0]));
            assert(x.contains(y[0]));
        }
        assert(x =~= y);
    } else {
        assert(x.contains(x[0]));
        assert(y.contains(x[0]));
        let j = choose|j: int| 0 <= j < y.len() && y[j] == x[0];
        assert(y.contains(y[0]));
        assert(x.contains(y[0]));
        let i = choose|i: int| 0 <= i < x.len() && x[i] == y[0];
        if i > 0 && j > 0 {
            assert(lex_lt_rel()(x[0], x[i]));
            assert(lex_lt_rel()(y[0], y[j]));
            lemma_lex_le_antisym(x[0], y[0]);
        }
        assert(x[0] == y[0]);
        let xt = x.skip(1);
        let yt = y.skip(1);
        assert forall|p: int, q: int| 0 <= p < q < xt.len() implies #[trigger] lex_lt_rel()(
            xt[p],
            xt[q],
        ) by {
            assert(lex_lt_rel()(x[p + 1], x[q + 1]));
        }
        assert forall|p: int, q: int| 0 <= p < q < yt.len() implies #[trigger] lex_lt_rel()(
            yt[p],
            yt[q],
        ) by {
            assert(lex_lt_rel()(y[p + 1], y[q + 1]));
        }
        assert forall|s: Seq<char>| xt.contains(s) implies yt.contains(s) by {
            let k = choose|k: int| 0 <= k < xt.len() && xt[k] == s;
            assert(lex_lt_rel()(x[0], x[k + 1]));
            assert(s != x[0]);
            assert(x.contains(s));
            assert(y.contains(s));
            let m = choose|m: int| 0 <= m < y.len() && y[m] == s;
            assert(m != 0);
            assert(yt[m - 1] == s);
        }
        assert forall|s: Seq<char>| yt.contains(s) implies xt.contains(s) by {
            let k = choose|k: int| 0 <= k < yt.len() && yt[k] == s;
            assert(lex_lt_rel()(y[0], y[k + 1]));
            assert(s != y[0]);
            assert(y.contains(s));
            assert(x.contains(s));
            let m = choose|m: int| 0 <= m < x.len() && x[m] == s;
            assert(m != 0);
            assert(xt[m - 1] == s);
        }
        lemma_normalized_unique(xt, yt);
        assert(x.len() == y.len());
        assert forall|k: int| 0 <= k < x.len() implies x[k] == y[k] by {
            if k > 0 {
                assert(xt[k - 1] == yt[k - 1]);
                assert(x[k] == xt[k - 1]);
                assert(y[k] == yt[k - 1]);
            }
        }
        assert(x =~= y);
    }
}

/// Normalize a raw backend enumeration into the shared result shape.
///
/// The result holds exactly the distinct names of the input — no string is
/// added, dropped or repeated — in strictly ascending lexicographic order.
/// Strict ascent also pins the result down completely: two normalized lists
/// with the same contents are identical.
pub fn normalize_family_names(names: &Vec<String>) -> (r: Vec<String>)
    ensures
        strictly_sorted(views(r@)),
        forall|s: Seq<char>| views(r@).contains(s) <==> views(names@).contains(s),
        forall|p: int, q: int|
            0 <= p < q < views(r@).len() ==> #[trigger] views(r@)[p] != #[trigger] views(r@)[q],
{
    let mut out: Vec<String> = Vec::new();
    let mut i: usize = 0;
    proof {
        assert(views(out@) =~= Seq::<Seq<char>>::empty());
        assert(views(names@.take(0)) =~= Seq::<Seq<char>>::empty());
    }
    while i < names.len()
        invariant
            i <= names.len(),
            strictly_sorted(views(out@)),
            forall|s: Seq<char>|
                views(out@).contains(s) <==> views(names@.take(i as int)).contains(s),
        decreases names.len() - i,
    {
        let ghost before = views(out@);
        insert_name(&mut out, &names[i]);
        proof {
            let taken = views(names@.take(i as int));
            let taken_next = views(names@.take(i + 1));
            assert(taken_next =~= taken.push(names@[i as int]@)) by {
                assert forall|k: int| 0 <= k < taken_next.len() implies taken_next[k] == taken.push(
                    names@[i as int]@,
                )[k] by {}
            }
            assert forall|s: Seq<char>| #[trigger]
                taken_next.contains(s) <==> (taken.contains(s) || s == names@[i as int]@) by {
                lemma_insert_contains(taken, taken.len() as int, names@[i as int]@);
                assert(taken.insert(taken.len() as int, names@[i as int]@) =~= taken_next);
            }
        }
        i = i + 1;
    }
    proof {
        assert(names@.take(i as int) =~= names@);
        assert forall|p: int, q: int| 0 <= p < q < views(out@).len() implies #[trigger] views(
            out@,
        )[p] != #[trigger] views(out@)[q] by {
            assert(lex_lt_rel()(views(out@)[p], views(out@)[q]));
        }
    }
    out
}

} // verus!
