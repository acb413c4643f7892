//! Function-list search for the help browser: the function names of one
//! register are filtered by search terms and listed alphabetically.

use crate::text::{spec_contains_seq, spec_lex_le, str_contains, str_eq, str_le};
use vstd::prelude::*;
use vstd::relations::sorted_by;

verus! {

/// Which register a task function belongs to.
#[derive(Clone, Copy, Debug, PartialEq, Eq, Structural)]
pub enum FuncType {
    Node,
    Network,
    Env,
}

impl FuncType {
    /// The keyword naming the register.
    pub fn name(&self) -> (r: &'static str) {
        match self {
            FuncType::Node => "node",
            FuncType::Network => "network",
            FuncType::Env => "env",
        }
    }
}

/// A search term hits a function name: the term occurs in the name, or
/// it is the register's own keyword.
pub open spec fn spec_term_matches(name: Seq<char>, term: Seq<char>, tyname: Seq<char>) -> bool {
    spec_contains_seq(name, term) || term == tyname
}

/// Every search term hits the function name.
pub open spec fn spec_all_match(name: Seq<char>, terms: Seq<Seq<char>>, tyname: Seq<char>) -> bool {
    forall|i: int| 0 <= i < terms.len() ==> spec_term_matches(name, #[trigger] terms[i], tyname)
}

/// Lexicographic order on names, as the listing sorts them.
pub open spec fn lex_leq() -> spec_fn(Seq<char>, Seq<char>) -> bool {
    |a: Seq<char>, b: Seq<char>| spec_lex_le(a, b)
}

/// Decides whether every search term hits the function name.
pub fn matches_search(name: &str, terms: &Vec<String>, tyname: &str) -> (r: bool)
    ensures
        r <==> spec_all_match(name@, terms.deep_view(), tyname@),
{
    let n = terms.len();
    for i in 0..n
        invariant
            n == terms@.len(),
            forall|j: int|
                0 <= j < i ==> spec_term_matches(name@, #[trigger] terms.deep_view()[j], tyname@),
    {
        let term = &terms[i];
        let hit = str_contains(name, term.as_str()) || str_eq(term.as_str(), tyname);
        if !hit {
            proof {
                assert(terms.deep_view()[i as int] == terms@[i as int]@);
                assert(!spec_term_matches(name@, terms.deep_view()[i as int], tyname@));
            }
            return false;
        }
    }
    true
}

/// The names every search term hits, in their original order.
pub fn filter_functions(names: &Vec<String>, terms: &Vec<String>, tyname: &str) -> (r: Vec<String>)
    ensures
        r.deep_view() == names.deep_view().filter(
            |n: Seq<char>| spec_all_match(n, terms.deep_view(), tyname@),
        ),
{
    let mut out: Vec<String> = Vec::new();
    let n = names.len();
    for i in 0..n
        invariant
            n == names@.len(),
            out.deep_view() =~= names.deep_view().take(i as int).filter(
                |nm: Seq<char>| spec_all_match(nm, terms.deep_view(), tyname@),
            ),
    {
        let ghost pre_out = out.deep_view();
        let name = &names[i];
        if matches_search(name.as_str(), terms, tyname) {
            out.push(name.clone());
        }
        proof {
            reveal(Seq::filter);
            let p = |nm: Seq<char>| spec_all_match(nm, terms.deep_view(), tyname@);
            let all = names.deep_view();
            assert(all.take(i + 1).drop_last() =~= all.take(i as int));
            assert(all.take(i + 1).last() == all[i as int]);
            if p(all[i as int]) {
                assert forall|k: int| 0 <= k < out.deep_view().len() implies out.deep_view()[k]
                    == pre_out.push(all[i as int])[k] by {
                    if k < pre_out.len() {
                        assert(out@[k] == out@.drop_last()[k]);
                    }
                }
                assert(out.deep_view() =~= pre_out.push(all[i as int]));
            }
            assert(out.deep_view() =~= all.take(i + 1).filter(p));
        }
    }
    proof {
        assert(names.deep_view().take(n as int) =~= names.deep_view());
    }
    out
}

/// Any two names compare one way or the other.
proof fn lemma_lex_le_total(a: Seq<char>, b: Seq<char>)
    ensures
        spec_lex_le(a, b) || spec_lex_le(b, a),
    decreases a.len(),
{
    if a.len() > 0 && b.len() > 0 && a[0] == b[0] {
        lemma_lex_le_total(a.drop_first(), b.drop_first());
    }
}

/// The order on names chains.
proof fn lemma_lex_le_trans(a: Seq<char>, b: Seq<char>, c: Seq<char>)
    requires
        spec_lex_le(a, b),
        spec_lex_le(b, c),
    ensures
        spec_lex_le(a, c),
    decreases a.len(),
{
    if a.len() > 0 {
        if a[0] == b[0] && b[0] == c[0] {
            lemma_lex_le_trans(a.drop_first(), b.drop_first(), c.drop_first());
        }
    }
}

/// Sorts names alphabetically: the result is ordered and holds exactly
/// the given names.
pub fn sort_names(names: Vec<String>) -> (r: Vec<String>)
    ensures
        sorted_by(r.deep_view(), lex_leq()),
        r.deep_view().to_multiset() == names.deep_view().to_multiset(),
{
    broadcast use vstd::seq_lib::group_to_multiset_ensures;

    let mut out: Vec<String> = Vec::new();
    let n = names.len();
    proof {
        assert(names.deep_view().take(0) =~= Seq::<Seq<char>>::empty());
        assert(out.deep_view() =~= Seq::<Seq<char>>::empty());
    }
    for i in 0..n
        invariant
            n == names@.len(),
            sorted_by(out.deep_view(), lex_leq()),
            out.deep_view().to_multiset() == names.deep_view().take(i as int).to_multiset(),
    {
        let ghost all = names.deep_view();
        let ghost pre = out.deep_view();
        let name = names[i].clone();
        let mut k: usize = 0;
        loop
            invariant
                k <= out.len(),
                sorted_by(out.deep_view(), lex_leq()),
                out.deep_view() == pre,
                name@ == all[i as int],
                forall|j: int| 0 <= j < k ==> spec_lex_le(#[trigger] pre[j], name@),
            ensures
                k <= pre.len(),
                forall|j: int| 0 <= j < k ==> spec_lex_le(#[trigger] pre[j], name@),
                k < pre.len() ==> !spec_lex_le(pre[k as int], name@),
                out.deep_view() == pre,
            decreases out.len() - k,
        {
            if k == out.len() {
                break ;
            }
            if !str_le(out[k].as_str(), &name.as_str()) {
                break ;
            }
            k = k + 1;
        }
        out.insert(k, name);
        proof {
            assert forall|t: int| 0 <= t < out.deep_view().len() implies out.deep_view()[t] == pre.insert(
                k as int,
                all[i as int],
            )[t] by {
                assert(out@ == out@.subrange(0, out@.len() as int));
            }
            assert(out.deep_view() =~= pre.insert(k as int, all[i as int]));
            let cur = out.deep_view();
            assert forall|x: int, y: int| 0 <= x < y < cur.len() implies lex_leq()(
                cur[x],
                cur[y],
            ) by {
                if y < k {
                } else if x < k && y == k {
                    assert(spec_lex_le(pre[x], all[i as int]));
                } else if x < k && y > k {
                    assert(lex_leq()(pre[x], pre[y - 1]));
                } else if x == k && y > k {
                    assert(!spec_lex_le(pre[k as int], all[i as int]));
                    lemma_lex_le_total(pre[k as int], all[i as int]);
                    assert(spec_lex_le(all[i as int], pre[k as int]));
                    if y - 1 == k {
                    } else {
                        assert(lex_leq()(pre[k as int], pre[y - 1]));
                        lemma_lex_le_trans(all[i as int], pre[k as int], pre[y - 1]);
                    }
                } else {
                    assert(lex_leq()(pre[x - 1], pre[y - 1]));
                }
            }
            assert(all.take(i + 1) =~= all.take(i as int).push(all[i as int]));
            vstd::seq_lib::to_multiset_insert::<Seq<char>>(pre, k as int, all[i as int]);
            vstd::seq_lib::to_multiset_build::<Seq<char>>(all.take(i as int), all[i as int]);
            assert(cur.to_multiset() == pre.to_multiset().insert(all[i as int]));
            assert(all.take(i + 1).to_multiset() == all.take(i as int).to_multiset().insert(
                all[i as int],
            ));
            assert(all.take(i + 1).drop_last() =~= all.take(i as int));
            assert(all.take(i + 1).last() == all[i as int]);
            assert(all.take(i + 1) =~= all.take(i as int).push(all[i as int]));
        }
    }
    proof {
        assert(names.deep_view().take(n as int) =~= names.deep_view());
    }
    out
}

/// The help listing for one register: the names every search term hits,
/// in alphabetical order.
pub fn list_functions(names: &Vec<String>, terms: &Vec<String>, tyname: &str) -> (r: Vec<String>)
    ensures
        sorted_by(r.deep_view(), lex_leq()),
        r.deep_view().to_multiset() == names.deep_view().filter(
            |n: Seq<char>| spec_all_match(n, terms.deep_view(), tyname@),
        ).to_multiset(),
{
    let kept = filter_functions(names, terms, tyname);
    sort_names(kept)
}

} // verus!
