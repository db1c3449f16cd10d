//! Sequence combinators the contracts are written with.
use vstd::prelude::*;
use vstd::string::StringExecFns;

verus! {

/// The `Some` results of `f` over `s`, in order.
pub open spec fn filter_map<A, B>(s: Seq<A>, f: spec_fn(A) -> Option<B>) -> Seq<B>
    decreases s.len(),
{
    if s.len() == 0 {
        Seq::empty()
    } else {
        let r = filter_map(s.drop_last(), f);
        match f(s.last()) {
            Some(b) => r.push(b),
            None => r,
        }
    }
}

pub proof fn lemma_filter_map_step<A, B>(s: Seq<A>, f: spec_fn(A) -> Option<B>, k: int)
    requires
        0 <= k < s.len(),
    ensures
        filter_map(s.take(k + 1), f) == match f(s[k]) {
            Some(b) => filter_map(s.take(k), f).push(b),
            None => filter_map(s.take(k), f),
        },
{
    assert(s.take(k + 1).drop_last() =~= s.take(k));
}

pub proof fn lemma_filter_map_empty<A, B>(s: Seq<A>, f: spec_fn(A) -> Option<B>)
    ensures
        filter_map(s.take(0), f) == Seq::<B>::empty(),
{
    assert(s.take(0).len() == 0);
}

/// The sequences `f` gives for the items of `s`, one after another.
pub open spec fn flat_map<A, B>(s: Seq<A>, f: spec_fn(A) -> Seq<B>) -> Seq<B>
    decreases s.len(),
{
    if s.len() == 0 {
        Seq::empty()
    } else {
        flat_map(s.drop_last(), f) + f(s.last())
    }
}

pub proof fn lemma_flat_map_step<A, B>(s: Seq<A>, f: spec_fn(A) -> Seq<B>, k: int)
    requires
        0 <= k < s.len(),
    ensures
        flat_map(s.take(k + 1), f) == flat_map(s.take(k), f) + f(s[k]),
{
    assert(s.take(k + 1).drop_last() =~= s.take(k));
}

/// The texts of `s` joined with `sep` between them.
pub open spec fn join(s: Seq<Seq<char>>, sep: Seq<char>) -> Seq<char>
    decreases s.len(),
{
    if s.len() == 0 {
        Seq::empty()
    } else if s.len() == 1 {
        s[0]
    } else {
        join(s.drop_last(), sep) + sep + s.last()
    }
}

pub proof fn lemma_join_step(s: Seq<Seq<char>>, sep: Seq<char>, k: int)
    requires
        0 <= k < s.len(),
    ensures
        join(s.take(k + 1), sep) == if k == 0 {
            s[0]
        } else {
            join(s.take(k), sep) + sep + s[k]
        },
{
    assert(s.take(k + 1).drop_last() =~= s.take(k));
}

/// The texts of `parts` joined with `sep` between them.
pub fn join_strings(parts: &Vec<String>, sep: &str) -> (r: String)
    ensures
        r@ == join(parts.deep_view(), sep@),
{
    let ghost ps = parts.deep_view();
    let mut out = String::new();
    let mut k: usize = 0;
    assert(ps.take(0) =~= Seq::<Seq<char>>::empty());
    while k < parts.len()
        invariant
            0 <= k <= parts.len(),
            ps == parts.deep_view(),
            out@ == join(ps.take(k as int), sep@),
        decreases parts.len() - k,
    {
        proof {
            lemma_join_step(ps, sep@, k as int);
        }
        if k > 0 {
            out.append(sep);
        }
        out.append(parts[k].as_str());
        k = k + 1;
    }
    assert(ps.take(parts.len() as int) =~= ps);
    out
}

} // verus!
