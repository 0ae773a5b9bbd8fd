//! Helpers for relating executable collections to their mathematical views.

use vstd::prelude::*;
use vstd::string::StringExecFns;

verus! {

/// Appends `x` to `v`; on views this is `push`.
pub fn push_deep<T: DeepView>(v: &mut Vec<T>, x: T)
    ensures
        final(v).deep_view() == old(v).deep_view().push(x.deep_view()),
        final(v)@ == old(v)@.push(x),
{
    v.push(x);
    assert(v.deep_view() =~= old(v).deep_view().push(x.deep_view()));
}

/// Moves every element of `tail` behind those of `v`; on views this is concatenation.
pub fn append_deep<T: DeepView>(v: &mut Vec<T>, tail: &mut Vec<T>)
    ensures
        final(v).deep_view() == old(v).deep_view() + old(tail).deep_view(),
        final(tail)@.len() == 0,
{
    v.append(tail);
    assert(v.deep_view() =~= old(v).deep_view() + old(tail).deep_view());
}

/// The empty vector has the empty view.
pub fn empty_deep<T: DeepView>() -> (v: Vec<T>)
    ensures
        v.deep_view() == Seq::<T::V>::empty(),
        v@.len() == 0,
{
    let v: Vec<T> = Vec::new();
    assert(v.deep_view() =~= Seq::<T::V>::empty());
    v
}

/// Dropping the first `i + 1` elements is dropping the first of what remains after `i`.
pub proof fn lemma_skip_step<A>(s: Seq<A>, i: int)
    requires
        0 <= i < s.len(),
    ensures
        s.skip(i).len() > 0,
        s.skip(i)[0] == s[i],
        s.skip(i).drop_first() == s.skip(i + 1),
        s.skip(0) == s,
{
    assert(s.skip(i).drop_first() =~= s.skip(i + 1));
    assert(s.skip(0) =~= s);
}

/// Nothing remains after the whole sequence is dropped.
pub proof fn lemma_skip_all<A>(s: Seq<A>)
    ensures
        s.skip(s.len() as int) == Seq::<A>::empty(),
        s.skip(0) == s,
{
    assert(s.skip(s.len() as int) =~= Seq::<A>::empty());
    assert(s.skip(0) =~= s);
}

/// Copies a list of strings.
pub fn clone_strings(v: &Vec<String>) -> (r: Vec<String>)
    ensures
        r.deep_view() == v.deep_view(),
{
    let mut r: Vec<String> = Vec::new();
    let mut i: usize = 0;
    while i < v.len()
        invariant
            i <= v.len(),
            r.deep_view() == v.deep_view().take(i as int),
        decreases v.len() - i,
    {
        let s = v[i].clone();
        push_deep(&mut r, s);
        assert(v.deep_view().take(i + 1) =~= v.deep_view().take(i as int).push(v@[i as int]@));
        i += 1;
    }
    assert(v.deep_view().take(i as int) =~= v.deep_view());
    r
}

/// Copies an optional string.
pub fn clone_label(l: &Option<String>) -> (r: Option<String>)
    ensures
        r.deep_view() == l.deep_view(),
{
    match l {
        Some(s) => Some(s.clone()),
        None => None,
    }
}

/// Whether `s` spells exactly the text `text`.
pub fn string_is(s: &String, text: &str) -> (b: bool)
    ensures
        b == (s@ == text@),
{
    let t = text.to_string();
    *s == t
}

/// The text `text` between `prefix` and `suffix`.
pub fn enclose(prefix: &str, text: &String, suffix: &str) -> (r: String)
    ensures
        r@ == prefix@ + text@ + suffix@,
{
    let mut r = prefix.to_string();
    r.append(text.as_str());
    r.append(suffix);
    r
}

/// The outcome `rest` of the remaining work, behind the output `prefix`
/// of the work done so far: an error stays the error.
pub open spec fn prepend<A, S, E>(prefix: Seq<A>, rest: Result<(Seq<A>, S), E>) -> Result<(Seq<A>, S), E> {
    match rest {
        Ok((items, state)) => Ok((prefix + items, state)),
        Err(e) => Err(e),
    }
}

/// Nothing in front changes nothing.
pub proof fn lemma_prepend_empty<A, S, E>(rest: Result<(Seq<A>, S), E>)
    ensures
        prepend(Seq::<A>::empty(), rest) == rest,
{
    match rest {
        Ok((items, state)) => {
            assert(Seq::<A>::empty() + items =~= items);
        },
        Err(e) => {},
    }
}

/// Putting `b` and then `a` in front is putting `a + b` in front.
pub proof fn lemma_prepend_twice<A, S, E>(a: Seq<A>, b: Seq<A>, rest: Result<(Seq<A>, S), E>)
    ensures
        prepend(a, prepend(b, rest)) == prepend(a + b, rest),
{
    match rest {
        Ok((items, state)) => {
            assert(a + (b + items) =~= (a + b) + items);
        },
        Err(e) => {},
    }
}

/// With nothing left to do, the output so far is the output.
pub proof fn lemma_prepend_done<A, S, E>(a: Seq<A>, state: S)
    ensures
        prepend(a, Ok::<(Seq<A>, S), E>((Seq::<A>::empty(), state))) == Ok::<(Seq<A>, S), E>((a, state)),
{
    assert(a + Seq::<A>::empty() =~= a);
}

} // verus!
