//! Canonical names of field paths.

use vstd::prelude::*;
use vstd::string::StringExecFns;

verus! {

/// The text that joins the segments of a field path.
pub open spec fn separator() -> Seq<char> {
    seq!['_']
}

/// The canonical name of a field path: its segments joined by the separator.
/// It is the only key of the type environment and the identifier that
/// reaches the target.
pub open spec fn canonical_name(path: Seq<Seq<char>>) -> Seq<char>
    decreases path.len(),
{
    if path.len() == 0 {
        Seq::empty()
    } else if path.len() == 1 {
        path[0]
    } else {
        canonical_name(path.drop_last()) + separator() + path.last()
    }
}

/// The canonical name of a path of one segment is that segment.
pub proof fn lemma_canonical_single(name: Seq<char>)
    ensures
        canonical_name(seq![name]) == name,
{
}

/// The canonical name of a field path.
pub fn canonicalise_field_path(path: &Vec<String>) -> (r: String)
    ensures
        r@ == canonical_name(path.deep_view()),
{
    let mut r = String::new();
    let mut i: usize = 0;
    while i < path.len()
        invariant
            i <= path.len(),
            r@ == canonical_name(path.deep_view().take(i as int)),
        decreases path.len() - i,
    {
        let ghost before = path.deep_view().take(i as int);
        let ghost after = path.deep_view().take(i + 1);
        assert(after.drop_last() =~= before);
        assert(after.last() == path@[i as int]@);
        if i > 0 {
            proof {
                reveal_strlit("_");
                assert("_"@ =~= separator());
            }
            r.append("_");
        }
        r.append(path[i].as_str());
        assert(r@ =~= canonical_name(after));
        i += 1;
    }
    assert(path.deep_view().take(i as int) =~= path.deep_view());
    r
}

} // verus!
