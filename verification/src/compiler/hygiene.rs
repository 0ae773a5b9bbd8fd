//! Names that an expansion of a macro introduces. Each call site has a
//! number; a name is built from that number, so that the same program
//! always gets the same names and two call sites never share one.

use vstd::prelude::*;
use vstd::string::StringExecFns;

verus! {

/// The character of a decimal digit.
pub open spec fn digit(d: nat) -> char {
    if d == 0 {
        '0'
    } else if d == 1 {
        '1'
    } else if d == 2 {
        '2'
    } else if d == 3 {
        '3'
    } else if d == 4 {
        '4'
    } else if d == 5 {
        '5'
    } else if d == 6 {
        '6'
    } else if d == 7 {
        '7'
    } else if d == 8 {
        '8'
    } else {
        '9'
    }
}

/// The decimal digits of a number, without leading zeros.
pub open spec fn decimal(n: nat) -> Seq<char>
    decreases n,
{
    if n < 10 {
        seq![digit(n)]
    } else {
        decimal(n / 10).push(digit(n % 10))
    }
}

/// What every name of the call site `site` starts with: an underscore, the
/// tag of the name's kind, the site's number and an underscore.
pub open spec fn site_prefix(tag: char, site: nat) -> Seq<char> {
    seq!['_', tag] + decimal(site) + seq!['_']
}

/// The name of the temporary that holds argument `index` of the call at `site`.
pub open spec fn temporary_name(site: nat, index: nat) -> Seq<char> {
    site_prefix('a', site) + decimal(index)
}

/// The name that the call at `site` gives to the name `name`, which the
/// macro's body declares.
pub open spec fn local_name(site: nat, name: Seq<char>) -> Seq<char> {
    site_prefix('m', site) + name
}

/// The digits of a number are digits, and there is at least one.
pub proof fn lemma_decimal_digits(n: nat)
    ensures
        decimal(n).len() >= 1,
        forall|i: int| 0 <= i < decimal(n).len() ==> '0' <= #[trigger] decimal(n)[i] <= '9',
        (decimal(n).len() == 1) <==> n < 10,
    decreases n,
{
    if n >= 10 {
        lemma_decimal_digits(n / 10);
    }
}

/// Different numbers have different digits.
pub proof fn lemma_decimal_injective(a: nat, b: nat)
    requires
        decimal(a) == decimal(b),
    ensures
        a == b,
    decreases a,
{
    lemma_decimal_digits(a);
    lemma_decimal_digits(b);
    if a < 10 {
        assert(decimal(a)[0] == decimal(b)[0]);
    } else {
        let da = decimal(a / 10);
        let db = decimal(b / 10);
        assert(decimal(a).drop_last() =~= da);
        assert(decimal(b).drop_last() =~= db);
        assert(decimal(a).last() == digit(a % 10));
        assert(decimal(b).last() == digit(b % 10));
        lemma_decimal_injective(a / 10, b / 10);
    }
}

/// The digits of a number, closed by an underscore, say where they end:
/// two texts that start so and are equal start with the same number.
pub proof fn lemma_decimal_delimited(a: nat, x: Seq<char>, b: nat, y: Seq<char>)
    requires
        decimal(a) + seq!['_'] + x == decimal(b) + seq!['_'] + y,
    ensures
        a == b,
        x == y,
{
    lemma_decimal_digits(a);
    lemma_decimal_digits(b);
    let da = decimal(a);
    let db = decimal(b);
    let l = da + seq!['_'] + x;
    let r = db + seq!['_'] + y;
    if da.len() < db.len() {
        assert(l[da.len() as int] == '_');
        assert(r[da.len() as int] == db[da.len() as int]);
        assert(false);
    }
    if db.len() < da.len() {
        assert(r[db.len() as int] == '_');
        assert(l[db.len() as int] == da[db.len() as int]);
        assert(false);
    }
    assert forall|i: int| 0 <= i < da.len() implies da[i] == db[i] by {
        assert(l[i] == da[i]);
        assert(r[i] == db[i]);
    }
    assert(da =~= db);
    lemma_decimal_injective(a, b);
    assert(l.len() == r.len());
    assert(x.len() == y.len());
    assert forall|i: int| 0 <= i < x.len() implies x[i] == y[i] by {
        assert(l[da.len() + 1 + i] == x[i]);
        assert(r[db.len() + 1 + i] == y[i]);
    }
    assert(x =~= y);
}

/// Two call sites never give the same name to names that a macro's body
/// declares, whichever names those are.
pub proof fn lemma_local_names_apart(site1: nat, name1: Seq<char>, site2: nat, name2: Seq<char>)
    requires
        site1 != site2,
    ensures
        local_name(site1, name1) != local_name(site2, name2),
{
    if local_name(site1, name1) == local_name(site2, name2) {
        let l = local_name(site1, name1);
        let r = local_name(site2, name2);
        assert(l.skip(2) =~= decimal(site1) + seq!['_'] + name1);
        assert(r.skip(2) =~= decimal(site2) + seq!['_'] + name2);
        lemma_decimal_delimited(site1, name1, site2, name2);
    }
}

/// At one call site, different names of the body get different names.
pub proof fn lemma_local_names_injective(site: nat, name1: Seq<char>, name2: Seq<char>)
    requires
        local_name(site, name1) == local_name(site, name2),
    ensures
        name1 == name2,
{
    let l = local_name(site, name1);
    let r = local_name(site, name2);
    assert(l.skip(2) =~= decimal(site) + seq!['_'] + name1);
    assert(r.skip(2) =~= decimal(site) + seq!['_'] + name2);
    lemma_decimal_delimited(site, name1, site, name2);
}

/// Two temporaries are the same only for the same argument of the same call site.
pub proof fn lemma_temporary_names_apart(site1: nat, index1: nat, site2: nat, index2: nat)
    requires
        site1 != site2 || index1 != index2,
    ensures
        temporary_name(site1, index1) != temporary_name(site2, index2),
{
    if temporary_name(site1, index1) == temporary_name(site2, index2) {
        let l = temporary_name(site1, index1);
        let r = temporary_name(site2, index2);
        assert(l.skip(2) =~= decimal(site1) + seq!['_'] + decimal(index1));
        assert(r.skip(2) =~= decimal(site2) + seq!['_'] + decimal(index2));
        lemma_decimal_delimited(site1, decimal(index1), site2, decimal(index2));
        lemma_decimal_injective(index1, index2);
    }
}

/// A temporary never bears the name of a renamed name of a body.
pub proof fn lemma_temporary_is_no_local(site1: nat, index: nat, site2: nat, name: Seq<char>)
    ensures
        temporary_name(site1, index) != local_name(site2, name),
{
    assert(temporary_name(site1, index)[1] == 'a');
    assert(local_name(site2, name)[1] == 'm');
}

fn digit_text(d: u64) -> (r: &'static str)
    requires
        d < 10,
    ensures
        r@ == seq![digit(d as nat)],
{
    proof {
        reveal_strlit("0");
        reveal_strlit("1");
        reveal_strlit("2");
        reveal_strlit("3");
        reveal_strlit("4");
        reveal_strlit("5");
        reveal_strlit("6");
        reveal_strlit("7");
        reveal_strlit("8");
        reveal_strlit("9");
    }
    let r = match d {
        0 => "0",
        1 => "1",
        2 => "2",
        3 => "3",
        4 => "4",
        5 => "5",
        6 => "6",
        7 => "7",
        8 => "8",
        _ => "9",
    };
    assert(r@ =~= seq![digit(d as nat)]);
    r
}

/// The decimal digits of `n`.
pub fn decimal_text(n: u64) -> (r: String)
    ensures
        r@ == decimal(n as nat),
    decreases n,
{
    if n < 10 {
        digit_text(n).to_string()
    } else {
        let mut r = decimal_text(n / 10);
        r.append(digit_text(n % 10));
        assert(r@ =~= decimal(n as nat));
        r
    }
}

/// The name of the temporary that holds argument `index` of the call at `site`.
pub fn make_temporary_name(site: u64, index: u64) -> (r: String)
    ensures
        r@ == temporary_name(site as nat, index as nat),
{
    proof {
        reveal_strlit("_a");
        reveal_strlit("_");
    }
    let mut r = "_a".to_string();
    r.append(decimal_text(site).as_str());
    r.append("_");
    r.append(decimal_text(index).as_str());
    assert(r@ =~= temporary_name(site as nat, index as nat));
    r
}

/// The name that the call at `site` gives to a name that the macro's body declares.
pub fn make_local_name(site: u64, name: &String) -> (r: String)
    ensures
        r@ == local_name(site as nat, name@),
{
    proof {
        reveal_strlit("_m");
        reveal_strlit("_");
    }
    let mut r = "_m".to_string();
    r.append(decimal_text(site).as_str());
    r.append("_");
    r.append(name.as_str());
    assert(r@ =~= local_name(site as nat, name@));
    r
}

} // verus!
