//! How the wrapper type is named: `_<Name>v<version>`, the version in
//! canonical decimal.
use vstd::prelude::*;
use vstd::string::StringExecFns;

verus! {

/// The character for a decimal digit `d < 10`.
pub open spec fn digit_char(d: nat) -> char {
    if d == 0 { '0' } else if d == 1 { '1' } else if d == 2 { '2' } else if d == 3 { '3' }
    else if d == 4 { '4' } else if d == 5 { '5' } else if d == 6 { '6' } else if d == 7 { '7' }
    else if d == 8 { '8' } else { '9' }
}

/// Canonical decimal text of `n`: no sign, no leading zeros.
pub open spec fn decimal(n: nat) -> Seq<char>
    decreases n,
{
    if n < 10 {
        seq![digit_char(n)]
    } else {
        decimal(n / 10).push(digit_char(n % 10))
    }
}

/// The name of the wrapper type made for `name` at `version`.
pub open spec fn versioned_name_of(name: Seq<char>, version: nat) -> Seq<char> {
    seq!['_'] + name + seq!['v'] + decimal(version)
}

/// The one-character text of a decimal digit.
fn digit_text(d: u8) -> (r: &'static str)
    requires
        d < 10,
    ensures
        r@ == seq![digit_char(d as nat)],
{
    if d == 0 { proof { reveal_strlit("0"); } "0" }
    else if d == 1 { proof { reveal_strlit("1"); } "1" }
    else if d == 2 { proof { reveal_strlit("2"); } "2" }
    else if d == 3 { proof { reveal_strlit("3"); } "3" }
    else if d == 4 { proof { reveal_strlit("4"); } "4" }
    else if d == 5 { proof { reveal_strlit("5"); } "5" }
    else if d == 6 { proof { reveal_strlit("6"); } "6" }
    else if d == 7 { proof { reveal_strlit("7"); } "7" }
    else if d == 8 { proof { reveal_strlit("8"); } "8" }
    else { proof { reveal_strlit("9"); } "9" }
}

/// Decimal text of a version tag.
pub fn decimal_text(v: u8) -> (r: String)
    ensures
        r@ == decimal(v as nat),
{
    proof { reveal_with_fuel(decimal, 3); }
    if v < 10 {
        String::from_str(digit_text(v))
    } else if v < 100 {
        let s = String::from_str(digit_text(v / 10));
        s.concat(digit_text(v % 10))
    } else {
        let s = String::from_str(digit_text(v / 100));
        let s = s.concat(digit_text((v / 10) % 10));
        assert(decimal((v / 10) as nat) == decimal((v / 100) as nat).push(digit_char(((v / 10) % 10) as nat)));
        s.concat(digit_text(v % 10))
    }
}

/// The name of the wrapper type for a record named `name` at `version`:
/// an underscore, the name, `v`, and the version in decimal (`S` at 3 gives `_Sv3`).
pub fn versioned_name(name: &str, version: u8) -> (r: String)
    ensures
        r@ == versioned_name_of(name@, version as nat),
{
    proof { reveal_strlit("_"); reveal_strlit("v"); }
    let s = String::from_str("_");
    let s = s.concat(name);
    let s = s.concat("v");
    let d = decimal_text(version);
    let r = s.concat(d.as_str());
    assert(r@ =~= versioned_name_of(name@, version as nat));
    r
}

proof fn lemma_decimal_digits(n: nat)
    ensures
        decimal(n).len() >= 1,
        forall|i: int| 0 <= i < decimal(n).len() ==> decimal(n)[i] != 'v' && decimal(n)[i] != '_',
    decreases n,
{
    if n >= 10 {
        lemma_decimal_digits(n / 10);
    }
}

proof fn lemma_digit_char_injective(a: nat, b: nat)
    requires
        a < 10,
        b < 10,
        digit_char(a) == digit_char(b),
    ensures
        a == b,
{
}

proof fn lemma_decimal_injective(a: nat, b: nat)
    requires
        decimal(a) == decimal(b),
    ensures
        a == b,
    decreases a,
{
    if a >= 10 && b >= 10 {
        let da = decimal(a);
        assert(da.drop_last() == decimal(a / 10));
        assert(decimal(b).drop_last() == decimal(b / 10));
        assert(da.last() == digit_char(a % 10));
        assert(decimal(b).last() == digit_char(b % 10));
        lemma_decimal_injective(a / 10, b / 10);
        lemma_digit_char_injective(a % 10, b % 10);
        assert(a == 10 * (a / 10) + a % 10);
        assert(b == 10 * (b / 10) + b % 10);
    } else if a < 10 && b < 10 {
        assert(decimal(a)[0] == digit_char(a));
        assert(decimal(b)[0] == digit_char(b));
        lemma_digit_char_injective(a, b);
    } else if a >= 10 {
        lemma_decimal_digits(a / 10);
        assert(decimal(a).len() >= 2);
    } else if b >= 10 {
        lemma_decimal_digits(b / 10);
        assert(decimal(b).len() >= 2);
    }
}

/// Wrapper names are unique and deterministic: two `(name, version)` pairs give
/// the same wrapper name exactly when they are the same pair.
pub proof fn lemma_versioned_name_injective(n1: Seq<char>, v1: nat, n2: Seq<char>, v2: nat)
    ensures
        versioned_name_of(n1, v1) == versioned_name_of(n2, v2) <==> (n1 == n2 && v1 == v2),
{
    if versioned_name_of(n1, v1) == versioned_name_of(n2, v2) {
        let s = versioned_name_of(n1, v1);
        let d1 = decimal(v1);
        let d2 = decimal(v2);
        lemma_decimal_digits(v1);
        lemma_decimal_digits(v2);
        let len = s.len() as int;
        if d1.len() < d2.len() {
            let k = len - 1 - d1.len();
            assert(s[k] == 'v');
            assert(s[k] == d2[k - (len - d2.len())]);
        } else if d2.len() < d1.len() {
            let k = len - 1 - d2.len();
            assert(s[k] == 'v');
            assert(s[k] == d1[k - (len - d1.len())]);
        } else {
            assert(d1 =~= s.subrange(len - d1.len(), len));
            assert(d2 =~= s.subrange(len - d2.len(), len));
            lemma_decimal_injective(v1, v2);
            assert(n1 =~= s.subrange(1, len - d1.len() - 1));
            assert(n2 =~= s.subrange(1, len - d2.len() - 1));
        }
    }
}

} // verus!
