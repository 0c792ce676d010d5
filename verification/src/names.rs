//! Decimal rendering of indices and the naming scheme of synthesised symbols.

use vstd::prelude::*;
use vstd::string::*;

verus! {

/// The character that stands for the digit `d`.
pub open spec fn digit_char(d: nat) -> char {
    if d == 0 {
        '0'
    } else if d == 1 {
        '1'
    } else if d == 2 {
        '2'
    } else if d == 3 {
        '3'
    } else if d == 4 {
        '4'
    } else if d == 5 {
        '5'
    } else if d == 6 {
        '6'
    } else if d == 7 {
        '7'
    } else if d == 8 {
        '8'
    } else {
        '9'
    }
}

/// The decimal numeral of `n`, most significant digit first, without leading zeros.
pub open spec fn decimal(n: nat) -> Seq<char>
    decreases n,
{
    if n < 10 {
        seq![digit_char(n)]
    } else {
        decimal(n / 10).push(digit_char(n % 10))
    }
}

/// Distinct digits are written with distinct characters.
pub proof fn lemma_digit_char_injective(a: nat, b: nat)
    requires
        a < 10,
        b < 10,
        digit_char(a) == digit_char(b),
    ensures
        a == b,
{
}

/// A numeral is never empty.
pub proof fn lemma_decimal_nonempty(n: nat)
    ensures
        decimal(n).len() >= 1,
    decreases n,
{
    if n >= 10 {
        lemma_decimal_nonempty(n / 10);
    }
}

/// Two numbers with the same numeral are the same number.
pub proof fn lemma_decimal_injective(a: nat, b: nat)
    requires
        decimal(a) == decimal(b),
    ensures
        a == b,
    decreases a,
{
    lemma_decimal_nonempty(a / 10);
    lemma_decimal_nonempty(b / 10);
    if a < 10 && b < 10 {
        assert(decimal(a)[0] == digit_char(a));
        assert(decimal(b)[0] == digit_char(b));
        lemma_digit_char_injective(a, b);
    } else if a >= 10 && b >= 10 {
        let da = decimal(a / 10);
        let db = decimal(b / 10);
        assert(da.push(digit_char(a % 10)).drop_last() =~= da);
        assert(db.push(digit_char(b % 10)).drop_last() =~= db);
        assert(da.push(digit_char(a % 10)).last() == digit_char(a % 10));
        assert(db.push(digit_char(b % 10)).last() == digit_char(b % 10));
        lemma_digit_char_injective(a % 10, b % 10);
        lemma_decimal_injective(a / 10, b / 10);
    } else {
        assert(decimal(a).len() == decimal(b).len());
    }
}

/// The one-character text of a single digit.
fn digit_str(d: u64) -> (s: &'static str)
    requires
        d < 10,
    ensures
        s@ == seq![digit_char(d as nat)],
{
    proof {
        reveal_strlit("0");
        reveal_strlit("1");
        reveal_strlit("2");
        reveal_strlit("3");
        reveal_strlit("4");
        reveal_strlit("5");
        reveal_strlit("6");
        reveal_strlit("7");
        reveal_strlit("8");
        reveal_strlit("9");
    }
    let s: &'static str = if d == 0 {
        "0"
    } else if d == 1 {
        "1"
    } else if d == 2 {
        "2"
    } else if d == 3 {
        "3"
    } else if d == 4 {
        "4"
    } else if d == 5 {
        "5"
    } else if d == 6 {
        "6"
    } else if d == 7 {
        "7"
    } else if d == 8 {
        "8"
    } else {
        "9"
    };
    assert(s@ =~= seq![digit_char(d as nat)]);
    s
}

/// Renders `n` as a decimal numeral.
pub fn decimal_string(n: u64) -> (s: String)
    ensures
        s@ == decimal(n as nat),
    decreases n,
{
    if n < 10 {
        String::from_str(digit_str(n))
    } else {
        let mut s: String = decimal_string(n / 10);
        s.append(digit_str(n % 10));
        assert(s@ =~= decimal(n as nat));
        s
    }
}

/// The text between a function's name and the base name of one of its variables.
pub open spec fn scope_separator() -> Seq<char> {
    "::1::"@
}

/// Base name of the symbol of the local slot `index`.
pub open spec fn var_base_name(index: nat) -> Seq<char> {
    "var_"@ + decimal(index)
}

/// Full name of the symbol of the local slot `index` of the function `fname`.
pub open spec fn var_name(fname: Seq<char>, index: nat) -> Seq<char> {
    fname + scope_separator() + var_base_name(index)
}

/// Base name of the spread parameter at position `index`.
pub open spec fn spread_base_name(index: nat) -> Seq<char> {
    "spread_"@ + decimal(index)
}

/// Full name of the spread parameter at position `index` of the function `fname`.
pub open spec fn spread_name(fname: Seq<char>, index: nat) -> Seq<char> {
    fname + scope_separator() + spread_base_name(index)
}

/// Builds the base name of the local slot `index`.
pub fn codegen_var_base_name(index: usize) -> (s: String)
    ensures
        s@ == var_base_name(index as nat),
{
    let mut s: String = String::from_str("var_");
    let digits: String = decimal_string(index as u64);
    s.append(digits.as_str());
    s
}

/// Builds the full name of the local slot `index` of the function `fname`.
pub fn codegen_var_name(fname: &str, index: usize) -> (s: String)
    ensures
        s@ == var_name(fname@, index as nat),
{
    let mut s: String = String::from_str(fname);
    s.append("::1::");
    let base: String = codegen_var_base_name(index);
    s.append(base.as_str());
    assert(s@ =~= var_name(fname@, index as nat));
    s
}

/// Builds the base name of the spread parameter at position `index`.
pub fn codegen_spread_base_name(index: usize) -> (s: String)
    ensures
        s@ == spread_base_name(index as nat),
{
    let mut s: String = String::from_str("spread_");
    let digits: String = decimal_string(index as u64);
    s.append(digits.as_str());
    s
}

/// Builds the full name of the spread parameter at position `index` of `fname`.
pub fn codegen_spread_arg_name(fname: &str, index: usize) -> (s: String)
    ensures
        s@ == spread_name(fname@, index as nat),
{
    let mut s: String = String::from_str(fname);
    s.append("::1::");
    let base: String = codegen_spread_base_name(index);
    s.append(base.as_str());
    assert(s@ =~= spread_name(fname@, index as nat));
    s
}

/// Within one function, different slots get different variable names.
pub proof fn lemma_var_names_distinct(fname: Seq<char>, i: nat, j: nat)
    requires
        i != j,
    ensures
        var_name(fname, i) != var_name(fname, j),
{
    let p = fname + scope_separator() + "var_"@;
    if var_name(fname, i) == var_name(fname, j) {
        assert(var_name(fname, i) =~= p + decimal(i));
        assert(var_name(fname, j) =~= p + decimal(j));
        assert((p + decimal(i)).subrange(p.len() as int, (p + decimal(i)).len() as int)
            =~= decimal(i));
        assert((p + decimal(j)).subrange(p.len() as int, (p + decimal(j)).len() as int)
            =~= decimal(j));
        lemma_decimal_injective(i, j);
    }
}

/// Within one function, different positions get different spread-parameter names.
pub proof fn lemma_spread_names_distinct(fname: Seq<char>, i: nat, j: nat)
    requires
        i != j,
    ensures
        spread_name(fname, i) != spread_name(fname, j),
{
    let p = fname + scope_separator() + "spread_"@;
    if spread_name(fname, i) == spread_name(fname, j) {
        assert(spread_name(fname, i) =~= p + decimal(i));
        assert(spread_name(fname, j) =~= p + decimal(j));
        assert((p + decimal(i)).subrange(p.len() as int, (p + decimal(i)).len() as int)
            =~= decimal(i));
        assert((p + decimal(j)).subrange(p.len() as int, (p + decimal(j)).len() as int)
            =~= decimal(j));
        lemma_decimal_injective(i, j);
    }
}

/// No spread parameter shares its name with a local slot of the same function.
pub proof fn lemma_var_and_spread_names_distinct(fname: Seq<char>, i: nat, j: nat)
    ensures
        var_name(fname, i) != spread_name(fname, j),
{
    reveal_strlit("var_");
    reveal_strlit("spread_");
    let p = fname + scope_separator();
    let a = var_name(fname, i);
    let b = spread_name(fname, j);
    assert(a[p.len() as int] == 'v');
    assert(b[p.len() as int] == 's');
}

} // verus!
