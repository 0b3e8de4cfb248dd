//! Decimal renderings of numbers, as the records show them.

use vstd::prelude::*;
use vstd::string::StringExecFns;

verus! {

/// The character of one decimal digit.
pub open spec fn digit_char(d: nat) -> char {
    if d == 0 { '0' }
    else if d == 1 { '1' }
    else if d == 2 { '2' }
    else if d == 3 { '3' }
    else if d == 4 { '4' }
    else if d == 5 { '5' }
    else if d == 6 { '6' }
    else if d == 7 { '7' }
    else if d == 8 { '8' }
    else { '9' }
}

/// The decimal digits of `n`, most significant first, without leading zeros.
pub open spec fn decimal(n: nat) -> Seq<char>
    decreases n,
{
    if n < 10 {
        seq![digit_char(n)]
    } else {
        decimal(n / 10).push(digit_char(n % 10))
    }
}

/// The one-character text of a decimal digit.
fn digit_str(d: u64) -> (r: &'static str)
    requires
        d < 10,
    ensures
        r@ == seq![digit_char(d as nat)],
{
    if d == 0 {
        proof { reveal_strlit("0"); }
        "0"
    } else if d == 1 {
        proof { reveal_strlit("1"); }
        "1"
    } else if d == 2 {
        proof { reveal_strlit("2"); }
        "2"
    } else if d == 3 {
        proof { reveal_strlit("3"); }
        "3"
    } else if d == 4 {
        proof { reveal_strlit("4"); }
        "4"
    } else if d == 5 {
        proof { reveal_strlit("5"); }
        "5"
    } else if d == 6 {
        proof { reveal_strlit("6"); }
        "6"
    } else if d == 7 {
        proof { reveal_strlit("7"); }
        "7"
    } else if d == 8 {
        proof { reveal_strlit("8"); }
        "8"
    } else {
        proof { reveal_strlit("9"); }
        "9"
    }
}

/// Renders `n` in decimal, as `u64`'s `Display` does.
pub fn decimal_text(n: u64) -> (r: String)
    ensures
        r@ == decimal(n as nat),
    decreases n,
{
    if n < 10 {
        String::from_str(digit_str(n))
    } else {
        let mut s = decimal_text(n / 10);
        s.append(digit_str(n % 10));
        s
    }
}

/// The value of a decimal digit character.
pub open spec fn digit_value(c: char) -> nat {
    if c == '1' { 1 }
    else if c == '2' { 2 }
    else if c == '3' { 3 }
    else if c == '4' { 4 }
    else if c == '5' { 5 }
    else if c == '6' { 6 }
    else if c == '7' { 7 }
    else if c == '8' { 8 }
    else if c == '9' { 9 }
    else { 0 }
}

/// The number that a string of decimal digits denotes.
pub open spec fn decimal_value(s: Seq<char>) -> nat
    decreases s.len(),
{
    if s.len() == 0 {
        0
    } else {
        decimal_value(s.drop_last()) * 10 + digit_value(s.last())
    }
}

proof fn lemma_digit_round_trip(d: nat)
    requires
        d < 10,
    ensures
        digit_value(digit_char(d)) == d,
{
}

/// The decimal text of `n` denotes `n` again: reading back what `decimal` wrote
/// gives the number it was written from.
pub proof fn lemma_decimal_value(n: nat)
    ensures
        decimal_value(decimal(n)) == n,
        decimal(n).len() >= 1,
    decreases n,
{
    lemma_digit_round_trip(n % 10);
    if n < 10 {
        lemma_digit_round_trip(n);
        assert(decimal(n).drop_last() =~= Seq::<char>::empty());
        assert(decimal(n).last() == digit_char(n));
        assert(decimal_value(Seq::<char>::empty()) == 0);
    } else {
        lemma_decimal_value(n / 10);
        let d = decimal(n);
        assert(d.drop_last() =~= decimal(n / 10));
        assert(n == (n / 10) * 10 + n % 10) by (nonlinear_arith);
        assert(d.last() == digit_char(n % 10));
        assert(decimal_value(d) == decimal_value(decimal(n / 10)) * 10 + digit_value(digit_char(n % 10)));
    }
}

/// Two numbers with the same decimal text are the same number.
pub proof fn lemma_decimal_injective(a: nat, b: nat)
    ensures
        decimal(a) == decimal(b) ==> a == b,
{
    lemma_decimal_value(a);
    lemma_decimal_value(b);
}

/// `d` split into groups of three from the right, joined by `_`
/// (`1234567` becomes `1_234_567`).
pub open spec fn grouped(d: Seq<char>) -> Seq<char>
    decreases d.len(),
{
    if d.len() <= 3 {
        d
    } else {
        grouped(d.subrange(0, d.len() - 3)) + seq!['_'] + d.subrange(d.len() - 3, d.len() as int)
    }
}

/// How a candid `Nat` of value `n` prints: grouped decimal digits.
pub open spec fn nat_display(n: nat) -> Seq<char> {
    grouped(decimal(n))
}

/// How a candid `Int` of value `i` prints: a `-` for a negative value,
/// then the grouped decimal digits of its magnitude.
pub open spec fn int_display(i: int) -> Seq<char> {
    if i < 0 {
        seq!['-'] + grouped(decimal((-i) as nat))
    } else {
        grouped(decimal(i as nat))
    }
}

/// Whether `c` is one of the ten decimal digits.
pub open spec fn is_digit(c: char) -> bool {
    c == '0' || c == '1' || c == '2' || c == '3' || c == '4' || c == '5' || c == '6'
        || c == '7' || c == '8' || c == '9'
}

/// Whether every character of `s` is a decimal digit.
pub open spec fn all_digits(s: Seq<char>) -> bool {
    forall|i: int| 0 <= i < s.len() ==> is_digit(#[trigger] s[i])
}

/// `s` with every `_` left out.
pub open spec fn without_underscores(s: Seq<char>) -> Seq<char>
    decreases s.len(),
{
    if s.len() == 0 {
        s
    } else if s.last() == '_' {
        without_underscores(s.drop_last())
    } else {
        without_underscores(s.drop_last()).push(s.last())
    }
}

proof fn lemma_without_underscores_concat(a: Seq<char>, b: Seq<char>)
    ensures
        without_underscores(a + b) == without_underscores(a) + without_underscores(b),
    decreases b.len(),
{
    if b.len() == 0 {
        assert(a + b =~= a);
        assert(without_underscores(a) + without_underscores(b) =~= without_underscores(a));
    } else {
        lemma_without_underscores_concat(a, b.drop_last());
        assert((a + b).drop_last() =~= a + b.drop_last());
        assert((a + b).last() == b.last());
        if b.last() == '_' {
        } else {
            assert(without_underscores(a) + without_underscores(b) =~= (without_underscores(a)
                + without_underscores(b.drop_last())).push(b.last()));
        }
    }
}

proof fn lemma_without_underscores_digits(d: Seq<char>)
    requires
        all_digits(d),
    ensures
        without_underscores(d) == d,
    decreases d.len(),
{
    if d.len() > 0 {
        assert(is_digit(d[d.len() - 1]));
        assert(all_digits(d.drop_last()));
        lemma_without_underscores_digits(d.drop_last());
        assert(d.drop_last().push(d.last()) =~= d);
    }
}

proof fn lemma_decimal_digits(n: nat)
    ensures
        all_digits(decimal(n)),
    decreases n,
{
    if n >= 10 {
        lemma_decimal_digits(n / 10);
        assert(is_digit(digit_char(n % 10)));
        assert forall|i: int| 0 <= i < decimal(n).len() implies is_digit(#[trigger] decimal(n)[i]) by {
            if i < decimal(n / 10).len() {
                assert(decimal(n)[i] == decimal(n / 10)[i]);
            }
        }
    } else {
        assert(is_digit(digit_char(n)));
        assert(decimal(n)[0] == digit_char(n));
    }
}

proof fn lemma_grouped_keeps_digits(d: Seq<char>)
    requires
        all_digits(d),
    ensures
        without_underscores(grouped(d)) == d,
    decreases d.len(),
{
    if d.len() <= 3 {
        lemma_without_underscores_digits(d);
    } else {
        let head = d.subrange(0, d.len() - 3);
        let tail = d.subrange(d.len() - 3, d.len() as int);
        assert(all_digits(head));
        assert(all_digits(tail));
        lemma_grouped_keeps_digits(head);
        lemma_without_underscores_digits(tail);
        lemma_without_underscores_concat(grouped(head) + seq!['_'], tail);
        lemma_without_underscores_concat(grouped(head), seq!['_']);
        assert(seq!['_'].drop_last() =~= Seq::<char>::empty());
        assert(seq!['_'].last() == '_');
        assert(without_underscores(Seq::<char>::empty()) =~= Seq::<char>::empty());
        assert(without_underscores(seq!['_']) =~= Seq::<char>::empty());
        assert(head + tail =~= d);
    }
}

/// What a candid `Nat` prints reads back as the number: with the `_` separators left
/// out it is a non-empty string of decimal digits that denotes `n`; zero prints `0`.
pub proof fn lemma_nat_display_reads_back(n: nat)
    ensures
        without_underscores(nat_display(n)).len() >= 1,
        all_digits(without_underscores(nat_display(n))),
        decimal_value(without_underscores(nat_display(n))) == n,
        n == 0 ==> nat_display(n) == seq!['0'],
{
    lemma_decimal_digits(n);
    lemma_grouped_keeps_digits(decimal(n));
    lemma_decimal_value(n);
}

/// What a candid `Int` prints reads back as the number: it starts with `-` exactly
/// when the value is negative, and the rest, with the `_` separators left out, is a
/// non-empty string of decimal digits that denotes the magnitude.
pub proof fn lemma_int_display_reads_back(i: int)
    ensures
        ({
            let t = int_display(i);
            let digits = if i < 0 { without_underscores(t.drop_first()) } else { without_underscores(t) };
            &&& t.len() >= 1
            &&& (t[0] == '-') <==> i < 0
            &&& digits.len() >= 1
            &&& all_digits(digits)
            &&& decimal_value(digits) == if i < 0 { -i } else { i }
        }),
{
    let m: nat = if i < 0 { (-i) as nat } else { i as nat };
    lemma_decimal_digits(m);
    lemma_grouped_keeps_digits(decimal(m));
    lemma_decimal_value(m);
    let g = grouped(decimal(m));
    if i < 0 {
        assert((seq!['-'] + g).drop_first() =~= g);
    } else {
        assert(g.len() >= 1) by {
            if g.len() == 0 {
                assert(without_underscores(g) =~= Seq::<char>::empty());
            }
        }
        assert(g[0] != '-') by {
            lemma_grouped_first(decimal(m));
        }
    }
}

proof fn lemma_grouped_first(d: Seq<char>)
    requires
        all_digits(d),
        d.len() >= 1,
    ensures
        grouped(d).len() >= 1,
        grouped(d)[0] == d[0],
    decreases d.len(),
{
    if d.len() > 3 {
        let head = d.subrange(0, d.len() - 3);
        assert(all_digits(head));
        lemma_grouped_first(head);
    }
}

} // verus!
