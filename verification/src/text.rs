//! Building request text: decimal numbers and appending to strings.

use vstd::prelude::*;

verus! {

/// The character of a decimal digit.
pub open spec fn digit_char(d: nat) -> char
    recommends
        d < 10,
{
    (d + 48) as char
}

/// The decimal representation of a natural number: no sign, no leading zero
/// (zero itself is `"0"`).
pub open spec fn decimal(n: nat) -> Seq<char>
    decreases n,
{
    if n < 10 {
        seq![digit_char(n)]
    } else {
        decimal(n / 10).push(digit_char(n % 10))
    }
}

/// Whether a character is a decimal digit.
pub open spec fn is_digit(c: char) -> bool {
    '0' <= c <= '9'
}

/// The number that a string of decimal digits denotes.
pub open spec fn decimal_value(s: Seq<char>) -> nat
    decreases s.len(),
{
    if s.len() == 0 {
        0
    } else {
        decimal_value(s.drop_last()) * 10 + ((s.last() as int - 48) as nat)
    }
}

proof fn lemma_digit_char(d: nat)
    requires
        d < 10,
    ensures
        digit_char(d) as int == d + 48,
        is_digit(digit_char(d)),
        d > 0 ==> digit_char(d) != '0',
{
}

/// The decimal representation of a number is a non-empty string of digits,
/// without a leading zero unless it is `"0"`, that denotes the number back.
pub proof fn lemma_decimal_round_trip(n: nat)
    ensures
        decimal(n).len() >= 1,
        decimal(n).len() == 1 <==> n < 10,
        forall|i: int| 0 <= i < decimal(n).len() ==> is_digit(#[trigger] decimal(n)[i]),
        decimal(n).len() > 1 ==> decimal(n)[0] != '0',
        decimal_value(decimal(n)) == n,
    decreases n,
{
    lemma_digit_char(n % 10);
    let d = decimal(n);
    if n >= 10 {
        lemma_decimal_round_trip(n / 10);
        if n / 10 < 10 {
            lemma_digit_char(n / 10);
            assert(decimal(n / 10) == seq![digit_char(n / 10)]);
            assert(decimal(n / 10)[0] != '0');
        }
        assert(d.drop_last() =~= decimal(n / 10));
        assert(decimal(n / 10)[0] == d[0]);
        assert(decimal_value(d) == decimal_value(decimal(n / 10)) * 10 + n % 10);
    } else {
        assert(d.drop_last() =~= Seq::<char>::empty());
        assert(decimal_value(d) == decimal_value(Seq::<char>::empty()) * 10 + n % 10);
    }
}

/// A decimal number followed by text that does not start with a digit can
/// be read back unambiguously: the number and the text that follows it are
/// both determined.
pub proof fn lemma_decimal_prefix_unique(a: nat, b: nat, ra: Seq<char>, rb: Seq<char>)
    requires
        decimal(a) + ra == decimal(b) + rb,
        ra.len() > 0 ==> !is_digit(ra[0]),
        rb.len() > 0 ==> !is_digit(rb[0]),
    ensures
        a == b,
        ra == rb,
{
    lemma_decimal_round_trip(a);
    lemma_decimal_round_trip(b);
    let da = decimal(a);
    let db = decimal(b);
    let whole = da + ra;
    if da.len() < db.len() {
        let i = da.len() as int;
        assert(whole[i] == ra[0]);
        assert(whole[i] == db[i]);
    } else if db.len() < da.len() {
        let i = db.len() as int;
        assert(whole[i] == rb[0]);
        assert(whole[i] == da[i]);
    }
    assert(da =~= whole.subrange(0, da.len() as int));
    assert(db =~= whole.subrange(0, da.len() as int));
    assert(ra =~= whole.subrange(da.len() as int, whole.len() as int));
    assert(rb =~= whole.subrange(da.len() as int, whole.len() as int));
}

/// `String::push`: appends one character at the end of the string.
#[verifier::external_body]
pub(crate) fn push_char(s: &mut String, c: char)
    ensures
        final(s)@ == old(s)@.push(c),
{
    s.push(c);
}

/// Appends the decimal representation of `n`.
pub fn push_decimal(s: &mut String, n: u32)
    ensures
        final(s)@ == old(s)@ + decimal(n as nat),
    decreases n,
{
    if n >= 10 {
        push_decimal(s, n / 10);
    }
    let d: u8 = (n % 10) as u8;
    let c: char = (d + 48) as char;
    proof {
        assert(c == digit_char((n % 10) as nat));
    }
    push_char(s, c);
    proof {
        if n < 10 {
            assert(old(s)@ + decimal(n as nat) =~= old(s)@.push(c));
        } else {
            assert(old(s)@ + decimal(n as nat) =~= (old(s)@ + decimal((n / 10) as nat)).push(c));
        }
    }
}

/// Whether two strings hold the same characters.
pub fn str_eq(a: &str, b: &str) -> (eq: bool)
    ensures
        eq == (a@ == b@),
{
    let n: usize = a.unicode_len();
    if n != b.unicode_len() {
        return false;
    }
    let mut i: usize = 0;
    while i < n
        invariant
            n == a@.len(),
            n == b@.len(),
            i <= n,
            forall|j: int| 0 <= j < i ==> a@[j] == b@[j],
        decreases n - i,
    {
        if a.get_char(i) != b.get_char(i) {
            return false;
        }
        i = i + 1;
    }
    proof {
        assert(a@ =~= b@);
    }
    true
}

} // verus!
