//! Character and string helpers: ASCII case folding, decimal rendering of
//! integers, and the clock and period labels shown on the match screen.

use vstd::prelude::*;

verus! {

/// The code point of `c` with ASCII upper-case letters folded to lower case.
pub open spec fn folded_code(c: char) -> int {
    let n = c as int;
    if 65 <= n <= 90 { n + 32 } else { n }
}

/// Two character sequences are equal up to ASCII case.
pub open spec fn eq_ignore_ascii_case_spec(a: Seq<char>, b: Seq<char>) -> bool {
    &&& a.len() == b.len()
    &&& forall|i: int| 0 <= i < a.len() ==> #[trigger] folded_code(a[i]) == folded_code(b[i])
}

/// The ASCII digit for `d`, which must be below ten.
pub open spec fn digit_char(d: nat) -> char {
    if d == 0 { '0' }
    else if d == 1 { '1' }
    else if d == 2 { '2' }
    else if d == 3 { '3' }
    else if d == 4 { '4' }
    else if d == 5 { '5' }
    else if d == 6 { '6' }
    else if d == 7 { '7' }
    else if d == 8 { '8' }
    else { '9' }
}

/// The shortest decimal rendering of a natural number.
pub open spec fn decimal(n: nat) -> Seq<char>
    decreases n,
{
    if n < 10 {
        seq![digit_char(n)]
    } else {
        decimal(n / 10).push(digit_char(n % 10))
    }
}

/// The decimal rendering of an integer, as `{}` prints it: a minus sign
/// before the digits of a negative number.
pub open spec fn signed_decimal(i: int) -> Seq<char> {
    if i < 0 {
        seq!['-'].add(decimal((-i) as nat))
    } else {
        decimal(i as nat)
    }
}

/// Appends one character to a string (`String::push`).
#[verifier::external_body]
pub(crate) fn push_char(s: &mut String, c: char)
    ensures
        final(s)@ == old(s)@.push(c),
{
    s.push(c);
}

/// The characters of a string slice, in order.
pub fn chars_of(s: &str) -> (v: Vec<char>)
    ensures
        v@ == s@,
{
    let n = s.unicode_len();
    let mut v: Vec<char> = Vec::new();
    let mut i: usize = 0;
    while i < n
        invariant
            n == s@.len(),
            i <= n,
            v@ == s@.subrange(0, i as int),
        decreases n - i,
    {
        let c = s.get_char(i);
        v.push(c);
        i = i + 1;
    }
    v
}

fn folded(c: char) -> (r: u32)
    ensures
        r == folded_code(c),
{
    let n = c as u32;
    if 65 <= n && n <= 90 {
        n + 32
    } else {
        n
    }
}

/// Equality of two strings up to ASCII case, as `str::eq_ignore_ascii_case`
/// decides it.
pub fn eq_ignore_ascii_case(a: &str, b: &str) -> (r: bool)
    ensures
        r == eq_ignore_ascii_case_spec(a@, b@),
{
    let x = chars_of(a);
    let y = chars_of(b);
    if x.len() != y.len() {
        return false;
    }
    let mut i: usize = 0;
    while i < x.len()
        invariant
            x@ == a@,
            y@ == b@,
            x.len() == y.len(),
            i <= x.len(),
            forall|j: int| 0 <= j < i ==> #[trigger] folded_code(x@[j]) == folded_code(y@[j]),
        decreases x.len() - i,
    {
        if folded(x[i]) != folded(y[i]) {
            return false;
        }
        i = i + 1;
    }
    true
}

/// Exact equality of two string slices.
pub fn str_eq(a: &str, b: &str) -> (r: bool)
    ensures
        r == (a@ == b@),
{
    let x = chars_of(a);
    let y = chars_of(b);
    if x.len() != y.len() {
        return false;
    }
    let mut i: usize = 0;
    while i < x.len()
        invariant
            x@ == a@,
            y@ == b@,
            x.len() == y.len(),
            i <= x.len(),
            forall|j: int| 0 <= j < i ==> x@[j] == y@[j],
        decreases x.len() - i,
    {
        if x[i] != y[i] {
            return false;
        }
        i = i + 1;
    }
    assert(x@ =~= y@);
    true
}

fn digit(d: u64) -> (c: char)
    requires
        d < 10,
    ensures
        c == digit_char(d as nat),
{
    if d == 0 { '0' }
    else if d == 1 { '1' }
    else if d == 2 { '2' }
    else if d == 3 { '3' }
    else if d == 4 { '4' }
    else if d == 5 { '5' }
    else if d == 6 { '6' }
    else if d == 7 { '7' }
    else if d == 8 { '8' }
    else { '9' }
}

/// Appends the decimal digits of `n` to `s`.
pub fn push_decimal(s: &mut String, n: u64)
    ensures
        final(s)@ == old(s)@ + decimal(n as nat),
    decreases n,
{
    if n >= 10 {
        push_decimal(s, n / 10);
        push_char(s, digit(n % 10));
        assert(old(s)@ + decimal((n / 10) as nat) + seq![digit_char((n % 10) as nat)]
            =~= old(s)@ + decimal(n as nat));
    } else {
        push_char(s, digit(n));
        assert(old(s)@.push(digit_char(n as nat)) =~= old(s)@ + decimal(n as nat));
    }
}

/// The magnitude of a signed 64-bit integer.
pub fn unsigned_abs(i: i64) -> (r: u64)
    ensures
        r as int == if i < 0 { -(i as int) } else { i as int },
{
    if i >= 0 {
        i as u64
    } else if i == i64::MIN {
        9223372036854775808u64
    } else {
        (-i) as u64
    }
}

/// Appends the decimal rendering of a signed integer to `s`.
pub fn push_signed_decimal(s: &mut String, i: i64)
    ensures
        final(s)@ == old(s)@ + signed_decimal(i as int),
{
    let m = unsigned_abs(i);
    if i < 0 {
        push_char(s, '-');
        push_decimal(s, m);
        assert(old(s)@.push('-') + decimal(m as nat) =~= old(s)@ + signed_decimal(i as int));
    } else {
        push_decimal(s, m);
    }
}

/// The decimal rendering of a signed integer as a new string.
pub fn signed_to_string(i: i64) -> (r: String)
    ensures
        r@ == signed_decimal(i as int),
{
    let mut s = String::new();
    push_signed_decimal(&mut s, i);
    assert(Seq::<char>::empty() + signed_decimal(i as int) =~= signed_decimal(i as int));
    s
}


/// Rust's `/` on integers: the quotient rounded toward zero.
pub open spec fn quot_toward_zero(a: int, b: int) -> int {
    if a < 0 { -((-a) / b) } else { a / b }
}

/// Rust's `%` on integers: the remainder that takes the sign of `a`.
pub open spec fn rem_toward_zero(a: int, b: int) -> int {
    if a < 0 { -((-a) % b) } else { a % b }
}

/// `{:02}`: a zero is put before a single non-negative digit.
pub open spec fn two_digit(i: int) -> Seq<char> {
    if 0 <= i < 10 { seq!['0'] + decimal(i as nat) } else { signed_decimal(i) }
}

/// The match clock text `minutes:seconds` of a number of seconds.
pub open spec fn clock_text(seconds: int) -> Seq<char> {
    signed_decimal(quot_toward_zero(seconds, 60)) + seq![':'] + two_digit(rem_toward_zero(seconds, 60))
}

/// Renders a number of seconds as the match clock shows it, `m:ss`.
pub fn format_clock(seconds: i64) -> (r: String)
    ensures
        r@ == clock_text(seconds as int),
{
    let m = unsigned_abs(seconds);
    let q = m / 60;
    let rem = m % 60;
    let (qi, ri): (i64, i64) = if seconds < 0 {
        (-(q as i64), -(rem as i64))
    } else {
        (q as i64, rem as i64)
    };
    let mut s = String::new();
    push_signed_decimal(&mut s, qi);
    push_char(&mut s, ':');
    if 0 <= ri && ri < 10 {
        push_char(&mut s, '0');
        push_decimal(&mut s, ri as u64);
    } else {
        push_signed_decimal(&mut s, ri);
    }
    assert(s@ =~= clock_text(seconds as int));
    s
}

/// The label of a period: `Q1` to `Q4`, and `ET` for extra time.
pub open spec fn period_label_text(period: nat) -> Seq<char> {
    if period <= 4 { "Q"@ + decimal(period) } else { "ET"@ }
}

/// The label shown for a period number.
pub fn period_label(period: u32) -> (r: String)
    ensures
        r@ == period_label_text(period as nat),
{
    if period <= 4 {
        let mut s = String::from_str("Q");
        push_decimal(&mut s, period as u64);
        s
    } else {
        String::from_str("ET")
    }
}

/// Equality up to ASCII case is an equivalence: reflexive, symmetric and
/// transitive.
pub proof fn law_ignore_case_equivalence(a: Seq<char>, b: Seq<char>, c: Seq<char>)
    ensures
        eq_ignore_ascii_case_spec(a, a),
        eq_ignore_ascii_case_spec(a, b) ==> eq_ignore_ascii_case_spec(b, a),
        eq_ignore_ascii_case_spec(a, b) && eq_ignore_ascii_case_spec(b, c) ==> eq_ignore_ascii_case_spec(a, c),
{
    if eq_ignore_ascii_case_spec(a, b) && eq_ignore_ascii_case_spec(b, c) {
        assert forall|i: int| 0 <= i < a.len() implies #[trigger] folded_code(a[i]) == folded_code(c[i]) by {
            assert(folded_code(a[i]) == folded_code(b[i]));
            assert(folded_code(b[i]) == folded_code(c[i]));
        }
    }
}

} // verus!
