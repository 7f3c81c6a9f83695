//! Decimal numbers and plain text as sequences of characters.
use vstd::prelude::*;

verus! {

/// Whether `c` is one of `0` to `9`.
pub open spec fn is_digit(c: char) -> bool {
    '0' <= c && c <= '9'
}

/// The value of a decimal digit.
pub open spec fn digit_value(c: char) -> nat {
    (c as u32 - '0' as u32) as nat
}

/// The character of a decimal digit.
pub open spec fn digit_char(d: nat) -> char {
    if d == 0 {
        '0'
    } else if d == 1 {
        '1'
    } else if d == 2 {
        '2'
    } else if d == 3 {
        '3'
    } else if d == 4 {
        '4'
    } else if d == 5 {
        '5'
    } else if d == 6 {
        '6'
    } else if d == 7 {
        '7'
    } else if d == 8 {
        '8'
    } else {
        '9'
    }
}

/// The shortest decimal text of `n`.
pub open spec fn dec(n: nat) -> Seq<char>
    decreases n,
{
    if n < 10 {
        seq![digit_char(n)]
    } else {
        dec(n / 10).push(digit_char(n % 10))
    }
}

/// The value of a text of decimal digits.
pub open spec fn digits_value(s: Seq<char>) -> nat
    decreases s.len(),
{
    if s.len() == 0 {
        0
    } else {
        digits_value(s.drop_last()) * 10 + digit_value(s.last())
    }
}

/// Every character of `s` is a digit.
pub open spec fn all_digits(s: Seq<char>) -> bool {
    forall|i: int| 0 <= i < s.len() ==> is_digit(#[trigger] s[i])
}

/// A non-empty digit text without a leading zero (but for `0` itself).
pub open spec fn canonical(s: Seq<char>) -> bool {
    &&& s.len() >= 1
    &&& all_digits(s)
    &&& (s.len() == 1 || s[0] != '0')
}

proof fn lemma_digit_char(d: nat)
    requires
        d < 10,
    ensures
        is_digit(digit_char(d)),
        digit_value(digit_char(d)) == d,
        d != 0 ==> digit_char(d) != '0',
{
}

/// The decimal text of `n` is canonical and reads back as `n`.
pub proof fn lemma_dec(n: nat)
    ensures
        canonical(dec(n)),
        digits_value(dec(n)) == n,
        dec(n).len() >= 1,
    decreases n,
{
    if n < 10 {
        lemma_digit_char(n);
        assert(dec(n).drop_last() =~= Seq::<char>::empty());
        assert(digits_value(Seq::<char>::empty()) == 0);
        assert(dec(n).last() == digit_char(n));
        assert(digits_value(dec(n)) == digits_value(dec(n).drop_last()) * 10 + digit_value(dec(n).last()));
    } else {
        lemma_dec(n / 10);
        lemma_digit_char(n % 10);
        let s = dec(n);
        assert(s.drop_last() =~= dec(n / 10));
        assert(s.last() == digit_char(n % 10));
        assert(digits_value(s) == digits_value(dec(n / 10)) * 10 + digit_value(digit_char(n % 10)));
        assert(n == (n / 10) * 10 + n % 10);
        assert(s[0] == dec(n / 10)[0]);
        if dec(n / 10).len() == 1 {
            if n / 10 >= 10 {
                lemma_dec(n / 10 / 10);
                assert(dec(n / 10).len() >= 2);
            }
            assert(n / 10 != 0);
            assert(dec(n / 10)[0] == digit_char(n / 10));
            lemma_digit_char(n / 10);
        }
    }
}

proof fn lemma_value_zero(s: Seq<char>)
    requires
        all_digits(s),
        digits_value(s) == 0,
    ensures
        forall|i: int| 0 <= i < s.len() ==> #[trigger] s[i] == '0',
    decreases s.len(),
{
    if s.len() > 0 {
        let t = s.drop_last();
        assert(all_digits(t));
        lemma_value_zero(t);
        assert forall|i: int| 0 <= i < s.len() implies #[trigger] s[i] == '0' by {
            if i < s.len() - 1 {
                assert(s[i] == t[i]);
            }
        }
    }
}

/// A canonical digit text is the decimal text of its value.
pub proof fn lemma_canonical_dec(s: Seq<char>)
    requires
        canonical(s),
    ensures
        dec(digits_value(s)) == s,
    decreases s.len(),
{
    let v = digits_value(s);
    let d = digit_value(s.last());
    assert(is_digit(s[s.len() - 1]));
    if s.len() == 1 {
        assert(s.drop_last() =~= Seq::<char>::empty());
        assert(digits_value(Seq::<char>::empty()) == 0);
        assert(v == d);
        assert(d < 10);
        assert(digit_char(d) == s[0]);
        assert(dec(v) =~= s);
    } else {
        let t = s.drop_last();
        assert(t[0] == s[0]);
        assert(canonical(t)) by {
            assert forall|i: int| 0 <= i < t.len() implies is_digit(#[trigger] t[i]) by {
                assert(t[i] == s[i]);
            }
            if t.len() > 1 {
                assert(t[0] != '0');
            }
        }
        lemma_canonical_dec(t);
        if digits_value(t) == 0 {
            lemma_value_zero(t);
            assert(t[0] == '0');
        }
        assert(v == digits_value(t) * 10 + d);
        assert(v >= 10);
        assert(v / 10 == digits_value(t)) by (nonlinear_arith)
            requires
                v == digits_value(t) * 10 + d,
                d < 10,
        ;
        assert(v % 10 == d) by (nonlinear_arith)
            requires
                v == digits_value(t) * 10 + d,
                d < 10,
        ;
        assert(digit_char(d) == s.last());
        assert(dec(v) =~= t.push(s.last()));
        assert(t.push(s.last()) =~= s);
    }
}

/// Two decimal texts, each followed by text that opens with a non-digit,
/// can be equal only when the numbers and the rests are.
pub proof fn lemma_dec_split(a: nat, x: Seq<char>, b: nat, y: Seq<char>)
    requires
        dec(a) + x == dec(b) + y,
        x.len() >= 1,
        !is_digit(x[0]),
        y.len() >= 1,
        !is_digit(y[0]),
    ensures
        a == b,
        x == y,
{
    lemma_dec(a);
    lemma_dec(b);
    let la = dec(a).len();
    let lb = dec(b).len();
    if la < lb {
        assert((dec(a) + x)[la as int] == x[0]);
        assert((dec(b) + y)[la as int] == dec(b)[la as int]);
    } else if lb < la {
        assert((dec(b) + y)[lb as int] == y[0]);
        assert((dec(a) + x)[lb as int] == dec(a)[lb as int]);
    } else {
        assert(dec(a) =~= (dec(a) + x).subrange(0, la as int));
        assert(dec(b) =~= (dec(b) + y).subrange(0, lb as int));
        assert(x =~= (dec(a) + x).subrange(la as int, (dec(a) + x).len() as int));
        assert(y =~= (dec(b) + y).subrange(lb as int, (dec(b) + y).len() as int));
    }
}

/// Index of the first non-digit at or after `pos` (or the end).
pub open spec fn digit_run_end(t: Seq<char>, pos: int) -> int
    decreases t.len() - pos,
{
    if pos < 0 || pos >= t.len() || !is_digit(t[pos]) {
        pos
    } else {
        digit_run_end(t, pos + 1)
    }
}

proof fn lemma_digit_run_end(t: Seq<char>, pos: int)
    requires
        0 <= pos <= t.len(),
    ensures
        pos <= digit_run_end(t, pos) <= t.len(),
        all_digits(t.subrange(pos, digit_run_end(t, pos))),
        digit_run_end(t, pos) == t.len() || !is_digit(t[digit_run_end(t, pos)]),
    decreases t.len() - pos,
{
    if pos < t.len() && is_digit(t[pos]) {
        lemma_digit_run_end(t, pos + 1);
        let e = digit_run_end(t, pos);
        assert forall|i: int| 0 <= i < e - pos implies is_digit(
            #[trigger] t.subrange(pos, e)[i],
        ) by {
            if i > 0 {
                assert(t.subrange(pos, e)[i] == t.subrange(pos + 1, e)[i - 1]);
            }
        }
    }
}

/// Where the digits start at `pos` and then stop at a non-digit.
proof fn lemma_digit_run_end_at(t: Seq<char>, pos: int, end: int)
    requires
        0 <= pos <= end <= t.len(),
        all_digits(t.subrange(pos, end)),
        end == t.len() || !is_digit(t[end]),
    ensures
        digit_run_end(t, pos) == end,
    decreases end - pos,
{
    if pos < end {
        assert(t[pos] == t.subrange(pos, end)[0]);
        assert forall|i: int| 0 <= i < end - (pos + 1) implies is_digit(
            #[trigger] t.subrange(pos + 1, end)[i],
        ) by {
            assert(t.subrange(pos + 1, end)[i] == t.subrange(pos, end)[i + 1]);
        }
        lemma_digit_run_end_at(t, pos + 1, end);
    }
}

/// What reading a number at `pos` gives: its value and where it stops, when
/// the digits there are canonical and their value is at most `max`.
pub open spec fn read_number(t: Seq<char>, pos: int, max: nat) -> Option<(nat, int)> {
    let end = digit_run_end(t, pos);
    let s = t.subrange(pos, end);
    if canonical(s) && digits_value(s) <= max {
        Some((digits_value(s), end))
    } else {
        None
    }
}

/// A number written by `dec` and followed by a non-digit reads back.
pub proof fn lemma_read_dec(t: Seq<char>, pos: int, n: nat, max: nat)
    requires
        0 <= pos,
        pos + dec(n).len() <= t.len(),
        t.subrange(pos, pos + dec(n).len()) == dec(n),
        pos + dec(n).len() == t.len() || !is_digit(t[pos + dec(n).len()]),
        n <= max,
    ensures
        read_number(t, pos, max) == Some((n, pos + dec(n).len())),
{
    lemma_dec(n);
    lemma_digit_run_end_at(t, pos, pos + dec(n).len());
}

proof fn lemma_value_push(s: Seq<char>, c: char)
    ensures
        digits_value(s.push(c)) == digits_value(s) * 10 + digit_value(c),
{
    assert(s.push(c).drop_last() =~= s);
}

/// Reads the number at `pos`: the digits there must be canonical and their
/// value at most `max`.
pub fn parse_number(t: &Vec<char>, pos: usize, max: u128) -> (r: Option<(u128, usize)>)
    requires
        pos <= t@.len(),
    ensures
        r is None <==> read_number(t@, pos as int, max as nat) is None,
        r is Some ==> read_number(t@, pos as int, max as nat) == Some(
            (r->Some_0.0 as nat, r->Some_0.1 as int),
        ),
        r is Some ==> pos < r->Some_0.1 <= t@.len(),
{
    proof {
        lemma_digit_run_end(t@, pos as int);
    }
    let ghost end = digit_run_end(t@, pos as int);
    let mut i: usize = pos;
    let mut v: u128 = 0;
    let mut overflow = false;
    while i < t.len() && '0' <= t[i] && t[i] <= '9'
        invariant
            pos <= i <= end <= t@.len(),
            end == digit_run_end(t@, pos as int),
            all_digits(t@.subrange(pos as int, end)),
            end == t@.len() || !is_digit(t@[end]),
            !overflow ==> v == digits_value(t@.subrange(pos as int, i as int)) && v <= max,
            overflow ==> digits_value(t@.subrange(pos as int, i as int)) > max,
        decreases t@.len() - i,
    {
        proof {
            if i >= end {
                assert(i == end);
            }
            assert(t@.subrange(pos as int, i as int + 1) =~= t@.subrange(pos as int, i as int).push(t@[i as int]));
            lemma_value_push(t@.subrange(pos as int, i as int), t@[i as int]);
        }
        let d = (t[i] as u32 - '0' as u32) as u128;
        if !overflow {
            if d > max || v > (max - d) / 10 {
                overflow = true;
                assert(v * 10 + d > max) by (nonlinear_arith)
                    requires d > max || v > (max - d) / 10, v >= 0;
            } else {
                assert(v * 10 + d <= max) by (nonlinear_arith)
                    requires v <= (max - d) / 10, d <= max;
                v = v * 10 + d;
            }
        } else {
            assert(digits_value(t@.subrange(pos as int, i as int)) * 10 + d > max) by (nonlinear_arith)
                requires digits_value(t@.subrange(pos as int, i as int)) > max;
        }
        i = i + 1;
    }
    assert(i == end) by {
        if i < end {
            assert(t@[i as int] == t@.subrange(pos as int, end)[i - pos]);
        }
    }
    if i == pos || overflow {
        return None;
    }
    if i - pos > 1 && t[pos] == '0' {
        assert(t@.subrange(pos as int, end)[0] == t@[pos as int]);
        return None;
    }
    assert(t@.subrange(pos as int, end)[0] == t@[pos as int]);
    Some((v, i))
}

/// Appends the decimal text of `n`.
pub fn push_dec(out: &mut Vec<char>, n: u128)
    ensures
        final(out)@ == old(out)@ + dec(n as nat),
    decreases n,
{
    if n >= 10 {
        push_dec(out, n / 10);
    }
    let d = n % 10;
    let c = if d == 0 {
        '0'
    } else if d == 1 {
        '1'
    } else if d == 2 {
        '2'
    } else if d == 3 {
        '3'
    } else if d == 4 {
        '4'
    } else if d == 5 {
        '5'
    } else if d == 6 {
        '6'
    } else if d == 7 {
        '7'
    } else if d == 8 {
        '8'
    } else {
        '9'
    };
    out.push(c);
    proof {
        if n >= 10 {
            assert(final(out)@ =~= old(out)@ + dec(n as nat));
        } else {
            assert(final(out)@ =~= old(out)@ + dec(n as nat));
        }
    }
}

/// Appends the characters of `s`.
pub fn push_str(out: &mut Vec<char>, s: &str)
    ensures
        final(out)@ == old(out)@ + s@,
{
    let n = s.unicode_len();
    let mut i: usize = 0;
    while i < n
        invariant
            n == s@.len(),
            i <= n,
            out@ == old(out)@ + s@.subrange(0, i as int),
        decreases n - i,
    {
        out.push(s.get_char(i));
        i = i + 1;
        assert(out@ =~= old(out)@ + s@.subrange(0, i as int));
    }
    assert(s@.subrange(0, n as int) =~= s@);
}

/// The characters of `s`.
pub fn chars_of(s: &str) -> (r: Vec<char>)
    ensures
        r@ == s@,
{
    let mut r: Vec<char> = Vec::new();
    push_str(&mut r, s);
    assert(r@ =~= s@);
    r
}

/// Relies on std's `FromIterator<&char> for String`: the string of exactly
/// these characters.
#[verifier::external_body]
pub(crate) fn string_of(v: &Vec<char>) -> (r: String)
    ensures
        r@ == v@,
{
    v.iter().collect()
}

} // verus!

verus! {

/// Whether two texts are the same.
pub fn same_text(a: &str, b: &str) -> (r: bool)
    ensures
        r <==> a@ == b@,
{
    let n = a.unicode_len();
    if n != b.unicode_len() {
        return false;
    }
    let mut i: usize = 0;
    while i < n
        invariant
            n == a@.len(),
            n == b@.len(),
            i <= n,
            forall|j: int| 0 <= j < i ==> a@[j] == b@[j],
        decreases n - i,
    {
        if a.get_char(i) != b.get_char(i) {
            return false;
        }
        i = i + 1;
    }
    assert(a@ =~= b@);
    true
}

} // verus!
