use vstd::prelude::*;

verus! {

/// Character-wise equality of two string slices.
pub fn str_eq(a: &str, b: &str) -> (r: bool)
    ensures
        r == (a@ == b@),
{
    let n = a.unicode_len();
    let m = b.unicode_len();
    if n != m {
        return false;
    }
    let mut i: usize = 0;
    while i < n
        invariant
            n == a@.len(),
            m == b@.len(),
            n == m,
            i <= n,
            a@.subrange(0, i as int) == b@.subrange(0, i as int),
        decreases n - i,
    {
        if a.get_char(i) != b.get_char(i) {
            return false;
        }
        assert(a@.subrange(0, i + 1) =~= a@.subrange(0, i as int).push(a@[i as int]));
        assert(b@.subrange(0, i + 1) =~= b@.subrange(0, i as int).push(b@[i as int]));
        i = i + 1;
    }
    assert(a@ =~= a@.subrange(0, n as int));
    assert(b@ =~= b@.subrange(0, n as int));
    true
}

/// The character of a decimal digit.
pub open spec fn digit_char(d: nat) -> char {
    if d == 0 {
        '0'
    } else if d == 1 {
        '1'
    } else if d == 2 {
        '2'
    } else if d == 3 {
        '3'
    } else if d == 4 {
        '4'
    } else if d == 5 {
        '5'
    } else if d == 6 {
        '6'
    } else if d == 7 {
        '7'
    } else if d == 8 {
        '8'
    } else {
        '9'
    }
}

/// The decimal text of a natural number, without leading zeros.
pub open spec fn decimal_text(n: nat) -> Seq<char>
    decreases n,
{
    if n < 10 {
        seq![digit_char(n)]
    } else {
        decimal_text(n / 10).push(digit_char(n % 10))
    }
}

/// The digits of `n` before its last one: empty for a single digit.
pub open spec fn leading_text(n: nat) -> Seq<char> {
    if n < 10 {
        Seq::empty()
    } else {
        decimal_text(n / 10)
    }
}

/// Exactly two decimal digits, zero-padded (for a value under one hundred).
pub open spec fn two_digit_text(n: nat) -> Seq<char> {
    seq![digit_char(n / 10), digit_char(n % 10)]
}

/// A string of one decimal digit.
fn digit_str(d: u64) -> (r: &'static str)
    requires
        d < 10,
    ensures
        r@ == seq![digit_char(d as nat)],
{
    proof {
        reveal_strlit("0");
        reveal_strlit("1");
        reveal_strlit("2");
        reveal_strlit("3");
        reveal_strlit("4");
        reveal_strlit("5");
        reveal_strlit("6");
        reveal_strlit("7");
        reveal_strlit("8");
        reveal_strlit("9");
    }
    if d == 0 {
        "0"
    } else if d == 1 {
        "1"
    } else if d == 2 {
        "2"
    } else if d == 3 {
        "3"
    } else if d == 4 {
        "4"
    } else if d == 5 {
        "5"
    } else if d == 6 {
        "6"
    } else if d == 7 {
        "7"
    } else if d == 8 {
        "8"
    } else {
        "9"
    }
}

proof fn lemma_decimal_split(n: nat)
    ensures
        decimal_text(n) == leading_text(n) + seq![digit_char(n % 10)],
        n >= 10 ==> leading_text(n) == decimal_text(n / 10),
{
    if n < 10 {
        assert(decimal_text(n) =~= leading_text(n) + seq![digit_char(n % 10)]);
    } else {
        assert(decimal_text(n) =~= leading_text(n) + seq![digit_char(n % 10)]);
    }
}

/// The decimal text of an unsigned integer.
pub fn decimal_string(n: u64) -> (r: String)
    ensures
        r@ == decimal_text(n as nat),
{
    let mut s = String::from_str(digit_str(n % 10));
    let mut rest: u64 = n / 10;
    proof {
        lemma_decimal_split(n as nat);
    }
    while rest > 0
        invariant
            rest == 0 ==> decimal_text(n as nat) == s@,
            rest > 0 ==> decimal_text(n as nat) == decimal_text(rest as nat) + s@,
        decreases rest,
    {
        proof {
            lemma_decimal_split(rest as nat);
            assert(decimal_text(n as nat) =~= leading_text(rest as nat) + (seq![digit_char(rest as nat % 10)] + s@));
        }
        let d = String::from_str(digit_str(rest % 10));
        s = d.concat(s.as_str());
        rest = rest / 10;
    }
    s
}

/// Two decimal digits, zero-padded.
pub fn two_digit_string(n: u64) -> (r: String)
    requires
        n < 100,
    ensures
        r@ == two_digit_text(n as nat),
{
    let s = String::from_str(digit_str(n / 10));
    let r = s.concat(digit_str(n % 10));
    assert(r@ =~= two_digit_text(n as nat));
    r
}

/// An elapsed time of `secs` seconds as `H:MM:SS`: hours unpadded and unbounded, minutes
/// and seconds in two digits.
pub open spec fn duration_text(secs: nat) -> Seq<char> {
    decimal_text(secs / 3600) + ":"@ + two_digit_text((secs / 60) % 60) + ":"@ + two_digit_text(secs % 60)
}

/// Formats an elapsed time given in whole seconds as `H:MM:SS`.
pub fn format_duration(secs: u64) -> (r: String)
    ensures
        r@ == duration_text(secs as nat),
{
    let hours = decimal_string(secs / 3600);
    let minutes = two_digit_string((secs / 60) % 60);
    let seconds = two_digit_string(secs % 60);
    let r = hours.concat(":").concat(minutes.as_str()).concat(":").concat(seconds.as_str());
    r
}

/// Whether a character is an ASCII decimal digit.
pub open spec fn is_digit(c: char) -> bool {
    48 <= (c as u32) && (c as u32) <= 57
}

/// The value of a decimal digit character.
pub open spec fn digit_value(c: char) -> nat {
    ((c as u32) - 48) as nat
}

/// Whether every character of a text is a decimal digit.
pub open spec fn all_digits(t: Seq<char>) -> bool {
    forall|i: int| 0 <= i < t.len() ==> is_digit(#[trigger] t[i])
}

/// The value of a string of decimal digits.
pub open spec fn digits_value(t: Seq<char>) -> nat
    decreases t.len(),
{
    if t.len() == 0 {
        0
    } else {
        digits_value(t.drop_last()) * 10 + digit_value(t.last())
    }
}

/// The digits of an unsigned number's text: what follows an optional leading `+`.
pub open spec fn unsigned_digits(t: Seq<char>) -> Seq<char> {
    if t.len() > 0 && t[0] == '+' {
        t.drop_first()
    } else {
        t
    }
}

/// The value of an unsigned decimal text: an optional `+` and then one or more digits.
pub open spec fn unsigned_value(t: Seq<char>) -> Option<nat> {
    let d = unsigned_digits(t);
    if d.len() > 0 && all_digits(d) {
        Some(digits_value(d))
    } else {
        None
    }
}

/// The value of an unsigned decimal text where it is at most `max`.
pub open spec fn bounded_value(t: Seq<char>, max: nat) -> Option<nat> {
    match unsigned_value(t) {
        Some(v) => if v <= max {
            Some(v)
        } else {
            None
        },
        None => None,
    }
}

proof fn lemma_digits_value_grows(t: Seq<char>, i: int)
    requires
        0 <= i <= t.len(),
    ensures
        digits_value(t.subrange(0, i)) <= digits_value(t),
    decreases t.len() - i,
{
    if i < t.len() {
        lemma_digits_value_grows(t, i + 1);
        assert(t.subrange(0, i + 1).drop_last() =~= t.subrange(0, i));
    } else {
        assert(t.subrange(0, i) =~= t);
    }
}

/// Reads an unsigned decimal number no greater than `max`.
pub fn parse_bounded(s: &str, max: u64) -> (r: Option<u64>)
    requires
        max <= u32::MAX,
    ensures
        r matches Some(v) ==> bounded_value(s@, max as nat) == Some(v as nat),
        r is None ==> bounded_value(s@, max as nat) is None,
{
    let n = s.unicode_len();
    let mut start: usize = 0;
    if n > 0 && s.get_char(0) == '+' {
        start = 1;
    }
    let ghost d = unsigned_digits(s@);
    assert(d =~= s@.subrange(start as int, n as int));
    if start >= n {
        return None;
    }
    let mut acc: u64 = 0;
    let mut i: usize = start;
    while i < n
        invariant
            n == s@.len(),
            start <= i <= n,
            d == s@.subrange(start as int, n as int),
            d == unsigned_digits(s@),
            d.len() > 0,
            acc <= max,
            max <= u32::MAX,
            all_digits(d.subrange(0, i - start)),
            acc as nat == digits_value(d.subrange(0, i - start)),
        decreases n - i,
    {
        let c = s.get_char(i);
        assert(c == d[i - start]);
        if !((c as u32) >= 48 && (c as u32) <= 57) {
            assert(!is_digit(d[i - start]));
            return None;
        }
        let v = (c as u32 - 48) as u64;
        proof {
            assert(d.subrange(0, i + 1 - start).drop_last() =~= d.subrange(0, i - start));
            assert(all_digits(d.subrange(0, i + 1 - start)));
        }
        acc = acc * 10 + v;
        i = i + 1;
        if acc > max {
            proof {
                lemma_digits_value_grows(d, i - start);
                assert(digits_value(d) > max);
            }
            return None;
        }
    }
    assert(d.subrange(0, n - start) =~= d);
    Some(acc)
}

} // verus!
