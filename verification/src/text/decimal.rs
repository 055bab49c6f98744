use vstd::prelude::*;

verus! {

/// `c` is one of the ASCII digits `0` to `9`.
pub open spec fn is_digit(c: char) -> bool {
    '0' <= c && c <= '9'
}

/// The value of an ASCII digit.
pub open spec fn digit_value(c: char) -> int {
    (c as int) - ('0' as int)
}

/// The ASCII digit whose value is `d`.
pub open spec fn digit_char(d: int) -> char {
    (d + ('0' as int)) as char
}

/// Every character of `s` is an ASCII digit.
pub open spec fn all_digits(s: Seq<char>) -> bool {
    forall|i: int| 0 <= i < s.len() ==> is_digit(#[trigger] s[i])
}

/// The number that the digits of `s` write in base ten (most significant first).
pub open spec fn digits_value(s: Seq<char>) -> int
    decreases s.len(),
{
    if s.len() == 0 {
        0
    } else {
        digits_value(s.drop_last()) * 10 + digit_value(s.last())
    }
}

/// The shortest decimal writing of `n`, with no sign and no leading zero.
pub open spec fn decimal(n: nat) -> Seq<char>
    decreases n,
{
    if n < 10 {
        seq![digit_char(n as int)]
    } else {
        decimal(n / 10).push(digit_char((n % 10) as int))
    }
}

fn digit_to_char(d: u64) -> (c: char)
    requires
        d < 10,
    ensures
        c == digit_char(d as int),
        is_digit(c),
        digit_value(c) == d,
{
    let c: char = match d {
        0 => '0',
        1 => '1',
        2 => '2',
        3 => '3',
        4 => '4',
        5 => '5',
        6 => '6',
        7 => '7',
        8 => '8',
        _ => '9',
    };
    c
}

/// `String::push`: appends one character.
#[verifier::external_body]
pub(crate) fn push_char(s: &mut String, c: char)
    ensures
        final(s)@ == old(s)@.push(c),
{
    s.push(c);
}

/// Writes `n` in decimal, as `n.to_string()` does.
pub fn format_u64(n: u64) -> (s: String)
    ensures
        s@ == decimal(n as nat),
    decreases n,
{
    if n < 10 {
        let mut s = String::new();
        push_char(&mut s, digit_to_char(n));
        s
    } else {
        let mut s = format_u64(n / 10);
        push_char(&mut s, digit_to_char(n % 10));
        s
    }
}


/// What follows an optional leading `+`: the digits that Rust's unsigned `FromStr` reads.
pub open spec fn unsigned_body(s: Seq<char>) -> Seq<char> {
    if s.len() > 0 && s[0] == '+' {
        s.drop_first()
    } else {
        s
    }
}

/// The number that `s` writes, read as Rust's `FromStr` reads an unsigned integer whose
/// largest value is `max`: an optional `+`, then one or more ASCII digits; `None` where the
/// text is not of that form or the number exceeds `max`.
pub open spec fn parse_unsigned(s: Seq<char>, max: int) -> Option<int> {
    let d = unsigned_body(s);
    if d.len() > 0 && all_digits(d) && digits_value(d) <= max {
        Some(digits_value(d))
    } else {
        None
    }
}

/// The number that `s` writes, read as Rust's `FromStr` reads a signed integer in
/// `min..=max`: an optional `+` or `-`, then one or more ASCII digits.
pub open spec fn parse_signed(s: Seq<char>, min: int, max: int) -> Option<int> {
    if s.len() > 0 && s[0] == '-' {
        let d = s.drop_first();
        if d.len() > 0 && all_digits(d) && -digits_value(d) >= min {
            Some(-digits_value(d))
        } else {
            None
        }
    } else {
        parse_unsigned(s, max)
    }
}

/// A run of digits is worth at least nothing.
pub proof fn lemma_digits_value_nonneg(s: Seq<char>)
    requires
        all_digits(s),
    ensures
        digits_value(s) >= 0,
    decreases s.len(),
{
    if s.len() > 0 {
        lemma_digits_value_nonneg(s.drop_last());
    }
}

/// Adding digits at the end never makes a number smaller.
pub proof fn lemma_digits_value_prefix(s: Seq<char>, k: int)
    requires
        all_digits(s),
        0 <= k <= s.len(),
    ensures
        digits_value(s.take(k)) <= digits_value(s),
    decreases s.len(),
{
    if k < s.len() {
        assert(s.drop_last().take(k) =~= s.take(k));
        lemma_digits_value_prefix(s.drop_last(), k);
        lemma_digits_value_nonneg(s.drop_last());
    } else {
        assert(s.take(k) =~= s);
    }
}

fn char_digit(c: char) -> (r: Option<u64>)
    ensures
        r is Some <==> is_digit(c),
        r matches Some(d) ==> d == digit_value(c) && d < 10,
{
    if '0' <= c && c <= '9' {
        Some((c as u32 - '0' as u32) as u64)
    } else {
        None
    }
}

/// Reads the characters of `s` from index `start` on as a run of decimal digits worth at
/// most `max`.
fn parse_digits_from(s: &str, start: usize, max: u64) -> (r: Option<u64>)
    requires
        start <= s@.len(),
    ensures
        ({
            let d = s@.subrange(start as int, s@.len() as int);
            r == (if d.len() > 0 && all_digits(d) && digits_value(d) <= max {
                Some(digits_value(d) as u64)
            } else {
                None::<u64>
            })
        }),
        r matches Some(v) ==> v == digits_value(s@.subrange(start as int, s@.len() as int))
            && v <= max,
{
    let len = s.unicode_len();
    let ghost d = s@.subrange(start as int, s@.len() as int);
    if start == len {
        return None;
    }
    let mut acc: u64 = 0;
    let mut i: usize = start;
    while i < len
        invariant
            start <= i <= len,
            len == s@.len(),
            d == s@.subrange(start as int, s@.len() as int),
            all_digits(d.take(i - start)),
            acc == digits_value(d.take(i - start)),
            acc <= max,
        decreases len - i,
    {
        let c = s.get_char(i);
        assert(d.take(i - start + 1).drop_last() =~= d.take(i - start));
        assert(d[i - start] == c);
        match char_digit(c) {
            None => {
                assert(!is_digit(d[i - start]));
                return None;
            },
            Some(dg) => {
                if dg > max || acc > (max - dg) / 10 {
                    proof {
                        assert(all_digits(d.take(i - start + 1)));
                        assert(digits_value(d.take(i - start + 1)) == acc * 10 + dg);
                        assert(acc * 10 + dg > max) by (nonlinear_arith)
                            requires
                                dg > max || acc > (max - dg) / 10,
                                dg < 10,
                        ;
                        if all_digits(d) {
                            lemma_digits_value_prefix(d, i - start + 1);
                        }
                    }
                    return None;
                }
                assert(acc * 10 + dg <= max) by (nonlinear_arith)
                    requires
                        dg <= max,
                        acc <= (max - dg) / 10,
                ;
                acc = acc * 10 + dg;
                i = i + 1;
                assert(all_digits(d.take(i - start)));
            },
        }
    }
    assert(d.take(i - start) =~= d);
    Some(acc)
}

/// Reads an unsigned decimal integer no larger than `max` as Rust's `FromStr` does.
pub fn parse_unsigned_text(s: &str, max: u64) -> (r: Option<u64>)
    ensures
        r matches Some(v) ==> parse_unsigned(s@, max as int) == Some(v as int),
        r is None ==> parse_unsigned(s@, max as int) is None,
{
    let len = s.unicode_len();
    if len > 0 && s.get_char(0) == '+' {
        assert(s@.subrange(1, s@.len() as int) =~= s@.drop_first());
        parse_digits_from(s, 1, max)
    } else {
        assert(s@.subrange(0, s@.len() as int) =~= s@);
        parse_digits_from(s, 0, max)
    }
}

/// `str::parse::<u16>`: `None` exactly where Rust's parse fails.
pub fn parse_u16(s: &str) -> (r: Option<u16>)
    ensures
        r matches Some(v) ==> parse_unsigned(s@, u16::MAX as int) == Some(v as int),
        r is None ==> parse_unsigned(s@, u16::MAX as int) is None,
{
    match parse_unsigned_text(s, 65535) {
        Some(v) => Some(v as u16),
        None => None,
    }
}

/// `str::parse::<usize>`: `None` exactly where Rust's parse fails.
pub fn parse_usize(s: &str) -> (r: Option<usize>)
    ensures
        r matches Some(v) ==> parse_unsigned(s@, usize::MAX as int) == Some(v as int),
        r is None ==> parse_unsigned(s@, usize::MAX as int) is None,
{
    match parse_unsigned_text(s, usize::MAX as u64) {
        Some(v) => Some(v as usize),
        None => None,
    }
}

/// `str::parse::<i64>`: `None` exactly where Rust's parse fails.
pub fn parse_i64(s: &str) -> (r: Option<i64>)
    ensures
        r matches Some(v) ==> parse_signed(s@, i64::MIN as int, i64::MAX as int) == Some(v as int),
        r is None ==> parse_signed(s@, i64::MIN as int, i64::MAX as int) is None,
{
    let len = s.unicode_len();
    if len > 0 && s.get_char(0) == '-' {
        assert(s@.subrange(1, s@.len() as int) =~= s@.drop_first());
        match parse_digits_from(s, 1, 9223372036854775808) {
            Some(m) => {
                if m == 9223372036854775808 {
                    Some(i64::MIN)
                } else {
                    Some(-(m as i64))
                }
            },
            None => None,
        }
    } else {
        match parse_unsigned_text(s, 9223372036854775807) {
            Some(v) => Some(v as i64),
            None => None,
        }
    }
}


/// The decimal writing of a number is a non-empty run of digits that is worth the number.
pub proof fn lemma_decimal_digits(n: nat)
    ensures
        decimal(n).len() > 0,
        all_digits(decimal(n)),
        digits_value(decimal(n)) == n,
        decimal(n)[0] != '+' && decimal(n)[0] != '-',
        n > 0 ==> decimal(n)[0] != '0',
    decreases n,
{
    if n < 10 {
        let c = digit_char(n as int);
        assert(decimal(n) =~= seq![c]);
        assert(seq![c].drop_last() =~= Seq::<char>::empty());
        assert(digit_value(c) == n);
        assert(digits_value(Seq::<char>::empty()) == 0);
        assert(decimal(n).last() == c);
        assert(digits_value(decimal(n)) == digits_value(decimal(n).drop_last()) * 10 + digit_value(c));
    } else {
        lemma_decimal_digits(n / 10);
        let prev = decimal(n / 10);
        let d = digit_char((n % 10) as int);
        assert(decimal(n) =~= prev.push(d));
        assert(decimal(n).drop_last() =~= prev);
        assert(decimal(n)[0] == prev[0]);
        assert(digit_value(d) == n % 10);
        assert(n == (n / 10) * 10 + n % 10);
        assert(decimal(n).last() == d);
        assert(digits_value(decimal(n)) == digits_value(prev) * 10 + digit_value(d));
    }
}

/// Reading back what `format_u64` writes gives the number again: for every `n` no larger
/// than `max`, the decimal writing of `n` parses (as Rust parses an unsigned integer whose
/// largest value is `max`) to `n`.
pub proof fn law_parse_reads_back_decimal(n: nat, max: int)
    requires
        n <= max,
    ensures
        parse_unsigned(decimal(n), max) == Some(n as int),
        decimal(n).len() > 0,
        all_digits(decimal(n)),
        n > 0 ==> decimal(n)[0] != '0',
{
    lemma_decimal_digits(n);
}

} // verus!
