use vstd::prelude::*;

verus! {

pub open spec fn is_digit(c: char) -> bool {
    '0' <= c && c <= '9'
}

pub open spec fn digit_value(c: char) -> int {
    (c as int) - ('0' as int)
}

pub open spec fn all_digits(s: Seq<char>) -> bool {
    forall|j: int| 0 <= j < s.len() ==> is_digit(#[trigger] s[j])
}

/// The number that a run of decimal digits denotes.
pub open spec fn digits_value(s: Seq<char>) -> int
    decreases s.len(),
{
    if s.len() == 0 {
        0
    } else {
        digits_value(s.drop_last()) * 10 + digit_value(s.last())
    }
}

/// Whether the text starts with a sign, `+` or `-`.
pub open spec fn has_sign(s: Seq<char>) -> bool {
    s.len() > 0 && (s[0] == '-' || s[0] == '+')
}

/// Whether the text starts with a minus sign.
pub open spec fn is_negative(s: Seq<char>) -> bool {
    s.len() > 0 && s[0] == '-'
}

/// The text after its sign, if it has one.
pub open spec fn unsigned_part(s: Seq<char>) -> Seq<char> {
    if has_sign(s) {
        s.drop_first()
    } else {
        s
    }
}

/// The 32-bit integer that `s` writes in decimal, if it writes one.
pub open spec fn parse_i32(s: Seq<char>) -> Option<i32> {
    let neg = is_negative(s);
    let d = unsigned_part(s);
    if d.len() == 0 || !all_digits(d) {
        None
    } else {
        let v = if neg {
            -digits_value(d)
        } else {
            digits_value(d)
        };
        if i32::MIN <= v <= i32::MAX {
            Some(v as i32)
        } else {
            None
        }
    }
}

pub open spec fn digit_char(d: int) -> char {
    if d == 0 {
        '0'
    } else if d == 1 {
        '1'
    } else if d == 2 {
        '2'
    } else if d == 3 {
        '3'
    } else if d == 4 {
        '4'
    } else if d == 5 {
        '5'
    } else if d == 6 {
        '6'
    } else if d == 7 {
        '7'
    } else if d == 8 {
        '8'
    } else {
        '9'
    }
}

/// The shortest decimal text of a natural number.
pub open spec fn nat_text(n: nat) -> Seq<char>
    decreases n,
{
    if n < 10 {
        seq![digit_char(n as int)]
    } else {
        nat_text(n / 10).push(digit_char((n % 10) as int))
    }
}

/// The usual decimal text of an integer: a `-` for negatives, no leading zeros.
pub open spec fn int_text(n: int) -> Seq<char> {
    if n < 0 {
        seq!['-'] + nat_text((-n) as nat)
    } else {
        nat_text(n as nat)
    }
}

/// The words that set a toggle, and the state each one sets.
pub open spec fn toggle_word(s: Seq<char>) -> Option<i32> {
    if s == seq!['t', 'r', 'u', 'e'] || s == seq!['y', 'e', 's'] || s == seq!['o', 'n'] || s
        == seq!['1'] {
        Some(1)
    } else if s == seq!['f', 'a', 'l', 's', 'e'] || s == seq!['n', 'o'] || s == seq![
        'o',
        'f',
        'f',
    ] || s == seq!['0'] {
        Some(0)
    } else {
        None
    }
}

proof fn lemma_nat_text(n: nat)
    ensures
        nat_text(n).len() > 0,
        all_digits(nat_text(n)),
        digits_value(nat_text(n)) == n,
    decreases n,
{
    if n >= 10 {
        lemma_nat_text(n / 10);
        let t = nat_text(n / 10);
        let u = t.push(digit_char((n % 10) as int));
        assert(u.drop_last() =~= t);
        assert(digit_value(digit_char((n % 10) as int)) == n % 10);
        assert(n == (n / 10) * 10 + n % 10);
        assert(all_digits(u)) by {
            assert forall|j: int| 0 <= j < u.len() implies is_digit(#[trigger] u[j]) by {
                if j < t.len() {
                    assert(u[j] == t[j]);
                }
            }
        }
    } else {
        let u = nat_text(n);
        assert(u.drop_last() =~= Seq::<char>::empty());
        assert(digit_value(digit_char(n as int)) == n);
        assert(digits_value(u) == digits_value(u.drop_last()) * 10 + digit_value(u.last()));
    }
}

/// Reading back the decimal text of any 32-bit integer gives that integer.
pub proof fn law_decimal_round_trip(n: i32)
    ensures
        parse_i32(int_text(n as int)) == Some(n),
{
    if n < 0 {
        lemma_nat_text((-n) as nat);
        let t = seq!['-'] + nat_text((-n) as nat);
        assert(t[0] == '-');
        assert(t.drop_first() =~= nat_text((-n) as nat));
    } else {
        lemma_nat_text(n as nat);
        let t = nat_text(n as nat);
        assert(t[0] != '-' && t[0] != '+') by {
            assert(is_digit(t[0]));
        }
    }
}

proof fn lemma_digits_value_nonneg_monotone(s: Seq<char>, i: int)
    requires
        all_digits(s),
        0 <= i <= s.len(),
    ensures
        0 <= digits_value(s.take(i)) <= digits_value(s),
    decreases s.len(),
{
    if s.len() > 0 {
        if i == s.len() {
            assert(s.take(i) =~= s);
            lemma_digits_value_nonneg_monotone(s.drop_last(), 0);
            assert(s.drop_last().take(0) =~= s.take(0));
        } else {
            assert(all_digits(s.drop_last())) by {
                assert forall|j: int| 0 <= j < s.drop_last().len() implies is_digit(
                    #[trigger] s.drop_last()[j],
                ) by {
                    assert(s.drop_last()[j] == s[j]);
                }
            }
            lemma_digits_value_nonneg_monotone(s.drop_last(), i);
            assert(s.drop_last().take(i) =~= s.take(i));
            assert(is_digit(s.last()));
        }
    } else {
        assert(s.take(i) =~= s);
    }
}

/// Parses a decimal 32-bit integer as `str::parse::<i32>` does: an optional
/// sign, then digits only.
pub fn parse_int(text: &str) -> (r: Option<i32>)
    ensures
        r == parse_i32(text@),
{
    let len = text.unicode_len();
    let mut start: usize = 0;
    let mut neg = false;
    if len > 0 {
        let c0 = text.get_char(0);
        if c0 == '-' {
            neg = true;
            start = 1;
        } else if c0 == '+' {
            start = 1;
        }
    }
    let ghost d = unsigned_part(text@);
    assert(d =~= text@.skip(start as int));
    assert(neg == is_negative(text@));
    if start >= len {
        return None;
    }
    let limit: u64 = if neg {
        2147483648
    } else {
        2147483647
    };
    let mut acc: u64 = 0;
    let mut i: usize = start;
    while i < len
        invariant
            len == text@.len(),
            start <= i <= len,
            d =~= text@.skip(start as int),
            d == unsigned_part(text@),
            neg == is_negative(text@),
            limit == (if neg {
                2147483648u64
            } else {
                2147483647u64
            }),
            all_digits(d.take(i - start)),
            acc == digits_value(d.take(i - start)),
            acc <= limit,
            limit <= 2147483648,
        decreases len - i,
    {
        let c = text.get_char(i);
        if !('0' <= c && c <= '9') {
            assert(d[i - start] == c);
            assert(!all_digits(d));
            assert(parse_i32(text@) is None);
            return None;
        }
        let ghost prev = d.take(i - start);
        assert(d.take(i - start + 1).drop_last() =~= prev);
        assert(d.take(i - start + 1).last() == c);
        let v = acc * 10 + (c as u64 - '0' as u64);
        assert(all_digits(d.take(i - start + 1))) by {
            assert forall|j: int| 0 <= j < i - start + 1 implies is_digit(
                #[trigger] d.take(i - start + 1)[j],
            ) by {
                if j < i - start {
                    assert(d.take(i - start + 1)[j] == prev[j]);
                }
            }
        }
        assert(digits_value(d.take(i - start + 1)) == v);
        if v > limit {
            proof {
                if all_digits(d) {
                    lemma_digits_value_nonneg_monotone(d, i - start + 1);
                    assert(digits_value(d) > limit);
                }
            }
            assert(parse_i32(text@) is None);
            return None;
        }
        acc = v;
        i = i + 1;
    }
    assert(d.take(len - start) =~= d);
    if neg {
        Some((0 - (acc as i64)) as i32)
    } else {
        Some(acc as i32)
    }
}

} // verus!
