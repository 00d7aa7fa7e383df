//! Decimal text: what a run of digit characters means as a number, how a
//! number is rendered as digits, and executable parsing and rendering that
//! are proved to match.

use vstd::prelude::*;
use vstd::string::StrSliceExecFns;
use vstd::string::StringExecFns;

verus! {

/// True of the ten ASCII digit characters `'0'` to `'9'`.
pub open spec fn is_digit_char(c: char) -> bool {
    48 <= c as u32 && c as u32 <= 57
}

/// True when every character of `s` is an ASCII digit.
pub open spec fn all_digit_chars(s: Seq<char>) -> bool {
    forall|i: int| 0 <= i < s.len() ==> is_digit_char(#[trigger] s[i])
}

/// The numeric value of an ASCII digit character.
pub open spec fn digit_val(c: char) -> nat
    recommends
        is_digit_char(c),
{
    (c as u32 - 48) as nat
}

/// The digit character of a value below ten.
pub open spec fn digit_char(d: nat) -> char
    recommends
        d < 10,
{
    if d == 0 {
        '0'
    } else if d == 1 {
        '1'
    } else if d == 2 {
        '2'
    } else if d == 3 {
        '3'
    } else if d == 4 {
        '4'
    } else if d == 5 {
        '5'
    } else if d == 6 {
        '6'
    } else if d == 7 {
        '7'
    } else if d == 8 {
        '8'
    } else {
        '9'
    }
}

/// The number written by a sequence of digit characters; the empty sequence
/// reads as zero, and leading zeros are allowed.
pub open spec fn parse_digits(s: Seq<char>) -> nat
    recommends
        all_digit_chars(s),
    decreases s.len(),
{
    if s.len() == 0 {
        0
    } else {
        parse_digits(s.drop_last()) * 10 + digit_val(s.last())
    }
}

/// The canonical decimal rendering of a number: no sign, no leading zeros.
pub open spec fn dec_digits(n: nat) -> Seq<char>
    decreases n,
{
    if n < 10 {
        seq![digit_char(n)]
    } else {
        dec_digits(n / 10).push(digit_char(n % 10))
    }
}

/// A digit character below ten reads back as its own value.
pub proof fn lemma_digit_roundtrip(d: nat)
    requires
        d < 10,
    ensures
        is_digit_char(digit_char(d)),
        digit_val(digit_char(d)) == d,
{
}

/// The canonical rendering of a number is a nonempty run of digits.
pub proof fn lemma_dec_digits_wf(n: nat)
    ensures
        dec_digits(n).len() >= 1,
        all_digit_chars(dec_digits(n)),
    decreases n,
{
    if n < 10 {
        lemma_digit_roundtrip(n);
    } else {
        lemma_dec_digits_wf(n / 10);
        lemma_digit_roundtrip(n % 10);
        assert forall|i: int| 0 <= i < dec_digits(n).len() implies is_digit_char(
            #[trigger] dec_digits(n)[i],
        ) by {
            if i < dec_digits(n / 10).len() {
                assert(dec_digits(n)[i] == dec_digits(n / 10)[i]);
            } else {
                assert(dec_digits(n)[i] == digit_char(n % 10));
            }
        }
    }
}

/// Appending one digit multiplies the value read so far by ten and adds it.
pub proof fn lemma_parse_digits_push(t: Seq<char>, c: char)
    ensures
        parse_digits(t.push(c)) == parse_digits(t) * 10 + digit_val(c),
{
    assert(t.push(c).drop_last() =~= t);
    assert(t.push(c).last() == c);
}

/// Parsing the canonical rendering of a number gives the number back.
pub proof fn lemma_parse_of_dec_digits(n: nat)
    ensures
        parse_digits(dec_digits(n)) == n,
    decreases n,
{
    if n < 10 {
        let s = seq![digit_char(n)];
        assert(s.drop_last() =~= Seq::<char>::empty());
        assert(s.last() == digit_char(n));
        assert(parse_digits(Seq::<char>::empty()) == 0);
        lemma_digit_roundtrip(n);
    } else {
        let t = dec_digits(n / 10);
        let c = digit_char(n % 10);
        lemma_parse_of_dec_digits(n / 10);
        lemma_parse_digits_push(t, c);
        lemma_digit_roundtrip(n % 10);
        assert(dec_digits(n) == t.push(c));
        assert(parse_digits(t.push(c)) == parse_digits(t) * 10 + digit_val(c));
        assert(parse_digits(dec_digits(n)) == (n / 10) * 10 + n % 10);
        assert(n / 10 * 10 + n % 10 == n) by (nonlinear_arith);
    }
}

/// Reading more digits never shrinks the value: the value of a digit prefix
/// is at most the value of any longer prefix of the same text.
pub proof fn lemma_parse_digits_sub_le(s: Seq<char>, start: int, i: int, j: int)
    requires
        0 <= start <= i <= j <= s.len(),
    ensures
        parse_digits(s.subrange(start, i)) <= parse_digits(s.subrange(start, j)),
    decreases j - i,
{
    if i < j {
        lemma_parse_digits_sub_le(s, start, i, j - 1);
        assert(s.subrange(start, j).drop_last() =~= s.subrange(start, j - 1));
        assert(s.subrange(start, j).last() == s[j - 1]);
    }
}

/// Reads the digits of `s` at positions `start..end` as a number; yields
/// nothing when the number does not fit 64 bits.
pub fn parse_dec_range(s: &str, start: usize, end: usize) -> (r: Option<u64>)
    requires
        start <= end <= s@.len(),
        all_digit_chars(s@.subrange(start as int, end as int)),
    ensures
        match r {
            Some(v) => v == parse_digits(s@.subrange(start as int, end as int)),
            None => parse_digits(s@.subrange(start as int, end as int)) > u64::MAX,
        },
{
    let ghost whole = s@.subrange(start as int, end as int);
    let mut acc: u64 = 0;
    let mut i: usize = start;
    while i < end
        invariant
            start <= i <= end <= s@.len(),
            all_digit_chars(whole),
            whole == s@.subrange(start as int, end as int),
            acc == parse_digits(s@.subrange(start as int, i as int)),
        decreases end - i,
    {
        proof {
            assert(whole[i - start] == s@[i as int]);
        }
        let c = s.get_char(i);
        let d = (c as u32 - 48) as u64;
        proof {
            assert(s@.subrange(start as int, i + 1).drop_last() =~= s@.subrange(
                start as int,
                i as int,
            ));
            assert(s@.subrange(start as int, i + 1).last() == s@[i as int]);
        }
        if acc > (u64::MAX - d) / 10 {
            proof {
                lemma_parse_digits_sub_le(s@, start as int, i + 1, end as int);
            }
            return None;
        }
        acc = acc * 10 + d;
        i = i + 1;
    }
    proof {
        assert(s@.subrange(start as int, i as int) =~= whole);
    }
    Some(acc)
}

/// True of text that writes an unsigned 64-bit number in decimal: one or
/// more digits whose value fits 64 bits. Leading zeros are allowed.
pub open spec fn is_dec_u64_text(s: Seq<char>) -> bool {
    s.len() >= 1 && all_digit_chars(s) && parse_digits(s) <= u64::MAX
}

/// Reads a whole string as an unsigned 64-bit decimal number.
pub fn parse_u64_text(s: &str) -> (r: Option<u64>)
    ensures
        match r {
            Some(v) => is_dec_u64_text(s@) && v == parse_digits(s@),
            None => !is_dec_u64_text(s@),
        },
{
    let n = s.unicode_len();
    if n == 0 {
        return None;
    }
    let mut i: usize = 0;
    while i < n
        invariant
            0 <= i <= n,
            n == s@.len(),
            forall|k: int| 0 <= k < i ==> is_digit_char(#[trigger] s@[k]),
        decreases n - i,
    {
        let c = s.get_char(i);
        let u = c as u32;
        if u < 48 || u > 57 {
            return None;
        }
        i = i + 1;
    }
    proof {
        assert(s@.subrange(0, n as int) =~= s@);
    }
    parse_dec_range(s, 0, n)
}

/// The decimal digit as a one-character string slice.
pub(crate) fn digit_str(d: u64) -> (r: &'static str)
    requires
        d < 10,
    ensures
        r@ == seq![digit_char(d as nat)],
{
    if d == 0 {
        proof {
            reveal_strlit("0");
        }
        "0"
    } else if d == 1 {
        proof {
            reveal_strlit("1");
        }
        "1"
    } else if d == 2 {
        proof {
            reveal_strlit("2");
        }
        "2"
    } else if d == 3 {
        proof {
            reveal_strlit("3");
        }
        "3"
    } else if d == 4 {
        proof {
            reveal_strlit("4");
        }
        "4"
    } else if d == 5 {
        proof {
            reveal_strlit("5");
        }
        "5"
    } else if d == 6 {
        proof {
            reveal_strlit("6");
        }
        "6"
    } else if d == 7 {
        proof {
            reveal_strlit("7");
        }
        "7"
    } else if d == 8 {
        proof {
            reveal_strlit("8");
        }
        "8"
    } else {
        proof {
            reveal_strlit("9");
        }
        "9"
    }
}

/// Appends the canonical decimal rendering of `n` to `out`.
pub(crate) fn append_dec(n: u64, out: &mut String)
    ensures
        final(out)@ == old(out)@ + dec_digits(n as nat),
    decreases n,
{
    if n >= 10 {
        append_dec(n / 10, out);
    }
    out.append(digit_str(n % 10));
    proof {
        if n >= 10 {
            assert(old(out)@ + dec_digits((n / 10) as nat) + seq![digit_char((n % 10) as nat)]
                =~= old(out)@ + dec_digits(n as nat));
        } else {
            assert(old(out)@ + seq![digit_char(n as nat)] =~= old(out)@ + dec_digits(n as nat));
        }
    }
}

/// Renders a 64-bit number as decimal text.
pub fn u64_to_dec_string(n: u64) -> (r: String)
    ensures
        r@ == dec_digits(n as nat),
{
    let mut s = String::new();
    append_dec(n, &mut s);
    proof {
        assert(Seq::<char>::empty() + dec_digits(n as nat) =~= dec_digits(n as nat));
    }
    s
}

} // verus!
