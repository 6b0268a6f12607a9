use vstd::prelude::*;

verus! {

/// Whether `c` is one of the ten decimal digits.
pub open spec fn is_digit(c: char) -> bool {
    48 <= c as u32 <= 57
}

/// The number that the digit `c` stands for.
pub open spec fn digit_of(c: char) -> nat {
    (c as u32 - 48) as nat
}

/// The digit that stands for `d`, for `d` below ten.
pub open spec fn digit_char(d: nat) -> char {
    if d == 0 {
        '0'
    } else if d == 1 {
        '1'
    } else if d == 2 {
        '2'
    } else if d == 3 {
        '3'
    } else if d == 4 {
        '4'
    } else if d == 5 {
        '5'
    } else if d == 6 {
        '6'
    } else if d == 7 {
        '7'
    } else if d == 8 {
        '8'
    } else {
        '9'
    }
}

/// Whether every character of `s` is a digit.
pub open spec fn all_digits(s: Seq<char>) -> bool {
    forall|i: int| 0 <= i < s.len() ==> is_digit(#[trigger] s[i])
}

/// The number that a run of digits denotes in base ten; leading zeros do not
/// count, and the empty run denotes zero.
pub open spec fn digits_value(s: Seq<char>) -> nat
    decreases s.len(),
{
    if s.len() == 0 {
        0
    } else {
        10 * digits_value(s.drop_last()) + digit_of(s.last())
    }
}

/// The digits of `n` in base ten, without leading zeros; zero is `0`.
pub open spec fn digits_of(n: nat) -> Seq<char>
    decreases n,
{
    if n < 10 {
        seq![digit_char(n)]
    } else {
        digits_of(n / 10).push(digit_char(n % 10))
    }
}

/// The text of the integer `v`: a minus sign if it is negative, then the
/// digits of its magnitude.
pub open spec fn decimal_text(v: int) -> Seq<char> {
    if v < 0 {
        seq!['-'] + digits_of((-v) as nat)
    } else {
        digits_of(v as nat)
    }
}

/// How many leading characters of `s` are a sign: a plus, or, where the
/// target is signed, a minus.
pub open spec fn sign_len(s: Seq<char>, signed: bool) -> int {
    if s.len() > 0 && (s[0] == '+' || (signed && s[0] == '-')) {
        1
    } else {
        0
    }
}

/// The integer that `s` denotes: an optional sign followed by one or more
/// digits and nothing else. Any other text denotes no integer.
pub open spec fn decimal_value(s: Seq<char>, signed: bool) -> Option<int> {
    let body = s.skip(sign_len(s, signed));
    if body.len() > 0 && all_digits(body) {
        if sign_len(s, signed) == 1 && s[0] == '-' {
            Some(-(digits_value(body) as int))
        } else {
            Some(digits_value(body) as int)
        }
    } else {
        None
    }
}

/// The integer that `s` denotes, where it lies between `lo` and `hi`.
pub open spec fn decimal_in(s: Seq<char>, signed: bool, lo: int, hi: int) -> Option<int> {
    match decimal_value(s, signed) {
        Some(v) => if lo <= v <= hi {
            Some(v)
        } else {
            None
        },
        None => None,
    }
}

/// The largest magnitude that [`parse_decimal`] and [`format_decimal`]
/// handle: two to the power of 64.
pub const MAGNITUDE_LIMIT: i128 = 18446744073709551616;

/// Reads `text` as a decimal integer between `lo` and `hi`: an optional
/// sign, then digits only. Anything else, and any value outside the bounds,
/// gives `None`.
pub fn parse_decimal(text: &str, signed: bool, lo: i128, hi: i128) -> (r: Option<i128>)
    requires
        -MAGNITUDE_LIMIT <= lo <= hi <= MAGNITUDE_LIMIT,
    ensures
        match r {
            Some(v) => decimal_in(text@, signed, lo as int, hi as int) == Some(v as int),
            None => decimal_in(text@, signed, lo as int, hi as int) is None,
        },
{
    let mut first: bool = true;
    let mut negative: bool = false;
    let mut has_body: bool = false;
    let mut clean: bool = true;
    let mut large: bool = false;
    let mut acc: i128 = 0;
    let ghost s = text@;
    let ghost skip = sign_len(s, signed);
    for c in it: text.chars()
        invariant
            it.seq() == s,
            s == text@,
            skip == sign_len(s, signed),
            first <==> it.index() == 0,
            negative <==> it.index() > 0 && skip == 1 && s[0] == '-',
            has_body <==> it.index() > skip,
            clean <==> forall|k: int| skip <= k < it.index() ==> is_digit(#[trigger] s[k]),
            0 <= acc <= MAGNITUDE_LIMIT,
            clean && !large && it.index() >= skip ==> acc == digits_value(
                s.subrange(skip, it.index() as int),
            ),
            clean && large ==> it.index() >= skip && digits_value(
                s.subrange(skip, it.index() as int),
            ) > MAGNITUDE_LIMIT,
            it.index() < skip ==> acc == 0 && !large,
    {
        let ghost i = it.index() as int;
        let n: u32 = c as u32;
        if first && (c == '+' || (signed && c == '-')) {
            negative = c == '-';
            proof {
                assert(s.subrange(skip, i + 1) =~= Seq::<char>::empty());
            }
        } else if 48 <= n && n <= 57 {
            has_body = true;
            proof {
                assert(s.subrange(skip, i + 1).drop_last() =~= s.subrange(skip, i));
                assert(s.subrange(skip, i + 1).last() == c);
                if i == skip {
                    assert(s.subrange(skip, i) =~= Seq::<char>::empty());
                }
            }
            if !large {
                let d: i128 = (n - 48) as i128;
                acc = acc * 10 + d;
                if acc > MAGNITUDE_LIMIT {
                    large = true;
                    acc = 0;
                }
            }
        } else {
            has_body = true;
            clean = false;
        }
        first = false;
    }
    proof {
        let body = s.skip(skip);
        assert(body =~= s.subrange(skip, s.len() as int)) by {
            if skip > s.len() {
            }
        }
        if clean {
            assert forall|k: int| 0 <= k < body.len() implies is_digit(#[trigger] body[k]) by {
                assert(body[k] == s[skip + k]);
            }
        } else {
            let k = choose|k: int| skip <= k < s.len() && !is_digit(#[trigger] s[k]);
            assert(body[k - skip] == s[k]);
        }
    }
    if !clean || !has_body || large {
        return None;
    }
    let v: i128 = if negative {
        -acc
    } else {
        acc
    };
    if lo <= v && v <= hi {
        Some(v)
    } else {
        None
    }
}

/// The digit for `d` as a text of one character.
fn digit_str(d: u8) -> (r: &'static str)
    requires
        d < 10,
    ensures
        r@ == seq![digit_char(d as nat)],
{
    proof {
        reveal_strlit("0");
        reveal_strlit("1");
        reveal_strlit("2");
        reveal_strlit("3");
        reveal_strlit("4");
        reveal_strlit("5");
        reveal_strlit("6");
        reveal_strlit("7");
        reveal_strlit("8");
        reveal_strlit("9");
    }
    let r = if d == 0 {
        "0"
    } else if d == 1 {
        "1"
    } else if d == 2 {
        "2"
    } else if d == 3 {
        "3"
    } else if d == 4 {
        "4"
    } else if d == 5 {
        "5"
    } else if d == 6 {
        "6"
    } else if d == 7 {
        "7"
    } else if d == 8 {
        "8"
    } else {
        "9"
    };
    assert(r@ =~= seq![digit_char(d as nat)]);
    r
}

/// Appends the digits of `n` to `out`.
fn push_digits(out: &mut String, n: u128)
    ensures
        final(out)@ == old(out)@ + digits_of(n as nat),
    decreases n,
{
    if n >= 10 {
        push_digits(out, n / 10);
    }
    let d: u8 = (n % 10) as u8;
    out.append(digit_str(d));
    assert(final(out)@ =~= old(out)@ + digits_of(n as nat));
}

/// Writes `v` in base ten: a minus sign if it is negative, then the digits of
/// its magnitude without leading zeros.
pub fn format_decimal(v: i128) -> (out: String)
    ensures
        out@ == decimal_text(v as int),
{
    let mut out = String::new();
    if v < 0 {
        proof {
            reveal_strlit("-");
        }
        out.append("-");
        assert(out@ =~= seq!['-']);
        let magnitude: u128 = (-(v + 1)) as u128 + 1;
        push_digits(&mut out, magnitude);
    } else {
        push_digits(&mut out, v as u128);
        assert(out@ =~= digits_of(v as nat));
    }
    out
}

/// The digits of a number are digits, and there is at least one.
pub proof fn digits_of_well_formed(n: nat)
    ensures
        digits_of(n).len() >= 1,
        all_digits(digits_of(n)),
    decreases n,
{
    if n >= 10 {
        digits_of_well_formed(n / 10);
    }
}

/// Reading the digits of a number gives the number back.
pub proof fn digits_round_trip(n: nat)
    ensures
        digits_value(digits_of(n)) == n,
    decreases n,
{
    if n < 10 {
        assert(digits_of(n).drop_last() =~= Seq::<char>::empty());
        assert(digits_value(Seq::<char>::empty()) == 0);
        assert(digit_of(digits_of(n).last()) == n);
    } else {
        digits_round_trip(n / 10);
        assert(digits_of(n).drop_last() =~= digits_of(n / 10));
        assert(digit_of(digits_of(n).last()) == n % 10);
    }
}

/// Reading the text of an integer gives the integer back, for a signed
/// target and, where the integer is not negative, for an unsigned one.
pub proof fn decimal_round_trip(v: int, signed: bool)
    requires
        v >= 0 || signed,
    ensures
        decimal_value(decimal_text(v), signed) == Some(v),
{
    let text = decimal_text(v);
    if v < 0 {
        let n = (-v) as nat;
        digits_of_well_formed(n);
        digits_round_trip(n);
        assert(text.skip(1) =~= digits_of(n));
    } else {
        let n = v as nat;
        digits_of_well_formed(n);
        digits_round_trip(n);
        assert(is_digit(text[0]));
        assert(text.skip(0) =~= text);
    }
}

} // verus!
