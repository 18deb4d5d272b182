//! Laws of numbers, their texts, and trimmed URLs.

use std::time::Duration;

use vstd::prelude::*;

use crate::text;
use crate::text::IntError;

verus! {

/// `c` is the decimal digit for `d`.
pub open spec fn stands_for(c: char, d: nat) -> bool {
    d <= 9 && c as nat == 48 + d
}

/// `c` is a hex digit for `d`, in either letter case.
pub open spec fn hex_stands_for(c: char, d: nat) -> bool {
    ||| d <= 9 && c as nat == 48 + d
    ||| 10 <= d <= 15 && (c as nat == 97 + (d - 10) || c as nat == 65 + (d - 10))
}

/// A number below ten is written as its digit, and a number with one more digit is
/// written with that digit behind.
pub proof fn law_one_more_decimal_digit(n: nat, d: nat)
    requires
        d < 10,
    ensures
        text::decimal(d).len() == 1 && stands_for(text::decimal(d)[0], d),
        n > 0 ==> {
            let longer = text::decimal(10 * n + d);
            longer.drop_last() == text::decimal(n) && stands_for(longer.last(), d)
        },
{
    if n > 0 {
        assert((10 * n + d) / 10 == n && (10 * n + d) % 10 == d) by (nonlinear_arith)
            requires
                d < 10,
        ;
        assert(text::decimal(10 * n + d).drop_last() =~= text::decimal(n));
    }
}

/// `u64_decimal` and `parse_decimal` are inverse to each other.
pub proof fn law_rendered_numbers_read_back(
    n: u64,
    s: String,
    t: &str,
    r: Result<u64, IntError>,
)
    requires
        call_ensures(text::u64_decimal, (n,), s),
        call_ensures(text::parse_decimal, (t,), r),
        t@ == s@,
    ensures
        r == Ok::<u64, IntError>(n),
{
    text::law_decimal_round_trip(n);
}

/// Of the empty text nothing is read, and of one character its digit.
pub proof fn law_parse_one_digit(s: &str, c: char, r: Result<u64, IntError>)
    requires
        call_ensures(text::parse_decimal, (s,), r),
    ensures
        s@.len() == 0 ==> r == Err::<u64, IntError>(IntError::Empty),
        s@ == seq![c] ==> forall|d: u64|
            #[trigger] stands_for(c, d as nat) ==> r == Ok::<u64, IntError>(d),
        s@ == seq![c] && !('0' <= c <= '9') ==> r == Err::<u64, IntError>(IntError::InvalidDigit),
{
    lemma_one(s@, c, 10);
}

/// Reading one more digit multiplies by ten and adds it, as long as that fits; any
/// other character is refused, and what is refused stays refused.
pub proof fn law_parse_one_more_digit(
    s: &str,
    t: &str,
    c: char,
    r: Result<u64, IntError>,
    more: Result<u64, IntError>,
)
    requires
        call_ensures(text::parse_decimal, (s,), r),
        call_ensures(text::parse_decimal, (t,), more),
        t@ == s@.push(c),
        s@.len() > 1 || (s@.len() == 1 && s@[0] != '+' && s@[0] != '-'),
    ensures
        r matches Ok(n) ==> forall|d: u64| #[trigger] stands_for(c, d as nat) ==> (if 10 * n + d
            <= u64::MAX {
            more matches Ok(m) && m == 10 * n + d
        } else {
            more == Err::<u64, IntError>(IntError::PosOverflow)
        }),
        r is Ok && !('0' <= c <= '9') ==> more == Err::<u64, IntError>(IntError::InvalidDigit),
        r is Err ==> more == r,
{
    lemma_push(s@, c, 10);
}

/// One plus sign in front changes nothing, two are refused, and a minus sign always is.
pub proof fn law_parse_signs(s: &str, t: &str, r: Result<u64, IntError>, signed: Result<u64, IntError>)
    requires
        call_ensures(text::parse_decimal, (s,), r),
        call_ensures(text::parse_decimal, (t,), signed),
        s@.len() > 0,
        t@ == seq!['+'] + s@,
    ensures
        s@[0] != '+' ==> signed == r,
        s@[0] == '+' ==> signed == Err::<u64, IntError>(IntError::InvalidDigit),
        s@[0] == '-' ==> r == Err::<u64, IntError>(IntError::InvalidDigit),
{
    lemma_signs(s@, 10);
}

/// A hex quantity with `0x` in front is what it is without; one that does not start
/// with it is read digit by digit.
pub proof fn law_hex_prefix(s: &str, t: &str, r: Option<u64>, prefixed: Option<u64>)
    requires
        call_ensures(text::hex_to_u64, (s,), r),
        call_ensures(text::hex_to_u64, (t,), prefixed),
        t@ == seq!['0', 'x'] + s@,
    ensures
        prefixed == r,
{
    assert(t@.skip(2) =~= s@);
}

/// Of the empty text no hex quantity is read, and of one character its digit.
pub proof fn law_hex_one_digit(s: &str, c: char, r: Option<u64>)
    requires
        call_ensures(text::hex_to_u64, (s,), r),
    ensures
        s@.len() == 0 ==> r is None,
        s@ == seq![c] ==> forall|d: u64|
            #[trigger] hex_stands_for(c, d as nat) ==> r == Some(d),
        s@ == seq![c] && (forall|d: nat| !#[trigger] hex_stands_for(c, d)) ==> r is None,
{
    lemma_one(s@, c, 16);
    if s@ == seq![c] {
        lemma_hex_digit(c);
    }
}

/// Reading one more hex digit multiplies by sixteen and adds it, as long as that fits;
/// any other character is refused, and what is refused stays refused.
pub proof fn law_hex_one_more_digit(
    s: &str,
    t: &str,
    c: char,
    r: Option<u64>,
    more: Option<u64>,
)
    requires
        call_ensures(text::hex_to_u64, (s,), r),
        call_ensures(text::hex_to_u64, (t,), more),
        t@ == s@.push(c),
        s@.len() > 1 || (s@.len() == 1 && s@[0] != '+' && s@[0] != '-'),
        !(s@[0] == '0' && (if s@.len() == 1 {
            c == 'x'
        } else {
            s@[1] == 'x'
        })),
    ensures
        r matches Some(n) ==> forall|d: u64|
            #[trigger] hex_stands_for(c, d as nat) ==> (if 16 * n + d <= u64::MAX {
                more matches Some(m) && m == 16 * n + d
            } else {
                more is None
            }),
        (forall|d: nat| !#[trigger] hex_stands_for(c, d)) ==> more is None,
        r is None ==> more is None,
{
    assert(text::without_0x(s@) == s@);
    assert(text::without_0x(t@) == t@);
    lemma_push(s@, c, 16);
    lemma_hex_digit(c);
}

/// One plus sign in front of hex digits changes nothing; it stands behind the `0x`.
pub proof fn law_hex_signs(s: &str, t: &str, r: Option<u64>, signed: Option<u64>)
    requires
        call_ensures(text::hex_to_u64, (s,), r),
        call_ensures(text::hex_to_u64, (t,), signed),
        s@.len() > 0,
        t@ == seq!['+'] + s@,
        !(s@.len() >= 2 && s@[0] == '0' && s@[1] == 'x'),
    ensures
        s@[0] != '+' ==> signed == r,
        s@[0] == '+' ==> signed is None,
        s@[0] == '-' ==> r is None,
{
    assert(text::without_0x(s@) == s@);
    assert(text::without_0x(t@) == t@);
    lemma_signs(s@, 16);
}

proof fn lemma_hex_digit(c: char)
    ensures
        text::digit_value(c, 16) matches Some(v) ==> hex_stands_for(c, v) && v < 16,
        text::digit_value(c, 16) is None ==> forall|d: nat| !#[trigger] hex_stands_for(c, d),
        forall|d: nat| #[trigger] hex_stands_for(c, d) ==> text::digit_value(c, 16) == Some(d),
{
}

proof fn lemma_one(s: Seq<char>, c: char, radix: nat)
    ensures
        s == seq![c] && c != '+' && c != '-' ==> text::parsed_u64(s, radix) == (
        match text::digit_value(c, radix) {
            Some(d) => if d > u64::MAX {
                Err(IntError::PosOverflow)
            } else {
                Ok(d)
            },
            None => Err(IntError::InvalidDigit),
        }),
{
    if s == seq![c] && c != '+' && c != '-' {
        assert(s.drop_last() =~= Seq::<char>::empty());
        assert(text::digits_value(s.drop_last(), radix) == Ok::<nat, IntError>(0));
        assert(s.last() == c);
        assert(0 * radix == 0) by (nonlinear_arith);
    }
}

proof fn lemma_push(s: Seq<char>, c: char, radix: nat)
    requires
        s.len() > 1 || (s.len() == 1 && s[0] != '+' && s[0] != '-'),
    ensures
        text::parsed_u64(s.push(c), radix) == (match text::parsed_u64(s, radix) {
            Err(e) => Err(e),
            Ok(n) => match text::digit_value(c, radix) {
                None => Err(IntError::InvalidDigit),
                Some(d) => if n * radix + d > u64::MAX {
                    Err(IntError::PosOverflow)
                } else {
                    Ok((n * radix + d) as nat)
                },
            },
        }),
{
    let t = s.push(c);
    assert(t.drop_last() =~= s);
    assert(t.skip(1).drop_last() =~= s.skip(1));
    assert(t.skip(1).last() == c);
}

proof fn lemma_signs(s: Seq<char>, radix: nat)
    requires
        s.len() > 0,
        radix <= 36,
    ensures
        s[0] != '+' ==> text::parsed_u64(seq!['+'] + s, radix) == text::parsed_u64(s, radix),
        s[0] == '+' || s[0] == '-' ==> text::digits_value(s, radix) == Err::<nat, IntError>(
            IntError::InvalidDigit,
        ),
        s[0] == '+' ==> text::parsed_u64(seq!['+'] + s, radix) == Err::<nat, IntError>(
            IntError::InvalidDigit,
        ),
    decreases s.len(),
{
    assert((seq!['+'] + s).skip(1) =~= s);
    if s[0] == '+' || s[0] == '-' {
        lemma_bad_start(s, radix);
    }
}

proof fn lemma_bad_start(s: Seq<char>, radix: nat)
    requires
        s.len() > 0,
        text::digit_value(s[0], radix) is None,
    ensures
        text::digits_value(s, radix) == Err::<nat, IntError>(IntError::InvalidDigit),
    decreases s.len(),
{
    if s.len() == 1 {
        assert(s.drop_last() =~= Seq::<char>::empty());
        assert(text::digits_value(s.drop_last(), radix) == Ok::<nat, IntError>(0));
    } else {
        lemma_bad_start(s.drop_last(), radix);
    }
}

/// A trimmed URL is the URL up to slashes at its end, and ends in none.
pub proof fn law_only_trailing_slashes_go(s: &str, r: &str)
    requires
        call_ensures(text::trim_slashes, (s,), r),
    ensures
        r@.is_prefix_of(s@),
        forall|i: int| r@.len() <= i < s@.len() ==> (#[trigger] s@[i]) == '/',
        r@.len() > 0 ==> r@.last() != '/',
{
    lemma_trimmed(s@);
}

pub(crate) proof fn lemma_trimmed(s: Seq<char>)
    ensures
        text::without_trailing_slashes(s).is_prefix_of(s),
        forall|i: int|
            text::without_trailing_slashes(s).len() <= i < s.len() ==> (#[trigger] s[i]) == '/',
        text::without_trailing_slashes(s).len() > 0 ==> text::without_trailing_slashes(s).last()
            != '/',
    decreases s.len(),
{
    if s.len() > 0 && s.last() == '/' {
        let shorter = s.drop_last();
        lemma_trimmed(shorter);
        assert forall|i: int|
            text::without_trailing_slashes(s).len() <= i < s.len() implies (#[trigger] s[i])
            == '/' by {
            if i < s.len() - 1 {
                assert(shorter[i] == '/');
            }
        }
    }
}

/// Texts are the same exactly when they have the same characters.
pub proof fn law_same_text(a: &str, b: &str, r: bool)
    requires
        call_ensures(text::str_eq, (a, b), r),
    ensures
        r <==> a@.len() == b@.len() && forall|i: int| 0 <= i < a@.len() ==> a@[i] == b@[i],
{
    if a@.len() == b@.len() && forall|i: int| 0 <= i < a@.len() ==> a@[i] == b@[i] {
        assert(a@ =~= b@);
    }
}

/// A clock reading counts its whole seconds, whatever the fraction.
pub proof fn law_reading_drops_the_fraction(secs: u64, nanos: u32, now: u64)
    requires
        call_ensures(
            crate::time::unix_secs,
            (Some(crate::time::duration_of(secs, nanos)),),
            now,
        ),
        nanos < 1_000_000_000,
    ensures
        now == secs,
{
    assert(crate::time::whole_secs(crate::time::duration_of(secs, nanos), secs));
}

/// A duration given in seconds lasts exactly so many, for every number that fits.
pub proof fn law_seconds_are_taken_as_given(n: u64, s: &str, r: Result<Duration, String>)
    requires
        call_ensures(crate::config::parse_secs, (s,), r),
        s@ == text::decimal(n as nat),
    ensures
        r == Ok::<Duration, String>(crate::time::duration_of(n, 0)),
{
    text::law_decimal_round_trip(n);
}

/// A duration is refused exactly where its text is no number, and the refusal ends in
/// what is wrong with it.
pub proof fn law_seconds_are_refused_with_a_reason(
    s: &str,
    r: Result<Duration, String>,
    n: Result<u64, IntError>,
    why: &'static str,
)
    requires
        call_ensures(crate::config::parse_secs, (s,), r),
        call_ensures(text::parse_decimal, (s,), n),
        n matches Err(e) ==> call_ensures(IntError::message, (e,), why),
    ensures
        n matches Ok(secs) ==> r == Ok::<Duration, String>(crate::time::duration_of(secs, 0)),
        n is Err ==> (r matches Err(m) && m@ == "invalid seconds value: "@ + why@),
{
}

} // verus!
