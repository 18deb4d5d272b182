//! Text primitives: decimal rendering, integer parsing, trimming and comparison.

use vstd::prelude::*;
use vstd::string::*;

verus! {

/// Why a text does not denote a `u64`.
#[derive(Debug, Clone, Copy, PartialEq, Eq, Structural)]
pub enum IntError {
    /// There is no text at all.
    Empty,
    /// A character is not a digit of the radix, or a sign stands alone.
    InvalidDigit,
    /// The digits read so far denote a number above `u64::MAX`.
    PosOverflow,
}

impl IntError {
    /// The message shown to an operator.
    pub open spec fn text(self) -> Seq<char> {
        match self {
            IntError::Empty => "cannot parse integer from empty string"@,
            IntError::InvalidDigit => "invalid digit found in string"@,
            IntError::PosOverflow => "number too large to fit in target type"@,
        }
    }

    pub fn message(self) -> (r: &'static str)
        ensures
            r@ == self.text(),
    {
        match self {
            IntError::Empty => "cannot parse integer from empty string",
            IntError::InvalidDigit => "invalid digit found in string",
            IntError::PosOverflow => "number too large to fit in target type",
        }
    }
}

/// The character for a digit below ten.
pub open spec fn decimal_digit(d: nat) -> char {
    ('0' as nat + d) as char
}

/// The decimal numeral of `n`, without leading zeros.
pub open spec fn decimal(n: nat) -> Seq<char>
    decreases n,
{
    if n < 10 {
        seq![decimal_digit(n)]
    } else {
        decimal(n / 10).push(decimal_digit(n % 10))
    }
}

/// The value of `c` as a digit of `radix` (at most 36), in either letter case.
pub open spec fn digit_value(c: char, radix: nat) -> Option<nat> {
    let d = if '0' <= c <= '9' {
        Some((c as nat - '0' as nat) as nat)
    } else if 'a' <= c <= 'z' {
        Some((c as nat - 'a' as nat + 10) as nat)
    } else if 'A' <= c <= 'Z' {
        Some((c as nat - 'A' as nat + 10) as nat)
    } else {
        None
    };
    match d {
        Some(v) if v < radix => Some(v),
        _ => None,
    }
}

/// What the digits of `s`, read from the left, denote: the first character that
/// is no digit, or the first prefix that does not fit, decides the error.
pub open spec fn digits_value(s: Seq<char>, radix: nat) -> Result<nat, IntError>
    decreases s.len(),
{
    if s.len() == 0 {
        Ok(0)
    } else {
        match digits_value(s.drop_last(), radix) {
            Err(e) => Err(e),
            Ok(high) => match digit_value(s.last(), radix) {
                None => Err(IntError::InvalidDigit),
                Some(d) => if high * radix + d > u64::MAX {
                    Err(IntError::PosOverflow)
                } else {
                    Ok(high * radix + d)
                },
            },
        }
    }
}

/// The number that `s` denotes in `radix`: an optional `+`, then digits only.
pub open spec fn parsed_u64(s: Seq<char>, radix: nat) -> Result<nat, IntError> {
    if s.len() == 0 {
        Err(IntError::Empty)
    } else if s.len() == 1 && (s[0] == '+' || s[0] == '-') {
        Err(IntError::InvalidDigit)
    } else if s[0] == '+' {
        digits_value(s.skip(1), radix)
    } else {
        digits_value(s, radix)
    }
}

/// `s` without the `0x` it starts with, however often that is repeated.
pub open spec fn without_0x(s: Seq<char>) -> Seq<char>
    decreases s.len(),
{
    if s.len() >= 2 && s[0] == '0' && s[1] == 'x' {
        without_0x(s.skip(2))
    } else {
        s
    }
}

/// The number that a JSON-RPC hex quantity denotes, if it denotes one.
pub open spec fn hex_value(s: Seq<char>) -> Option<u64> {
    match parsed_u64(without_0x(s), 16) {
        Ok(n) => Some(n as u64),
        Err(_) => None,
    }
}

/// `s` without the slashes it ends in.
pub open spec fn without_trailing_slashes(s: Seq<char>) -> Seq<char>
    decreases s.len(),
{
    if s.len() > 0 && s.last() == '/' {
        without_trailing_slashes(s.drop_last())
    } else {
        s
    }
}

/// Whether two strings are the same text.
pub fn str_eq(a: &str, b: &str) -> (r: bool)
    ensures
        r == (a@ == b@),
{
    let x = a.as_bytes();
    let y = b.as_bytes();
    proof {
        vstd::utf8::encode_utf8_decode_utf8(a@);
        vstd::utf8::encode_utf8_decode_utf8(b@);
    }
    if x.len() != y.len() {
        return false;
    }
    let mut i: usize = 0;
    while i < x.len()
        invariant
            i <= x@.len(),
            x@.len() == y@.len(),
            x@ == a.spec_bytes(),
            y@ == b.spec_bytes(),
            forall|k: int| 0 <= k < i ==> x@[k] == y@[k],
        decreases x@.len() - i,
    {
        if x[i] != y[i] {
            return false;
        }
        i += 1;
    }
    assert(x@ =~= y@);
    true
}

/// The characters of `s`, in order.
pub fn chars_of(s: &str) -> (r: Vec<char>)
    ensures
        r@ == s@,
{
    let mut out: Vec<char> = Vec::new();
    for c in it: s.chars()
        invariant
            out@ == it.seq().take(it.index()),
            it.seq() == s@,
    {
        out.push(c);
    }
    out
}

fn digit_text(d: u64) -> (r: &'static str)
    requires
        d < 10,
    ensures
        r@ == seq![decimal_digit(d as nat)],
{
    proof {
        reveal_strlit("0");
        reveal_strlit("1");
        reveal_strlit("2");
        reveal_strlit("3");
        reveal_strlit("4");
        reveal_strlit("5");
        reveal_strlit("6");
        reveal_strlit("7");
        reveal_strlit("8");
        reveal_strlit("9");
    }
    if d == 0 {
        "0"
    } else if d == 1 {
        "1"
    } else if d == 2 {
        "2"
    } else if d == 3 {
        "3"
    } else if d == 4 {
        "4"
    } else if d == 5 {
        "5"
    } else if d == 6 {
        "6"
    } else if d == 7 {
        "7"
    } else if d == 8 {
        "8"
    } else {
        "9"
    }
}

/// Renders `n` in decimal.
pub fn u64_decimal(n: u64) -> (r: String)
    ensures
        r@ == decimal(n as nat),
    decreases n,
{
    if n < 10 {
        digit_text(n).to_owned()
    } else {
        let mut text = u64_decimal(n / 10);
        text.append(digit_text(n % 10));
        text
    }
}

fn digit_of(c: char, radix: u64) -> (r: Option<u64>)
    requires
        radix <= 36,
    ensures
        match r {
            Some(d) => digit_value(c, radix as nat) == Some(d as nat) && d < radix,
            None => digit_value(c, radix as nat) is None,
        },
{
    let d: u64 = if '0' <= c && c <= '9' {
        c as u64 - '0' as u64
    } else if 'a' <= c && c <= 'z' {
        c as u64 - 'a' as u64 + 10
    } else if 'A' <= c && c <= 'Z' {
        c as u64 - 'A' as u64 + 10
    } else {
        return None;
    };
    if d < radix {
        Some(d)
    } else {
        None
    }
}

/// Once a prefix fails, every longer text fails in the same way.
proof fn lemma_digits_error_stays(s: Seq<char>, k: int, radix: nat)
    requires
        0 <= k <= s.len(),
        digits_value(s.take(k), radix) is Err,
    ensures
        digits_value(s, radix) == digits_value(s.take(k), radix),
    decreases s.len() - k,
{
    if k < s.len() {
        assert(s.take(k + 1).drop_last() =~= s.take(k));
        lemma_digits_error_stays(s, k + 1, radix);
    } else {
        assert(s.take(k) =~= s);
    }
}

/// Parses `s` from character `start` on as a number in `radix`.
fn parse_digits(s: &Vec<char>, start: usize, radix: u64) -> (r: Result<u64, IntError>)
    requires
        start <= s@.len(),
        2 <= radix <= 36,
    ensures
        match r {
            Ok(n) => digits_value(s@.skip(start as int), radix as nat) == Ok::<nat, IntError>(n as nat),
            Err(e) => digits_value(s@.skip(start as int), radix as nat) == Err::<nat, IntError>(e),
        },
{
    let ghost digits = s@.skip(start as int);
    let mut value: u64 = 0;
    let mut i: usize = start;
    assert(digits.take(0) =~= Seq::<char>::empty());
    while i < s.len()
        invariant
            start <= i <= s@.len(),
            2 <= radix <= 36,
            digits == s@.skip(start as int),
            digits_value(digits.take(i - start), radix as nat) == Ok::<nat, IntError>(value as nat),
        decreases s@.len() - i,
    {
        proof {
            let longer = digits.take(i - start + 1);
            assert(longer.drop_last() =~= digits.take(i - start));
            assert(longer.last() == s@[i as int]);
            if digits_value(longer, radix as nat) is Err {
                lemma_digits_error_stays(digits, i - start + 1, radix as nat);
            }
        }
        let d = match digit_of(s[i], radix) {
            Some(d) => d,
            None => return Err(IntError::InvalidDigit),
        };
        value = match value.checked_mul(radix) {
            Some(shifted) => match shifted.checked_add(d) {
                Some(v) => v,
                None => return Err(IntError::PosOverflow),
            },
            None => return Err(IntError::PosOverflow),
        };
        i += 1;
    }
    assert(digits.take(i - start) =~= digits);
    Ok(value)
}

/// Parses the characters from `start` on as a `u64` in `radix`, with an optional `+` in front.
fn parse_from(s: &Vec<char>, start: usize, radix: u64) -> (r: Result<u64, IntError>)
    requires
        start <= s@.len(),
        2 <= radix <= 36,
    ensures
        match r {
            Ok(n) => parsed_u64(s@.skip(start as int), radix as nat) == Ok::<nat, IntError>(n as nat),
            Err(e) => parsed_u64(s@.skip(start as int), radix as nat) == Err::<nat, IntError>(e),
        },
{
    if start == s.len() {
        return Err(IntError::Empty);
    }
    let first = s[start];
    if s.len() - start == 1 && (first == '+' || first == '-') {
        return Err(IntError::InvalidDigit);
    }
    if first == '+' {
        assert(s@.skip(start as int).skip(1) =~= s@.skip(start + 1));
        parse_digits(s, start + 1, radix)
    } else {
        parse_digits(s, start, radix)
    }
}

/// Parses a decimal `u64`.
pub fn parse_decimal(s: &str) -> (r: Result<u64, IntError>)
    ensures
        match r {
            Ok(n) => parsed_u64(s@, 10) == Ok::<nat, IntError>(n as nat),
            Err(e) => parsed_u64(s@, 10) == Err::<nat, IntError>(e),
        },
{
    let chars = chars_of(s);
    assert(s@.skip(0) =~= s@);
    parse_from(&chars, 0, 10)
}

/// Parses a hex quantity as JSON-RPC writes it; the `0x` in front is optional.
pub fn hex_to_u64(s: &str) -> (r: Option<u64>)
    ensures
        r == hex_value(s@),
{
    let chars = chars_of(s);
    let mut start: usize = 0;
    assert(s@.skip(0) =~= s@);
    while chars.len() - start >= 2 && chars[start] == '0' && chars[start + 1] == 'x'
        invariant
            start <= chars@.len(),
            chars@ == s@,
            without_0x(s@) == without_0x(s@.skip(start as int)),
        decreases chars@.len() - start,
    {
        assert(s@.skip(start as int).skip(2) =~= s@.skip(start + 2));
        start += 2;
    }
    match parse_from(&chars, start, 16) {
        Ok(n) => Some(n),
        Err(_) => None,
    }
}

/// `s` without its trailing slashes.
pub fn trim_slashes(s: &str) -> (r: &str)
    ensures
        r@ == without_trailing_slashes(s@),
{
    let chars = chars_of(s);
    let mut end: usize = chars.len();
    assert(s@.take(end as int) =~= s@);
    while end > 0 && chars[end - 1] == '/'
        invariant
            end <= chars@.len(),
            chars@ == s@,
            without_trailing_slashes(s@) == without_trailing_slashes(s@.take(end as int)),
        decreases end,
    {
        assert(s@.take(end as int).drop_last() =~= s@.take(end - 1));
        end -= 1;
    }
    assert(s@.subrange(0, end as int) =~= s@.take(end as int));
    s.substring_char(0, end)
}

// ---- laws ----

proof fn lemma_decimal_digits(n: nat)
    requires
        n <= u64::MAX,
    ensures
        digits_value(decimal(n), 10) == Ok::<nat, IntError>(n),
        decimal(n).len() > 0,
        '0' <= decimal(n)[0] <= '9',
    decreases n,
{
    if n < 10 {
        let s = decimal(n);
        assert(s.drop_last() =~= Seq::<char>::empty());
        assert(digits_value(s.drop_last(), 10) == Ok::<nat, IntError>(0));
        assert(digit_value(s.last(), 10) == Some(n));
    } else {
        lemma_decimal_digits(n / 10);
        let s = decimal(n);
        assert(s.drop_last() =~= decimal(n / 10));
        assert(digit_value(s.last(), 10) == Some(n % 10));
        assert(s[0] == decimal(n / 10)[0]);
    }
}

/// Parsing gives back every number that was rendered in decimal.
pub proof fn law_decimal_round_trip(n: u64)
    ensures
        parsed_u64(decimal(n as nat), 10) == Ok::<nat, IntError>(n as nat),
{
    lemma_decimal_digits(n as nat);
}

/// The `0x` in front of a hex quantity changes nothing.
pub proof fn law_hex_prefix_is_optional(s: Seq<char>)
    ensures
        hex_value("0x"@ + s) == hex_value(s),
{
    reveal_strlit("0x");
    assert(("0x"@ + s).skip(2) =~= s);
}

/// Slashes at the end of a text do not show in what trimming leaves.
pub proof fn law_trailing_slash_is_ignored(s: Seq<char>)
    ensures
        without_trailing_slashes(s + "/"@) == without_trailing_slashes(s),
{
    reveal_strlit("/");
    assert((s + "/"@).drop_last() =~= s);
}

} // verus!
