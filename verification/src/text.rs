//! Whole numbers as decimal text, and back.
use vstd::prelude::*;
use vstd::string::*;

verus! {

/// The character that writes the digit `d`.
pub open spec fn digit_char(d: int) -> char
    recommends
        0 <= d < 10,
{
    (d + 48) as char
}

/// The digit that `c` writes, if it writes one.
pub open spec fn digit_value(c: char) -> Option<int> {
    if 48 <= c as int && c as int <= 57 {
        Some(c as int - 48)
    } else {
        None
    }
}

/// The decimal digits of `n`, most significant first, without leading zeros.
pub open spec fn digits(n: nat) -> Seq<char>
    decreases n,
{
    if n < 10 {
        seq![digit_char(n as int)]
    } else {
        digits(n / 10).push(digit_char((n % 10) as int))
    }
}

/// `i` in decimal: its digits, after a minus sign if it is negative.
pub open spec fn decimal(i: int) -> Seq<char> {
    if i < 0 {
        seq!['-'] + digits((-i) as nat)
    } else {
        digits(i as nat)
    }
}

/// Every character of `s` is a decimal digit.
pub open spec fn all_digits(s: Seq<char>) -> bool {
    forall|i: int| 0 <= i < s.len() ==> (#[trigger] digit_value(s[i])) is Some
}

/// The number that the digits `s` write; leading zeros count for nothing.
pub open spec fn number(s: Seq<char>) -> nat
    decreases s.len(),
{
    if s.len() == 0 {
        0
    } else {
        (number(s.drop_last()) * 10 + digit_value(s.last()).unwrap_or(0)) as nat
    }
}

/// The integer that `s` writes: one or more digits, which a single `+` or `-`
/// may precede. Any other text writes none.
pub open spec fn parse_decimal(s: Seq<char>) -> Option<int> {
    if s.len() > 0 && (s[0] == '-' || s[0] == '+') {
        let rest = s.subrange(1, s.len() as int);
        if rest.len() > 0 && all_digits(rest) {
            if s[0] == '-' {
                Some(-(number(rest) as int))
            } else {
                Some(number(rest) as int)
            }
        } else {
            None
        }
    } else if s.len() > 0 && all_digits(s) {
        Some(number(s) as int)
    } else {
        None
    }
}

/// The digits of a number are digits, at least one of them, and they write
/// that number.
pub proof fn lemma_digits_number(n: nat)
    ensures
        digits(n).len() > 0,
        all_digits(digits(n)),
        number(digits(n)) == n,
        digits(n)[0] != '-',
        digits(n)[0] != '+',
    decreases n,
{
    if n < 10 {
        let s = digits(n);
        assert(s.drop_last().len() == 0);
        assert(digit_value(s[0]) == Some(n as int));
        assert(number(s.drop_last()) == 0);
    } else {
        lemma_digits_number(n / 10);
        let head = digits(n / 10);
        let s = digits(n);
        assert(s.drop_last() =~= head);
        assert(digit_value(s.last()) == Some((n % 10) as int));
        assert forall|i: int| 0 <= i < s.len() implies (#[trigger] digit_value(s[i])) is Some by {
            if i < head.len() {
                assert(s[i] == head[i]);
            }
        }
        assert(s[0] == head[0]);
    }
}

/// Reading back what `decimal` wrote gives the same integer.
pub proof fn lemma_parse_decimal(i: int)
    ensures
        parse_decimal(decimal(i)) == Some(i),
{
    if i < 0 {
        let d = digits((-i) as nat);
        lemma_digits_number((-i) as nat);
        let s = decimal(i);
        assert(s.subrange(1, s.len() as int) =~= d);
        assert(s[0] == '-');
    } else {
        lemma_digits_number(i as nat);
    }
}

/// A longer run of digits never writes a smaller number than its beginning.
pub proof fn lemma_number_prefix(s: Seq<char>, k: int)
    requires
        0 <= k <= s.len(),
    ensures
        number(s.subrange(0, k)) <= number(s),
    decreases s.len() - k,
{
    if k == s.len() {
        assert(s.subrange(0, k) =~= s);
    } else {
        lemma_number_prefix(s, k + 1);
        let t = s.subrange(0, k + 1);
        assert(t.drop_last() =~= s.subrange(0, k));
        assert(number(t) >= number(t.drop_last()) * 10);
    }
}

/// Whether two texts are the same, character for character.
pub fn same_text(a: &str, b: &str) -> (r: bool)
    ensures
        r == (a@ == b@),
{
    String::from_str(a) == String::from_str(b)
}

/// The text of one digit.
fn digit_str(d: u64) -> (r: &'static str)
    requires
        d < 10,
    ensures
        r@ == seq![digit_char(d as int)],
{
    proof {
        reveal_strlit("0");
        reveal_strlit("1");
        reveal_strlit("2");
        reveal_strlit("3");
        reveal_strlit("4");
        reveal_strlit("5");
        reveal_strlit("6");
        reveal_strlit("7");
        reveal_strlit("8");
        reveal_strlit("9");
    }
    let r = if d == 0 {
        "0"
    } else if d == 1 {
        "1"
    } else if d == 2 {
        "2"
    } else if d == 3 {
        "3"
    } else if d == 4 {
        "4"
    } else if d == 5 {
        "5"
    } else if d == 6 {
        "6"
    } else if d == 7 {
        "7"
    } else if d == 8 {
        "8"
    } else {
        "9"
    };
    assert(r@ =~= seq![digit_char(d as int)]);
    r
}

/// Writes `n` in decimal.
pub fn u64_to_string(n: u64) -> (r: String)
    ensures
        r@ == digits(n as nat),
        r@ == decimal(n as int),
    decreases n,
{
    if n < 10 {
        String::from_str(digit_str(n))
    } else {
        let head = u64_to_string(n / 10);
        let r = head.concat(digit_str(n % 10));
        assert(r@ =~= digits(n as nat));
        r
    }
}

/// Writes `i` in decimal, with a minus sign where it is negative.
pub fn i32_to_string(i: i32) -> (r: String)
    ensures
        r@ == decimal(i as int),
{
    if i < 0 {
        let magnitude: u64 = (-(i as i64)) as u64;
        let body = u64_to_string(magnitude);
        let r = String::from_str("-").concat(body.as_str());
        proof {
            reveal_strlit("-");
            assert(r@ =~= decimal(i as int));
        }
        r
    } else {
        u64_to_string(i as u64)
    }
}

/// Why a text is no number of an integer type.
#[derive(Clone, Copy, Debug, PartialEq, Eq, Structural)]
pub enum Refusal {
    /// The text is empty.
    Empty,
    /// A character is no digit, or a sign stands alone.
    InvalidDigit,
    /// The number is above the type's greatest.
    PosOverflow,
    /// The number is below the type's least.
    NegOverflow,
}

impl Refusal {
    /// The refusal in words.
    pub open spec fn words(self) -> Seq<char> {
        match self {
            Refusal::Empty => "cannot parse integer from empty string"@,
            Refusal::InvalidDigit => "invalid digit found in string"@,
            Refusal::PosOverflow => "number too large to fit in target type"@,
            Refusal::NegOverflow => "number too small to fit in target type"@,
        }
    }

    /// The refusal in words.
    pub fn message(&self) -> (r: &'static str)
        ensures
            r@ == self.words(),
    {
        match self {
            Refusal::Empty => "cannot parse integer from empty string",
            Refusal::InvalidDigit => "invalid digit found in string",
            Refusal::PosOverflow => "number too large to fit in target type",
            Refusal::NegOverflow => "number too small to fit in target type",
        }
    }
}

/// What stops the reading of the digits `run` from its `i`-th character on,
/// when the characters before it are digits that write no more than
/// `limit`.
///
/// The characters are taken one by one. A character that is no digit
/// stops the reading with `InvalidDigit`; a digit that takes the number
/// read so far over `limit` stops it with `over`. Nothing stops a run that
/// writes a number up to `limit`.
pub open spec fn stopped_at(run: Seq<char>, i: int, limit: int, over: Refusal) -> Option<Refusal>
    decreases run.len() - i,
{
    if i < 0 || i >= run.len() {
        None
    } else if digit_value(run[i]) is None {
        Some(Refusal::InvalidDigit)
    } else if number(run.subrange(0, i + 1)) > limit {
        Some(over)
    } else {
        stopped_at(run, i + 1, limit, over)
    }
}

/// Why `s` is no integer from `min` to `max`, if it is none.
///
/// An empty text is `Empty`, and a sign alone is no digit. A `+` in front
/// is passed over, and so is a `-` where the type is `signed`; what follows
/// is read as digits, up to `max` or, after a `-`, down to `min`.
pub open spec fn refusal_of(s: Seq<char>, signed: bool, min: int, max: int) -> Option<Refusal> {
    if s.len() == 0 {
        Some(Refusal::Empty)
    } else if s.len() == 1 && (s[0] == '+' || s[0] == '-') {
        Some(Refusal::InvalidDigit)
    } else if s[0] == '+' {
        stopped_at(s.subrange(1, s.len() as int), 0, max, Refusal::PosOverflow)
    } else if s[0] == '-' && signed {
        stopped_at(s.subrange(1, s.len() as int), 0, -min, Refusal::NegOverflow)
    } else {
        stopped_at(s, 0, max, Refusal::PosOverflow)
    }
}

/// Reads the run of digits `s[from..]`, which is not empty, as a number no
/// greater than `limit`.
///
/// Returns the number where every character is a digit and the number is
/// within the limit, and otherwise what stopped the reading.
fn parse_digits(s: &str, from: usize, limit: u64, over: Refusal) -> (r: Result<u64, Refusal>)
    requires
        from < s@.len(),
        limit <= u32::MAX,
    ensures
        ({
            let run = s@.subrange(from as int, s@.len() as int);
            match r {
                Ok(v) => all_digits(run) && number(run) == v && v <= limit && stopped_at(
                    run,
                    0,
                    limit as int,
                    over,
                ) is None,
                Err(c) => !(all_digits(run) && number(run) <= limit) && stopped_at(
                    run,
                    0,
                    limit as int,
                    over,
                ) == Some(c),
            }
        }),
{
    let n = s.unicode_len();
    let ghost run = s@.subrange(from as int, n as int);
    let mut acc: u64 = 0;
    let mut i: usize = from;
    proof {
        assert(run.subrange(0, 0) =~= Seq::<char>::empty());
    }
    while i < n
        invariant
            from <= i <= n,
            n == s@.len(),
            limit <= u32::MAX,
            run == s@.subrange(from as int, n as int),
            all_digits(run.subrange(0, i - from)),
            acc == number(run.subrange(0, i - from)),
            acc <= limit,
            stopped_at(run, 0, limit as int, over) == stopped_at(
                run,
                i - from,
                limit as int,
                over,
            ),
        decreases n - i,
    {
        let c = s.get_char(i);
        let code: u32 = c as u32;
        let ghost before = run.subrange(0, i - from);
        let ghost after = run.subrange(0, i - from + 1);
        proof {
            assert(after.drop_last() =~= before);
            assert(after.last() == c);
            assert(run[i - from] == c);
            lemma_number_prefix(run, i - from + 1);
        }
        if code < 48 || code > 57 {
            proof {
                assert(digit_value(run[i - from]) is None);
            }
            return Err(Refusal::InvalidDigit);
        }
        let d: u64 = (code - 48) as u64;
        let grown: u64 = acc * 10 + d;
        proof {
            assert(digit_value(c) == Some(d as int));
            assert(number(after) == grown);
            assert forall|j: int| 0 <= j < after.len() implies (#[trigger] digit_value(
                after[j],
            )) is Some by {
                if j < before.len() {
                    assert(after[j] == before[j]);
                }
            }
        }
        if grown > limit {
            return Err(over);
        }
        acc = grown;
        i = i + 1;
    }
    proof {
        assert(run.subrange(0, i - from) =~= run);
    }
    Ok(acc)
}

/// Reads `s` as a 32-bit signed integer in decimal.
///
/// Returns the integer exactly when `s` writes one within the range of
/// `i32`, and otherwise the reason why it does not.
pub fn read_i32(s: &str) -> (r: Result<i32, Refusal>)
    ensures
        match r {
            Ok(v) => parse_decimal(s@) == Some(v as int) && refusal_of(
                s@,
                true,
                i32::MIN as int,
                i32::MAX as int,
            ) is None,
            Err(c) => !(parse_decimal(s@) matches Some(v) && i32::MIN <= v <= i32::MAX)
                && refusal_of(s@, true, i32::MIN as int, i32::MAX as int) == Some(c),
        },
{
    let n = s.unicode_len();
    if n == 0 {
        return Err(Refusal::Empty);
    }
    let first: u32 = s.get_char(0) as u32;
    if n == 1 && (first == 43 || first == 45) {
        proof {
            assert(s@.subrange(1, s@.len() as int).len() == 0);
        }
        return Err(Refusal::InvalidDigit);
    }
    if first == 45 {
        match parse_digits(s, 1, 2147483648, Refusal::NegOverflow) {
            Ok(v) => Ok((-(v as i64)) as i32),
            Err(c) => Err(c),
        }
    } else if first == 43 {
        match parse_digits(s, 1, 2147483647, Refusal::PosOverflow) {
            Ok(v) => Ok(v as i32),
            Err(c) => Err(c),
        }
    } else {
        proof {
            assert(s@.subrange(0, s@.len() as int) =~= s@);
        }
        match parse_digits(s, 0, 2147483647, Refusal::PosOverflow) {
            Ok(v) => Ok(v as i32),
            Err(c) => Err(c),
        }
    }
}

/// Reads `s` as an unsigned 16-bit integer in decimal, which a `+` may
/// precede.
///
/// Returns the number exactly when `s` writes one from 0 to 65535 without a
/// minus sign, and otherwise the reason why it does not.
pub fn read_u16(s: &str) -> (r: Result<u16, Refusal>)
    ensures
        match r {
            Ok(v) => parse_decimal(s@) == Some(v as int) && s@[0] != '-' && refusal_of(
                s@,
                false,
                0,
                u16::MAX as int,
            ) is None,
            Err(c) => !(parse_decimal(s@) matches Some(v) && 0 <= v <= u16::MAX && s@[0] != '-')
                && refusal_of(s@, false, 0, u16::MAX as int) == Some(c),
        },
{
    let n = s.unicode_len();
    if n == 0 {
        return Err(Refusal::Empty);
    }
    let first: u32 = s.get_char(0) as u32;
    if n == 1 && (first == 43 || first == 45) {
        proof {
            assert(s@.subrange(1, s@.len() as int).len() == 0);
        }
        return Err(Refusal::InvalidDigit);
    }
    if first == 43 {
        match parse_digits(s, 1, 65535, Refusal::PosOverflow) {
            Ok(v) => Ok(v as u16),
            Err(c) => Err(c),
        }
    } else {
        proof {
            assert(s@.subrange(0, s@.len() as int) =~= s@);
        }
        match parse_digits(s, 0, 65535, Refusal::PosOverflow) {
            Ok(v) => Ok(v as u16),
            Err(c) => Err(c),
        }
    }
}

} // verus!
