//! Decimal text of integers: printing and parsing with the rules of Rust's
//! `Display` and `FromStr` for the integer types the simulation reads.

use vstd::prelude::*;
use crate::text::push_char;

verus! {

/// The character of one decimal digit.
pub open spec fn digit_char(d: int) -> char {
    ((48 + d) as u8) as char
}

/// The decimal digits of a natural number, most significant first, no
/// leading zeros ("0" for zero).
pub open spec fn dec(n: nat) -> Seq<char>
    decreases n,
{
    if n < 10 {
        seq![digit_char(n as int)]
    } else {
        dec(n / 10).push(digit_char((n % 10) as int))
    }
}

/// The decimal text of a signed integer: a minus sign before negative values.
pub open spec fn dec_int(n: int) -> Seq<char> {
    if n < 0 {
        seq!['-'] + dec((-n) as nat)
    } else {
        dec(n as nat)
    }
}

/// A decimal digit character.
pub open spec fn is_digit(c: char) -> bool {
    '0' <= c && c <= '9'
}

/// The value of a digit character.
pub open spec fn digit_value(c: char) -> nat {
    (c as int - 48) as nat
}

/// The value of a sequence of digit characters read in base ten.
pub open spec fn decimal_value(s: Seq<char>) -> nat
    decreases s.len(),
{
    if s.len() == 0 {
        0
    } else {
        decimal_value(s.drop_last()) * 10 + digit_value(s.last())
    }
}

/// How many digit characters `s` starts with.
pub open spec fn digit_run(s: Seq<char>) -> nat
    decreases s.len(),
{
    if s.len() == 0 || !is_digit(s[0]) {
        0
    } else {
        1 + digit_run(s.drop_first())
    }
}

/// Why a text is not an integer of the wanted type (std's `IntErrorKind`).
#[derive(PartialEq, Eq, Structural, Clone, Copy, Debug)]
pub enum IntErrorKind {
    Empty,
    InvalidDigit,
    PosOverflow,
    NegOverflow,
}

/// The result of reading the unsigned text `body` (already stripped of its
/// sign) against the largest allowed magnitude `bound`: the first problem
/// met from left to right wins, as in std.
pub open spec fn spec_magnitude(body: Seq<char>, bound: nat, overflow: IntErrorKind) -> Result<nat, IntErrorKind> {
    let k = digit_run(body);
    if body.len() == 0 {
        Err(IntErrorKind::InvalidDigit)
    } else if decimal_value(body.take(k as int)) > bound {
        Err(overflow)
    } else if k < body.len() {
        Err(IntErrorKind::InvalidDigit)
    } else {
        Ok(decimal_value(body))
    }
}

/// What `str::parse::<u64>` (and `u16`, `u32` with their own bound) gives:
/// an optional `+`, then digits only.
pub open spec fn spec_parse_unsigned(s: Seq<char>, max: nat) -> Result<nat, IntErrorKind> {
    if s.len() == 0 {
        Err(IntErrorKind::Empty)
    } else {
        let body = if s[0] == '+' { s.drop_first() } else { s };
        spec_magnitude(body, max, IntErrorKind::PosOverflow)
    }
}

/// What `str::parse::<i64>` gives: an optional `+` or `-`, then digits only.
pub open spec fn spec_parse_i64(s: Seq<char>) -> Result<i64, IntErrorKind> {
    if s.len() == 0 {
        Err(IntErrorKind::Empty)
    } else if s[0] == '-' {
        match spec_magnitude(s.drop_first(), 0x8000_0000_0000_0000, IntErrorKind::NegOverflow) {
            Ok(v) => Ok((-v) as i64),
            Err(e) => Err(e),
        }
    } else {
        let body = if s[0] == '+' { s.drop_first() } else { s };
        match spec_magnitude(body, 0x7fff_ffff_ffff_ffff, IntErrorKind::PosOverflow) {
            Ok(v) => Ok(v as i64),
            Err(e) => Err(e),
        }
    }
}

/// What `str::parse::<u64>` gives.
pub open spec fn spec_parse_u64(s: Seq<char>) -> Result<u64, IntErrorKind> {
    match spec_parse_unsigned(s, 0xffff_ffff_ffff_ffff) {
        Ok(v) => Ok(v as u64),
        Err(e) => Err(e),
    }
}

/// What `str::parse::<u32>` gives.
pub open spec fn spec_parse_u32(s: Seq<char>) -> Result<u32, IntErrorKind> {
    match spec_parse_unsigned(s, 0xffff_ffff) {
        Ok(v) => Ok(v as u32),
        Err(e) => Err(e),
    }
}

/// What `str::parse::<u16>` gives.
pub open spec fn spec_parse_u16(s: Seq<char>) -> Result<u16, IntErrorKind> {
    match spec_parse_unsigned(s, 0xffff) {
        Ok(v) => Ok(v as u16),
        Err(e) => Err(e),
    }
}

/// The text std prints for a `ParseIntError` of the given kind.
pub open spec fn spec_int_error_message(k: IntErrorKind) -> Seq<char> {
    match k {
        IntErrorKind::Empty => "cannot parse integer from empty string"@,
        IntErrorKind::InvalidDigit => "invalid digit found in string"@,
        IntErrorKind::PosOverflow => "number too large to fit in target type"@,
        IntErrorKind::NegOverflow => "number too small to fit in target type"@,
    }
}

impl IntErrorKind {
    /// The message of this error, as std's `ParseIntError` prints it.
    pub fn message(&self) -> (m: String)
        ensures
            m@ == spec_int_error_message(*self),
    {
        match self {
            IntErrorKind::Empty => String::from_str("cannot parse integer from empty string"),
            IntErrorKind::InvalidDigit => String::from_str("invalid digit found in string"),
            IntErrorKind::PosOverflow => String::from_str("number too large to fit in target type"),
            IntErrorKind::NegOverflow => String::from_str("number too small to fit in target type"),
        }
    }
}

proof fn lemma_digit_run_exact(s: Seq<char>, i: nat)
    requires
        i <= s.len(),
        forall|j: int| 0 <= j < i ==> is_digit(#[trigger] s[j]),
        i == s.len() || !is_digit(s[i as int]),
    ensures
        digit_run(s) == i,
    decreases i,
{
    if i > 0 {
        assert(is_digit(s[0]));
        let t = s.drop_first();
        assert forall|j: int| 0 <= j < i - 1 implies is_digit(#[trigger] t[j]) by {
            assert(t[j] == s[j + 1]);
        }
        if i < s.len() {
            assert(t[i - 1] == s[i as int]);
        }
        lemma_digit_run_exact(t, (i - 1) as nat);
    }
}

proof fn lemma_digit_run_props(s: Seq<char>)
    ensures
        digit_run(s) <= s.len(),
        forall|j: int| 0 <= j < digit_run(s) ==> is_digit(#[trigger] s[j]),
        digit_run(s) < s.len() ==> !is_digit(s[digit_run(s) as int]),
    decreases s.len(),
{
    if s.len() > 0 && is_digit(s[0]) {
        let t = s.drop_first();
        lemma_digit_run_props(t);
        assert forall|j: int| 0 <= j < digit_run(s) implies is_digit(#[trigger] s[j]) by {
            if j > 0 {
                assert(s[j] == t[j - 1]);
            }
        }
        if digit_run(s) < s.len() {
            assert(s[digit_run(s) as int] == t[digit_run(t) as int]);
        }
    }
}

proof fn lemma_decimal_value_step(s: Seq<char>, i: int)
    requires
        0 <= i < s.len(),
    ensures
        decimal_value(s.take(i + 1)) == decimal_value(s.take(i)) * 10 + digit_value(s[i]),
{
    assert(s.take(i + 1).drop_last() =~= s.take(i));
}

proof fn lemma_decimal_value_monotone(s: Seq<char>, i: int, j: int)
    requires
        0 <= i <= j <= s.len(),
    ensures
        decimal_value(s.take(i)) <= decimal_value(s.take(j)),
    decreases j - i,
{
    if i < j {
        lemma_decimal_value_monotone(s, i, j - 1);
        lemma_decimal_value_step(s, j - 1);
        assert(decimal_value(s.take(j - 1)) <= decimal_value(s.take(j - 1)) * 10) by (nonlinear_arith);
    }
}

/// The decimal text of `n` is made of digits only and reads back as `n`.
pub proof fn lemma_dec_reads_back(n: nat)
    ensures
        dec(n).len() >= 1,
        forall|j: int| 0 <= j < dec(n).len() ==> is_digit(#[trigger] dec(n)[j]),
        digit_run(dec(n)) == dec(n).len(),
        decimal_value(dec(n)) == n,
    decreases n,
{
    let d = (n % 10) as int;
    let c = digit_char(d);
    assert(c as int == 48 + d);
    assert(digit_value(c) == d);
    assert(dec(n).last() == c);
    if n < 10 {
        assert(dec(n).drop_last() =~= Seq::<char>::empty());
        assert(decimal_value(dec(n)) == decimal_value(Seq::<char>::empty()) * 10 + d);
    }
    if n >= 10 {
        lemma_dec_reads_back(n / 10);
        let p = dec(n / 10);
        assert(dec(n).drop_last() =~= p);
        assert forall|j: int| 0 <= j < dec(n).len() implies is_digit(#[trigger] dec(n)[j]) by {
            if j < p.len() {
                assert(dec(n)[j] == p[j]);
            }
        }
        assert(decimal_value(dec(n)) == decimal_value(p) * 10 + d);
        assert(n == (n / 10) * 10 + n % 10);
    }
    lemma_digit_run_exact(dec(n), dec(n).len());
}

/// Reads an unsigned decimal magnitude from `body`, as std does after the
/// sign: digits only, at most `bound`.
fn parse_magnitude(body: &[char], bound: u64, overflow: IntErrorKind) -> (r: Result<u64, IntErrorKind>)
    requires
        bound >= 9,
    ensures
        match r {
            Ok(x) => spec_magnitude(body@, bound as nat, overflow) == Ok::<nat, IntErrorKind>(x as nat),
            Err(e) => spec_magnitude(body@, bound as nat, overflow) == Err::<nat, IntErrorKind>(e),
        },
        r matches Ok(v) ==> v <= bound,
{
    if body.len() == 0 {
        return Err(IntErrorKind::InvalidDigit);
    }
    let mut acc: u64 = 0;
    let mut i: usize = 0;
    while i < body.len()
        invariant
            0 <= i <= body@.len(),
            body@.len() > 0,
            forall|j: int| 0 <= j < i ==> is_digit(#[trigger] body@[j]),
            acc as nat == decimal_value(body@.take(i as int)),
            acc <= bound,
            bound >= 9,
        decreases body@.len() - i,
    {
        let c = body[i];
        if !('0' <= c && c <= '9') {
            proof {
                lemma_digit_run_exact(body@, i as nat);
            }
            return Err(IntErrorKind::InvalidDigit);
        }
        let d: u64 = (c as u32 - 48) as u64;
        proof {
            lemma_decimal_value_step(body@, i as int);
        }
        if acc > (bound - d) / 10 {
            proof {
                assert(acc * 10 + d > bound) by (nonlinear_arith)
                    requires
                        acc > (bound - d) / 10,
                        d <= bound,
                ;
                lemma_digit_run_props(body@);
                let k = digit_run(body@);
                if k < i + 1 {
                    assert(is_digit(body@[k as int]));
                }
                lemma_decimal_value_monotone(body@, i as int + 1, k as int);
            }
            return Err(overflow);
        }
        assert(acc * 10 + d <= bound) by (nonlinear_arith)
            requires
                acc <= (bound - d) / 10,
                d <= bound,
        ;
        acc = acc * 10 + d;
        i = i + 1;
    }
    proof {
        lemma_digit_run_exact(body@, body@.len());
        assert(body@.take(body@.len() as int) =~= body@);
    }
    Ok(acc)
}

/// Reads an `i64` as `str::parse::<i64>` does.
pub fn parse_i64(s: &str) -> (r: Result<i64, IntErrorKind>)
    ensures
        r == spec_parse_i64(s@),
{
    let cs = crate::text::chars_of(s);
    if cs.len() == 0 {
        return Err(IntErrorKind::Empty);
    }
    assert(cs@.skip(1) =~= s@.drop_first());
    if cs[0] == '-' {
        let body = slice_from(&cs, 1);
        match parse_magnitude(body.as_slice(), 0x8000_0000_0000_0000, IntErrorKind::NegOverflow) {
            Ok(v) => {
                if v == 0x8000_0000_0000_0000 {
                    Ok(i64::MIN)
                } else {
                    Ok(-(v as i64))
                }
            },
            Err(e) => Err(e),
        }
    } else {
        let body = if cs[0] == '+' { slice_from(&cs, 1) } else { cs };
        match parse_magnitude(body.as_slice(), 0x7fff_ffff_ffff_ffff, IntErrorKind::PosOverflow) {
            Ok(v) => Ok(v as i64),
            Err(e) => Err(e),
        }
    }
}

/// Reads an unsigned value of at most `max`, as `str::parse` does for the
/// unsigned type whose largest value is `max`.
fn parse_unsigned(s: &str, max: u64) -> (r: Result<u64, IntErrorKind>)
    requires
        max >= 9,
    ensures
        match r {
            Ok(x) => spec_parse_unsigned(s@, max as nat) == Ok::<nat, IntErrorKind>(x as nat),
            Err(e) => spec_parse_unsigned(s@, max as nat) == Err::<nat, IntErrorKind>(e),
        },
        r matches Ok(v) ==> v <= max,
{
    let cs = crate::text::chars_of(s);
    if cs.len() == 0 {
        return Err(IntErrorKind::Empty);
    }
    assert(cs@.skip(1) =~= s@.drop_first());
    let body = if cs[0] == '+' { slice_from(&cs, 1) } else { cs };
    parse_magnitude(body.as_slice(), max, IntErrorKind::PosOverflow)
}

/// Reads a `u64` as `str::parse::<u64>` does.
pub fn parse_u64(s: &str) -> (r: Result<u64, IntErrorKind>)
    ensures
        r == spec_parse_u64(s@),
{
    parse_unsigned(s, 0xffff_ffff_ffff_ffff)
}

/// Reads a `u32` as `str::parse::<u32>` does.
pub fn parse_u32(s: &str) -> (r: Result<u32, IntErrorKind>)
    ensures
        r == spec_parse_u32(s@),
{
    match parse_unsigned(s, 0xffff_ffff) {
        Ok(v) => Ok(v as u32),
        Err(e) => Err(e),
    }
}

/// Reads a `u16` as `str::parse::<u16>` does.
pub fn parse_u16(s: &str) -> (r: Result<u16, IntErrorKind>)
    ensures
        r == spec_parse_u16(s@),
{
    match parse_unsigned(s, 0xffff) {
        Ok(v) => Ok(v as u16),
        Err(e) => Err(e),
    }
}

/// The characters of `v` from index `start` on.
fn slice_from(v: &Vec<char>, start: usize) -> (r: Vec<char>)
    requires
        start <= v@.len(),
    ensures
        r@ == v@.skip(start as int),
{
    let mut r: Vec<char> = Vec::new();
    let mut i = start;
    while i < v.len()
        invariant
            start <= i <= v@.len(),
            r@ == v@.subrange(start as int, i as int),
        decreases v@.len() - i,
    {
        r.push(v[i]);
        assert(v@.subrange(start as int, i as int).push(v@[i as int]) =~= v@.subrange(start as int, i + 1));
        i = i + 1;
    }
    assert(v@.subrange(start as int, v@.len() as int) =~= v@.skip(start as int));
    r
}

/// Appends the decimal digits of `n` to `out`.
pub fn push_decimal(out: &mut String, n: u64)
    ensures
        final(out)@ == old(out)@ + dec(n as nat),
    decreases n,
{
    if n >= 10 {
        push_decimal(out, n / 10);
    }
    let d: u8 = (n % 10) as u8;
    push_char(out, (48 + d) as char);
    proof {
        if n < 10 {
            assert(dec(n as nat) =~= seq![digit_char(n as int)]);
        }
        assert(final(out)@ =~= old(out)@ + dec(n as nat));
    }
}

/// The decimal text of an unsigned number, as `to_string` prints it.
pub fn u64_to_text(n: u64) -> (s: String)
    ensures
        s@ == dec(n as nat),
{
    let mut s = String::new();
    push_decimal(&mut s, n);
    assert(s@ =~= dec(n as nat));
    s
}

/// Appends the decimal text of a signed number to `out`.
pub fn push_signed(out: &mut String, n: i64)
    ensures
        final(out)@ == old(out)@ + dec_int(n as int),
{
    if n < 0 {
        push_char(out, '-');
        let m: u64 = if n == i64::MIN { 0x8000_0000_0000_0000 } else { (-n) as u64 };
        push_decimal(out, m);
    } else {
        push_decimal(out, n as u64);
    }
    assert(final(out)@ =~= old(out)@ + dec_int(n as int));
}

/// The decimal text of a signed number, as `to_string` prints it.
pub fn i64_to_text(n: i64) -> (s: String)
    ensures
        s@ == dec_int(n as int),
{
    let mut s = String::new();
    push_signed(&mut s, n);
    assert(s@ =~= dec_int(n as int));
    s
}


/// The decimal text of `n` padded with leading zeros to at least four
/// characters (what `{:04}` prints for a non-negative number).
pub open spec fn pad4(n: nat) -> Seq<char> {
    let d = dec(n);
    if d.len() >= 4 {
        d
    } else {
        Seq::new((4 - d.len()) as nat, |i: int| '0') + d
    }
}

pub proof fn lemma_dec_len(n: nat)
    ensures
        dec(n).len() >= 1,
        n < 10 ==> dec(n).len() == 1,
        10 <= n < 100 ==> dec(n).len() == 2,
        100 <= n < 1000 ==> dec(n).len() == 3,
        1000 <= n < 10000 ==> dec(n).len() == 4,
        n >= 1000 ==> dec(n).len() >= 4,
    decreases n,
{
    if n >= 10 {
        lemma_dec_len(n / 10);
    }
}

/// Appends `n` padded with zeros to four digits (`{:04}`).
pub fn push_padded4(out: &mut String, n: u64)
    ensures
        final(out)@ == old(out)@ + pad4(n as nat),
{
    proof {
        lemma_dec_len(n as nat);
    }
    let ghost o = out@;
    if n < 10 {
        out.append("000");
    } else if n < 100 {
        out.append("00");
    } else if n < 1000 {
        out.append("0");
    }
    proof {
        reveal_strlit("000");
        reveal_strlit("00");
        reveal_strlit("0");
    }
    push_decimal(out, n);
    assert(final(out)@ =~= o + pad4(n as nat));
}

/// Zeros read as zero.
proof fn lemma_zeros_value(z: Seq<char>)
    requires
        forall|i: int| 0 <= i < z.len() ==> z[i] == '0',
    ensures
        decimal_value(z) == 0,
    decreases z.len(),
{
    if z.len() > 0 {
        lemma_zeros_value(z.drop_last());
    }
}

/// Leading zeros do not change the value of a digit text.
pub proof fn lemma_zero_prefix_value(z: Seq<char>, d: Seq<char>)
    requires
        forall|i: int| 0 <= i < z.len() ==> z[i] == '0',
    ensures
        decimal_value(z + d) == decimal_value(d),
    decreases d.len(),
{
    if d.len() == 0 {
        assert(z + d =~= z);
        lemma_zeros_value(z);
    } else {
        assert((z + d).drop_last() =~= z + d.drop_last());
        assert((z + d).last() == d.last());
        lemma_zero_prefix_value(z, d.drop_last());
    }
}

} // verus!
