//! Total memory as a display text: the amount in gigabytes with two
//! decimals, and the places where the amount is read from.

use crate::number::{
    all_digits, decimal_text, digit_char, digit_text, is_digit, lemma_decimal_text_digits,
    parse_u64, parse_window, push_decimal,
};
use crate::text::{
    chars_of, find_char, first_line_with, lemma_no_line_with, line, matches_at, starts_with,
    trim, trim_bounds, word, word_bounds,
};
use vstd::prelude::*;
use vstd::string::StringExecFns;

verus! {

/// Bytes in a gigabyte.
pub const BYTES_PER_GB: u64 = 1073741824;

/// Kibibytes in a gigabyte.
pub const KIB_PER_GB: u64 = 1048576;

/// The whole number nearest to `num / den`; of two that are equally near,
/// the even one.
pub open spec fn round_half_even(num: nat, den: nat) -> nat
    recommends
        den > 0,
{
    let q = num / den;
    let r = num % den;
    if 2 * r < den || (2 * r == den && q % 2 == 0) {
        q
    } else {
        q + 1
    }
}

/// The distance between neighbouring double-precision numbers at `n`: 1 up
/// to 2^53, where every whole number is one of them, and twice as much each
/// time `n` doubles from there.
pub open spec fn double_step(n: nat) -> nat
    decreases n,
{
    if n < 0x20_0000_0000_0000 {
        1
    } else {
        2 * double_step(n / 2)
    }
}

/// The double-precision number nearest to `n`; of two that are equally near,
/// the one whose last bit is 0.
pub open spec fn nearest_double(n: nat) -> nat {
    round_half_even(n, double_step(n)) * double_step(n)
}

/// Hundredths of a gigabyte in `units`, of which `per_gb` make a gigabyte:
/// the amount is taken in double precision and then rounded to two decimals.
/// `per_gb` is a power of two, so that dividing by it loses nothing.
pub open spec fn gb_hundredths(units: nat, per_gb: nat) -> nat
    recommends
        per_gb > 0,
{
    round_half_even(nearest_double(units) * 100, per_gb)
}

/// The display text of `h` hundredths of a gigabyte: the whole gigabytes, a
/// point, two decimals, a space and `GB`.
pub open spec fn gb_text(h: nat) -> Seq<char> {
    decimal_text(h / 100) + seq![
        '.',
        digit_char(h / 10 % 10),
        digit_char(h % 10),
        ' ',
        'G',
        'B',
    ]
}

/// Whether `s` is one or more digits, a point, two digits, a space and `GB`.
pub open spec fn is_gb_text(s: Seq<char>) -> bool {
    let n = s.len();
    &&& n >= 7
    &&& all_digits(s.take(n - 6))
    &&& s[n - 6] == '.'
    &&& is_digit(s[n - 5])
    &&& is_digit(s[n - 4])
    &&& s[n - 3] == ' '
    &&& s[n - 2] == 'G'
    &&& s[n - 1] == 'B'
}

/// The key that the line of the total begins with in the kernel's memory
/// statistics.
pub open spec fn mem_total_key() -> Seq<char> {
    "MemTotal:"@
}

/// The amount on a line of the kernel's memory statistics, in kibibytes,
/// where it is the line of the total: it begins with the key, and its second
/// word writes a number.
pub open spec fn line_mem_total(line: Seq<char>) -> Option<u64> {
    if starts_with(line, mem_total_key()) {
        match word(line, 1) {
            Some(w) => parse_u64(w),
            None => None,
        }
    } else {
        None
    }
}

/// The total memory in kibibytes that the kernel's memory statistics give:
/// the amount on the first line that gives one.
pub open spec fn mem_total_kib(text: Seq<char>) -> Option<u64> {
    first_line_with(text, |line: Seq<char>| line_mem_total(line))
}

/// The byte count that the output of a memory query writes, white space
/// around it aside.
pub open spec fn byte_count(text: Seq<char>) -> Option<u64> {
    parse_u64(trim(text))
}

/// The display text of the total memory that the output of a memory query
/// gives in bytes, where it writes a byte count.
pub open spec fn query_memory_text(output: Seq<char>) -> Option<Seq<char>> {
    match byte_count(output) {
        Some(bytes) => Some(gb_text(gb_hundredths(bytes as nat, BYTES_PER_GB as nat))),
        None => None,
    }
}

/// The display text of the total memory that the kernel's memory statistics
/// give in kibibytes, where they give a total.
pub open spec fn meminfo_memory_text(meminfo: Seq<char>) -> Option<Seq<char>> {
    match mem_total_kib(meminfo) {
        Some(kib) => Some(gb_text(gb_hundredths(kib as nat, KIB_PER_GB as nat))),
        None => None,
    }
}

/// Every amount is displayed in the same shape.
pub proof fn lemma_gb_text_shape(h: nat)
    ensures
        is_gb_text(gb_text(h)),
{
    let whole = decimal_text(h / 100);
    let s = gb_text(h);
    lemma_decimal_text_digits(h / 100);
    assert(s.take(s.len() - 6) =~= whole);
}

/// What a memory query's output is shown as has the shape of an amount.
pub proof fn lemma_query_memory_text_shape(output: Seq<char>)
    ensures
        query_memory_text(output) matches Some(shown) ==> is_gb_text(shown),
{
    if let Some(bytes) = byte_count(output) {
        lemma_gb_text_shape(gb_hundredths(bytes as nat, BYTES_PER_GB as nat));
    }
}

/// What the kernel's memory statistics are shown as has the shape of an
/// amount.
pub proof fn lemma_meminfo_memory_text_shape(meminfo: Seq<char>)
    ensures
        meminfo_memory_text(meminfo) matches Some(shown) ==> is_gb_text(shown),
{
    if let Some(kib) = mem_total_kib(meminfo) {
        lemma_gb_text_shape(gb_hundredths(kib as nat, KIB_PER_GB as nat));
    }
}

/// Memory statistics in which no line begins with the key of the total give
/// no total.
pub proof fn law_no_total_line(meminfo: Seq<char>)
    requires
        forall|k: nat| (#[trigger] line(meminfo, k)) matches Some(l) ==> !starts_with(
            l,
            mem_total_key(),
        ),
    ensures
        mem_total_kib(meminfo) is None,
        meminfo_memory_text(meminfo) is None,
{
    lemma_no_line_with(meminfo, |line: Seq<char>| line_mem_total(line));
}

/// The distance between neighbouring double-precision numbers at `n`.
fn double_step_of(n: u64) -> (step: u64)
    ensures
        step == double_step(n as nat),
        1 <= step <= 4096,
{
    let mut step: u64 = 1;
    let mut m: u64 = n;
    while m >= 0x20_0000_0000_0000
        invariant
            double_step(n as nat) == step * double_step(m as nat),
            1 <= step <= 4096,
            step * m <= n,
        decreases m,
    {
        assert(step * 0x20_0000_0000_0000 <= step * m) by (nonlinear_arith)
            requires
                0x20_0000_0000_0000 <= m,
                0 <= step,
        ;
        assert((2 * step) * (m / 2) <= step * m) by (nonlinear_arith)
            requires
                0 <= step,
                0 <= m,
        ;
        assert(step * (2 * double_step((m / 2) as nat)) == (2 * step) * double_step(
            (m / 2) as nat,
        )) by (nonlinear_arith);
        m = m / 2;
        step = step * 2;
    }
    assert(double_step(m as nat) == 1);
    assert(step * double_step(m as nat) == step) by (nonlinear_arith)
        requires
            double_step(m as nat) == 1,
    ;
    step
}

/// The whole number nearest to `num / den`; of two that are equally near,
/// the even one.
fn rounded_quotient(num: u128, den: u64) -> (q: u128)
    requires
        den > 0,
        num < u128::MAX,
    ensures
        q == round_half_even(num as nat, den as nat),
{
    let d: u128 = den as u128;
    let q: u128 = num / d;
    let r: u128 = num % d;
    if 2 * r < d || (2 * r == d && q % 2 == 0) {
        q
    } else {
        q + 1
    }
}

/// The double-precision number nearest to `n`.
fn nearest_double_of(n: u64) -> (d: u128)
    ensures
        d == nearest_double(n as nat),
        d <= 0x1000_0000_0000_0000_0000,
{
    let step: u64 = double_step_of(n);
    let q: u128 = rounded_quotient(n as u128, step);
    assert(q <= n + 1) by (nonlinear_arith)
        requires
            q <= (n as int) / (step as int) + 1,
            step >= 1,
            n >= 0,
    ;
    assert(q * step <= 0x1000_0000_0000_0000_0000) by (nonlinear_arith)
        requires
            q <= 0x1_0000_0000_0000_0000,
            step <= 4096,
    ;
    q * (step as u128)
}

/// The display text of `h` hundredths of a gigabyte.
pub fn gb_text_of(h: u128) -> (out: String)
    ensures
        out@ == gb_text(h as nat),
        is_gb_text(out@),
{
    let mut out: String = String::new();
    push_decimal(&mut out, h / 100);
    out.append(".");
    out.append(digit_text((h / 10 % 10) as u8));
    out.append(digit_text((h % 10) as u8));
    out.append(" GB");
    proof {
        reveal_strlit(".");
        reveal_strlit(" GB");
        assert(out@ =~= gb_text(h as nat));
        lemma_gb_text_shape(h as nat);
    }
    out
}

/// The display text of `units`, of which `per_gb` make a gigabyte.
fn scaled_as_gb(units: u64, per_gb: u64) -> (out: String)
    requires
        per_gb > 0,
    ensures
        out@ == gb_text(gb_hundredths(units as nat, per_gb as nat)),
        is_gb_text(out@),
{
    let d: u128 = nearest_double_of(units);
    let h: u128 = rounded_quotient(d * 100, per_gb);
    gb_text_of(h)
}

/// The display text of an amount of memory given in bytes.
pub fn bytes_as_gb(bytes: u64) -> (out: String)
    ensures
        out@ == gb_text(gb_hundredths(bytes as nat, BYTES_PER_GB as nat)),
        is_gb_text(out@),
{
    scaled_as_gb(bytes, BYTES_PER_GB)
}

/// The display text of an amount of memory given in kibibytes.
pub fn kib_as_gb(kib: u64) -> (out: String)
    ensures
        out@ == gb_text(gb_hundredths(kib as nat, KIB_PER_GB as nat)),
        is_gb_text(out@),
{
    scaled_as_gb(kib, KIB_PER_GB)
}

/// The byte count that the output of a memory query writes.
pub fn parse_byte_count(output: &str) -> (r: Option<u64>)
    ensures
        r == byte_count(output@),
{
    let s: Vec<char> = chars_of(output);
    let (a, b) = trim_bounds(s.as_slice(), 0, s.len());
    assert(s@.subrange(0, s@.len() as int) =~= s@);
    parse_window(s.as_slice(), a, b)
}

/// The amount on the line `lo..hi` of `s`, where it is the line of the
/// total.
fn line_mem_total_of(s: &[char], lo: usize, hi: usize, key: &[char]) -> (r: Option<u64>)
    requires
        lo <= hi <= s.len(),
        key@ == mem_total_key(),
    ensures
        r == line_mem_total(s@.subrange(lo as int, hi as int)),
{
    if !matches_at(s, lo, hi, key, 0) {
        return None;
    }
    match word_bounds(s, lo, hi, 1) {
        Some((a, b)) => parse_window(s, a, b),
        None => None,
    }
}

/// The total memory in kibibytes that the kernel's memory statistics give.
pub fn parse_mem_total(meminfo: &str) -> (r: Option<u64>)
    ensures
        r == mem_total_kib(meminfo@),
{
    let text: Vec<char> = chars_of(meminfo);
    let key: Vec<char> = chars_of("MemTotal:");
    let s: &[char] = text.as_slice();
    let n: usize = s.len();
    let mut from: usize = 0;
    assert(s@.subrange(0, n as int) =~= s@);
    loop
        invariant
            from <= n,
            n == s.len(),
            s@ == meminfo@,
            key@ == mem_total_key(),
            mem_total_kib(meminfo@) == mem_total_kib(s@.subrange(from as int, n as int)),
        decreases n - from,
    {
        let end: usize = find_char(s, from, n, '\n');
        let here: Option<u64> = line_mem_total_of(s, from, end, key.as_slice());
        proof {
            let rest = s@.subrange(from as int, n as int);
            assert(rest.take(end - from) =~= s@.subrange(from as int, end as int));
            if end < n {
                assert(rest.skip(end - from + 1) =~= s@.subrange(end + 1, n as int));
            }
        }
        if here.is_some() {
            return here;
        }
        if end >= n {
            return None;
        }
        from = end + 1;
    }
}

/// The display text of the total memory that the output of a memory query
/// gives, where it writes a byte count.
pub fn memory_from_query(output: &str) -> (r: Option<String>)
    ensures
        match r {
            Some(shown) => query_memory_text(output@) == Some(shown@) && is_gb_text(shown@),
            None => query_memory_text(output@) is None,
        },
{
    match parse_byte_count(output) {
        Some(bytes) => Some(bytes_as_gb(bytes)),
        None => None,
    }
}

/// The display text of the total memory that the kernel's memory statistics
/// give, where they give a total.
pub fn memory_from_meminfo(meminfo: &str) -> (r: Option<String>)
    ensures
        match r {
            Some(shown) => meminfo_memory_text(meminfo@) == Some(shown@) && is_gb_text(shown@),
            None => meminfo_memory_text(meminfo@) is None,
        },
{
    match parse_mem_total(meminfo) {
        Some(kib) => Some(kib_as_gb(kib)),
        None => None,
    }
}

} // verus!
