use vstd::prelude::*;

verus! {

/// Calls `String::push`: appends the character `c`.
#[verifier::external_body]
pub(crate) fn push_char(s: &mut String, c: char)
    ensures final(s)@ == old(s)@.push(c),
{
    s.push(c);
}

/// The characters of `text`.
pub fn chars_of(text: &str) -> (r: Vec<char>)
    ensures r@ == text@,
{
    let mut v: Vec<char> = Vec::new();
    for c in it: text.chars()
        invariant v@ == it.seq().take(it.index() as int),
    {
        v.push(c);
    }
    proof { broadcast use vstd::string::group_string_axioms; }
    assert(v@ =~= text@);
    v
}

/// Append the characters `cs[from..to]` to `s`.
pub(crate) fn push_chars(s: &mut String, cs: &[char], from: usize, to: usize)
    requires from <= to <= cs@.len(),
    ensures final(s)@ == old(s)@ + cs@.subrange(from as int, to as int),
{
    let ghost start = s@;
    let mut i = from;
    while i < to
        invariant
            from <= i <= to,
            to <= cs@.len(),
            s@ == start + cs@.subrange(from as int, i as int),
        decreases to - i,
    {
        push_char(s, cs[i]);
        assert(cs@.subrange(from as int, i + 1) =~= cs@.subrange(from as int, i as int).push(cs@[i as int]));
        i = i + 1;
    }
}

/// Append the characters of `t` to `s`.
pub(crate) fn push_str(s: &mut String, t: &str)
    ensures final(s)@ == old(s)@ + t@,
{
    let cs = chars_of(t);
    push_chars(s, cs.as_slice(), 0, cs.len());
    assert(cs@.subrange(0, cs@.len() as int) =~= t@);
}

/// The string holding the characters `cs[from..to]`.
pub(crate) fn string_of(cs: &[char], from: usize, to: usize) -> (r: String)
    requires from <= to <= cs@.len(),
    ensures r@ == cs@.subrange(from as int, to as int),
{
    let mut s = String::new();
    push_chars(&mut s, cs, from, to);
    s
}

/// The decimal digit character of `d` (0-9).
pub open spec fn digit_char(d: int) -> char {
    if d == 0 { '0' } else if d == 1 { '1' } else if d == 2 { '2' } else if d == 3 { '3' } else if d == 4 { '4' }
    else if d == 5 { '5' } else if d == 6 { '6' } else if d == 7 { '7' } else if d == 8 { '8' } else { '9' }
}

/// The decimal representation of `n`, without leading zeros.
pub open spec fn decimal(n: nat) -> Seq<char>
    decreases n,
{
    if n < 10 { seq![digit_char(n as int)] } else { decimal(n / 10).push(digit_char((n % 10) as int)) }
}

/// Whether `c` is a decimal digit.
pub open spec fn is_digit(c: char) -> bool {
    '0' <= c <= '9'
}

/// The value of the digit `c`.
pub open spec fn digit_value(c: char) -> nat {
    (c as int - '0' as int) as nat
}

/// The value of the digit string `ds`.
pub open spec fn digits_value(ds: Seq<char>) -> nat
    decreases ds.len(),
{
    if ds.len() == 0 { 0 } else { digits_value(ds.drop_last()) * 10 + digit_value(ds.last()) }
}

/// `cs` without a leading `+`.
pub open spec fn unsigned_digits(cs: Seq<char>) -> Seq<char> {
    if cs.len() > 0 && cs[0] == '+' { cs.drop_first() } else { cs }
}

/// Whether every character of `ds` is a decimal digit.
pub open spec fn all_digits(ds: Seq<char>) -> bool {
    forall|i: int| 0 <= i < ds.len() ==> is_digit(#[trigger] ds[i])
}

/// What `u64::from_str` gives for `cs`: an optional `+`, then one or more
/// decimal digits whose value fits in 64 bits; anything else is an error.
pub open spec fn parse_u64(cs: Seq<char>) -> Option<u64> {
    let ds = unsigned_digits(cs);
    if ds.len() > 0 && all_digits(ds) && digits_value(ds) <= u64::MAX {
        Some(digits_value(ds) as u64)
    } else {
        None
    }
}

/// Append the decimal representation of `n` to `s`.
pub(crate) fn push_decimal(s: &mut String, n: u64)
    ensures final(s)@ == old(s)@ + decimal(n as nat),
    decreases n,
{
    if n >= 10 {
        push_decimal(s, n / 10);
    }
    let d = n % 10;
    let c = if d == 0 { '0' } else if d == 1 { '1' } else if d == 2 { '2' } else if d == 3 { '3' } else if d == 4 { '4' }
        else if d == 5 { '5' } else if d == 6 { '6' } else if d == 7 { '7' } else if d == 8 { '8' } else { '9' };
    push_char(s, c);
    proof {
        if n >= 10 {
            assert(decimal(n as nat) == decimal((n / 10) as nat).push(digit_char((n % 10) as int)));
        }
    }
}

/// Parse `cs[from..to]` as `u64::from_str` does.
pub fn parse_u64_in(cs: &[char], from: usize, to: usize) -> (r: Option<u64>)
    requires from <= to <= cs@.len(),
    ensures r == parse_u64(cs@.subrange(from as int, to as int)),
{
    let ghost field = cs@.subrange(from as int, to as int);
    let mut i = from;
    if i < to && cs[i] == '+' {
        i = i + 1;
    }
    let ghost ds = unsigned_digits(field);
    assert(ds =~= cs@.subrange(i as int, to as int));
    if i == to {
        return None;
    }
    let start = i;
    let mut value: u64 = 0;
    while i < to
        invariant
            start <= i <= to,
            start < to,
            to <= cs@.len(),
            field == cs@.subrange(from as int, to as int),
            ds == unsigned_digits(field),
            ds == cs@.subrange(start as int, to as int),
            forall|j: int| start <= j < i ==> is_digit(#[trigger] cs@[j]),
            value as nat == digits_value(cs@.subrange(start as int, i as int)),
        decreases to - i,
    {
        let c = cs[i];
        assert(cs@.subrange(start as int, i + 1).drop_last() =~= cs@.subrange(start as int, i as int));
        if !('0' <= c && c <= '9') {
            assert(ds[i - start] == c);
            assert(!is_digit(ds[i - start]));
            assert(!all_digits(ds));
            return None;
        }
        let d = (c as u32 - '0' as u32) as u64;
        if value > (u64::MAX - d) / 10 {
            proof {
                assert(ds.subrange(0, i - start) =~= cs@.subrange(start as int, i as int));
                lemma_digits_overflow(ds, (i - start) as int, value, d);
            }
            return None;
        }
        value = value * 10 + d;
        i = i + 1;
    }
    assert(cs@.subrange(start as int, to as int) =~= cs@.subrange(start as int, i as int));
    Some(value)
}

/// Digit strings only grow in value as digits are added: once a prefix
/// overflows 64 bits, the whole string does.
proof fn lemma_digits_overflow(ds: Seq<char>, k: int, value: u64, d: u64)
    requires
        0 <= k < ds.len(),
        value as nat == digits_value(ds.subrange(0, k)),
        d as nat == digit_value(ds[k]),
        d <= 9,
        value > (u64::MAX - d) / 10,
    ensures
        digits_value(ds) > u64::MAX,
    decreases ds.len() - k,
{
    assert(ds.subrange(0, k + 1).drop_last() =~= ds.subrange(0, k));
    assert(digits_value(ds.subrange(0, k + 1)) == value * 10 + d) by {
        assert(ds.subrange(0, k + 1).last() == ds[k]);
    }
    assert(value * 10 + d > u64::MAX) by (nonlinear_arith)
        requires value > (u64::MAX - d) / 10, d <= 9;
    lemma_digits_monotone(ds, k + 1);
}

/// The value of a digit string is at least that of each of its prefixes.
proof fn lemma_digits_monotone(ds: Seq<char>, k: int)
    requires 0 <= k <= ds.len(),
    ensures digits_value(ds.subrange(0, k)) <= digits_value(ds),
    decreases ds.len() - k,
{
    if k < ds.len() {
        lemma_digits_monotone(ds, k + 1);
        assert(ds.subrange(0, k + 1).drop_last() =~= ds.subrange(0, k));
    } else {
        assert(ds.subrange(0, k) =~= ds);
    }
}

} // verus!
