//! Building text: characters of a string, decimal and hexadecimal numbers.

use vstd::prelude::*;
use vstd::std_specs::iter::IteratorSpec;

verus! {

/// The character that stands for the digit `d` below 36: `0` to `9`, then
/// `a` to `z`.
pub open spec fn digit_char(d: int) -> char {
    if d < 10 {
        (48 + d) as char
    } else {
        (87 + d) as char
    }
}

/// `n` in decimal, most significant digit first, without leading zeros;
/// zero is the single digit `0`.
pub open spec fn dec(n: nat) -> Seq<char>
    decreases n,
{
    if n < 10 {
        seq![digit_char(n as int)]
    } else {
        dec(n / 10).push(digit_char((n % 10) as int))
    }
}

/// `n` in decimal, with a leading `-` below zero.
pub open spec fn signed_dec(n: int) -> Seq<char> {
    if n < 0 {
        seq!['-'] + dec((-n) as nat)
    } else {
        dec(n as nat)
    }
}

/// `n` in lower-case hexadecimal, most significant digit first, without
/// leading zeros; zero is the single digit `0`.
pub open spec fn hex_digits(n: nat) -> Seq<char>
    decreases n,
{
    if n < 16 {
        seq![digit_char(n as int)]
    } else {
        hex_digits(n / 16).push(digit_char((n % 16) as int))
    }
}

/// `n` in lower-case hexadecimal behind `0x`.
pub open spec fn hex(n: nat) -> Seq<char> {
    seq!['0', 'x'] + hex_digits(n)
}

/// The texts of `parts` with `sep` between each two of them.
pub open spec fn join(parts: Seq<Seq<char>>, sep: char) -> Seq<char>
    decreases parts.len(),
{
    if parts.len() == 0 {
        Seq::empty()
    } else if parts.len() == 1 {
        parts[0]
    } else {
        join(parts.drop_last(), sep) + seq![sep] + parts.last()
    }
}

/// A list grows by one text: the separator, unless the text is the first,
/// then the text.
pub proof fn lemma_join_push(parts: Seq<Seq<char>>, sep: char, text: Seq<char>)
    ensures
        join(parts.push(text), sep) == if parts.len() == 0 {
            text
        } else {
            join(parts, sep) + seq![sep] + text
        },
{
    assert(parts.push(text).drop_last() =~= parts);
}

/// `char::from_digit` of std: the digit character of `num` in the given
/// radix, `None` when `num` is no digit of that radix. The function panics
/// for a radix above 36, which `requires` leaves out.
pub assume_specification[ char::from_digit ](num: u32, radix: u32) -> (r: Option<char>)
    requires
        radix <= 36,
    ensures
        r == if num < radix {
            Some(digit_char(num as int))
        } else {
            None::<char>
        },
;

/// `String::push` of std: appends one character.
pub assume_specification[ String::push ](s: &mut String, c: char)
    ensures
        final(s)@ == old(s)@.push(c),
;

/// The characters of `s`, in order.
pub fn chars_of(s: &str) -> (v: Vec<char>)
    ensures
        v@ == s@,
{
    let mut v: Vec<char> = Vec::new();
    for c in it: s.chars()
        invariant
            it.seq() == s@,
            v@ == it.seq().take(it.index()),
    {
        v.push(c);
    }
    v
}

/// Whether two texts are the same.
pub fn same_text(a: &str, b: &str) -> (r: bool)
    ensures
        r == (a@ == b@),
{
    let a = chars_of(a);
    let b = chars_of(b);
    assert(a@.subrange(0, a@.len() as int) =~= a@);
    same_chars(&a, 0, a.len(), &b)
}

/// Whether the characters of `a` from `from` up to `to` are those of `b`.
pub fn same_chars(a: &Vec<char>, from: usize, to: usize, b: &Vec<char>) -> (r: bool)
    requires
        from <= to <= a.len(),
    ensures
        r == (a@.subrange(from as int, to as int) == b@),
{
    if to - from != b.len() {
        return false;
    }
    let mut i: usize = 0;
    while i < b.len()
        invariant
            i <= b.len(),
            from <= to <= a.len(),
            to - from == b.len(),
            a@.subrange(from as int, from + i) == b@.take(i as int),
        decreases b.len() - i,
    {
        if a[from + i] != b[i] {
            assert(a@.subrange(from as int, to as int)[i as int] != b@[i as int]);
            return false;
        }
        i += 1;
        assert(a@.subrange(from as int, from + i) =~= b@.take(i as int)) by {
            assert(a@.subrange(from as int, from + i).drop_last() =~= a@.subrange(
                from as int,
                from + i - 1,
            ));
            assert(b@.take(i as int).drop_last() =~= b@.take(i - 1));
        }
    }
    assert(b@.take(b.len() as int) =~= b@);
    true
}

/// Appends the characters of `s` to `out`.
pub fn push_str(out: &mut Vec<char>, s: &str)
    ensures
        final(out)@ == old(out)@ + s@,
{
    let ghost before = out@;
    for c in it: s.chars()
        invariant
            it.seq() == s@,
            out@ == before + it.seq().take(it.index()),
    {
        out.push(c);
    }
}

/// The string made of the characters of `v`.
pub fn string_of(v: &Vec<char>) -> (s: String)
    ensures
        s@ == v@,
{
    let mut s = String::new();
    let mut i: usize = 0;
    while i < v.len()
        invariant
            i <= v.len(),
            s@ == v@.take(i as int),
        decreases v.len() - i,
    {
        s.push(v[i]);
        i += 1;
    }
    s
}

/// Appends `n` in decimal to `out`.
pub fn push_dec(out: &mut Vec<char>, n: u64)
    ensures
        final(out)@ == old(out)@ + dec(n as nat),
    decreases n,
{
    if n >= 10 {
        push_dec(out, n / 10);
    }
    let d: u32 = (n % 10) as u32;
    if let Some(c) = char::from_digit(d, 10) {
        out.push(c);
    }
}

/// Appends `n` in decimal to `out`, with a leading `-` below zero.
pub fn push_signed_dec(out: &mut Vec<char>, n: i64)
    ensures
        final(out)@ == old(out)@ + signed_dec(n as int),
{
    if n < 0 {
        out.push('-');
        // The magnitude of `i64::MIN` does not fit `i64`.
        let magnitude: u64 = if n == i64::MIN {
            0x8000_0000_0000_0000
        } else {
            (-n) as u64
        };
        push_dec(out, magnitude);
    } else {
        push_dec(out, n as u64);
    }
}

/// Appends the hexadecimal digits of `n` to `out`.
pub fn push_hex_digits(out: &mut Vec<char>, n: u64)
    ensures
        final(out)@ == old(out)@ + hex_digits(n as nat),
    decreases n,
{
    if n >= 16 {
        push_hex_digits(out, n / 16);
    }
    let d: u32 = (n % 16) as u32;
    if let Some(c) = char::from_digit(d, 16) {
        out.push(c);
    }
}

/// Appends `n` in hexadecimal behind `0x` to `out`.
pub fn push_hex(out: &mut Vec<char>, n: u64)
    ensures
        final(out)@ == old(out)@ + hex(n as nat),
{
    out.push('0');
    out.push('x');
    push_hex_digits(out, n);
}

} // verus!
