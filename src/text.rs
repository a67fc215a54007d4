//! Building text a character at a time, with its value stated as a sequence.
use crate::decimal::{digits_of, push_digits, push_seconds, seconds_text};
use vstd::prelude::*;

verus! {

/// Bytes read as the characters of the same code, as ASCII text is.
pub open spec fn ascii_text(t: Seq<u8>) -> Seq<char> {
    Seq::new(t.len(), |i: int| t[i] as char)
}

/// The shortest decimal digits of `n` as characters.
pub open spec fn number_text(n: nat) -> Seq<char> {
    ascii_text(digits_of(n))
}

/// `ms` milliseconds as seconds with three decimals, as characters.
pub open spec fn seconds_chars(ms: nat) -> Seq<char> {
    ascii_text(seconds_text(ms))
}

/// Appends the characters of `s`.
pub fn push_str(out: &mut Vec<char>, s: &str)
    ensures
        final(out)@ == old(out)@ + s@,
{
    let n = s.unicode_len();
    let mut i: usize = 0;
    while i < n
        invariant
            n == s@.len(),
            i <= n,
            out@ == old(out)@ + s@.subrange(0, i as int),
        decreases n - i,
    {
        let c = s.get_char(i);
        out.push(c);
        i = i + 1;
        assert(out@ =~= old(out)@ + s@.subrange(0, i as int));
    }
    assert(s@.subrange(0, n as int) =~= s@);
}

/// Appends bytes as the characters of the same code.
pub fn push_ascii(out: &mut Vec<char>, t: &Vec<u8>)
    ensures
        final(out)@ == old(out)@ + ascii_text(t@),
{
    let mut i: usize = 0;
    while i < t.len()
        invariant
            i <= t@.len(),
            out@ == old(out)@ + ascii_text(t@.subrange(0, i as int)),
        decreases t@.len() - i,
    {
        out.push(t[i] as char);
        i = i + 1;
        assert(out@ =~= old(out)@ + ascii_text(t@.subrange(0, i as int)));
    }
    assert(t@.subrange(0, i as int) =~= t@);
}

/// Appends the shortest decimal digits of `n`.
pub fn push_number(out: &mut Vec<char>, n: u64)
    ensures
        final(out)@ == old(out)@ + number_text(n as nat),
{
    let mut digits: Vec<u8> = Vec::new();
    push_digits(&mut digits, n);
    assert(digits@ =~= digits_of(n as nat));
    push_ascii(out, &digits);
}

/// Appends `ms` milliseconds as seconds with three decimals.
pub fn push_seconds_chars(out: &mut Vec<char>, ms: u64)
    ensures
        final(out)@ == old(out)@ + seconds_chars(ms as nat),
{
    let mut digits: Vec<u8> = Vec::new();
    push_seconds(&mut digits, ms);
    assert(digits@ =~= seconds_text(ms as nat));
    push_ascii(out, &digits);
}

/// Relies on `String`'s `FromIterator<char>`: the string holds the characters in order.
#[verifier::external_body]
pub(crate) fn string_of(chars: &Vec<char>) -> (r: String)
    ensures
        r@ == chars@,
{
    chars.iter().collect()
}

} // verus!
