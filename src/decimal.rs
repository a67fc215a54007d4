//! Decimal text for whole numbers and for durations kept in milliseconds.
use vstd::prelude::*;

verus! {

/// Whether a byte is an ASCII decimal digit.
pub open spec fn is_digit(b: u8) -> bool {
    48 <= b <= 57
}

pub open spec fn all_digits(t: Seq<u8>) -> bool {
    forall|i: int| 0 <= i < t.len() ==> is_digit(#[trigger] t[i])
}

/// The number that a run of decimal digits denotes, most significant first.
pub open spec fn digits_value(t: Seq<u8>) -> nat
    decreases t.len(),
{
    if t.len() == 0 {
        0
    } else {
        digits_value(t.drop_last()) * 10 + (t.last() - 48) as nat
    }
}

/// The shortest decimal digits of `n`.
pub open spec fn digits_of(n: nat) -> Seq<u8>
    decreases n,
{
    if n < 10 {
        seq![(n + 48) as u8]
    } else {
        digits_of(n / 10).push(((n % 10) + 48) as u8)
    }
}

/// Exactly three digits, with leading zeros: the milliseconds of a second.
pub open spec fn three_digits(n: nat) -> Seq<u8> {
    seq![((n / 100) % 10 + 48) as u8, ((n / 10) % 10 + 48) as u8, (n % 10 + 48) as u8]
}

/// Seconds with three decimals for a span of `ms` milliseconds: `1417.250`.
pub open spec fn seconds_text(ms: nat) -> Seq<u8> {
    digits_of(ms / 1000) + seq![46u8] + three_digits(ms % 1000)
}

pub proof fn lemma_digits_of(n: nat)
    ensures
        all_digits(digits_of(n)),
        digits_of(n).len() >= 1,
        digits_value(digits_of(n)) == n,
    decreases n,
{
    if n < 10 {
        assert(digits_of(n).drop_last() =~= Seq::<u8>::empty());
        assert(digits_value(Seq::<u8>::empty()) == 0);
    } else {
        lemma_digits_of(n / 10);
        assert(digits_of(n).drop_last() =~= digits_of(n / 10));
        assert(digits_of(n).last() == ((n % 10) + 48) as u8);
        assert(n == (n / 10) * 10 + n % 10);
    }
}

/// Pushes the shortest decimal digits of `n`.
pub fn push_digits(out: &mut Vec<u8>, n: u64)
    ensures
        final(out)@ == old(out)@ + digits_of(n as nat),
    decreases n,
{
    if n < 10 {
        out.push((n + 48) as u8);
    } else {
        push_digits(out, n / 10);
        out.push(((n % 10) + 48) as u8);
        assert(out@ =~= old(out)@ + digits_of(n as nat));
    }
}


/// Scale of a fraction of one, two or three digits to milliseconds.
pub open spec fn fraction_scale(len: nat) -> nat {
    if len == 1 {
        100
    } else if len == 2 {
        10
    } else {
        1
    }
}

/// The first index at or after `from` that holds `b`, or the length when none does.
pub open spec fn index_of(s: Seq<u8>, b: u8, from: int) -> int
    decreases s.len() - from,
{
    if from < 0 || from >= s.len() {
        s.len() as int
    } else if s[from] == b {
        from
    } else {
        index_of(s, b, from + 1)
    }
}

/// Milliseconds denoted by a seconds literal: one or more digits, then
/// optionally a point and one or more digits (`12`, `12.5`, `1417.250`);
/// digits past the third decimal are dropped.
pub open spec fn seconds_value(t: Seq<u8>) -> Option<nat> {
    let k = index_of(t, 46, 0);
    let whole = t.subrange(0, k);
    if whole.len() == 0 || !all_digits(whole) {
        None
    } else if k == t.len() {
        Some(digits_value(whole) * 1000)
    } else {
        let frac = t.subrange(k + 1, t.len() as int);
        let kept = frac.subrange(0, if frac.len() < 3 { frac.len() as int } else { 3 });
        if 1 <= frac.len() && all_digits(frac) {
            Some(digits_value(whole) * 1000 + digits_value(kept) * fraction_scale(kept.len()))
        } else {
            None
        }
    }
}

pub proof fn lemma_index_of_skip(s: Seq<u8>, b: u8, from: int, to: int)
    requires
        0 <= from <= to <= s.len(),
        forall|j: int| from <= j < to ==> s[j] != b,
        to == s.len() || s[to] == b,
    ensures
        index_of(s, b, from) == to,
    decreases to - from,
{
    if from < to {
        lemma_index_of_skip(s, b, from + 1, to);
    }
}

pub proof fn lemma_digits_prefix_le(t: Seq<u8>, j: int)
    requires
        0 <= j <= t.len(),
        all_digits(t),
    ensures
        digits_value(t.subrange(0, j)) <= digits_value(t),
    decreases t.len(),
{
    if j < t.len() {
        assert(t.drop_last().subrange(0, j) =~= t.subrange(0, j));
        lemma_digits_prefix_le(t.drop_last(), j);
    } else {
        assert(t.subrange(0, j) =~= t);
    }
}

pub proof fn lemma_three_digits(n: nat)
    requires
        n < 1000,
    ensures
        all_digits(three_digits(n)),
        three_digits(n).len() == 3,
        digits_value(three_digits(n)) == n,
{
    let t = three_digits(n);
    assert(t.drop_last().drop_last().drop_last() =~= Seq::<u8>::empty());
    assert(digits_value(Seq::<u8>::empty()) == 0);
    assert(digits_value(t.drop_last().drop_last()) == n / 100);
    assert(digits_value(t.drop_last()) == (n / 100) * 10 + (n / 10) % 10);
    assert((n / 100) * 100 + ((n / 10) % 10) * 10 + n % 10 == n) by (nonlinear_arith)
        requires
            n < 1000,
    ;
}

/// A seconds literal reads back as the milliseconds it was written from.
pub proof fn lemma_seconds_text(ms: nat)
    ensures
        seconds_value(seconds_text(ms)) == Some(ms),
        forall|j: int| 0 <= j < seconds_text(ms).len() ==> #[trigger] seconds_text(ms)[j] != 10u8,
{
    let t = seconds_text(ms);
    let w = digits_of(ms / 1000);
    lemma_digits_of(ms / 1000);
    lemma_three_digits(ms % 1000);
    assert forall|j: int| 0 <= j < w.len() implies t[j] != 46u8 by {
        assert(is_digit(w[j]));
    }
    lemma_index_of_skip(t, 46, 0, w.len() as int);
    assert(t.subrange(0, w.len() as int) =~= w);
    assert(t.subrange(w.len() as int + 1, t.len() as int) =~= three_digits(ms % 1000));
    assert(three_digits(ms % 1000).subrange(0, 3) =~= three_digits(ms % 1000));
    assert forall|j: int| 0 <= j < t.len() implies #[trigger] t[j] != 10u8 by {
        if j < w.len() {
            assert(is_digit(w[j]));
        } else if j > w.len() {
            assert(is_digit(three_digits(ms % 1000)[j - w.len() - 1]));
        }
    }
}

/// Pushes `ms` milliseconds as seconds with three decimals.
pub fn push_seconds(out: &mut Vec<u8>, ms: u64)
    ensures
        final(out)@ == old(out)@ + seconds_text(ms as nat),
{
    let f = ms % 1000;
    push_digits(out, ms / 1000);
    out.push(46u8);
    out.push(((f / 100) % 10 + 48) as u8);
    out.push(((f / 10) % 10 + 48) as u8);
    out.push((f % 10 + 48) as u8);
    assert(out@ =~= old(out)@ + seconds_text(ms as nat));
}

/// Reads the seconds literal `s[start..end]` as milliseconds: `None` where it is
/// no such literal or its value does not fit in 64 bits.
pub fn parse_seconds(s: &[u8], start: usize, end: usize) -> (r: Option<u64>)
    requires
        start <= end <= s@.len(),
    ensures
        r == (match seconds_value(s@.subrange(start as int, end as int)) {
            Some(v) => if v <= u64::MAX {
                Some(v as u64)
            } else {
                None
            },
            None => None,
        }),
{
    let ghost t = s@.subrange(start as int, end as int);
    let mut k: usize = start;
    while k < end && s[k] != 46u8
        invariant
            start <= k <= end <= s@.len(),
            t == s@.subrange(start as int, end as int),
            forall|j: int| start <= j < k ==> s@[j] != 46u8,
        decreases end - k,
    {
        k = k + 1;
    }
    proof {
        lemma_index_of_skip(t, 46, 0, k - start);
    }
    if k == start {
        return None;
    }
    let mut whole: u64 = 0;
    let mut i: usize = start;
    while i < k
        invariant
            start <= i <= k <= end <= s@.len(),
            t == s@.subrange(start as int, end as int),
            index_of(t, 46, 0) == k - start,
            k == end || s@[k as int] == 46u8,
            all_digits(s@.subrange(start as int, i as int)),
            whole == digits_value(s@.subrange(start as int, i as int)),
        decreases k - i,
    {
        let b = s[i];
        if b < 48 || b > 57 {
            proof {
                assert(t.subrange(0, k - start)[i - start] == b);
            }
            return None;
        }
        let d = (b - 48) as u64;
        assert(s@.subrange(start as int, i + 1).drop_last() =~= s@.subrange(start as int, i as int));
        if whole > (u64::MAX - d) / 10 {
            proof {
                let w = t.subrange(0, k - start);
                assert(w.subrange(0, i + 1 - start) =~= s@.subrange(start as int, i + 1));
                if all_digits(w) {
                    lemma_digits_prefix_le(w, i + 1 - start);
                }
                if seconds_value(t) is Some {
                    assert(w =~= t.subrange(0, index_of(t, 46, 0)));
                }
            }
            return None;
        }
        whole = whole * 10 + d;
        i = i + 1;
    }
    assert(t.subrange(0, k - start) =~= s@.subrange(start as int, k as int));
    if k == end {
        if whole > u64::MAX / 1000 {
            return None;
        }
        return Some(whole * 1000);
    }
    let flen = end - k - 1;
    if flen < 1 {
        return None;
    }
    let kept: usize = if flen < 3 {
        flen
    } else {
        3
    };
    let mut frac: u64 = 0;
    let mut i: usize = k + 1;
    while i < end
        invariant
            start <= k,
            k + 1 <= i <= end <= s@.len(),
            kept == (if end - k - 1 < 3 { end - k - 1 } else { 3 }),
            t == s@.subrange(start as int, end as int),
            index_of(t, 46, 0) == k - start,
            all_digits(s@.subrange(k + 1, i as int)),
            frac == digits_value(s@.subrange(k + 1, if i - k - 1 < 3 { i as int } else { k + 4 })),
            i - k - 1 == 0 ==> frac == 0,
            i - k - 1 <= 1 ==> frac < 10,
            i - k - 1 <= 2 ==> frac < 100,
            frac < 1000,
        decreases end - i,
    {
        let b = s[i];
        if b < 48 || b > 57 {
            proof {
                assert(t.subrange(k - start + 1, t.len() as int)[i - k - 1] == b);
            }
            return None;
        }
        assert(s@.subrange(k + 1, i + 1).drop_last() =~= s@.subrange(k + 1, i as int));
        if i - k - 1 < 3 {
            frac = frac * 10 + (b - 48) as u64;
        }
        i = i + 1;
    }
    proof {
        let frac_t = t.subrange(k - start + 1, t.len() as int);
        assert(frac_t =~= s@.subrange(k + 1, end as int));
        let sk = frac_t.subrange(0, if frac_t.len() < 3 { frac_t.len() as int } else { 3 });
        assert(sk =~= s@.subrange(k + 1, k + 1 + kept));
        assert(s@.subrange(k + 1, if i - k - 1 < 3 { i as int } else { k + 4 }) =~= sk);
        assert(frac == digits_value(sk));
        assert(sk.len() == kept);
    }
    let scaled: u64 = if kept == 1 {
        frac * 100
    } else if kept == 2 {
        frac * 10
    } else {
        frac
    };
    if whole > (u64::MAX - scaled) / 1000 {
        return None;
    }
    Some(whole * 1000 + scaled)
}

} // verus!
