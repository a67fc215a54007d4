//! Watch progress of one episode and its record file.
//!
//! The record is four lines of text, each a key and a value:
//!
//! ```text
//! Duration: 1417.250
//! Current: 600.000
//! Remaining: 817.250
//! Status: false
//! ```
//!
//! Times are seconds, written with three decimals and kept in milliseconds;
//! a time read with more decimals loses those past the millisecond. `Status`
//! is `true` once the episode has been watched. The lines come in this
//! order; the last line break may be left out.
use crate::decimal::{
    index_of, lemma_index_of_skip, lemma_seconds_text, parse_seconds, push_seconds,
    seconds_text, seconds_value,
};
use crate::text::{number_text, push_number, push_str, string_of};
use vstd::prelude::*;

verus! {

/// Watch progress of an episode; every time is in milliseconds.
#[derive(Clone, Copy, Debug, PartialEq, Eq)]
pub struct VideoMetadata {
    pub duration: u64,
    pub current: u64,
    pub remaining: u64,
    pub watched: bool,
}

/// Below this many milliseconds a position counts as not started.
pub const MIN_POSITION: u64 = 1000;

pub open spec fn duration_key() -> Seq<u8> {
    seq![68u8, 117, 114, 97, 116, 105, 111, 110, 58, 32]
}

pub open spec fn current_key() -> Seq<u8> {
    seq![67u8, 117, 114, 114, 101, 110, 116, 58, 32]
}

pub open spec fn remaining_key() -> Seq<u8> {
    seq![82u8, 101, 109, 97, 105, 110, 105, 110, 103, 58, 32]
}

pub open spec fn status_key() -> Seq<u8> {
    seq![83u8, 116, 97, 116, 117, 115, 58, 32]
}

pub open spec fn bool_text(b: bool) -> Seq<u8> {
    if b {
        seq![116u8, 114, 117, 101]
    } else {
        seq![102u8, 97, 108, 115, 101]
    }
}

/// The record file's bytes for `m`.
pub open spec fn record_text(m: VideoMetadata) -> Seq<u8> {
    duration_key() + seconds_text(m.duration as nat) + seq![10u8]
        + current_key() + seconds_text(m.current as nat) + seq![10u8]
        + remaining_key() + seconds_text(m.remaining as nat) + seq![10u8]
        + status_key() + bool_text(m.watched) + seq![10u8]
}

/// The value of a line `key` + seconds, in milliseconds.
pub open spec fn seconds_field(line: Seq<u8>, key: Seq<u8>) -> Option<nat> {
    if line.len() >= key.len() && line.subrange(0, key.len() as int) == key {
        seconds_value(line.subrange(key.len() as int, line.len() as int))
    } else {
        None
    }
}

pub open spec fn status_field(line: Seq<u8>) -> Option<bool> {
    if line == status_key() + bool_text(true) {
        Some(true)
    } else if line == status_key() + bool_text(false) {
        Some(false)
    } else {
        None
    }
}

/// What a record file holds: its four lines in order, the last one
/// optionally ended by a line break, and every time within 64 bits.
pub open spec fn record_value(s: Seq<u8>) -> Option<VideoMetadata> {
    let e1 = index_of(s, 10, 0);
    let e2 = index_of(s, 10, e1 + 1);
    let e3 = index_of(s, 10, e2 + 1);
    let e4 = index_of(s, 10, e3 + 1);
    if e3 >= s.len() || e4 < s.len() - 1 {
        None
    } else {
        match (
            seconds_field(s.subrange(0, e1), duration_key()),
            seconds_field(s.subrange(e1 + 1, e2), current_key()),
            seconds_field(s.subrange(e2 + 1, e3), remaining_key()),
            status_field(s.subrange(e3 + 1, e4)),
        ) {
            (Some(d), Some(c), Some(r), Some(w)) => if d <= u64::MAX && c <= u64::MAX && r
                <= u64::MAX {
                Some(VideoMetadata { duration: d as u64, current: c as u64, remaining: r as u64, watched: w })
            } else {
                None
            },
            _ => None,
        }
    }
}

/// A position under one second is treated as not started.
pub open spec fn normalized(m: VideoMetadata) -> VideoMetadata {
    if m.current < MIN_POSITION {
        VideoMetadata { current: 0, ..m }
    } else {
        m
    }
}

proof fn lemma_keys()
    ensures
        forall|j: int| 0 <= j < duration_key().len() ==> duration_key()[j] != 10u8,
        forall|j: int| 0 <= j < current_key().len() ==> current_key()[j] != 10u8,
        forall|j: int| 0 <= j < remaining_key().len() ==> remaining_key()[j] != 10u8,
        forall|b: bool, j: int| 0 <= j < (status_key() + bool_text(b)).len() ==> (status_key() + bool_text(b))[j] != 10u8,
{
    assert forall|b: bool, j: int| 0 <= j < (status_key() + bool_text(b)).len() implies (status_key() + bool_text(b))[j] != 10u8 by {
        if j >= 8 {
            assert((status_key() + bool_text(b))[j] == bool_text(b)[j - 8]);
        }
    }
}

proof fn lemma_line(key: Seq<u8>, ms: nat)
    requires
        forall|j: int| 0 <= j < key.len() ==> key[j] != 10u8,
    ensures
        seconds_field(key + seconds_text(ms), key) == Some(ms),
        forall|j: int| 0 <= j < (key + seconds_text(ms)).len() ==> #[trigger] (key + seconds_text(ms))[j] != 10u8,
{
    lemma_seconds_text(ms);
    let line = key + seconds_text(ms);
    assert(line.subrange(0, key.len() as int) =~= key);
    assert(line.subrange(key.len() as int, line.len() as int) =~= seconds_text(ms));
    assert forall|j: int| 0 <= j < line.len() implies #[trigger] line[j] != 10u8 by {
        if j >= key.len() {
            assert(line[j] == seconds_text(ms)[j - key.len()]);
        }
    }
}

/// Writing a record and reading it back gives the same progress, for every
/// progress whose position is zero or at least one second (a shorter one
/// reads back as zero).
#[verifier::rlimit(80)]
pub proof fn lemma_record_round_trip(m: VideoMetadata)
    requires
        m.current == 0 || m.current >= MIN_POSITION,
    ensures
        record_value(record_text(m)) == Some(m),
        normalized(m) == m,
{
    let a1 = duration_key() + seconds_text(m.duration as nat);
    let a2 = current_key() + seconds_text(m.current as nat);
    let a3 = remaining_key() + seconds_text(m.remaining as nat);
    let a4 = status_key() + bool_text(m.watched);
    lemma_keys();
    lemma_line(duration_key(), m.duration as nat);
    lemma_line(current_key(), m.current as nat);
    lemma_line(remaining_key(), m.remaining as nat);
    let s = record_text(m);
    assert(s =~= a1 + seq![10u8] + a2 + seq![10u8] + a3 + seq![10u8] + a4 + seq![10u8]);
    let e1 = a1.len() as int;
    let e2 = e1 + 1 + a2.len();
    let e3 = e2 + 1 + a3.len();
    let e4 = e3 + 1 + a4.len();
    assert(s.len() == e4 + 1);
    assert forall|j: int| 0 <= j < e1 implies s[j] != 10u8 by {
        assert(s[j] == a1[j]);
    }
    assert forall|j: int| e1 + 1 <= j < e2 implies s[j] != 10u8 by {
        assert(s[j] == a2[j - e1 - 1]);
    }
    assert forall|j: int| e2 + 1 <= j < e3 implies s[j] != 10u8 by {
        assert(s[j] == a3[j - e2 - 1]);
    }
    assert forall|j: int| e3 + 1 <= j < e4 implies s[j] != 10u8 by {
        assert(s[j] == a4[j - e3 - 1]);
    }
    lemma_index_of_skip(s, 10, 0, e1);
    lemma_index_of_skip(s, 10, e1 + 1, e2);
    lemma_index_of_skip(s, 10, e2 + 1, e3);
    lemma_index_of_skip(s, 10, e3 + 1, e4);
    assert(s.subrange(0, e1) =~= a1);
    assert(s.subrange(e1 + 1, e2) =~= a2);
    assert(s.subrange(e2 + 1, e3) =~= a3);
    assert(s.subrange(e3 + 1, e4) =~= a4);
    assert(status_key() + bool_text(true) != status_key() + bool_text(false)) by {
        assert((status_key() + bool_text(true))[8] != (status_key() + bool_text(false))[8]);
    }
}

/// Errors of reading a record.
#[derive(Clone, Copy, Debug, PartialEq, Eq)]
pub enum RecordError {
    /// The bytes are not a record of the expected shape.
    Malformed,
}

fn duration_key_bytes() -> (r: Vec<u8>)
    ensures
        r@ == duration_key(),
{
    let r = vec![68u8, 117, 114, 97, 116, 105, 111, 110, 58, 32];
    assert(r@ =~= duration_key());
    r
}

fn current_key_bytes() -> (r: Vec<u8>)
    ensures
        r@ == current_key(),
{
    let r = vec![67u8, 117, 114, 114, 101, 110, 116, 58, 32];
    assert(r@ =~= current_key());
    r
}

fn remaining_key_bytes() -> (r: Vec<u8>)
    ensures
        r@ == remaining_key(),
{
    let r = vec![82u8, 101, 109, 97, 105, 110, 105, 110, 103, 58, 32];
    assert(r@ =~= remaining_key());
    r
}

fn status_line_bytes(b: bool) -> (r: Vec<u8>)
    ensures
        r@ == status_key() + bool_text(b),
{
    let r = if b {
        vec![83u8, 116, 97, 116, 117, 115, 58, 32, 116, 114, 117, 101]
    } else {
        vec![83u8, 116, 97, 116, 117, 115, 58, 32, 102, 97, 108, 115, 101]
    };
    assert(r@ =~= status_key() + bool_text(b));
    r
}

fn push_all(out: &mut Vec<u8>, t: &Vec<u8>)
    ensures
        final(out)@ == old(out)@ + t@,
{
    let mut i: usize = 0;
    while i < t.len()
        invariant
            i <= t@.len(),
            out@ == old(out)@ + t@.subrange(0, i as int),
        decreases t@.len() - i,
    {
        out.push(t[i]);
        i = i + 1;
        assert(out@ =~= old(out)@ + t@.subrange(0, i as int));
    }
    assert(t@.subrange(0, i as int) =~= t@);
}

/// The first index at or after `from` that holds `b`, or the length.
fn find_byte(s: &[u8], b: u8, from: usize) -> (r: usize)
    requires
        from <= s@.len(),
    ensures
        r == index_of(s@, b, from as int),
        from <= r <= s@.len(),
{
    let mut i = from;
    while i < s.len() && s[i] != b
        invariant
            from <= i <= s@.len(),
            forall|j: int| from <= j < i ==> s@[j] != b,
        decreases s@.len() - i,
    {
        i = i + 1;
    }
    proof {
        lemma_index_of_skip(s@, b, from as int, i as int);
    }
    i
}

/// Whether `s[start..end]` equals `t`.
fn bytes_equal(s: &[u8], start: usize, end: usize, t: &Vec<u8>) -> (r: bool)
    requires
        start <= end <= s@.len(),
    ensures
        r == (s@.subrange(start as int, end as int) == t@),
{
    if end - start != t.len() {
        return false;
    }
    let mut i: usize = 0;
    while i < t.len()
        invariant
            end - start == t@.len(),
            start <= end <= s@.len(),
            i <= t@.len(),
            forall|j: int| 0 <= j < i ==> s@[start + j] == t@[j],
        decreases t@.len() - i,
    {
        if s[start + i] != t[i] {
            assert(s@.subrange(start as int, end as int)[i as int] != t@[i as int]);
            return false;
        }
        i = i + 1;
    }
    assert(s@.subrange(start as int, end as int) =~= t@);
    true
}

/// Reads the line `s[start..end]` as `key` followed by a seconds literal.
fn read_seconds_field(s: &[u8], start: usize, end: usize, key: &Vec<u8>) -> (r: Option<u64>)
    requires
        start <= end <= s@.len(),
    ensures
        r == (match seconds_field(s@.subrange(start as int, end as int), key@) {
            Some(v) => if v <= u64::MAX {
                Some(v as u64)
            } else {
                None
            },
            None => None,
        }),
{
    let ghost line = s@.subrange(start as int, end as int);
    if end - start < key.len() {
        return None;
    }
    let mid = start + key.len();
    if !bytes_equal(s, start, mid, key) {
        assert(line.subrange(0, key@.len() as int) =~= s@.subrange(start as int, mid as int));
        return None;
    }
    assert(line.subrange(0, key@.len() as int) =~= s@.subrange(start as int, mid as int));
    assert(line.subrange(key@.len() as int, line.len() as int) =~= s@.subrange(
        mid as int,
        end as int,
    ));
    parse_seconds(s, mid, end)
}

/// Reads the bytes of a record file: `None` where they are not a record.
pub fn parse_record(s: &[u8]) -> (r: Option<VideoMetadata>)
    ensures
        r == record_value(s@),
{
    let e1 = find_byte(s, 10, 0);
    if e1 >= s.len() {
        return None;
    }
    let e2 = find_byte(s, 10, e1 + 1);
    if e2 >= s.len() {
        return None;
    }
    let e3 = find_byte(s, 10, e2 + 1);
    if e3 >= s.len() {
        return None;
    }
    let e4 = find_byte(s, 10, e3 + 1);
    if e4 < s.len() - 1 {
        return None;
    }
    let d = read_seconds_field(s, 0, e1, &duration_key_bytes());
    let c = read_seconds_field(s, e1 + 1, e2, &current_key_bytes());
    let r = read_seconds_field(s, e2 + 1, e3, &remaining_key_bytes());
    let w = if bytes_equal(s, e3 + 1, e4, &status_line_bytes(true)) {
        Some(true)
    } else if bytes_equal(s, e3 + 1, e4, &status_line_bytes(false)) {
        Some(false)
    } else {
        None
    };
    match (d, c, r, w) {
        (Some(d), Some(c), Some(r), Some(w)) => Some(
            VideoMetadata { duration: d, current: c, remaining: r, watched: w },
        ),
        _ => None,
    }
}

/// A count padded with a leading zero to at least two digits.
pub open spec fn two_digits(n: nat) -> Seq<char> {
    if n < 10 {
        seq!['0'] + number_text(n)
    } else {
        number_text(n)
    }
}

/// `ms` milliseconds as whole minutes and seconds: `23:37`.
pub open spec fn time_text(ms: nat) -> Seq<char> {
    two_digits(ms / 60000) + seq![':'] + two_digits((ms % 60000) / 1000)
}

/// The description of an episode's progress.
pub open spec fn progress_text(m: VideoMetadata) -> Seq<char> {
    "Duration: "@ + time_text(m.duration as nat) + (if !m.watched && m.current > MIN_POSITION {
        "\nCurrent: "@ + time_text(m.current as nat)
    } else {
        Seq::empty()
    }) + "\nWatched: "@ + (if m.watched {
        "Yes"@
    } else {
        "No"@
    })
}

fn push_two_digits(out: &mut Vec<char>, n: u64)
    ensures
        final(out)@ == old(out)@ + two_digits(n as nat),
{
    if n < 10 {
        out.push('0');
    }
    push_number(out, n);
    assert(out@ =~= old(out)@ + two_digits(n as nat));
}

fn push_time(out: &mut Vec<char>, ms: u64)
    ensures
        final(out)@ == old(out)@ + time_text(ms as nat),
{
    push_two_digits(out, ms / 60000);
    out.push(':');
    push_two_digits(out, (ms % 60000) / 1000);
    assert(out@ =~= old(out)@ + time_text(ms as nat));
}

impl VideoMetadata {
    /// Formats `time` milliseconds as minutes and seconds, `MM:SS`.
    pub fn format_time(time: u64) -> (r: String)
        ensures
            r@ == time_text(time as nat),
    {
        let mut out: Vec<char> = Vec::new();
        push_time(&mut out, time);
        assert(out@ =~= time_text(time as nat));
        string_of(&out)
    }

    /// Describes the progress: its duration, the position where one was
    /// left unwatched, and whether it was watched.
    pub fn to_str(&self) -> (r: String)
        ensures
            r@ == progress_text(*self),
    {
        let mut out: Vec<char> = Vec::new();
        push_str(&mut out, "Duration: ");
        push_time(&mut out, self.duration);
        if !self.watched && self.current > MIN_POSITION {
            push_str(&mut out, "\nCurrent: ");
            push_time(&mut out, self.current);
        }
        push_str(&mut out, "\nWatched: ");
        if self.watched {
            push_str(&mut out, "Yes");
        } else {
            push_str(&mut out, "No");
        }
        assert(out@ =~= progress_text(*self));
        string_of(&out)
    }

    /// Reads a record file's bytes. A current position under one second is
    /// read as zero: the episode counts as not started.
    pub fn new(record: &[u8]) -> (r: Result<VideoMetadata, RecordError>)
        ensures
            r == (match record_value(record@) {
                Some(m) => Ok(normalized(m)),
                None => Err(RecordError::Malformed),
            }),
    {
        match parse_record(record) {
            Some(m) => {
                let current = if m.current < MIN_POSITION {
                    0
                } else {
                    m.current
                };
                Ok(VideoMetadata { current, ..m })
            },
            None => Err(RecordError::Malformed),
        }
    }

    /// The bytes of the record file that holds `metadata`.
    pub fn create_file(metadata: &VideoMetadata) -> (r: Vec<u8>)
        ensures
            r@ == record_text(*metadata),
    {
        let mut out: Vec<u8> = Vec::new();
        push_all(&mut out, &duration_key_bytes());
        push_seconds(&mut out, metadata.duration);
        out.push(10u8);
        push_all(&mut out, &current_key_bytes());
        push_seconds(&mut out, metadata.current);
        out.push(10u8);
        push_all(&mut out, &remaining_key_bytes());
        push_seconds(&mut out, metadata.remaining);
        out.push(10u8);
        push_all(&mut out, &status_line_bytes(metadata.watched));
        out.push(10u8);
        assert(out@ =~= record_text(*metadata));
        out
    }

    /// The bytes of a fresh record file: the given duration, nothing watched.
    pub fn default_file(duration: u64) -> (r: Vec<u8>)
        ensures
            r@ == record_text(VideoMetadata { duration, current: 0, remaining: 0, watched: false }),
    {
        VideoMetadata::create_file(
            &VideoMetadata { duration, current: 0, remaining: 0, watched: false },
        )
    }

    /// Toggles the watched flag: a watched episode stands at its end, an
    /// unwatched one at its start.
    pub fn as_watched(&mut self)
        ensures
            final(self).watched == !old(self).watched,
            final(self).current == (if final(self).watched {
                old(self).duration
            } else {
                0
            }),
            final(self).duration == old(self).duration,
            final(self).remaining == old(self).remaining,
    {
        self.watched = !self.watched;
        self.current = if !self.watched {
            0
        } else {
            self.duration
        };
    }
}

} // verus!
