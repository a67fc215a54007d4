//! Command lines for the outside tools, in the two shapes that platforms take.
use crate::text::{push_seconds_chars, push_str, seconds_chars, string_of};
use vstd::prelude::*;

verus! {

/// How a command line is handed to the system.
#[derive(Clone, Copy, Debug, PartialEq, Eq)]
pub enum Platform {
    /// Program and arguments separated by commas, run directly.
    Windows,
    /// One string, run by `sh -c`.
    Unix,
}

/// A program and its arguments, ready to be spawned.
#[derive(Clone, Debug)]
pub struct Invocation {
    pub program: String,
    pub args: Vec<String>,
}

/// The pieces of `s` between occurrences of `sep` (at least one piece).
pub open spec fn split_text(s: Seq<char>, sep: char) -> Seq<Seq<char>>
    decreases s.len(),
{
    if s.len() == 0 {
        seq![Seq::empty()]
    } else {
        let p = split_text(s.drop_last(), sep);
        if s.last() == sep {
            p.push(Seq::empty())
        } else {
            p.update(p.len() - 1, p.last().push(s.last()))
        }
    }
}

pub proof fn lemma_split_nonempty(s: Seq<char>, sep: char)
    ensures
        split_text(s, sep).len() >= 1,
    decreases s.len(),
{
    if s.len() > 0 {
        lemma_split_nonempty(s.drop_last(), sep);
    }
}

/// The pieces of `s` between commas.
pub fn split_commas(s: &str) -> (r: Vec<Vec<char>>)
    ensures
        r@.len() == split_text(s@, ',').len(),
        forall|i: int| 0 <= i < r@.len() ==> #[trigger] r@[i]@ == split_text(s@, ',')[i],
{
    let n = s.unicode_len();
    let mut pieces: Vec<Vec<char>> = Vec::new();
    let mut current: Vec<char> = Vec::new();
    let mut i: usize = 0;
    proof {
        assert(s@.subrange(0, 0) =~= Seq::<char>::empty());
    }
    while i < n
        invariant
            n == s@.len(),
            i <= n,
            ({
                let p = split_text(s@.subrange(0, i as int), ',');
                &&& p.len() == pieces@.len() + 1
                &&& forall|j: int| 0 <= j < pieces@.len() ==> #[trigger] pieces@[j]@ == p[j]
                &&& current@ == p.last()
            }),
        decreases n - i,
    {
        let c = s.get_char(i);
        proof {
            let t = s@.subrange(0, i + 1);
            assert(t.drop_last() =~= s@.subrange(0, i as int));
            lemma_split_nonempty(s@.subrange(0, i as int), ',');
        }
        if c == ',' {
            let done = current;
            pieces.push(done);
            current = Vec::new();
        } else {
            current.push(c);
        }
        i = i + 1;
    }
    assert(s@.subrange(0, n as int) =~= s@);
    pieces.push(current);
    pieces
}

/// How `cmd` is spawned: split at commas on Windows (the first piece is the
/// program), handed whole to `sh -c` elsewhere.
pub open spec fn invocation_of(cmd: Seq<char>, platform: Platform) -> (Seq<char>, Seq<Seq<char>>) {
    match platform {
        Platform::Windows => (split_text(cmd, ',')[0], split_text(cmd, ',').drop_first()),
        Platform::Unix => ("sh"@, seq!["-c"@, cmd]),
    }
}

/// Splits a command line into the program to spawn and its arguments.
pub fn invocation(cmd: &str, platform: Platform) -> (r: Invocation)
    ensures
        r.program@ == invocation_of(cmd@, platform).0,
        r.args@.len() == invocation_of(cmd@, platform).1.len(),
        forall|i: int| 0 <= i < r.args@.len() ==> #[trigger] r.args@[i]@ == invocation_of(cmd@, platform).1[i],
{
    match platform {
        Platform::Windows => {
            let pieces = split_commas(cmd);
            proof {
                lemma_split_nonempty(cmd@, ',');
            }
            let program = string_of(&pieces[0]);
            let mut args: Vec<String> = Vec::new();
            let mut i: usize = 1;
            while i < pieces.len()
                invariant
                    1 <= i <= pieces@.len(),
                    pieces@.len() == split_text(cmd@, ',').len(),
                    forall|j: int| 0 <= j < pieces@.len() ==> #[trigger] pieces@[j]@ == split_text(cmd@, ',')[j],
                    args@.len() == i - 1,
                    forall|j: int| 0 <= j < args@.len() ==> #[trigger] args@[j]@ == split_text(cmd@, ',')[j + 1],
                decreases pieces@.len() - i,
            {
                args.push(string_of(&pieces[i]));
                i = i + 1;
            }
            Invocation { program, args }
        },
        Platform::Unix => {
            let mut args: Vec<String> = Vec::new();
            args.push(String::from_str("-c"));
            args.push(String::from_str(cmd));
            Invocation { program: String::from_str("sh"), args }
        },
    }
}

/// The player's command line: the helper script that records progress and
/// the least time that counts as watched come before the caller's arguments.
pub open spec fn player_text(script: Seq<char>, min_time: nat, args: Seq<char>, platform: Platform) -> Seq<char> {
    match platform {
        Platform::Windows => "mpv,--script="@ + script + ",--script-opts=save_info-min_time="@
            + seconds_chars(min_time) + ","@ + args,
        Platform::Unix => "mpv --script="@ + script + " --script-opts=save_info-min_time="@
            + seconds_chars(min_time) + " "@ + args,
    }
}

/// Builds the player's command line; `min_time` is in milliseconds.
pub fn player_command(script: &str, min_time: u64, args: &str, platform: Platform) -> (r: String)
    ensures
        r@ == player_text(script@, min_time as nat, args@, platform),
{
    let mut out: Vec<char> = Vec::new();
    match platform {
        Platform::Windows => {
            push_str(&mut out, "mpv,--script=");
            push_str(&mut out, script);
            push_str(&mut out, ",--script-opts=save_info-min_time=");
            push_seconds_chars(&mut out, min_time);
            push_str(&mut out, ",");
        },
        Platform::Unix => {
            push_str(&mut out, "mpv --script=");
            push_str(&mut out, script);
            push_str(&mut out, " --script-opts=save_info-min_time=");
            push_seconds_chars(&mut out, min_time);
            push_str(&mut out, " ");
        },
    }
    push_str(&mut out, args);
    string_of(&out)
}

} // verus!
