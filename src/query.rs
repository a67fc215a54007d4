//! The catalog's answer about one title, and the cleaning applied to it.
use crate::text::{push_str, string_of};
use vstd::prelude::*;

verus! {

/// What `AhoCorasick::replace_all` returns for a haystack, its patterns and
/// their replacements (standard match semantics).
pub uninterp spec fn replaced_all(
    haystack: Seq<char>,
    patterns: Seq<Seq<char>>,
    replacements: Seq<Seq<char>>,
) -> Seq<char>;

/// Whether a character has Unicode's White_Space property.
pub open spec fn is_white_space(c: char) -> bool {
    let u = c as u32;
    (9 <= u <= 13) || u == 32 || u == 0x85 || u == 0xa0 || u == 0x1680 || (0x2000 <= u <= 0x200a)
        || u == 0x2028 || u == 0x2029 || u == 0x202f || u == 0x205f || u == 0x3000
}

pub open spec fn trim_start(s: Seq<char>) -> Seq<char>
    decreases s.len(),
{
    if s.len() > 0 && is_white_space(s[0]) {
        trim_start(s.drop_first())
    } else {
        s
    }
}

pub open spec fn trim_end(s: Seq<char>) -> Seq<char>
    decreases s.len(),
{
    if s.len() > 0 && is_white_space(s.last()) {
        trim_end(s.drop_last())
    } else {
        s
    }
}

/// The text without leading and trailing white space.
pub open spec fn trimmed(s: Seq<char>) -> Seq<char> {
    trim_end(trim_start(s))
}

pub open spec fn views(v: Seq<String>) -> Seq<Seq<char>> {
    v.map_values(|s: String| s@)
}

/// A set of patterns far inside the matcher's limits on patterns, pattern
/// length and states: at most 16 patterns of at most 16 characters (64 bytes).
pub open spec fn small_patterns(patterns: Seq<Seq<char>>) -> bool {
    patterns.len() <= 16 && forall|i: int| 0 <= i < patterns.len() ==> #[trigger] patterns[i].len() <= 16
}

/// Relies on `aho_corasick::AhoCorasick::new` and `AhoCorasick::replace_all`:
/// every match of a pattern is replaced by the text at the same index.
/// Building fails only past the limits on patterns, pattern length and
/// states, which a small set of patterns stays well within.
#[verifier::external_body]
fn replace_all(haystack: &str, patterns: &Vec<String>, replacements: &Vec<String>) -> (r: Option<String>)
    requires
        patterns@.len() == replacements@.len(),
    ensures
        r matches Some(s) ==> s@ == replaced_all(haystack@, views(patterns@), views(replacements@)),
        small_patterns(views(patterns@)) ==> r is Some,
{
    match aho_corasick::AhoCorasick::new(patterns) {
        Ok(ac) => Some(ac.replace_all(haystack, replacements)),
        Err(_) => None,
    }
}

/// Relies on `str::trim`: leading and trailing characters with the White_Space
/// property removed.
#[verifier::external_body]
fn trim(s: &str) -> (r: &str)
    ensures
        r@ == trimmed(s@),
{
    s.trim()
}

/// The catalog's whole answer.
#[derive(Clone, Debug)]
pub struct Query {
    pub data: Data,
}

/// The catalog's data on one title, with what the library adds to it.
#[derive(Clone, Debug)]
pub struct Data {
    pub media: Media,
    /// Where the title's image is stored.
    pub thumbnail_path: String,
    /// Index of the title this answer belongs to.
    pub id: usize,
    /// Name of the title's main studio, empty when none is marked.
    pub studio: String,
}

/// The catalog's entry for a title.
#[derive(Clone, Debug)]
pub struct Media {
    pub id: usize,
    pub title: Title,
    pub description: String,
    pub genres: Vec<String>,
    pub banner_image: String,
    pub studios: Studio,
}

/// A title's names.
#[derive(Clone, Debug)]
pub struct Title {
    pub romaji: String,
    pub english: String,
    pub native: String,
}

/// The studios credited for a title.
#[derive(Clone, Debug)]
pub struct Studio {
    pub edges: Vec<Edges>,
}

/// One studio credit.
#[derive(Clone, Debug)]
pub struct Edges {
    pub is_main: bool,
    pub node: Node,
}

/// A studio.
#[derive(Clone, Debug)]
pub struct Node {
    pub name: String,
}

/// The markup that descriptions carry, and what replaces each piece.
pub open spec fn markup_patterns() -> Seq<Seq<char>> {
    seq!["<b>"@, "</b>"@, "<i>"@, "</i>"@, "<br>\n<br>"@, "<br><br>"@]
}

pub open spec fn markup_replacements() -> Seq<Seq<char>> {
    seq![""@, ""@, ""@, ""@, "\n"@, "\n"@]
}

proof fn lemma_markup_small()
    ensures
        small_patterns(markup_patterns()),
{
    reveal_strlit("<b>");
    reveal_strlit("</b>");
    reveal_strlit("<i>");
    reveal_strlit("</i>");
    reveal_strlit("<br>\n<br>");
    reveal_strlit("<br><br>");
    let p = markup_patterns();
    assert forall|i: int| 0 <= i < p.len() implies #[trigger] p[i].len() <= 16 by {
        if i == 0 {} else if i == 1 {} else if i == 2 {} else if i == 3 {} else if i == 4 {} else {}
    }
}

/// The description without bold and italic tags, a doubled line break made one.
pub open spec fn cleaned(description: Seq<char>) -> Seq<char> {
    replaced_all(description, markup_patterns(), markup_replacements())
}

/// Index of the first credit marked main, or the number of credits.
pub open spec fn main_index(edges: Seq<Edges>, from: int) -> int
    decreases edges.len() - from,
{
    if from < 0 || from >= edges.len() {
        edges.len() as int
    } else if edges[from].is_main {
        from
    } else {
        main_index(edges, from + 1)
    }
}

/// Joins texts with a separator between each two.
pub open spec fn joined(parts: Seq<Seq<char>>, sep: Seq<char>) -> Seq<char>
    decreases parts.len(),
{
    if parts.len() == 0 {
        Seq::empty()
    } else if parts.len() == 1 {
        parts[0]
    } else {
        joined(parts.drop_last(), sep) + sep + parts.last()
    }
}

/// The description of a catalog entry.
pub open spec fn media_text(description: Seq<char>, genres: Seq<Seq<char>>) -> Seq<char> {
    "Description: "@ + trimmed(description) + "\n\nGenres: "@ + joined(genres, ", "@)
}

fn string_list(items: &[&str]) -> (r: Vec<String>)
    ensures
        r@.len() == items@.len(),
        forall|i: int| 0 <= i < items@.len() ==> #[trigger] r@[i]@ == items@[i]@,
{
    let mut out: Vec<String> = Vec::new();
    let mut i: usize = 0;
    while i < items.len()
        invariant
            i <= items@.len(),
            out@.len() == i,
            forall|j: int| 0 <= j < i ==> #[trigger] out@[j]@ == items@[j]@,
        decreases items@.len() - i,
    {
        out.push(String::from_str(items[i]));
        i = i + 1;
    }
    out
}

impl Data {
    pub fn set_thumbnail_path(&mut self, path: String)
        ensures
            *final(self) == (Data { thumbnail_path: path, ..*old(self) }),
    {
        self.thumbnail_path = path;
    }

    pub fn set_id(&mut self, id: usize)
        ensures
            *final(self) == (Data { id, ..*old(self) }),
    {
        self.id = id;
    }

    /// Strips the description's markup.
    pub fn clean_description(&mut self)
        ensures
            final(self).media.description@ == cleaned(old(self).media.description@),
            final(self).media.title == old(self).media.title,
            final(self).media.genres == old(self).media.genres,
            final(self).media.banner_image == old(self).media.banner_image,
            final(self).media.studios == old(self).media.studios,
            final(self).media.id == old(self).media.id,
            final(self).thumbnail_path == old(self).thumbnail_path,
            final(self).id == old(self).id,
            final(self).studio == old(self).studio,
    {
        let patterns = string_list(&["<b>", "</b>", "<i>", "</i>", "<br>\n<br>", "<br><br>"]);
        let replacements = string_list(&["", "", "", "", "\n", "\n"]);
        proof {
            assert(views(patterns@) =~= markup_patterns());
            assert(views(replacements@) =~= markup_replacements());
            lemma_markup_small();
        }
        match replace_all(self.media.description.as_str(), &patterns, &replacements) {
            Some(s) => {
                self.media.description = s;
            },
            None => {},
        }
    }

    /// Takes the name of the first credit marked main as the studio; without
    /// one the studio is empty.
    pub fn find_studio(&mut self)
        ensures
            final(self).media == old(self).media,
            final(self).thumbnail_path == old(self).thumbnail_path,
            final(self).id == old(self).id,
            ({
                let k = main_index(old(self).media.studios.edges@, 0);
                if k < old(self).media.studios.edges@.len() {
                    final(self).studio@ == old(self).media.studios.edges@[k].node.name@
                } else {
                    final(self).studio@ == Seq::<char>::empty()
                }
            }),
    {
        let n = self.media.studios.edges.len();
        let mut i: usize = 0;
        while i < n
            invariant
                n == self.media.studios.edges@.len(),
                i <= n,
                *self == *old(self),
                main_index(self.media.studios.edges@, 0) == main_index(
                    self.media.studios.edges@,
                    i as int,
                ),
            decreases n - i,
        {
            if self.media.studios.edges[i].is_main {
                let name = self.media.studios.edges[i].node.name.clone();
                self.studio = name;
                return;
            }
            i = i + 1;
        }
        self.studio = String::new();
    }
}

impl Media {
    /// The entry's description and genres, as shown to the user.
    pub fn to_str(&self) -> (r: String)
        ensures
            r@ == media_text(self.description@, views(self.genres@)),
    {
        Media::describe(trim(self.description.as_str()), &self.genres)
    }

    /// The text shown for a description, already trimmed, and genres.
    pub fn describe(description: &str, genres: &Vec<String>) -> (r: String)
        ensures
            r@ == "Description: "@ + description@ + "\n\nGenres: "@ + joined(views(genres@), ", "@),
    {
        let mut out: Vec<char> = Vec::new();
        push_str(&mut out, "Description: ");
        push_str(&mut out, description);
        push_str(&mut out, "\n\nGenres: ");
        let ghost start = out@;
        let mut i: usize = 0;
        while i < genres.len()
            invariant
                i <= genres@.len(),
                out@ == start + joined(views(genres@.subrange(0, i as int)), ", "@),
            decreases genres@.len() - i,
        {
            if i > 0 {
                push_str(&mut out, ", ");
            }
            push_str(&mut out, genres[i].as_str());
            proof {
                let p = views(genres@.subrange(0, i + 1));
                assert(p.drop_last() =~= views(genres@.subrange(0, i as int)));
                if i == 0 {
                    assert(p.len() == 1);
                }
            }
            i = i + 1;
            assert(out@ =~= start + joined(views(genres@.subrange(0, i as int)), ", "@));
        }
        assert(genres@.subrange(0, i as int) =~= genres@);
        string_of(&out)
    }
}

} // verus!
