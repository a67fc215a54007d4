//! The cache-or-fetch protocol for a title's catalog data.
//!
//! A title directory keeps, under `.metadata`, the catalog's answer
//! (`data.json`) and the title's image (`thumbnail.jpg`). When both are there
//! the answer is read from disk and nothing is asked of the network;
//! otherwise the catalog is queried and both files are written anew. Either
//! way the answer is completed the same way, by [`complete_query`]. A cached
//! answer that cannot be read counts as missing and is fetched anew.
use crate::query::{cleaned, main_index, views, Data, Query};
use crate::text::{push_str, string_of};
use vstd::prelude::*;

verus! {

/// The catalog query; its one variable is the title searched for.
pub const QUERY: &'static str = "
query ($search: String) {
  Media (search: $search, type: ANIME) {
    id,
    title {
      romaji,
      english,
      native,
    },
    description,
    genres,
    bannerImage,
    studios {
        edges {
          isMain,
          node {
            name
          }
        }
      }
  }
}
";

/// The catalog's address.
pub const ENDPOINT: &'static str = "https://graphql.anilist.co/";

/// A hexadecimal digit, in lower case.
pub open spec fn hex_digit(d: u32) -> char {
    if d < 10 {
        (d + 48) as char
    } else {
        (d + 87) as char
    }
}

/// How one character stands in a JSON string literal: quote and backslash
/// escaped, the short escapes for backspace, tab, line feed, form feed and
/// carriage return, `\u00XX` for the other control characters, and every
/// other character as it is.
pub open spec fn json_escape(c: char) -> Seq<char> {
    if c == '"' {
        seq!['\\', '"']
    } else if c == '\\' {
        seq!['\\', '\\']
    } else if c == '\u{8}' {
        seq!['\\', 'b']
    } else if c == '\t' {
        seq!['\\', 't']
    } else if c == '\n' {
        seq!['\\', 'n']
    } else if c == '\u{c}' {
        seq!['\\', 'f']
    } else if c == '\r' {
        seq!['\\', 'r']
    } else if (c as u32) < 32 {
        seq!['\\', 'u', '0', '0', hex_digit((c as u32) / 16), hex_digit((c as u32) % 16)]
    } else {
        seq![c]
    }
}

pub open spec fn json_escaped(s: Seq<char>) -> Seq<char>
    decreases s.len(),
{
    if s.len() == 0 {
        Seq::empty()
    } else {
        json_escaped(s.drop_last()) + json_escape(s.last())
    }
}

/// The JSON string literal of a text.
pub open spec fn json_text(s: Seq<char>) -> Seq<char> {
    seq!['"'] + json_escaped(s) + seq!['"']
}

/// Relies on `serde_json::to_string` on a `str`: the quoted literal with
/// the escapes of `format_escaped_str_contents`. Serializing a `str` into
/// a byte buffer cannot fail.
#[verifier::external_body]
fn json_string(s: &str) -> (r: Option<String>)
    ensures
        r is Some,
        r matches Some(j) ==> j@ == json_text(s@),
{
    serde_json::to_string(s).ok()
}

/// The body posted to the catalog, from the JSON literals of the query and
/// of the search.
pub open spec fn request_frame(query: Seq<char>, search: Seq<char>) -> Seq<char> {
    "{\"query\":"@ + query + ",\"variables\":{\"search\":"@ + search + "}}"@
}

/// The body posted to the catalog for a search.
pub open spec fn request_text(search: Seq<char>) -> Seq<char> {
    request_frame(json_text(QUERY@), json_text(search))
}

/// The JSON body of the catalog query for `search`.
pub fn request_body(search: &str) -> (r: Option<String>)
    ensures
        r matches Some(b) && b@ == request_text(search@),
{
    let query = json_string(QUERY)?;
    let search = json_string(search)?;
    Some(frame_request(query.as_str(), search.as_str()))
}

/// Frames the JSON literals of the query and of the search as the body of
/// a catalog request.
pub fn frame_request(query: &str, search: &str) -> (r: String)
    ensures
        r@ == request_frame(query@, search@),
{
    let mut out: Vec<char> = Vec::new();
    push_str(&mut out, "{\"query\":");
    push_str(&mut out, query);
    push_str(&mut out, ",\"variables\":{\"search\":");
    push_str(&mut out, search);
    push_str(&mut out, "}}");
    string_of(&out)
}

pub open spec fn metadata_dir_text(title_path: Seq<char>) -> Seq<char> {
    title_path + "/.metadata"@
}

pub open spec fn data_file_text(title_path: Seq<char>) -> Seq<char> {
    metadata_dir_text(title_path) + "/data.json"@
}

pub open spec fn thumbnail_file_text(title_path: Seq<char>) -> Seq<char> {
    metadata_dir_text(title_path) + "/thumbnail.jpg"@
}

/// The directory that holds a title's cached artifacts.
pub fn metadata_dir(title_path: &str) -> (r: String)
    ensures
        r@ == metadata_dir_text(title_path@),
{
    let mut out: Vec<char> = Vec::new();
    push_str(&mut out, title_path);
    push_str(&mut out, "/.metadata");
    string_of(&out)
}

/// Where a title's catalog answer is cached.
pub fn data_file(title_path: &str) -> (r: String)
    ensures
        r@ == data_file_text(title_path@),
{
    let mut out: Vec<char> = Vec::new();
    push_str(&mut out, title_path);
    push_str(&mut out, "/.metadata");
    push_str(&mut out, "/data.json");
    string_of(&out)
}

/// Where a title's image is cached.
pub fn thumbnail_file(title_path: &str) -> (r: String)
    ensures
        r@ == thumbnail_file_text(title_path@),
{
    let mut out: Vec<char> = Vec::new();
    push_str(&mut out, title_path);
    push_str(&mut out, "/.metadata");
    push_str(&mut out, "/thumbnail.jpg");
    string_of(&out)
}

/// Where the data of a title comes from.
#[derive(Clone, Copy, Debug, PartialEq, Eq)]
pub enum QueryPlan {
    /// Both artifacts are on disk: read them, no network call.
    Cached,
    /// Query the catalog and download the image.
    Fetch,
}

/// Whether a listing of the metadata directory holds both artifacts.
pub open spec fn is_cached(files: Seq<Seq<char>>) -> bool {
    files.contains("thumbnail.jpg"@) && files.contains("data.json"@)
}

/// Decides, from the file names in a title's metadata directory, whether its
/// data is read from disk or fetched.
pub fn plan_query(files: &Vec<String>) -> (r: QueryPlan)
    ensures
        (r == QueryPlan::Cached) == is_cached(views(files@)),
{
    let thumbnail = String::from_str("thumbnail.jpg");
    let data = String::from_str("data.json");
    let mut has_thumbnail = false;
    let mut has_data = false;
    let mut i: usize = 0;
    while i < files.len()
        invariant
            i <= files@.len(),
            thumbnail@ == "thumbnail.jpg"@,
            data@ == "data.json"@,
            has_thumbnail == views(files@.subrange(0, i as int)).contains("thumbnail.jpg"@),
            has_data == views(files@.subrange(0, i as int)).contains("data.json"@),
        decreases files@.len() - i,
    {
        let ghost before = views(files@.subrange(0, i as int));
        let ghost after = views(files@.subrange(0, i + 1));
        assert(after =~= before.push(files@[i as int]@));
        if files[i] == thumbnail {
            has_thumbnail = true;
        }
        if files[i] == data {
            has_data = true;
        }
        i = i + 1;
        proof {
            assert(forall|x: Seq<char>| #[trigger] after.contains(x) <==> (before.contains(x) || x == files@[i - 1]@)) by {
                assert forall|x: Seq<char>| #[trigger] after.contains(x) implies (before.contains(x) || x == files@[i - 1]@) by {
                    let j = choose|j: int| 0 <= j < after.len() && after[j] == x;
                    if j < before.len() {
                        assert(before[j] == x);
                    }
                }
                assert forall|x: Seq<char>| before.contains(x) implies #[trigger] after.contains(x) by {
                    let j = choose|j: int| 0 <= j < before.len() && before[j] == x;
                    assert(after[j] == x);
                }
                assert(after[i - 1] == files@[i - 1]@);
            }
        }
    }
    assert(files@.subrange(0, i as int) =~= files@);
    if has_thumbnail && has_data {
        QueryPlan::Cached
    } else {
        QueryPlan::Fetch
    }
}

/// What follows an attempt to read a cached answer: nothing once it was
/// read; a fetch when it could not be, as an unreadable cache counts as
/// missing.
pub fn after_cached_read(read_ok: bool) -> (r: Option<QueryPlan>)
    ensures
        r == (if read_ok {
            None
        } else {
            Some(QueryPlan::Fetch)
        }),
{
    if read_ok {
        None
    } else {
        Some(QueryPlan::Fetch)
    }
}

/// Completes a catalog answer for the title at index `id` stored under
/// `title_path`: stamps the index, takes the main studio, cleans the
/// description and points at the cached image.
pub fn complete_query(query: Query, title_path: &str, id: usize) -> (r: Data)
    ensures
        r.id == id,
        r.thumbnail_path@ == thumbnail_file_text(title_path@),
        r.media.title == query.data.media.title,
        r.media.genres == query.data.media.genres,
        r.media.studios == query.data.media.studios,
        r.media.banner_image == query.data.media.banner_image,
        r.media.id == query.data.media.id,
        r.media.description@ == cleaned(query.data.media.description@),
        ({
            let edges = query.data.media.studios.edges@;
            let k = main_index(edges, 0);
            if k < edges.len() {
                r.studio@ == edges[k].node.name@
            } else {
                r.studio@ == Seq::<char>::empty()
            }
        }),
{
    let mut data = query.data;
    data.set_id(id);
    data.find_studio();
    data.clean_description();
    data.set_thumbnail_path(thumbnail_file(title_path));
    data
}

} // verus!
