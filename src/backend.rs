//! The library of titles: scanning, routing fetched data, and access by index.
use crate::episode::Episode;
use crate::meta::Meta;
use crate::query::{views, Data};
use crate::text::{push_str, string_of};
use crate::title::{toggled, Title};
use crate::video_metadata::{normalized, record_text, record_value, RecordError};
use vstd::prelude::*;

verus! {

/// What `alphanumeric_sort::sort_str_slice` leaves: the names in natural
/// order, numbers compared by value.
pub uninterp spec fn natural_sorted(names: Seq<Seq<char>>) -> Seq<Seq<char>>;

/// Relies on `alphanumeric_sort::sort_str_slice`: sorts in place, so the
/// same names remain, in natural order.
#[verifier::external_body]
fn sort_natural(names: &mut Vec<String>)
    ensures
        views(final(names)@) == natural_sorted(views(old(names)@)),
        views(final(names)@).to_multiset() == views(old(names)@).to_multiset(),
{
    alphanumeric_sort::sort_str_slice(names.as_mut_slice())
}

/// Whether a directory entry is hidden: its name starts with a point.
pub open spec fn is_hidden(name: Seq<char>) -> bool {
    name.len() > 0 && name[0] == '.'
}

/// The entries that are not hidden, in the order given.
pub open spec fn visible(names: Seq<Seq<char>>) -> Seq<Seq<char>>
    decreases names.len(),
{
    if names.len() == 0 {
        Seq::empty()
    } else if is_hidden(names.last()) {
        visible(names.drop_last())
    } else {
        visible(names.drop_last()).push(names.last())
    }
}

pub open spec fn title_names(titles: Seq<Title>) -> Seq<Seq<char>> {
    titles.map_values(|t: Title| t.name@)
}

pub open spec fn child_path(root: Seq<char>, name: Seq<char>) -> Seq<char> {
    root + "/"@ + name
}

/// The data that arrived last for the title at `id`, if any did.
pub open spec fn arrived(results: Seq<Data>, id: int) -> Option<Data>
    decreases results.len(),
{
    if results.len() == 0 {
        None
    } else if results.last().id == id {
        Some(results.last())
    } else {
        arrived(results.drop_last(), id)
    }
}

/// The tolerance of a fan-out to failures: a title gets data exactly when
/// some fetch for it succeeded, whatever failed beside it.
pub proof fn lemma_partial_failure(results: Seq<Data>, id: int)
    ensures
        arrived(results, id) is Some <==> exists|k: int| 0 <= k < results.len() && #[trigger] results[k].id == id,
        arrived(results, id) matches Some(d) ==> d.id == id,
    decreases results.len(),
{
    if results.len() > 0 {
        lemma_partial_failure(results.drop_last(), id);
        if arrived(results.drop_last(), id) is Some {
            let k = choose|k: int| 0 <= k < results.drop_last().len() && #[trigger] results.drop_last()[k].id == id;
            assert(results[k].id == id);
        }
        if exists|k: int| 0 <= k < results.len() && #[trigger] results[k].id == id {
            let k = choose|k: int| 0 <= k < results.len() && #[trigger] results[k].id == id;
            if k < results.len() - 1 {
                assert(results.drop_last()[k].id == id);
            }
        }
    }
}

/// A request from the user interface to the task that owns the library.
#[derive(Clone, Copy, Debug, PartialEq, Eq)]
pub enum BackendMessage {
    /// Load the episodes of a title; the flag forces a reload.
    LoadEpisodes(usize, bool),
    /// Play an episode of a title.
    WatchEpisode(usize, usize),
    /// Toggle the watched flag of an episode of a title.
    MarkEpisode(usize, usize),
    /// Toggle the watched flag of every episode of a title before the given one.
    MarkPreviousEpisodes(usize, usize),
    /// Scan the library anew.
    Restart,
}

/// The episode at `e` of the title at `t`, where both exist and the
/// episodes are loaded.
pub open spec fn episode_of(titles: Seq<Title>, t: int, e: int) -> Option<Episode> {
    if 0 <= t < titles.len() {
        match titles[t].episodes {
            Some(eps) => if 0 <= e < eps@.len() {
                Some(eps@[e])
            } else {
                None
            },
            None => None,
        }
    } else {
        None
    }
}

/// Two lists of titles that differ at most at index `t`.
pub open spec fn same_except(a: Seq<Title>, b: Seq<Title>, t: int) -> bool {
    &&& a.len() == b.len()
    &&& forall|i: int| 0 <= i < a.len() && i != t ==> #[trigger] b[i] == a[i]
}

/// Only the episodes of a title changed.
pub open spec fn same_but_episodes(before: Title, after: Title) -> bool {
    &&& after.name == before.name
    &&& after.path == before.path
    &&& after.data == before.data
    &&& after.count == before.count
    &&& after.episodes_cache == before.episodes_cache
}

/// `after` is `before` with the watched flag of episode `e` toggled.
pub open spec fn is_marked(before: Title, after: Title, e: int) -> bool {
    &&& same_but_episodes(before, after)
    &&& before.episodes matches Some(eps)
    &&& after.episodes matches Some(now)
    &&& now@ == eps@.update(e, Episode { metadata: toggled(eps@[e].metadata), ..eps@[e] })
}

/// `after` is `before` with the watched flag of each episode before `to`
/// toggled when there are that many, and `w` the records to write.
pub open spec fn marked_before(before: Title, after: Title, to: int, w: Seq<(String, Vec<u8>)>) -> bool {
    &&& same_but_episodes(before, after)
    &&& match before.episodes {
        Some(eps) => if to <= eps@.len() {
            &&& after.episodes matches Some(now)
            &&& now@.len() == eps@.len()
            &&& forall|i: int| 0 <= i < eps@.len() ==> #[trigger] now@[i] == (if i < to {
                Episode { metadata: toggled(eps@[i].metadata), ..eps@[i] }
            } else {
                eps@[i]
            })
            &&& w.len() == to
            &&& forall|i: int| 0 <= i < to ==> #[trigger] w[i].0@ == eps@[i].metadata_path@ && w[i].1@ == record_text(toggled(eps@[i].metadata))
        } else {
            after.episodes == before.episodes && w.len() == 0
        },
        None => after.episodes is None && w.len() == 0,
    }
}

/// The library: every title found under the root directory.
#[derive(Debug)]
pub struct Backend {
    pub titles: Vec<Title>,
    /// Number of titles.
    pub count: usize,
    /// The name shown for each title.
    pub title_cache: Vec<String>,
}

impl Backend {
    pub open spec fn wf(&self) -> bool {
        &&& self.count == self.titles@.len()
        &&& self.title_cache@.len() == self.titles@.len()
        &&& forall|i: int| 0 <= i < self.titles@.len() ==> #[trigger] self.title_cache@[i]@ == self.titles@[i].title_view()
        &&& forall|i: int| 0 <= i < self.titles@.len() ==> #[trigger] self.titles@[i].wf()
    }

    /// The entries of a directory that are not hidden, in natural order.
    pub fn get_files(entries: Vec<String>) -> (r: Vec<String>)
        ensures
            views(r@) == natural_sorted(visible(views(entries@))),
            views(r@).to_multiset() == visible(views(entries@)).to_multiset(),
    {
        let mut kept: Vec<String> = Vec::new();
        let mut i: usize = 0;
        while i < entries.len()
            invariant
                i <= entries@.len(),
                views(kept@) == visible(views(entries@.subrange(0, i as int))),
            decreases entries@.len() - i,
        {
            proof {
                assert(views(entries@.subrange(0, i + 1)).drop_last() =~= views(entries@.subrange(0, i as int)));
            }
            let name = &entries[i];
            let hidden = name.as_str().unicode_len() > 0 && name.as_str().get_char(0) == '.';
            if !hidden {
                kept.push(name.clone());
                assert(views(kept@) =~= visible(views(entries@.subrange(0, i as int))).push(entries@[i as int]@));
            }
            i = i + 1;
        }
        assert(entries@.subrange(0, i as int) =~= entries@);
        sort_natural(&mut kept);
        kept
    }

    /// The titles for the directories `entries` of `root`: hidden ones left
    /// out, the rest in natural order, none with data or episodes yet.
    pub fn load_titles(root: &str, entries: Vec<String>) -> (r: Vec<Title>)
        ensures
            r@.len() == natural_sorted(visible(views(entries@))).len(),
            title_names(r@).to_multiset() == visible(views(entries@)).to_multiset(),
            forall|i: int| 0 <= i < r@.len() ==> {
                let t = #[trigger] r@[i];
                &&& t.name@ == natural_sorted(visible(views(entries@)))[i]
                &&& t.path@ == child_path(root@, t.name@)
                &&& t.data is None
                &&& t.episodes is None
                &&& t.wf()
            },
    {
        let names = Backend::get_files(entries);
        let titles = Backend::titles_from_names(root, &names);
        proof {
            assert forall|j: int| 0 <= j < titles@.len() implies #[trigger] titles@[j].name@ == natural_sorted(visible(views(entries@)))[j] by {
                assert(views(names@)[j] == names@[j]@);
            }
            assert(title_names(titles@) =~= views(names@));
        }
        titles
    }

    /// One title for each directory name of `root`, in the order given.
    pub fn titles_from_names(root: &str, names: &Vec<String>) -> (r: Vec<Title>)
        ensures
            r@.len() == names@.len(),
            forall|i: int| 0 <= i < r@.len() ==> {
                let t = #[trigger] r@[i];
                &&& t.name@ == names@[i]@
                &&& t.path@ == child_path(root@, t.name@)
                &&& t.data is None
                &&& t.episodes is None
                &&& t.wf()
            },
    {
        let mut titles: Vec<Title> = Vec::new();
        let mut i: usize = 0;
        while i < names.len()
            invariant
                i <= names@.len(),
                titles@.len() == i,
                forall|j: int| 0 <= j < i ==> {
                    let t = #[trigger] titles@[j];
                    &&& t.name@ == names@[j]@
                    &&& t.path@ == child_path(root@, t.name@)
                    &&& t.data is None
                    &&& t.episodes is None
                    &&& t.wf()
                },
            decreases names@.len() - i,
        {
            let mut path: Vec<char> = Vec::new();
            push_str(&mut path, root);
            push_str(&mut path, "/");
            push_str(&mut path, names[i].as_str());
            titles.push(Title::new(string_of(&path), names[i].clone()));
            i = i + 1;
        }
        titles
    }

    /// Hands each fetched answer to the title whose index it carries, in
    /// the order they completed. A title that no answer names is left
    /// without data: its fetch failed.
    pub fn download_titles_data(titles: &mut Vec<Title>, results: Vec<Data>)
        ensures
            final(titles)@.len() == old(titles)@.len(),
            forall|i: int| 0 <= i < old(titles)@.len() ==> {
                let t = #[trigger] final(titles)@[i];
                &&& t == (Title { data: arrived(results@, i), ..old(titles)@[i] })
            },
    {
        let ghost start = titles@;
        let mut j: usize = 0;
        while j < titles.len()
            invariant
                j <= titles@.len(),
                titles@.len() == start.len(),
                forall|i: int| 0 <= i < start.len() ==> #[trigger] titles@[i] == (if i < j {
                    Title { data: None, ..start[i] }
                } else {
                    start[i]
                }),
            decreases start.len() - j,
        {
            titles[j].data = None;
            j = j + 1;
        }
        let mut results = results;
        let ghost all = results@;
        let n = results.len();
        let mut k: usize = 0;
        while k < n
            invariant
                n == all.len(),
                k <= n,
                results@ == all.subrange(k as int, n as int),
                titles@.len() == start.len(),
                forall|i: int| 0 <= i < start.len() ==> {
                    let t = #[trigger] titles@[i];
                    &&& t == (Title { data: arrived(all.subrange(0, k as int), i), ..start[i] })
                },
            decreases n - k,
        {
            let data = results.remove(0);
            proof {
                assert(data == all[k as int]);
                assert(results@ =~= all.subrange(k + 1, n as int));
                assert(all.subrange(0, k + 1).drop_last() =~= all.subrange(0, k as int));
            }
            let id = data.id;
            if id < titles.len() {
                titles[id].data = Some(data);
            }
            k = k + 1;
        }
        assert(all.subrange(0, n as int) =~= all);
    }

    /// The library over `titles`, each shown by its catalog name when it has
    /// one, else by its directory's name.
    pub fn new(titles: Vec<Title>) -> (r: Backend)
        requires
            forall|i: int| 0 <= i < titles@.len() ==> #[trigger] titles@[i].wf(),
        ensures
            r.wf(),
            r.titles == titles,
    {
        let mut names: Vec<String> = Vec::new();
        let mut i: usize = 0;
        while i < titles.len()
            invariant
                i <= titles@.len(),
                names@.len() == i,
                forall|j: int| 0 <= j < i ==> #[trigger] names@[j]@ == titles@[j].title_view(),
            decreases titles@.len() - i,
        {
            names.push(titles[i].title());
            i = i + 1;
        }
        let count = titles.len();
        Backend { titles, count, title_cache: names }
    }

    /// The episode at `episode_number` of the title at `title_number`, or
    /// `None` where either does not exist or the episodes are not loaded.
    pub fn get_episode(&self, title_number: usize, episode_number: usize) -> (r: Option<&Episode>)
        ensures
            match (if title_number < self.titles@.len() { self.titles@[title_number as int].episodes } else { None }) {
                Some(eps) => if episode_number < eps@.len() {
                    r == Some(&eps@[episode_number as int])
                } else {
                    r is None
                },
                None => r is None,
            },
    {
        if title_number < self.titles.len() {
            self.titles[title_number].get_episode(episode_number)
        } else {
            None
        }
    }

    /// The names shown for the titles, in order.
    pub fn cache(&self) -> (r: Vec<String>)
        ensures
            r@.len() == self.title_cache@.len(),
            forall|i: int| 0 <= i < r@.len() ==> #[trigger] r@[i]@ == self.title_cache@[i]@,
    {
        let mut out: Vec<String> = Vec::new();
        let mut i: usize = 0;
        while i < self.title_cache.len()
            invariant
                i <= self.title_cache@.len(),
                out@.len() == i,
                forall|j: int| 0 <= j < i ==> #[trigger] out@[j]@ == self.title_cache@[j]@,
            decreases self.title_cache@.len() - i,
        {
            out.push(self.title_cache[i].clone());
            i = i + 1;
        }
        out
    }

    /// The name shown for the title at `title_number`.
    pub fn get_title_name(&self, title_number: usize) -> (r: String)
        requires
            self.wf(),
            title_number < self.count,
        ensures
            r@ == self.titles@[title_number as int].title_view(),
    {
        self.title_cache[title_number].clone()
    }

    /// An episode's name and the time it takes to play: its whole duration
    /// once watched or when nothing remains recorded, else what remains.
    pub fn get_episode_data(&self, title_number: usize, episode_number: usize) -> (r: Option<(String, u64)>)
        ensures
            match (if title_number < self.titles@.len() { self.titles@[title_number as int].episodes } else { None }) {
                Some(eps) => if episode_number < eps@.len() {
                    let m = eps@[episode_number as int].metadata;
                    r matches Some(p) && p.0@ == eps@[episode_number as int].name@ && p.1 == (if m.watched || m.remaining == 0 {
                        m.duration
                    } else {
                        m.remaining
                    })
                } else {
                    r is None
                },
                None => r is None,
            },
    {
        match self.get_episode(title_number, episode_number) {
            Some(ep) => {
                let time = if ep.metadata.watched || ep.metadata.remaining == 0 {
                    ep.metadata.duration
                } else {
                    ep.metadata.remaining
                };
                Some((ep.name.clone(), time))
            },
            None => None,
        }
    }

    /// Toggles the watched flag of one episode; returns its record file and
    /// the record's new bytes, or `None` where there is no such episode.
    pub fn mark_episode(&mut self, title_number: usize, episode_number: usize) -> (r: Option<(String, Vec<u8>)>)
        requires
            old(self).wf(),
        ensures
            final(self).wf(),
            final(self).count == old(self).count,
            final(self).title_cache@ == old(self).title_cache@,
            match episode_of(old(self).titles@, title_number as int, episode_number as int) {
                Some(e) => {
                    &&& same_except(old(self).titles@, final(self).titles@, title_number as int)
                    &&& is_marked(old(self).titles@[title_number as int], final(self).titles@[title_number as int], episode_number as int)
                    &&& r matches Some(w)
                    &&& w.0@ == e.metadata_path@
                    &&& w.1@ == record_text(toggled(e.metadata))
                },
                None => r is None && final(self).titles@ == old(self).titles@,
            },
    {
        if title_number < self.titles.len() {
            let r = self.titles[title_number].mark_episode(episode_number);
            proof {
                if r is None {
                    assert(self.titles@ =~= old(self).titles@);
                }
            }
            assert(forall|i: int| 0 <= i < self.titles@.len() ==> #[trigger] self.titles@[i].title_view() == old(self).titles@[i].title_view());
            r
        } else {
            None
        }
    }

    /// Toggles the watched flag of every episode of a title before `to`;
    /// returns the records to write, or `None` where there is no such title.
    pub fn mark_previous_episodes(&mut self, title_number: usize, to: usize) -> (r: Option<Vec<(String, Vec<u8>)>>)
        requires
            old(self).wf(),
        ensures
            final(self).wf(),
            final(self).count == old(self).count,
            final(self).title_cache@ == old(self).title_cache@,
            same_except(old(self).titles@, final(self).titles@, title_number as int),
            title_number < old(self).titles@.len() ==> (r matches Some(w) && marked_before(
                old(self).titles@[title_number as int],
                final(self).titles@[title_number as int],
                to as int,
                w@,
            )),
            title_number >= old(self).titles@.len() ==> r is None && final(self).titles@ == old(self).titles@,
    {
        if title_number < self.titles.len() {
            let r = self.titles[title_number].as_watched(to);
            assert(forall|i: int| 0 <= i < self.titles@.len() ==> #[trigger] self.titles@[i].title_view() == old(self).titles@[i].title_view());
            Some(r)
        } else {
            None
        }
    }

    /// Reloads an episode's progress from the record the player left; `None`
    /// where there is no such episode, else whether the record was read.
    pub fn update_episode(&mut self, title_number: usize, episode_number: usize, record: &[u8]) -> (r: Option<Result<(), RecordError>>)
        requires
            old(self).wf(),
        ensures
            final(self).wf(),
            final(self).titles@.len() == old(self).titles@.len(),
            match (if title_number < old(self).titles@.len() { old(self).titles@[title_number as int].episodes } else { None }) {
                Some(eps) => if episode_number < eps@.len() {
                    let e = eps@[episode_number as int];
                    &&& final(self).titles@[title_number as int].episodes matches Some(now)
                    &&& match record_value(record@) {
                        Some(m) => r matches Some(Ok(_)) && now@ == eps@.update(episode_number as int, Episode { metadata: normalized(m), ..e }),
                        None => r == Some(Err::<(), RecordError>(RecordError::Malformed)) && now@ == eps@,
                    }
                } else {
                    r is None && final(self).titles@ == old(self).titles@
                },
                None => r is None && final(self).titles@ == old(self).titles@,
            },
    {
        if title_number < self.titles.len() {
            let r = self.titles[title_number].update_episode(episode_number, record);
            proof {
                if r is None {
                    assert(self.titles@ =~= old(self).titles@);
                }
            }
            assert(forall|i: int| 0 <= i < self.titles@.len() ==> #[trigger] self.titles@[i].title_view() == old(self).titles@[i].title_view());
            r
        } else {
            None
        }
    }
}

} // verus!
