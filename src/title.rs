//! One series: a directory of episodes and the catalog's data on it.
use crate::episode::Episode;
use crate::query::Data;
use crate::video_metadata::{normalized, record_text, record_value, RecordError, VideoMetadata};
use vstd::prelude::*;

verus! {

/// A series, backed by a directory of video files.
#[derive(Debug)]
pub struct Title {
    /// Number of loaded episodes.
    pub count: u16,
    /// The directory's name.
    pub name: String,
    /// The catalog's data, once fetched or read from the cache.
    pub data: Option<Data>,
    /// The episodes, once loaded.
    pub episodes: Option<Vec<Episode>>,
    /// The loaded episodes' names, in order.
    pub episodes_cache: Option<Vec<String>>,
    pub path: String,
}

/// The episodes that were built, in the order given.
pub open spec fn built(loaded: Seq<Option<Episode>>) -> Seq<Episode>
    decreases loaded.len(),
{
    if loaded.len() == 0 {
        Seq::empty()
    } else {
        match loaded.last() {
            Some(e) => built(loaded.drop_last()).push(e),
            None => built(loaded.drop_last()),
        }
    }
}

/// An episode numbered by its position.
pub open spec fn renumbered(e: Episode, i: int) -> Episode {
    Episode { number: i as u16, ..e }
}

pub open spec fn names(episodes: Seq<Episode>) -> Seq<Seq<char>> {
    episodes.map_values(|e: Episode| e.name@)
}

/// The same progress with the watched flag toggled.
pub open spec fn toggled(m: VideoMetadata) -> VideoMetadata {
    VideoMetadata {
        watched: !m.watched,
        current: if !m.watched {
            m.duration
        } else {
            0
        },
        ..m
    }
}

impl Title {
    /// The list of episodes is consistent: numbered by position, counted,
    /// and its names cached.
    pub open spec fn wf(&self) -> bool {
        match self.episodes {
            Some(eps) => {
                &&& self.count == eps@.len() as u16
                &&& forall|i: int| 0 <= i < eps@.len() ==> #[trigger] eps@[i].number == i as u16
                &&& self.episodes_cache matches Some(c)
                &&& c@.len() == eps@.len()
                &&& forall|i: int| 0 <= i < eps@.len() ==> #[trigger] c@[i]@ == eps@[i].name@
            },
            None => self.count == 0 && self.episodes_cache is None,
        }
    }

    /// A title for the directory `path` named `name`: no data, no episodes yet.
    pub fn new(path: String, name: String) -> (r: Title)
        ensures
            r.path == path,
            r.name == name,
            r.count == 0,
            r.data is None,
            r.episodes is None,
            r.wf(),
    {
        Title { count: 0, name, data: None, episodes: None, episodes_cache: None, path }
    }

    /// Whether loading has to build the episodes: on a refresh, or when
    /// they were never loaded.
    pub fn needs_loading(&self, refresh: bool) -> (r: bool)
        ensures
            r == (refresh || self.episodes is None),
    {
        refresh || self.episodes.is_none()
    }

    /// Replaces the episodes by those that were built, in the order given
    /// (the ones that failed are left out), numbered by position.
    pub fn set_episodes(&mut self, loaded: Vec<Option<Episode>>)
        ensures
            final(self).wf(),
            final(self).name == old(self).name,
            final(self).path == old(self).path,
            final(self).data == old(self).data,
            final(self).episodes matches Some(eps) && eps@.len() == built(loaded@).len()
                && forall|i: int| 0 <= i < eps@.len() ==> #[trigger] eps@[i] == renumbered(built(loaded@)[i], i),
    {
        let mut episodes: Vec<Episode> = Vec::new();
        let mut names: Vec<String> = Vec::new();
        let mut loaded = loaded;
        let ghost all = loaded@;
        let mut i: usize = 0;
        let n = loaded.len();
        while i < n
            invariant
                n == all.len(),
                i <= n,
                loaded@ == all.subrange(i as int, n as int),
                episodes@.len() == built(all.subrange(0, i as int)).len(),
                names@.len() == episodes@.len(),
                forall|j: int| 0 <= j < episodes@.len() ==> #[trigger] episodes@[j] == renumbered(built(all.subrange(0, i as int))[j], j),
                forall|j: int| 0 <= j < episodes@.len() ==> #[trigger] names@[j]@ == episodes@[j].name@,
            decreases n - i,
        {
            proof {
                assert(all.subrange(0, i + 1).drop_last() =~= all.subrange(0, i as int));
            }
            let item = loaded.remove(0);
            proof {
                assert(loaded@ =~= all.subrange(i + 1, n as int));
            }
            match item {
                Some(e) => {
                    let idx = episodes.len();
                    let e = e.change_number(idx);
                    names.push(e.name.clone());
                    episodes.push(e);
                },
                None => {},
            }
            i = i + 1;
        }
        proof {
            assert(all.subrange(0, n as int) =~= all);
        }
        self.count = #[verifier::truncate] (episodes.len() as u16);
        self.episodes_cache = Some(names);
        self.episodes = Some(episodes);
    }

    /// The loaded episodes' names; a single empty name when none are loaded.
    pub fn cache(&self) -> (r: Vec<String>)
        requires
            self.wf(),
        ensures
            match self.episodes {
                Some(eps) => r@.len() == eps@.len() && forall|i: int| 0 <= i < eps@.len() ==> #[trigger] r@[i]@ == eps@[i].name@,
                None => r@.len() == 1 && r@[0]@ == Seq::<char>::empty(),
            },
    {
        match &self.episodes_cache {
            Some(c) => {
                let mut out: Vec<String> = Vec::new();
                let mut i: usize = 0;
                while i < c.len()
                    invariant
                        i <= c@.len(),
                        out@.len() == i,
                        forall|j: int| 0 <= j < i ==> #[trigger] out@[j]@ == c@[j]@,
                    decreases c@.len() - i,
                {
                    out.push(c[i].clone());
                    i = i + 1;
                }
                out
            },
            None => {
                let mut out: Vec<String> = Vec::new();
                out.push(String::new());
                out
            },
        }
    }

    /// The episode at `number`, or `None` when it does not exist.
    pub fn get_episode(&self, number: usize) -> (r: Option<&Episode>)
        ensures
            match self.episodes {
                Some(eps) => if number < eps@.len() {
                    r == Some(&eps@[number as int])
                } else {
                    r is None
                },
                None => r is None,
            },
    {
        match &self.episodes {
            Some(eps) => if number < eps.len() {
                Some(&eps[number])
            } else {
                None
            },
            None => None,
        }
    }

    /// Reloads the progress of the episode at `number` from a record; `None`
    /// when there is no such episode.
    pub fn update_episode(&mut self, number: usize, record: &[u8]) -> (r: Option<Result<(), RecordError>>)
        requires
            old(self).wf(),
        ensures
            final(self).wf(),
            final(self).name == old(self).name,
            final(self).path == old(self).path,
            final(self).data == old(self).data,
            final(self).count == old(self).count,
            final(self).episodes_cache == old(self).episodes_cache,
            match old(self).episodes {
                Some(eps) => if number < eps@.len() {
                    &&& final(self).episodes matches Some(now)
                    &&& match record_value(record@) {
                        Some(m) => r matches Some(Ok(_)) && now@ == eps@.update(number as int, Episode { metadata: normalized(m), ..eps@[number as int] }),
                        None => r == Some(Err::<(), RecordError>(RecordError::Malformed)) && now@ == eps@,
                    }
                } else {
                    final(self).episodes == old(self).episodes && r is None
                },
                None => final(self).episodes is None && r is None,
            },
    {
        match self.episodes.take() {
            Some(mut eps) => {
                let mut r = None;
                if number < eps.len() {
                    let ghost before = eps@;
                    let res = eps[number].update(record);
                    proof {
                        if record_value(record@) is None {
                            assert(eps@ =~= before);
                        } else {
                            let m = record_value(record@)->0;
                            assert(eps@ =~= before.update(number as int, Episode { metadata: normalized(m), ..before[number as int] }));
                        }
                    }
                    r = Some(res);
                }
                self.episodes = Some(eps);
                r
            },
            None => None,
        }
    }

    /// Toggles the watched flag of the episode at `number` and returns its
    /// record file and the record's new bytes; `None` when there is no such
    /// episode.
    pub fn mark_episode(&mut self, number: usize) -> (r: Option<(String, Vec<u8>)>)
        requires
            old(self).wf(),
        ensures
            final(self).wf(),
            final(self).name == old(self).name,
            final(self).path == old(self).path,
            final(self).data == old(self).data,
            final(self).count == old(self).count,
            final(self).episodes_cache == old(self).episodes_cache,
            match old(self).episodes {
                Some(eps) => if number < eps@.len() {
                    &&& final(self).episodes matches Some(now)
                    &&& now@ == eps@.update(number as int, Episode { metadata: toggled(eps@[number as int].metadata), ..eps@[number as int] })
                    &&& r matches Some(w)
                    &&& w.0@ == eps@[number as int].metadata_path@
                    &&& w.1@ == record_text(toggled(eps@[number as int].metadata))
                } else {
                    final(self).episodes == old(self).episodes && r is None
                },
                None => final(self).episodes is None && r is None,
            },
    {
        match self.episodes.take() {
            Some(mut eps) => {
                let mut r = None;
                if number < eps.len() {
                    let path = eps[number].metadata_path.clone();
                    let record = eps[number].as_watched();
                    r = Some((path, record));
                }
                self.episodes = Some(eps);
                r
            },
            None => None,
        }
    }

    /// Toggles the watched flag of each episode before `to`, when there are
    /// that many, and returns the records to write, with their files.
    pub fn as_watched(&mut self, to: usize) -> (r: Vec<(String, Vec<u8>)>)
        requires
            old(self).wf(),
        ensures
            final(self).wf(),
            final(self).name == old(self).name,
            final(self).path == old(self).path,
            final(self).data == old(self).data,
            final(self).count == old(self).count,
            final(self).episodes_cache == old(self).episodes_cache,
            match old(self).episodes {
                Some(eps) => if to <= eps@.len() {
                    &&& final(self).episodes matches Some(now)
                    &&& now@.len() == eps@.len()
                    &&& forall|i: int| 0 <= i < eps@.len() ==> #[trigger] now@[i] == (if i < to {
                        Episode { metadata: toggled(eps@[i].metadata), ..eps@[i] }
                    } else {
                        eps@[i]
                    })
                    &&& r@.len() == to
                    &&& forall|i: int| 0 <= i < to ==> #[trigger] r@[i].0@ == eps@[i].metadata_path@ && r@[i].1@ == record_text(toggled(eps@[i].metadata))
                } else {
                    final(self).episodes == old(self).episodes && r@.len() == 0
                },
                None => final(self).episodes is None && r@.len() == 0,
            },
    {
        let mut out: Vec<(String, Vec<u8>)> = Vec::new();
        match self.episodes.take() {
            Some(mut eps) => {
                if to <= eps.len() {
                    let ghost before = eps@;
                    let mut i: usize = 0;
                    while i < to
                        invariant
                            to <= before.len(),
                            i <= to,
                            eps@.len() == before.len(),
                            forall|j: int| 0 <= j < before.len() ==> #[trigger] eps@[j] == (if j < i {
                                Episode { metadata: toggled(before[j].metadata), ..before[j] }
                            } else {
                                before[j]
                            }),
                            out@.len() == i,
                            forall|j: int| 0 <= j < i ==> #[trigger] out@[j].0@ == before[j].metadata_path@ && out@[j].1@ == record_text(toggled(before[j].metadata)),
                        decreases to - i,
                    {
                        let path = eps[i].metadata_path.clone();
                        let record = eps[i].as_watched();
                        assert(record@ == record_text(toggled(before[i as int].metadata)));
                        out.push((path, record));
                        assert(out@[i as int].0@ == before[i as int].metadata_path@);
                        i = i + 1;
                    }
                }
                self.episodes = Some(eps);
            },
            None => {},
        }
        out
    }
}

} // verus!
