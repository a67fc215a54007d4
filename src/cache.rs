//! A read-only snapshot of the library for a user interface: names,
//! descriptions, thumbnails and watched flags, shared rather than copied
//! where it is large, and replaced by index when the library changes.
use crate::backend::Backend;
use crate::episode::Episode;
use crate::meta::{no_description, opt_view, Meta};
use crate::title::Title;
use std::sync::Arc;
use vstd::prelude::*;

verus! {

/// Relies on `Arc::clone`: the new handle shares the same value.
#[verifier::external_body]
fn share(a: &Arc<MetaCache>) -> (r: Arc<MetaCache>)
    ensures
        *r == **a,
{
    Arc::clone(a)
}

/// A copy of what an item shows: its thumbnail and its description.
#[derive(Clone, Debug, PartialEq, Eq, Hash)]
pub struct MetaCache {
    pub thumbnail: Option<String>,
    pub description: String,
}

impl MetaCache {
    /// No thumbnail, and the text shown where there is no description.
    pub fn empty() -> (r: Self)
        ensures
            r.thumbnail is None,
            r.description@ == no_description(),
    {
        MetaCache { thumbnail: None, description: String::from_str("No description found...") }
    }

    /// What `item` shows.
    pub fn from_meta<M: Meta>(item: &M) -> (r: Self)
        ensures
            opt_view(r.thumbnail) == item.thumbnail_view(),
            r.description@ == item.description_view(),
    {
        MetaCache { thumbnail: item.thumbnail(), description: item.description() }
    }
}

/// A copy of what an episode shows.
#[derive(Clone, Debug)]
pub struct EpisodeCache {
    pub number: u16,
    pub watched: bool,
    pub cache: Arc<MetaCache>,
}

impl EpisodeCache {
    pub open spec fn of(&self, episode: Episode) -> bool {
        &&& self.number == episode.number
        &&& self.watched == episode.metadata.watched
        &&& opt_view(self.cache.thumbnail) == episode.thumbnail_view()
        &&& self.cache.description@ == episode.description_view()
    }

    pub fn new(episode: &Episode) -> (r: Self)
        ensures
            r.of(*episode),
    {
        EpisodeCache {
            number: episode.number,
            watched: episode.metadata.watched,
            cache: Arc::new(MetaCache::from_meta(episode)),
        }
    }
}

/// `copies` holds the copies of the episodes of `title` before `to`.
pub open spec fn copies_before(title: Title, to: int, copies: Seq<EpisodeCache>) -> bool {
    match title.episodes {
        Some(eps) => {
            &&& copies.len() == (if to < eps@.len() { to } else { eps@.len() as int })
            &&& forall|i: int| 0 <= i < copies.len() ==> #[trigger] copies[i].of(eps@[i])
        },
        None => copies.len() == 0,
    }
}

/// Copies of the episodes of `title` before `to` (all of them where there
/// are fewer), to replace in a snapshot after they changed.
pub fn episodes_before(title: &Title, to: usize) -> (r: Vec<EpisodeCache>)
    ensures
        copies_before(*title, to as int, r@),
{
    let mut out: Vec<EpisodeCache> = Vec::new();
    match &title.episodes {
        Some(eps) => {
            let n = if to < eps.len() {
                to
            } else {
                eps.len()
            };
            let mut i: usize = 0;
            while i < n
                invariant
                    n <= eps@.len(),
                    i <= n,
                    out@.len() == i,
                    forall|j: int| 0 <= j < i ==> #[trigger] out@[j].of(eps@[j]),
                decreases n - i,
            {
                out.push(EpisodeCache::new(&eps[i]));
                i = i + 1;
            }
        },
        None => {},
    }
    out
}

/// A copy of what a title shows, with its episodes once they are loaded.
#[derive(Clone, Debug)]
pub struct TitleCache {
    /// Number of episodes.
    pub size: usize,
    pub cache: Arc<MetaCache>,
    pub episodes_names: Option<Vec<String>>,
    pub episodes_cache: Option<Vec<EpisodeCache>>,
}

impl TitleCache {
    /// What `title` shows, without its episodes.
    pub fn without_episodes(title: &Title) -> (r: Self)
        ensures
            r.size == title.count,
            opt_view(r.cache.thumbnail) == title.thumbnail_view(),
            r.cache.description@ == title.description_view(),
            r.episodes_names is None,
            r.episodes_cache is None,
    {
        TitleCache {
            size: title.count as usize,
            cache: Arc::new(MetaCache::from_meta(title)),
            episodes_names: None,
            episodes_cache: None,
        }
    }

    /// This copy shows `title` with its loaded episodes.
    pub open spec fn shows(&self, title: Title) -> bool {
        &&& title.episodes is Some
        &&& self.size == title.count
        &&& opt_view(self.cache.thumbnail) == title.thumbnail_view()
        &&& self.cache.description@ == title.description_view()
        &&& ({
            let eps = title.episodes->0@;
            &&& self.episodes_names matches Some(n)
            &&& n@.len() == eps.len()
            &&& forall|i: int| 0 <= i < eps.len() ==> #[trigger] n@[i]@ == eps[i].name@
            &&& self.episodes_cache matches Some(c)
            &&& c@.len() == eps.len()
            &&& forall|i: int| 0 <= i < eps.len() ==> #[trigger] c@[i].of(eps[i])
        })
    }

    /// What `title` shows, with its loaded episodes.
    pub fn with_episodes(title: &Title) -> (r: Self)
        requires
            title.wf(),
            title.episodes is Some,
        ensures
            r.shows(*title),
            r.size == title.count,
            opt_view(r.cache.thumbnail) == title.thumbnail_view(),
            r.cache.description@ == title.description_view(),
            ({
                let eps = title.episodes->0@;
                &&& r.episodes_names matches Some(n)
                &&& n@.len() == eps.len()
                &&& forall|i: int| 0 <= i < eps.len() ==> #[trigger] n@[i]@ == eps[i].name@
                &&& r.episodes_cache matches Some(c)
                &&& c@.len() == eps.len()
                &&& forall|i: int| 0 <= i < eps.len() ==> #[trigger] c@[i].of(eps[i])
            }),
    {
        let names = title.cache();
        let mut caches: Vec<EpisodeCache> = Vec::new();
        match &title.episodes {
            Some(eps) => {
                let mut i: usize = 0;
                while i < eps.len()
                    invariant
                        i <= eps@.len(),
                        caches@.len() == i,
                        forall|j: int| 0 <= j < i ==> #[trigger] caches@[j].of(eps@[j]),
                    decreases eps@.len() - i,
                {
                    caches.push(EpisodeCache::new(&eps[i]));
                    i = i + 1;
                }
            },
            None => {},
        }
        TitleCache {
            size: title.count as usize,
            cache: Arc::new(MetaCache::from_meta(title)),
            episodes_names: Some(names),
            episodes_cache: Some(caches),
        }
    }

    /// The episode copy at `number`, or `None` when there is none.
    pub fn get_episode(&self, number: usize) -> (r: Option<&EpisodeCache>)
        ensures
            match self.episodes_cache {
                Some(c) => if number < c@.len() {
                    r == Some(&c@[number as int])
                } else {
                    r is None
                },
                None => r is None,
            },
    {
        match &self.episodes_cache {
            Some(c) => if number < c.len() {
                Some(&c[number])
            } else {
                None
            },
            None => None,
        }
    }

    /// A shared handle on what the episode at `number` shows.
    pub fn get_episode_cache(&self, number: usize) -> (r: Option<Arc<MetaCache>>)
        ensures
            match self.episodes_cache {
                Some(c) => if number < c@.len() {
                    r matches Some(m) && *m == *c@[number as int].cache
                } else {
                    r is None
                },
                None => r is None,
            },
    {
        match &self.episodes_cache {
            Some(c) => if number < c.len() {
                Some(share(&c[number].cache))
            } else {
                None
            },
            None => None,
        }
    }

    /// Replaces the episode copy at the number it carries; nothing happens
    /// when there is no episode there.
    pub fn set_episode_cache(&mut self, episode_cache: EpisodeCache)
        ensures
            final(self).size == old(self).size,
            final(self).cache == old(self).cache,
            final(self).episodes_names == old(self).episodes_names,
            match old(self).episodes_cache {
                Some(c) => if (episode_cache.number as int) < c@.len() {
                    final(self).episodes_cache matches Some(now) && now@ == c@.update(episode_cache.number as int, episode_cache)
                } else {
                    final(self).episodes_cache == old(self).episodes_cache
                },
                None => final(self).episodes_cache is None,
            },
    {
        let number = episode_cache.number as usize;
        match self.episodes_cache.take() {
            Some(mut c) => {
                if number < c.len() {
                    c.set(number, episode_cache);
                }
                self.episodes_cache = Some(c);
            },
            None => {},
        }
    }
}

/// The snapshot of the whole library.
#[derive(Clone, Debug)]
pub struct Cache {
    /// Number of titles.
    pub size: usize,
    pub titles_names: Vec<String>,
    pub titles_cache: Vec<TitleCache>,
}

impl Cache {
    pub open spec fn wf(&self) -> bool {
        &&& self.titles_cache@.len() == self.size
        &&& self.titles_names@.len() == self.size
    }

    /// The snapshot of `backend`: its titles' names and, for each title,
    /// what it shows without its episodes.
    pub fn new(backend: &Backend) -> (r: Self)
        requires
            backend.wf(),
        ensures
            r.wf(),
            r.size == backend.count,
            forall|i: int| 0 <= i < r.size ==> #[trigger] r.titles_names@[i]@ == backend.titles@[i].title_view(),
            forall|i: int| 0 <= i < r.size ==> {
                let t = #[trigger] r.titles_cache@[i];
                &&& t.size == backend.titles@[i].count
                &&& opt_view(t.cache.thumbnail) == backend.titles@[i].thumbnail_view()
                &&& t.cache.description@ == backend.titles@[i].description_view()
                &&& t.episodes_names is None
                &&& t.episodes_cache is None
            },
    {
        let mut caches: Vec<TitleCache> = Vec::new();
        let mut i: usize = 0;
        while i < backend.titles.len()
            invariant
                i <= backend.titles@.len(),
                caches@.len() == i,
                forall|j: int| 0 <= j < i ==> {
                    let t = #[trigger] caches@[j];
                    &&& t.size == backend.titles@[j].count
                    &&& opt_view(t.cache.thumbnail) == backend.titles@[j].thumbnail_view()
                    &&& t.cache.description@ == backend.titles@[j].description_view()
                    &&& t.episodes_names is None
                    &&& t.episodes_cache is None
                },
            decreases backend.titles@.len() - i,
        {
            caches.push(TitleCache::without_episodes(&backend.titles[i]));
            i = i + 1;
        }
        Cache { titles_names: backend.cache(), titles_cache: caches, size: backend.count }
    }

    /// The title copy at `number`.
    pub fn get_title(&self, number: usize) -> (r: &TitleCache)
        requires
            number < self.titles_cache@.len(),
        ensures
            *r == self.titles_cache@[number as int],
    {
        &self.titles_cache[number]
    }

    /// A mutable handle on the title copy at `number`.
    pub fn get_mut_title(&mut self, number: usize) -> (r: &mut TitleCache)
        requires
            number < old(self).titles_cache@.len(),
        ensures
            *r == old(self).titles_cache@[number as int],
            final(self).titles_cache@ == old(self).titles_cache@.update(number as int, *final(r)),
            final(self).size == old(self).size,
            final(self).titles_names == old(self).titles_names,
    {
        &mut self.titles_cache[number]
    }

    /// Number of episodes of the title at `number`.
    pub fn get_title_size(&self, number: usize) -> (r: usize)
        requires
            number < self.titles_cache@.len(),
        ensures
            r == self.titles_cache@[number as int].size,
    {
        self.titles_cache[number].size
    }

    /// A shared handle on what the title at `number` shows.
    pub fn get_title_cache(&self, number: usize) -> (r: Arc<MetaCache>)
        requires
            number < self.titles_cache@.len(),
        ensures
            *r == *self.titles_cache@[number as int].cache,
    {
        share(&self.titles_cache[number].cache)
    }

    /// Replaces the title copy at `number`.
    pub fn set_title_cache(&mut self, title_cache: TitleCache, number: usize)
        requires
            number < old(self).titles_cache@.len(),
        ensures
            final(self).titles_cache@ == old(self).titles_cache@.update(number as int, title_cache),
            final(self).size == old(self).size,
            final(self).titles_names == old(self).titles_names,
    {
        self.titles_cache.set(number, title_cache);
    }
}

} // verus!
