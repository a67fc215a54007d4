//! What a user interface browses: the library snapshot and, for the title
//! list and each title's episode list, which entry is selected.
use crate::cache::{Cache, EpisodeCache, MetaCache, TitleCache};
use crate::navigation::{next, previous, Direction, Pointer};
use std::sync::Arc;
use vstd::prelude::*;

verus! {

/// The kind of the selected entry.
#[derive(Clone, Copy, Debug, PartialEq, Eq)]
pub enum FocusedType {
    /// A title, by index.
    Title(usize),
    /// An episode: its title's index and its number.
    Episode(usize, usize),
}

/// The snapshot and the selection in each of its lists.
#[derive(Debug)]
pub struct InnerData {
    /// Which list is shown: zero for the titles, `i + 1` for the episodes
    /// of title `i`.
    pub focused: usize,
    /// The selection in each list, the title list first.
    pub pointers: Vec<(Pointer, FocusedType)>,
    pub data: Cache,
}

impl InnerData {
    pub open spec fn wf(&self) -> bool {
        &&& self.data.wf()
        &&& self.pointers@.len() == self.data.size + 1
        &&& self.focused < self.pointers@.len()
        &&& self.pointers@[0].1 is Title
        &&& self.pointers@[0].0.size == self.data.size
        &&& forall|i: int| 1 <= i < self.pointers@.len() ==> #[trigger] self.pointers@[i].1 is Episode
        &&& forall|i: int| 0 <= i < self.pointers@.len() ==> #[trigger] self.pointers@[i].0.wf()
    }

    /// Browsing starts on the title list, at its first entry.
    pub fn new(data: Cache) -> (r: Self)
        requires
            data.wf(),
            data.size < usize::MAX,
        ensures
            r.wf(),
            r.focused == 0,
            r.data == data,
            r.pointers@[0].0.focused == 0,
    {
        let mut pointers: Vec<(Pointer, FocusedType)> = Vec::new();
        pointers.push((Pointer::new(data.size), FocusedType::Title(0)));
        let mut i: usize = 0;
        while i < data.size
            invariant
                i <= data.size,
                pointers@.len() == i + 1,
                pointers@[0].1 is Title,
                pointers@[0].0.size == data.size,
                pointers@[0].0.focused == 0,
                forall|j: int| 1 <= j < pointers@.len() ==> #[trigger] pointers@[j].1 is Episode,
                forall|j: int| 0 <= j < pointers@.len() ==> #[trigger] pointers@[j].0.wf(),
            decreases data.size - i,
        {
            pointers.push((Pointer::new(0), FocusedType::Episode(0, 0)));
            i = i + 1;
        }
        InnerData { pointers, data, focused: 0 }
    }

    /// Moves the selection of the shown list one entry up or down.
    pub fn update(&mut self, direction: Direction)
        requires
            old(self).wf(),
        ensures
            final(self).wf(),
            final(self).focused == old(self).focused,
            final(self).data == old(self).data,
            ({
                let p = old(self).pointers@[old(self).focused as int];
                final(self).pointers@ == old(self).pointers@.update(old(self).focused as int, (Pointer {
                    focused: (if p.0.size == 0 {
                        p.0.focused as nat
                    } else {
                        match direction {
                            Direction::Up => previous(p.0.focused as nat, p.0.size as nat),
                            Direction::Down => next(p.0.focused as nat, p.0.size as nat),
                        }
                    }) as usize,
                    ..p.0
                }, p.1))
            }),
    {
        let (mut pointer, kind) = self.pointers[self.focused];
        pointer.update(direction);
        self.pointers.set(self.focused, (pointer, kind));
    }

    /// Shows the episodes of title `title_number`, from their new snapshot.
    /// A selection beyond the new list goes back to its first entry.
    pub fn set_title_cache(&mut self, title_cache: TitleCache, title_number: usize)
        requires
            old(self).wf(),
            title_number < old(self).data.size,
        ensures
            final(self).wf(),
            final(self).focused == title_number + 1,
            final(self).data.titles_cache@ == old(self).data.titles_cache@.update(title_number as int, title_cache),
            final(self).data.size == old(self).data.size,
            final(self).data.titles_names == old(self).data.titles_names,
            final(self).pointers@.len() == old(self).pointers@.len(),
            final(self).pointers@[title_number + 1].0.size == title_cache.size,
            final(self).pointers@[title_number + 1].1 == old(self).pointers@[title_number + 1].1,
            final(self).pointers@[title_number + 1].0.focused == (if old(self).pointers@[title_number + 1].0.focused < title_cache.size {
                old(self).pointers@[title_number + 1].0.focused
            } else {
                0
            }),
            forall|i: int| 0 <= i < old(self).pointers@.len() && i != title_number + 1 ==> #[trigger] final(self).pointers@[i] == old(self).pointers@[i],
    {
        self.focused = title_number + 1;
        let (mut pointer, kind) = self.pointers[self.focused];
        pointer.size = title_cache.size;
        if pointer.focused >= pointer.size {
            pointer.focused = 0;
        }
        self.pointers.set(self.focused, (pointer, kind));
        self.data.set_title_cache(title_cache, title_number);
    }

    /// Replaces episode snapshots of title `title_number`, each at the
    /// number it carries.
    pub fn set_episodes_cache(&mut self, title_number: usize, episodes_cache: Vec<EpisodeCache>)
        requires
            old(self).wf(),
            title_number < old(self).data.size,
        ensures
            final(self).wf(),
            final(self).focused == old(self).focused,
            final(self).pointers == old(self).pointers,
            final(self).data.size == old(self).data.size,
            final(self).data.titles_names == old(self).data.titles_names,
            forall|i: int| 0 <= i < old(self).data.size && i != title_number ==> #[trigger] final(self).data.titles_cache@[i] == old(self).data.titles_cache@[i],
    {
        let mut episodes_cache = episodes_cache;
        let n = episodes_cache.len();
        let mut k: usize = 0;
        while k < n
            invariant
                self.wf(),
                title_number < self.data.size,
                self.focused == old(self).focused,
                self.pointers == old(self).pointers,
                self.data.size == old(self).data.size,
                self.data.titles_names == old(self).data.titles_names,
                forall|i: int| 0 <= i < old(self).data.size && i != title_number ==> #[trigger] self.data.titles_cache@[i] == old(self).data.titles_cache@[i],
                episodes_cache@.len() == n - k,
                k <= n,
            decreases n - k,
        {
            let ep = episodes_cache.remove(0);
            let title = self.data.get_mut_title(title_number);
            title.set_episode_cache(ep);
            k = k + 1;
        }
    }

    /// What the selected entry shows; the empty description where it has
    /// no snapshot.
    pub fn get_metacache(&self) -> (r: Arc<MetaCache>)
        requires
            self.wf(),
        ensures
            ({
                let p = self.pointers@[self.focused as int].0;
                if self.focused == 0 {
                    if p.focused < self.data.size {
                        *r == *self.data.titles_cache@[p.focused as int].cache
                    } else {
                        r.thumbnail is None && r.description@ == crate::meta::no_description()
                    }
                } else {
                    match self.data.titles_cache@[self.focused - 1].episodes_cache {
                        Some(c) => if p.focused < c@.len() {
                            *r == *c@[p.focused as int].cache
                        } else {
                            r.thumbnail is None && r.description@ == crate::meta::no_description()
                        },
                        None => r.thumbnail is None && r.description@ == crate::meta::no_description(),
                    }
                }
            }),
    {
        let (pointer, _) = self.pointers[self.focused];
        if self.focused == 0 {
            if pointer.focused < self.data.size {
                self.data.get_title_cache(pointer.focused)
            } else {
                Arc::new(MetaCache::empty())
            }
        } else {
            match self.data.get_title(self.focused - 1).get_episode_cache(pointer.focused) {
                Some(m) => m,
                None => Arc::new(MetaCache::empty()),
            }
        }
    }

    /// The selected entry.
    pub fn get_type(&self) -> (r: FocusedType)
        requires
            self.wf(),
        ensures
            r == (if self.focused == 0 {
                FocusedType::Title(self.pointers@[0].0.focused)
            } else {
                FocusedType::Episode((self.focused - 1) as usize, self.pointers@[self.focused as int].0.focused)
            }),
    {
        let (pointer, _) = self.pointers[self.focused];
        if self.focused == 0 {
            FocusedType::Title(pointer.focused)
        } else {
            FocusedType::Episode(self.focused - 1, pointer.focused)
        }
    }

    /// Goes back to the title list.
    pub fn back(&mut self)
        requires
            old(self).wf(),
        ensures
            final(self).wf(),
            final(self).focused == 0,
            final(self).pointers == old(self).pointers,
            final(self).data == old(self).data,
    {
        self.focused = 0;
    }
}

} // verus!
