//! What a title and an episode share for display: a thumbnail, a
//! description and a name.
use crate::episode::Episode;
use crate::query::media_text;
use crate::query::views;
use crate::text::{push_str, string_of};
use crate::title::Title;
use crate::video_metadata::progress_text;
use vstd::prelude::*;

verus! {

/// Which of the two kinds an item is.
#[derive(Clone, Copy, Debug, PartialEq, Eq, Hash)]
pub enum MetaType {
    Title,
    Episode,
}

pub open spec fn opt_view(o: Option<String>) -> Option<Seq<char>> {
    match o {
        Some(s) => Some(s@),
        None => None,
    }
}

/// An item whose thumbnail, description and name can be displayed.
pub trait Meta {
    spec fn thumbnail_view(&self) -> Option<Seq<char>>;

    spec fn description_view(&self) -> Seq<char>;

    spec fn title_view(&self) -> Seq<char>;

    spec fn mtype_view(&self) -> MetaType;

    /// Path of the item's image, if it has one.
    fn thumbnail(&self) -> (r: Option<String>)
        ensures
            opt_view(r) == self.thumbnail_view(),
    ;

    /// The item's description.
    fn description(&self) -> (r: String)
        ensures
            r@ == self.description_view(),
    ;

    /// The item's name.
    fn title(&self) -> (r: String)
        ensures
            r@ == self.title_view(),
    ;

    fn mtype(&self) -> (r: MetaType)
        ensures
            r == self.mtype_view(),
    ;
}

/// Shown where a title has no catalog data.
pub open spec fn no_description() -> Seq<char> {
    "No description found..."@
}

impl Meta for Title {
    open spec fn thumbnail_view(&self) -> Option<Seq<char>> {
        match self.data {
            Some(d) => Some(d.thumbnail_path@),
            None => None,
        }
    }

    open spec fn description_view(&self) -> Seq<char> {
        match self.data {
            Some(d) => media_text(d.media.description@, views(d.media.genres@)) + "\n\nStudio: "@
                + d.studio@,
            None => no_description(),
        }
    }

    open spec fn title_view(&self) -> Seq<char> {
        match self.data {
            Some(d) => d.media.title.english@,
            None => self.name@,
        }
    }

    open spec fn mtype_view(&self) -> MetaType {
        MetaType::Title
    }

    fn thumbnail(&self) -> (r: Option<String>) {
        match &self.data {
            Some(d) => Some(d.thumbnail_path.clone()),
            None => None,
        }
    }

    fn description(&self) -> (r: String) {
        match &self.data {
            Some(d) => {
                let media = d.media.to_str();
                let mut out: Vec<char> = Vec::new();
                push_str(&mut out, media.as_str());
                push_str(&mut out, "\n\nStudio: ");
                push_str(&mut out, d.studio.as_str());
                string_of(&out)
            },
            None => String::from_str("No description found..."),
        }
    }

    fn title(&self) -> (r: String) {
        match &self.data {
            Some(d) => d.media.title.english.clone(),
            None => self.name.clone(),
        }
    }

    fn mtype(&self) -> (r: MetaType) {
        MetaType::Title
    }
}

impl Meta for Episode {
    open spec fn thumbnail_view(&self) -> Option<Seq<char>> {
        Some(self.thumbnail_path@)
    }

    open spec fn description_view(&self) -> Seq<char> {
        progress_text(self.metadata)
    }

    open spec fn title_view(&self) -> Seq<char> {
        self.name@
    }

    open spec fn mtype_view(&self) -> MetaType {
        MetaType::Episode
    }

    fn thumbnail(&self) -> (r: Option<String>) {
        Some(self.thumbnail_path.clone())
    }

    fn description(&self) -> (r: String) {
        self.metadata.to_str()
    }

    fn title(&self) -> (r: String) {
        self.name.clone()
    }

    fn mtype(&self) -> (r: MetaType) {
        MetaType::Episode
    }
}

} // verus!
