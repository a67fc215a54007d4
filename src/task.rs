//! The decisions of the task that owns the library: from its state and a
//! request, the work to carry out, and from the outcome of that work, the
//! reply and the next state. Waiting for requests and doing the work (file
//! I/O, the player) is left to the caller; a failed request is answered
//! with an error and the task stays ready.
use crate::backend::{episode_of, is_marked, marked_before, same_except, Backend, BackendMessage};
use crate::cache::{copies_before, episodes_before, EpisodeCache, TitleCache};
use crate::title::toggled;
use crate::video_metadata::record_text;
use vstd::prelude::*;

verus! {

/// Where the task stands.
#[derive(Clone, Copy, Debug, PartialEq, Eq)]
pub enum TaskState {
    /// The library could not be built; only a restart is heard.
    Idle,
    /// The library is being built.
    Starting,
    /// The library serves requests.
    Ready,
}

/// The first reply, once building the library ended.
#[derive(Clone, Copy, Debug, PartialEq, Eq)]
pub enum ReplyKind {
    /// The library is ready; the snapshot goes with this reply.
    Ready,
    /// Building failed; the user is offered to choose another folder.
    Recovery,
}

/// What the caller carries out for a request.
#[derive(Clone, Debug)]
pub enum Work {
    Nothing,
    /// Load (or, with the flag, reload) the episodes of a title.
    LoadEpisodes(usize, bool),
    /// Play an episode of a title, then reload its record.
    Play(usize, usize),
    /// Write these records, each to its file.
    Write(Vec<(String, Vec<u8>)>),
}

/// The answer to a request.
#[derive(Clone, Debug)]
pub enum Reply {
    /// The library is to be built anew.
    ToLoad,
    /// A title's episodes were loaded: its new snapshot.
    EpisodesLoaded(usize, TitleCache),
    /// Episodes of a title changed: their new snapshots.
    UpdateEpisode(usize, Vec<EpisodeCache>),
    /// The request failed; the text says how.
    Error(String),
}

pub open spec fn no_title() -> Seq<char> {
    "No title found!"@
}

pub open spec fn no_episode() -> Seq<char> {
    "No episode found!"@
}

pub open spec fn title_failed() -> Seq<char> {
    "Could not load title!"@
}

pub open spec fn episode_failed() -> Seq<char> {
    "Could not load episode!"@
}

/// An error reply with this text, the task staying ready.
pub open spec fn is_error(r: (Reply, TaskState), text: Seq<char>) -> bool {
    &&& r.1 == TaskState::Ready
    &&& r.0 matches Reply::Error(s)
    &&& s@ == text
}

/// The library's titles and names are as they were.
pub open spec fn unchanged(before: Backend, after: Backend) -> bool {
    &&& after.titles@ == before.titles@
    &&& after.count == before.count
    &&& after.title_cache@ == before.title_cache@
}

fn error(text: &str) -> (r: (Reply, TaskState))
    ensures
        is_error(r, text@),
{
    (Reply::Error(String::from_str(text)), TaskState::Ready)
}

/// The state and first reply once building the library ended: ready with
/// its snapshot, or idle with a recovery offer.
pub fn on_start(ok: bool) -> (r: (ReplyKind, TaskState))
    ensures
        r == (if ok {
            (ReplyKind::Ready, TaskState::Ready)
        } else {
            (ReplyKind::Recovery, TaskState::Idle)
        }),
{
    if ok {
        (ReplyKind::Ready, TaskState::Ready)
    } else {
        (ReplyKind::Recovery, TaskState::Idle)
    }
}

/// Without a library only a restart is heard; other requests are dropped.
pub fn on_idle(msg: BackendMessage) -> (r: (Option<Reply>, TaskState))
    ensures
        msg is Restart ==> (r.0 matches Some(Reply::ToLoad) && r.1 == TaskState::Starting),
        !(msg is Restart) ==> r.0 is None && r.1 == TaskState::Idle,
{
    match msg {
        BackendMessage::Restart => (Some(Reply::ToLoad), TaskState::Starting),
        _ => (None, TaskState::Idle),
    }
}

/// Decides what a request asks of a ready library. Marking is done here,
/// and the records to write are handed out; a request for a title or
/// episode that does not exist is answered at once with an error.
pub fn on_message(backend: &mut Backend, msg: BackendMessage) -> (r: (Work, Option<(Reply, TaskState)>))
    requires
        old(backend).wf(),
    ensures
        final(backend).wf(),
        match msg {
            BackendMessage::LoadEpisodes(t, refresh) => unchanged(*old(backend), *final(backend)) && if t < old(backend).count {
                r.0 == Work::LoadEpisodes(t, refresh) && r.1 is None
            } else {
                r.0 is Nothing && (r.1 matches Some(e) && is_error(e, no_title()))
            },
            BackendMessage::WatchEpisode(t, e) => unchanged(*old(backend), *final(backend)) && if episode_of(old(backend).titles@, t as int, e as int) is Some {
                r.0 == Work::Play(t, e) && r.1 is None
            } else {
                r.0 is Nothing && (r.1 matches Some(x) && is_error(x, no_episode()))
            },
            BackendMessage::MarkEpisode(t, e) => match episode_of(old(backend).titles@, t as int, e as int) {
                Some(ep) => {
                    &&& final(backend).count == old(backend).count
                    &&& final(backend).title_cache@ == old(backend).title_cache@
                    &&& same_except(old(backend).titles@, final(backend).titles@, t as int)
                    &&& is_marked(old(backend).titles@[t as int], final(backend).titles@[t as int], e as int)
                    &&& r.1 is None
                    &&& r.0 matches Work::Write(w)
                    &&& w@.len() == 1
                    &&& w@[0].0@ == ep.metadata_path@
                    &&& w@[0].1@ == record_text(toggled(ep.metadata))
                },
                None => unchanged(*old(backend), *final(backend)) && r.0 is Nothing && (r.1 matches Some(x) && is_error(x, no_episode())),
            },
            BackendMessage::MarkPreviousEpisodes(t, to) => if t < old(backend).count {
                &&& final(backend).count == old(backend).count
                &&& final(backend).title_cache@ == old(backend).title_cache@
                &&& same_except(old(backend).titles@, final(backend).titles@, t as int)
                &&& r.1 is None
                &&& r.0 matches Work::Write(w)
                &&& marked_before(old(backend).titles@[t as int], final(backend).titles@[t as int], to as int, w@)
            } else {
                unchanged(*old(backend), *final(backend)) && r.0 is Nothing && (r.1 matches Some(x) && is_error(x, no_title()))
            },
            BackendMessage::Restart => unchanged(*old(backend), *final(backend)) && r.0 is Nothing
                && (r.1 matches Some(x) && x.0 is ToLoad && x.1 == TaskState::Starting),
        },
{
    match msg {
        BackendMessage::LoadEpisodes(t, refresh) => {
            if t < backend.count {
                (Work::LoadEpisodes(t, refresh), None)
            } else {
                (Work::Nothing, Some(error("No title found!")))
            }
        },
        BackendMessage::WatchEpisode(t, e) => {
            match backend.get_episode(t, e) {
                Some(_) => (Work::Play(t, e), None),
                None => (Work::Nothing, Some(error("No episode found!"))),
            }
        },
        BackendMessage::MarkEpisode(t, e) => {
            match backend.mark_episode(t, e) {
                Some(w) => {
                    let mut writes: Vec<(String, Vec<u8>)> = Vec::new();
                    writes.push(w);
                    (Work::Write(writes), None)
                },
                None => (Work::Nothing, Some(error("No episode found!"))),
            }
        },
        BackendMessage::MarkPreviousEpisodes(t, to) => {
            match backend.mark_previous_episodes(t, to) {
                Some(w) => (Work::Write(w), None),
                None => (Work::Nothing, Some(error("No title found!"))),
            }
        },
        BackendMessage::Restart => (Work::Nothing, Some((Reply::ToLoad, TaskState::Starting))),
    }
}

/// The reply to a request once its work is done (`ok`) or failed, and the
/// next state: a failure is reported and the task stays ready.
pub fn on_outcome(backend: &Backend, msg: BackendMessage, ok: bool) -> (r: (Reply, TaskState))
    requires
        backend.wf(),
    ensures
        match msg {
            BackendMessage::Restart => r.0 is ToLoad && r.1 == TaskState::Starting,
            BackendMessage::LoadEpisodes(t, _) => if ok && t < backend.count && backend.titles@[t as int].episodes is Some {
                &&& r.1 == TaskState::Ready
                &&& r.0 matches Reply::EpisodesLoaded(i, c)
                &&& i == t
                &&& c.shows(backend.titles@[t as int])
            } else {
                is_error(r, title_failed())
            },
            BackendMessage::WatchEpisode(t, e) | BackendMessage::MarkEpisode(t, e) => if !ok {
                is_error(r, episode_failed())
            } else {
                match episode_of(backend.titles@, t as int, e as int) {
                    Some(ep) => {
                        &&& r.1 == TaskState::Ready
                        &&& r.0 matches Reply::UpdateEpisode(i, v)
                        &&& i == t
                        &&& v@.len() == 1
                        &&& v@[0].of(ep)
                    },
                    None => is_error(r, no_episode()),
                }
            },
            BackendMessage::MarkPreviousEpisodes(t, to) => if !ok {
                is_error(r, episode_failed())
            } else if t < backend.count {
                &&& r.1 == TaskState::Ready
                &&& r.0 matches Reply::UpdateEpisode(i, v)
                &&& i == t
                &&& copies_before(backend.titles@[t as int], to as int, v@)
            } else {
                is_error(r, no_title())
            },
        },
{
    match msg {
        BackendMessage::Restart => (Reply::ToLoad, TaskState::Starting),
        BackendMessage::LoadEpisodes(t, _) => {
            if ok && t < backend.count && backend.titles[t].episodes.is_some() {
                (Reply::EpisodesLoaded(t, TitleCache::with_episodes(&backend.titles[t])), TaskState::Ready)
            } else {
                error("Could not load title!")
            }
        },
        BackendMessage::WatchEpisode(t, e) | BackendMessage::MarkEpisode(t, e) => {
            if !ok {
                error("Could not load episode!")
            } else {
                match backend.get_episode(t, e) {
                    Some(ep) => {
                        let mut v: Vec<EpisodeCache> = Vec::new();
                        v.push(EpisodeCache::new(ep));
                        (Reply::UpdateEpisode(t, v), TaskState::Ready)
                    },
                    None => error("No episode found!"),
                }
            }
        },
        BackendMessage::MarkPreviousEpisodes(t, to) => {
            if !ok {
                error("Could not load episode!")
            } else if t < backend.count {
                (Reply::UpdateEpisode(t, episodes_before(&backend.titles[t], to)), TaskState::Ready)
            } else {
                error("No title found!")
            }
        },
    }
}

} // verus!
