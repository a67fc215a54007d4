use yama::anilist::{after_cached_read, QueryPlan};
use yama::backend::{Backend, BackendMessage};
use yama::episode::Episode;
use yama::task::{on_idle, on_message, on_outcome, on_start, Reply, ReplyKind, TaskState, Work};
use yama::title::Title;
use yama::video_metadata::VideoMetadata;

fn library() -> Backend {
    Backend::new(vec![Title::new("/m/A".to_string(), "A".to_string())])
}

fn load(backend: &mut Backend) {
    let record = VideoMetadata::default_file(60_000);
    backend.titles[0].set_episodes(vec![
        Some(Episode::new("/m/A", "1.mkv", 0, &record).unwrap()),
        Some(Episode::new("/m/A", "2.mkv", 1, &record).unwrap()),
    ]);
}

fn error_text(r: &(Reply, TaskState)) -> String {
    assert_eq!(r.1, TaskState::Ready);
    match &r.0 {
        Reply::Error(s) => s.clone(),
        other => panic!("not an error: {other:?}"),
    }
}

#[test]
fn start_and_recovery() {
    assert_eq!(on_start(true), (ReplyKind::Ready, TaskState::Ready));
    assert_eq!(on_start(false), (ReplyKind::Recovery, TaskState::Idle));
    let (reply, state) = on_idle(BackendMessage::Restart);
    assert!(matches!(reply, Some(Reply::ToLoad)));
    assert_eq!(state, TaskState::Starting);
    let (reply, state) = on_idle(BackendMessage::MarkEpisode(0, 0));
    assert!(reply.is_none());
    assert_eq!(state, TaskState::Idle);
}

#[test]
fn requests_for_missing_items_are_answered_with_errors() {
    let mut backend = library();
    let (work, early) = on_message(&mut backend, BackendMessage::LoadEpisodes(3, false));
    assert!(matches!(work, Work::Nothing));
    assert_eq!(error_text(&early.unwrap()), "No title found!");
    let (_, early) = on_message(&mut backend, BackendMessage::WatchEpisode(0, 0));
    assert_eq!(error_text(&early.unwrap()), "No episode found!");
    let (_, early) = on_message(&mut backend, BackendMessage::MarkEpisode(0, 0));
    assert_eq!(error_text(&early.unwrap()), "No episode found!");
    let (_, early) = on_message(&mut backend, BackendMessage::MarkPreviousEpisodes(1, 0));
    assert_eq!(error_text(&early.unwrap()), "No title found!");
    let (work, early) = on_message(&mut backend, BackendMessage::Restart);
    assert!(matches!(work, Work::Nothing));
    assert!(matches!(early, Some((Reply::ToLoad, TaskState::Starting))));
}

#[test]
fn loading_then_replying_with_the_title_snapshot() {
    let mut backend = library();
    let msg = BackendMessage::LoadEpisodes(0, true);
    let (work, early) = on_message(&mut backend, msg);
    assert!(matches!(work, Work::LoadEpisodes(0, true)));
    assert!(early.is_none());
    assert_eq!(error_text(&on_outcome(&backend, msg, true)), "Could not load title!");
    load(&mut backend);
    assert_eq!(error_text(&on_outcome(&backend, msg, false)), "Could not load title!");
    match on_outcome(&backend, msg, true) {
        (Reply::EpisodesLoaded(0, title), TaskState::Ready) => {
            assert_eq!(title.size, 2);
            assert_eq!(title.episodes_names, Some(vec!["1.mkv".to_string(), "2.mkv".to_string()]));
        }
        other => panic!("unexpected {other:?}"),
    }
}

#[test]
fn marking_then_replying_with_episode_snapshots() {
    let mut backend = library();
    load(&mut backend);
    let msg = BackendMessage::MarkEpisode(0, 1);
    let (work, early) = on_message(&mut backend, msg);
    assert!(early.is_none());
    match work {
        Work::Write(w) => {
            assert_eq!(w.len(), 1);
            assert_eq!(w[0].0, "/m/A/.metadata/episode_1/2.mkv.md");
            assert!(VideoMetadata::new(&w[0].1).unwrap().watched);
        }
        other => panic!("unexpected {other:?}"),
    }
    match on_outcome(&backend, msg, true) {
        (Reply::UpdateEpisode(0, v), TaskState::Ready) => {
            assert_eq!(v.len(), 1);
            assert_eq!(v[0].number, 1);
            assert!(v[0].watched);
        }
        other => panic!("unexpected {other:?}"),
    }
    assert_eq!(error_text(&on_outcome(&backend, msg, false)), "Could not load episode!");

    let msg = BackendMessage::MarkPreviousEpisodes(0, 2);
    let (work, _) = on_message(&mut backend, msg);
    assert!(matches!(work, Work::Write(ref w) if w.len() == 2));
    match on_outcome(&backend, msg, true) {
        (Reply::UpdateEpisode(0, v), TaskState::Ready) => {
            assert_eq!(v.len(), 2);
            assert!(v[0].watched);
            assert!(!v[1].watched);
        }
        other => panic!("unexpected {other:?}"),
    }
}

#[test]
fn playing_an_episode() {
    let mut backend = library();
    load(&mut backend);
    let msg = BackendMessage::WatchEpisode(0, 0);
    let (work, early) = on_message(&mut backend, msg);
    assert!(matches!(work, Work::Play(0, 0)));
    assert!(early.is_none());
    assert_eq!(error_text(&on_outcome(&backend, msg, false)), "Could not load episode!");
    assert!(matches!(on_outcome(&backend, msg, true), (Reply::UpdateEpisode(0, _), TaskState::Ready)));
    assert!(matches!(on_outcome(&backend, BackendMessage::Restart, true), (Reply::ToLoad, TaskState::Starting)));
}

#[test]
fn unreadable_cache_is_fetched_again() {
    assert_eq!(after_cached_read(true), None);
    assert_eq!(after_cached_read(false), Some(QueryPlan::Fetch));
}
