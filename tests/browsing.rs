use yama::backend::Backend;
use yama::cache::{Cache, EpisodeCache, MetaCache, TitleCache};
use yama::episode::Episode;
use yama::inner_data::{FocusedType, InnerData};
use yama::navigation::{Direction, List, Pointer};
use yama::title::Title;
use yama::video_metadata::VideoMetadata;

fn library() -> Backend {
    let record = VideoMetadata::default_file(60_000);
    let mut show = Title::new("/m/A".to_string(), "A".to_string());
    show.set_episodes(vec![
        Some(Episode::new("/m/A", "1.mkv", 0, &record).unwrap()),
        Some(Episode::new("/m/A", "2.mkv", 1, &record).unwrap()),
    ]);
    Backend::new(vec![show, Title::new("/m/B".to_string(), "B".to_string())])
}

#[test]
fn pointer_wraps_both_ways() {
    let mut p = Pointer::new(3);
    p.update(Direction::Up);
    assert_eq!(p.focused, 2);
    p.update(Direction::Down);
    assert_eq!(p.focused, 0);
    p.update(Direction::Down);
    assert_eq!(p.focused, 1);
    p.plus(-2);
    assert_eq!(p.focused, 2);
    p.plus(7);
    assert_eq!(p.focused, 0);
    p.plus(isize::MIN);
    assert_eq!(p.focused, 1);
    assert!(!p.jump_to(3));
    assert!(p.jump_to(2));
    p.start();
    assert_eq!(p.focused, 0);
    p.end();
    assert_eq!(p.focused, 2);
    let mut empty = Pointer::new(0);
    empty.update(Direction::Down);
    assert_eq!(empty.focused, 0);
}

#[test]
fn list_moves() {
    let mut l = List::new(0, 4);
    assert!(!l.empty);
    l.increment();
    assert_eq!(l.focused, 3);
    l.decrement();
    assert_eq!(l.focused, 0);
    assert!(List::new(0, 0).empty);
}

#[test]
fn browsing_titles_and_episodes() {
    let backend = library();
    let mut ui = InnerData::new(Cache::new(&backend));
    assert_eq!(ui.get_type(), FocusedType::Title(0));
    ui.update(Direction::Down);
    assert_eq!(ui.get_type(), FocusedType::Title(1));
    assert_eq!(*ui.get_metacache(), MetaCache::empty());

    ui.set_title_cache(TitleCache::with_episodes(&backend.titles[0]), 0);
    assert_eq!(ui.get_type(), FocusedType::Episode(0, 0));
    ui.update(Direction::Up);
    assert_eq!(ui.get_type(), FocusedType::Episode(0, 1));
    assert_eq!(ui.get_metacache().description, "Duration: 01:00\nWatched: No");

    let mut watched = backend.titles[0].episodes.as_ref().unwrap()[1].clone();
    watched.as_watched();
    ui.set_episodes_cache(0, vec![EpisodeCache::new(&watched)]);
    assert_eq!(ui.get_metacache().description, "Duration: 01:00\nWatched: Yes");

    ui.back();
    assert_eq!(ui.get_type(), FocusedType::Title(1));
}
