use yama::backend::Backend;
use yama::command::{player_command, Platform};
use yama::episode::Episode;
use yama::title::Title;
use yama::video_metadata::VideoMetadata;

fn names(v: &[&str]) -> Vec<String> {
    v.iter().map(|s| s.to_string()).collect()
}

fn series(list: &[&str]) -> Vec<String> {
    let titles = Backend::load_titles("./series", names(list));
    Backend::new(titles).cache()
}

/// A title of three episodes, as a directory listing would give them.
fn title_with_episodes(base_name: &str, watched: bool) -> Title {
    let mut title = Title::new(format!("./series/{base_name}"), base_name.to_string());
    let mut files = Vec::new();
    for i in (1..4).rev() {
        files.push(format!("{base_name} - 0{i}.mkv"));
    }
    files.push(".metadata".to_string());
    let files = Backend::get_files(files);
    let record = VideoMetadata::create_file(&VideoMetadata {
        duration: 1_421_000,
        current: 0,
        remaining: 1_421_000,
        watched,
    });
    let loaded = files
        .iter()
        .enumerate()
        .map(|(i, f)| Episode::new(&title.path, f, i as u16, &record).ok())
        .collect();
    title.set_episodes(loaded);
    title
}

/// What the player's helper script leaves after playing up to `stop`.
fn played_record(duration: f64, stop: f64, min_time: f64) -> Vec<u8> {
    let remaining = duration - stop;
    format!(
        "Duration: {duration:.3}\nCurrent: {stop:.3}\nRemaining: {remaining:.3}\nStatus: {}\n",
        remaining < min_time
    )
    .into_bytes()
}

#[test]
fn tests_series_titles() {
    let found = series(&["Hanasaku Iroha", "Girls Last Tour", "Akiba Maid Wars", "Bocchi the Rock"]);
    assert_eq!(
        vec!["Akiba Maid Wars", "Bocchi the Rock", "Girls Last Tour", "Hanasaku Iroha"],
        found
    );
}

#[test]
fn backend_series_titles() {
    let found = series(&["Girls Last Tour", "Bocchi the Rock", "Akiba Maid Wars"]);
    assert_eq!(vec!["Akiba Maid Wars", "Bocchi the Rock", "Girls Last Tour"], found);
}

fn check_episodes() {
    let title = title_with_episodes("Akiba Maid Wars", false);
    let episodes = title.cache();
    let base_name = title.name.as_str();
    let mut episodes_test: Vec<String> = Vec::new();
    for i in 1..4 {
        episodes_test.push(format!("{base_name} - 0{i}.mkv"));
    }
    assert_eq!(episodes_test, *episodes);
}

#[test]
fn tests_serie_episodes() {
    check_episodes();
}

#[test]
fn backend_serie_episodes() {
    check_episodes();
}

fn check_open_episode() {
    let mut backend = Backend::new(vec![title_with_episodes("Akiba Maid Wars", false)]);
    let ep = backend.get_episode(0, 0).unwrap();
    let duration = ep.metadata.duration as f64 / 1000.0;
    let command = format!(
        "--start={} --end={} \"{}\"",
        duration - 5.0,
        duration - 4.0,
        ep.path
    );
    let line = player_command("save_info.lua", 10_000, &command, Platform::Unix);
    assert!(line.ends_with(&command));
    let record = played_record(duration, duration - 4.0, 10.0);
    backend.update_episode(0, 0, &record).unwrap().expect("[ERROR] - Failed to execute process.");
    let current = backend.get_episode(0, 0).unwrap().metadata.current as f64 / 1000.0;
    assert_eq!(1417.0, current.ceil());
}

#[test]
fn tests_open_episode() {
    check_open_episode();
}

#[test]
fn backend_open_episode() {
    check_open_episode();
}

fn check_is_watched() {
    let mut backend = Backend::new(vec![title_with_episodes("Akiba Maid Wars", false)]);
    let ep = backend.get_episode(0, 0).unwrap();
    assert!(!ep.metadata.watched);
    let duration = ep.metadata.duration as f64 / 1000.0;
    let record = played_record(duration, duration - 4.0, 10.0);
    backend.update_episode(0, 0, &record).unwrap().expect("[ERROR] - Failed to execute process.");
    assert!(backend.get_episode(0, 0).unwrap().metadata.watched);
}

#[test]
fn tests_is_watched() {
    check_is_watched();
}

#[test]
fn backend_is_watched() {
    check_is_watched();
}

#[test]
fn is_serie_watched() {
    let mut backend = Backend::new(vec![title_with_episodes("Akiba Maid Wars", false)]);
    let count = backend.titles[0].count as usize;
    for e in 0..count {
        let duration = backend.get_episode(0, e).unwrap().metadata.duration as f64 / 1000.0;
        let record = played_record(duration, duration - 4.0, 10.0);
        backend.update_episode(0, e, &record).unwrap().expect("[ERROR] - Failed to execute process.");
    }
    for e in 0..count {
        assert!(backend.get_episode(0, e).unwrap().metadata.watched);
    }
}
