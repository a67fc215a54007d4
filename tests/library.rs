use std::sync::Arc;
use yama::anilist::{complete_query, data_file, frame_request, plan_query, request_body, thumbnail_file, QueryPlan};
use yama::backend::Backend;
use yama::cache::{episodes_before, Cache, EpisodeCache, MetaCache, TitleCache};
use yama::command::{invocation, player_command, split_commas, Platform};
use yama::episode::Episode;
use yama::meta::{Meta, MetaType};
use yama::query::{Data, Edges, Media, Node, Query, Studio, Title as Names};
use yama::title::Title;
use yama::video_metadata::{parse_record, RecordError, VideoMetadata};

fn names(v: &[&str]) -> Vec<String> {
    v.iter().map(|s| s.to_string()).collect()
}

fn record(duration: &str, current: &str, remaining: &str, status: &str) -> Vec<u8> {
    format!("Duration: {duration}\nCurrent: {current}\nRemaining: {remaining}\nStatus: {status}\n").into_bytes()
}

fn data(id: usize, english: &str) -> Data {
    Data {
        media: Media {
            id: 7,
            title: Names { romaji: "r".to_string(), english: english.to_string(), native: "n".to_string() },
            description: "A <b>bold</b> story.<br><br>Second <i>part</i>.".to_string(),
            genres: names(&["Comedy", "Music"]),
            banner_image: "https://example.org/banner.jpg".to_string(),
            studios: Studio {
                edges: vec![
                    Edges { is_main: false, node: Node { name: "Helper".to_string() } },
                    Edges { is_main: true, node: Node { name: "CloverWorks".to_string() } },
                ],
            },
        },
        thumbnail_path: String::new(),
        id,
        studio: String::new(),
    }
}

fn episode(dir: &str, name: &str, number: u16, watched: bool) -> Episode {
    let bytes = record("1200.000", "0.000", "0.000", if watched { "true" } else { "false" });
    Episode::new(dir, name, number, &bytes).unwrap()
}

#[test]
fn round_trip_default_record() {
    let bytes = VideoMetadata::default_file(1_417_250);
    let m = VideoMetadata::new(&bytes).unwrap();
    assert_eq!(m, VideoMetadata { duration: 1_417_250, current: 0, remaining: 0, watched: false });
}

#[test]
fn round_trip_watched_record() {
    let m = VideoMetadata { duration: 1_200_000, current: 1_200_000, remaining: 0, watched: true };
    assert_eq!(VideoMetadata::new(&VideoMetadata::create_file(&m)), Ok(m));
}

#[test]
fn round_trip_mid_playback_record() {
    let m = VideoMetadata { duration: 1_417_250, current: 600_125, remaining: 817_125, watched: false };
    let bytes = VideoMetadata::create_file(&m);
    assert_eq!(
        String::from_utf8(bytes.clone()).unwrap(),
        "Duration: 1417.250\nCurrent: 600.125\nRemaining: 817.125\nStatus: false\n"
    );
    assert_eq!(VideoMetadata::new(&bytes), Ok(m));
}

#[test]
fn sub_second_position_reads_as_zero() {
    let m = VideoMetadata::new(&record("1200", "0.5", "0", "false")).unwrap();
    assert_eq!(m.current, 0);
    let m = VideoMetadata::new(&record("1200", "1.5", "0", "false")).unwrap();
    assert_eq!(m.current, 1500);
    assert_eq!(m.duration, 1_200_000);
}

#[test]
fn record_without_trailing_break() {
    let m = parse_record(b"Duration: 12.05\nCurrent: 3\nRemaining: 9.05\nStatus: true").unwrap();
    assert_eq!(m, VideoMetadata { duration: 12_050, current: 3000, remaining: 9050, watched: true });
}

#[test]
fn extra_decimals_are_dropped() {
    let m = VideoMetadata::new(&record("12.3456", "1417.999999", "0.1", "false")).unwrap();
    assert_eq!((m.duration, m.current, m.remaining), (12_345, 1_417_999, 100));
}

#[test]
fn malformed_records_are_refused() {
    assert_eq!(VideoMetadata::new(b""), Err(RecordError::Malformed));
    assert_eq!(VideoMetadata::new(&record("12.", "0", "0", "false")), Err(RecordError::Malformed));
    assert_eq!(VideoMetadata::new(&record(".5", "0", "0", "false")), Err(RecordError::Malformed));
    assert_eq!(VideoMetadata::new(&record("1x", "0", "0", "false")), Err(RecordError::Malformed));
    assert_eq!(VideoMetadata::new(&record("1", "0", "0", "yes")), Err(RecordError::Malformed));
    assert_eq!(VideoMetadata::new(&record("99999999999999999999", "0", "0", "true")), Err(RecordError::Malformed));
    assert_eq!(VideoMetadata::new(b"Current: 1\nDuration: 1\nRemaining: 0\nStatus: true\n"), Err(RecordError::Malformed));
    assert_eq!(VideoMetadata::new(b"Duration: 1\nCurrent: 1\nRemaining: 0\nStatus: true\n\n"), Err(RecordError::Malformed));
}

#[test]
fn largest_time_that_fits() {
    let m = VideoMetadata { duration: u64::MAX, current: u64::MAX, remaining: u64::MAX, watched: true };
    assert_eq!(VideoMetadata::new(&VideoMetadata::create_file(&m)), Ok(m));
}

#[test]
fn watched_toggle() {
    let mut m = VideoMetadata { duration: 1_200_000, current: 0, remaining: 0, watched: false };
    m.as_watched();
    assert!(m.watched);
    assert_eq!(m.current, 1_200_000);
    m.as_watched();
    assert!(!m.watched);
    assert_eq!(m.current, 0);
}

#[test]
fn time_and_progress_text() {
    assert_eq!(VideoMetadata::format_time(1_417_250), "23:37");
    assert_eq!(VideoMetadata::format_time(65_000), "01:05");
    assert_eq!(VideoMetadata::format_time(6_000_000), "100:00");
    let m = VideoMetadata { duration: 1_417_250, current: 600_000, remaining: 0, watched: false };
    assert_eq!(m.to_str(), "Duration: 23:37\nCurrent: 10:00\nWatched: No");
    let w = VideoMetadata { watched: true, ..m };
    assert_eq!(w.to_str(), "Duration: 23:37\nWatched: Yes");
}

#[test]
fn partial_failure_fan_out() {
    let mut titles = Backend::load_titles("/media", names(&["Show 3", "Show 1", "Show 2"]));
    // the fetch of the second title (by position) failed: its answer never arrives
    let results = vec![data(2, "Third"), data(0, "First")];
    Backend::download_titles_data(&mut titles, results);
    assert!(titles[0].data.is_some());
    assert!(titles[1].data.is_none());
    assert!(titles[2].data.is_some());
    // a later fan-out in which the first fetch fails leaves that title without data
    Backend::download_titles_data(&mut titles, vec![data(2, "Third")]);
    assert!(titles[0].data.is_none());
    assert!(titles[2].data.is_some());
    Backend::download_titles_data(&mut titles, vec![data(0, "First"), data(2, "Third")]);
    assert_eq!(titles[0].data.as_ref().unwrap().media.title.english, "First");
    let backend = Backend::new(titles);
    assert_eq!(backend.count, 3);
    assert_eq!(backend.cache(), names(&["First", "Show 2", "Third"]));
    assert_eq!(backend.get_title_name(1), "Show 2");
}

#[test]
fn answers_with_unknown_index_are_ignored() {
    let mut titles = Backend::load_titles("/media", names(&["One"]));
    Backend::download_titles_data(&mut titles, vec![data(5, "Far")]);
    assert!(titles[0].data.is_none());
}

#[test]
fn cache_hit_needs_no_fetch() {
    assert_eq!(plan_query(&names(&["data.json", "thumbnail.jpg"])), QueryPlan::Cached);
    assert_eq!(plan_query(&names(&["thumbnail.jpg", "other", "data.json"])), QueryPlan::Cached);
    assert_eq!(plan_query(&names(&["data.json"])), QueryPlan::Fetch);
    assert_eq!(plan_query(&names(&[])), QueryPlan::Fetch);
    let cached = Query { data: data(0, "Bocchi the Rock!") };
    let d = complete_query(cached, "/media/Bocchi", 3);
    let mut plain = data(1, "x");
    plain.studio = "stale".to_string();
    plain.media.studios.edges.clear();
    assert_eq!(complete_query(Query { data: plain }, "/m", 1).studio, "");
    assert_eq!(d.id, 3);
    assert_eq!(d.thumbnail_path, "/media/Bocchi/.metadata/thumbnail.jpg");
    assert_eq!(d.studio, "CloverWorks");
    assert_eq!(d.media.description, "A bold story.\nSecond part.");
    assert_eq!(d.media.title.english, "Bocchi the Rock!");
    assert_eq!(d.media.genres, names(&["Comedy", "Music"]));
}

#[test]
fn artifact_paths() {
    assert_eq!(data_file("/m/T"), "/m/T/.metadata/data.json");
    assert_eq!(thumbnail_file("/m/T"), "/m/T/.metadata/thumbnail.jpg");
    assert_eq!(Episode::cache_folder("/m/T", 12), "/m/T/.metadata/episode_12");
    assert_eq!(Episode::metadata_file("/m/T", 0, "a.mkv"), "/m/T/.metadata/episode_0/a.mkv.md");
    assert_eq!(Episode::thumbnail_file("/m/T", 3), "/m/T/.metadata/episode_3/thumbnail.jpg");
}

#[test]
fn studio_without_main_credit_stays_empty() {
    let mut d = data(0, "x");
    d.media.studios.edges[1].is_main = false;
    d.find_studio();
    assert_eq!(d.studio, "");
}

#[test]
fn description_cleaning() {
    let mut d = data(0, "x");
    d.media.description = "<i>One</i><br>\n<br>Two".to_string();
    d.clean_description();
    assert_eq!(d.media.description, "One\nTwo");
    d.media.description = "<b>Bold</b> and <i>it</i><br><br>next<br>\n<br>last".to_string();
    d.clean_description();
    assert_eq!(d.media.description, "Bold and it\nnext\nlast");
}

#[test]
fn media_description_text() {
    let mut d = data(0, "x");
    d.media.description = "  Plain text.\n".to_string();
    assert_eq!(&*d.media.to_str(), "Description: Plain text.\n\nGenres: Comedy, Music");
    d.media.description = "\u{3000} Wide\u{a0}\t".to_string();
    assert_eq!(&*d.media.to_str(), "Description: Wide\n\nGenres: Comedy, Music");
    d.media.description = "  Plain text.\n".to_string();
    d.media.genres = Vec::new();
    assert_eq!(&*d.media.to_str(), "Description: Plain text.\n\nGenres: ");
}

#[test]
fn request_body_is_json() {
    let body = request_body("Girls' \"Last\" Tour").unwrap();
    let v: serde_json::Value = serde_json::from_str(&body).unwrap();
    assert_eq!(v["variables"]["search"], "Girls' \"Last\" Tour");
    assert!(v["query"].as_str().unwrap().contains("bannerImage"));
    let body = request_body("a\u{1}\tb\\").unwrap();
    assert!(body.ends_with(",\"variables\":{\"search\":\"a\\u0001\\tb\\\\\"}}"));
}

#[test]
fn natural_sort() {
    let sorted = Backend::get_files(names(&["Series 2", "Series 10", "Series 1"]));
    assert_eq!(sorted, names(&["Series 1", "Series 2", "Series 10"]));
    let titles = Backend::load_titles("/media", names(&["Series 2", "Series 10", ".metadata", "Series 1"]));
    let found: Vec<&str> = titles.iter().map(|t| t.name.as_str()).collect();
    assert_eq!(found, vec!["Series 1", "Series 2", "Series 10"]);
    assert_eq!(titles[2].path, "/media/Series 10");
}

#[test]
fn hidden_entries_are_skipped() {
    assert_eq!(Backend::get_files(names(&[".git", "b", ".x", "a"])), names(&["a", "b"]));
    assert!(Backend::get_files(Vec::new()).is_empty());
}

#[test]
fn end_to_end_scenario() {
    let mut titles = Backend::load_titles("/root", names(&["Test Show"]));
    assert_eq!(titles.len(), 1);
    let dir = titles[0].path.clone();
    assert!(titles[0].needs_loading(false));
    let fresh = VideoMetadata::default_file(1_417_000);
    let ep = Episode::new(&dir, "Test Show - 01.mkv", 0, &fresh).unwrap();
    titles[0].set_episodes(vec![Some(ep)]);
    assert!(!titles[0].needs_loading(false));
    assert!(titles[0].needs_loading(true));
    let mut backend = Backend::new(titles);
    {
        let ep = backend.get_episode(0, 0).unwrap();
        assert_eq!(ep.name, "Test Show - 01.mkv");
        assert!(!ep.metadata.watched);
        assert_eq!(ep.path, "/root/Test Show/Test Show - 01.mkv");
        assert_eq!(ep.start_args(Platform::Unix), "--start=0.000 \"/root/Test Show/Test Show - 01.mkv\"");
    }
    let played = record("1417", "1417", "0", "true");
    let eps = backend.titles[0].episodes.as_mut().unwrap();
    eps[0].update(&played).unwrap();
    assert!(backend.get_episode(0, 0).unwrap().metadata.watched);
    assert_eq!(backend.get_episode_data(0, 0).unwrap(), ("Test Show - 01.mkv".to_string(), 1_417_000));
}

#[test]
fn failed_episodes_are_left_out_and_renumbered() {
    let mut t = Title::new("/m/S".to_string(), "S".to_string());
    t.set_episodes(vec![
        Some(episode("/m/S", "a.mkv", 0, false)),
        None,
        Some(episode("/m/S", "c.mkv", 2, true)),
    ]);
    assert_eq!(t.count, 2);
    assert_eq!(t.cache(), names(&["a.mkv", "c.mkv"]));
    assert_eq!(t.get_episode(1).unwrap().number, 1);
    assert!(t.get_episode(2).is_none());
    let empty = Title::new("/m/E".to_string(), "E".to_string());
    assert_eq!(empty.cache(), names(&[""]));
}

#[test]
fn marking_episodes() {
    let mut t = Title::new("/m/S".to_string(), "S".to_string());
    t.set_episodes(vec![
        Some(episode("/m/S", "a.mkv", 0, false)),
        Some(episode("/m/S", "b.mkv", 1, false)),
        Some(episode("/m/S", "c.mkv", 2, true)),
    ]);
    let writes = t.as_watched(2);
    assert_eq!(writes.len(), 2);
    assert_eq!(writes[1].0, "/m/S/.metadata/episode_1/b.mkv.md");
    assert!(t.get_episode(0).unwrap().metadata.watched);
    assert!(t.get_episode(1).unwrap().metadata.watched);
    assert!(t.get_episode(2).unwrap().metadata.watched);
    assert!(t.as_watched(4).is_empty());
    let mut backend = Backend::new(vec![t]);
    let (path, bytes) = backend.mark_episode(0, 2).unwrap();
    assert_eq!(path, "/m/S/.metadata/episode_2/c.mkv.md");
    assert!(!VideoMetadata::new(&bytes).unwrap().watched);
    assert!(backend.mark_episode(0, 3).is_none());
    assert!(backend.mark_episode(1, 0).is_none());
}

#[test]
fn episode_with_bad_record() {
    assert!(Episode::new("/m", "x.mkv", 0, b"nonsense").is_err());
}

#[test]
fn construction_plan_runs_tools_only_for_missing_artifacts() {
    let first = Episode::plan_construction("/m/T", "a.mkv", 2, false, false, Platform::Unix);
    assert!(first.probe_duration);
    assert_eq!(first.folder, "/m/T/.metadata/episode_2");
    assert_eq!(first.metadata_path, "/m/T/.metadata/episode_2/a.mkv.md");
    assert_eq!(
        first.thumbnail_command.as_deref(),
        Some("ffmpeg -i \"/m/T/a.mkv\" -vf \"thumbnail\" -frames:v 1 \"/m/T/.metadata/episode_2/thumbnail.jpg\" -f mjpeg -hide_banner -nostdin -nostats -loglevel quiet")
    );
    let second = Episode::plan_construction("/m/T", "a.mkv", 2, true, true, Platform::Unix);
    assert!(!second.probe_duration);
    assert!(second.thumbnail_command.is_none());
    assert_eq!(second.thumbnail_path, first.thumbnail_path);
}

#[test]
fn artifact_plan() {
    let first = Episode::plan_artifacts(false, false);
    assert!(first.probe_duration && first.make_thumbnail);
    let second = Episode::plan_artifacts(true, true);
    assert!(!second.probe_duration && !second.make_thumbnail);
    let partial = Episode::plan_artifacts(true, false);
    assert!(!partial.probe_duration && partial.make_thumbnail);
}

#[test]
fn commands() {
    assert_eq!(
        player_command("/cfg/scripts/save_info.lua", 10_000, "--start=1.500 \"/v.mkv\"", Platform::Unix),
        "mpv --script=/cfg/scripts/save_info.lua --script-opts=save_info-min_time=10.000 --start=1.500 \"/v.mkv\""
    );
    assert_eq!(
        player_command("s.lua", 2_500, "--start=0.000,v.mkv", Platform::Windows),
        "mpv,--script=s.lua,--script-opts=save_info-min_time=2.500,--start=0.000,v.mkv"
    );
    assert_eq!(
        Episode::thumbnail_command("v.mkv", "t.jpg", Platform::Unix),
        "ffmpeg -i \"v.mkv\" -vf \"thumbnail\" -frames:v 1 \"t.jpg\" -f mjpeg -hide_banner -nostdin -nostats -loglevel quiet"
    );
    let w = invocation("mpv,--a,,b", Platform::Windows);
    assert_eq!(w.program, "mpv");
    assert_eq!(w.args, names(&["--a", "", "b"]));
    let u = invocation("echo hi", Platform::Unix);
    assert_eq!(u.program, "sh");
    assert_eq!(u.args, names(&["-c", "echo hi"]));
    let pieces: Vec<String> = split_commas("").iter().map(|p| p.iter().collect()).collect();
    assert_eq!(pieces, names(&[""]));
}

#[test]
fn meta_of_title_and_episode() {
    let mut t = Title::new("/m/S".to_string(), "S".to_string());
    assert_eq!(t.title(), "S");
    assert_eq!(t.description(), "No description found...");
    assert_eq!(t.thumbnail(), None);
    assert_eq!(t.mtype(), MetaType::Title);
    let mut d = data(0, "Show");
    d.find_studio();
    d.media.description = "Text".to_string();
    d.thumbnail_path = "/m/S/.metadata/thumbnail.jpg".to_string();
    t.data = Some(d);
    assert_eq!(t.title(), "Show");
    assert_eq!(t.description(), "Description: Text\n\nGenres: Comedy, Music\n\nStudio: CloverWorks");
    assert_eq!(t.thumbnail(), Some("/m/S/.metadata/thumbnail.jpg".to_string()));
    let e = episode("/m/S", "a.mkv", 0, true);
    assert_eq!(e.title(), "a.mkv");
    assert_eq!(e.mtype(), MetaType::Episode);
    assert_eq!(e.description(), "Duration: 20:00\nWatched: Yes");
}

#[test]
fn snapshot_of_the_library() {
    let mut t = Title::new("/m/S".to_string(), "S".to_string());
    t.set_episodes(vec![Some(episode("/m/S", "a.mkv", 0, false)), Some(episode("/m/S", "b.mkv", 1, false))]);
    let other = Title::new("/m/T".to_string(), "T".to_string());
    let mut backend = Backend::new(vec![t, other]);
    let mut cache = Cache::new(&backend);
    assert_eq!(cache.size, 2);
    assert_eq!(cache.titles_names, names(&["S", "T"]));
    assert_eq!(cache.get_title_size(0), 2);
    assert_eq!(*cache.get_title_cache(1), MetaCache::empty());
    assert!(cache.get_title(0).get_episode(0).is_none());

    let full = TitleCache::with_episodes(&backend.titles[0]);
    assert_eq!(full.episodes_names, Some(names(&["a.mkv", "b.mkv"])));
    cache.set_title_cache(full, 0);
    let shown = cache.get_title(0).get_episode_cache(1).unwrap();
    assert_eq!(shown.description, "Duration: 20:00\nWatched: No");
    assert_eq!(shown.thumbnail.as_deref(), Some("/m/S/.metadata/episode_1/thumbnail.jpg"));

    backend.mark_episode(0, 1).unwrap();
    let updated = EpisodeCache::new(backend.get_episode(0, 1).unwrap());
    cache.get_mut_title(0).set_episode_cache(updated);
    assert!(cache.get_title(0).get_episode(1).unwrap().watched);
    assert!(!cache.get_title(0).get_episode(0).unwrap().watched);
    let stray = EpisodeCache { number: 9, watched: true, cache: Arc::new(MetaCache::empty()) };
    cache.get_mut_title(0).set_episode_cache(stray);
    assert!(cache.get_title(0).get_episode(9).is_none());
    assert!(TitleCache::without_episodes(&backend.titles[1]).get_episode_cache(0).is_none());
}

#[test]
fn request_frame() {
    assert_eq!(
        frame_request("\"q\"", "\"Bocchi\""),
        "{\"query\":\"q\",\"variables\":{\"search\":\"Bocchi\"}}"
    );
}

#[test]
fn snapshot_of_marked_episodes() {
    let mut t = Title::new("/m/S".to_string(), "S".to_string());
    assert!(episodes_before(&t, 2).is_empty());
    t.set_episodes(vec![
        Some(episode("/m/S", "a.mkv", 0, false)),
        Some(episode("/m/S", "b.mkv", 1, false)),
        Some(episode("/m/S", "c.mkv", 2, false)),
    ]);
    t.as_watched(2);
    let copies = episodes_before(&t, 2);
    assert_eq!(copies.len(), 2);
    assert!(copies.iter().all(|c| c.watched));
    assert_eq!(copies[1].number, 1);
    assert_eq!(episodes_before(&t, 10).len(), 3);
}
