//! One video file of a title, with its cached artifacts and watch progress.
use crate::command::Platform;
use crate::text::{number_text, push_number, push_seconds_chars, push_str, seconds_chars, string_of};
use crate::video_metadata::{record_text, record_value, normalized, RecordError, VideoMetadata};
use vstd::prelude::*;

verus! {

/// An episode: a video file and what is known of it.
#[derive(Clone, Debug)]
pub struct Episode {
    /// Position in the title's list, from zero.
    pub number: u16,
    /// The video's file name.
    pub name: String,
    pub metadata: VideoMetadata,
    pub thumbnail_path: String,
    pub metadata_path: String,
    pub path: String,
}

/// The directory of an episode's artifacts inside its title directory.
pub open spec fn episode_dir_text(dir: Seq<char>, number: nat) -> Seq<char> {
    dir + "/.metadata/episode_"@ + number_text(number)
}

pub open spec fn metadata_path_text(dir: Seq<char>, number: nat, name: Seq<char>) -> Seq<char> {
    episode_dir_text(dir, number) + "/"@ + name + ".md"@
}

pub open spec fn thumbnail_path_text(dir: Seq<char>, number: nat) -> Seq<char> {
    episode_dir_text(dir, number) + "/thumbnail.jpg"@
}

pub open spec fn video_path_text(dir: Seq<char>, name: Seq<char>) -> Seq<char> {
    dir + "/"@ + name
}

/// Which outside tools a construction runs, given which artifacts exist.
#[derive(Clone, Copy, Debug, PartialEq, Eq)]
pub struct ArtifactPlan {
    /// Probe the video's duration and write a fresh record.
    pub probe_duration: bool,
    /// Extract a frame as the thumbnail.
    pub make_thumbnail: bool,
}

pub open spec fn plan_of(metadata_exists: bool, thumbnail_exists: bool) -> ArtifactPlan {
    ArtifactPlan { probe_duration: !metadata_exists, make_thumbnail: !thumbnail_exists }
}

/// Which artifacts exist once a plan has been carried out.
pub open spec fn after_plan(metadata_exists: bool, thumbnail_exists: bool, plan: ArtifactPlan) -> (bool, bool) {
    (metadata_exists || plan.probe_duration, thumbnail_exists || plan.make_thumbnail)
}

/// Constructing an episode a second time runs no outside tool: the first
/// construction left both artifacts, and an artifact that exists is reused.
pub proof fn lemma_construction_idempotent(metadata_exists: bool, thumbnail_exists: bool)
    ensures
        ({
            let first = plan_of(metadata_exists, thumbnail_exists);
            let (m, t) = after_plan(metadata_exists, thumbnail_exists, first);
            let second = plan_of(m, t);
            &&& !second.probe_duration
            &&& !second.make_thumbnail
            &&& after_plan(m, t, second) == (m, t)
        }),
{
}

/// The frame-extraction command that writes an episode's thumbnail.
pub open spec fn thumbnail_command_text(video: Seq<char>, thumbnail: Seq<char>, platform: Platform) -> Seq<char> {
    match platform {
        Platform::Windows => "ffmpeg,-i,"@ + video + ",-vf,thumbnail,-frames:v,1,"@ + thumbnail
            + ",-f,mjpeg,-hide_banner,-nostdin,-nostats,-loglevel,quiet"@,
        Platform::Unix => "ffmpeg -i \""@ + video + "\" -vf \"thumbnail\" -frames:v 1 \""@ + thumbnail
            + "\" -f mjpeg -hide_banner -nostdin -nostats -loglevel quiet"@,
    }
}

/// Where playback starts: from the beginning once watched, else where it was left.
pub open spec fn start_of(m: VideoMetadata) -> nat {
    if m.watched {
        0
    } else {
        m.current as nat
    }
}

/// The player arguments that open an episode at its start position.
pub open spec fn start_args_text(m: VideoMetadata, path: Seq<char>, platform: Platform) -> Seq<char> {
    match platform {
        Platform::Windows => "--start="@ + seconds_chars(start_of(m)) + ","@ + path,
        Platform::Unix => "--start="@ + seconds_chars(start_of(m)) + " \""@ + path + "\""@,
    }
}

/// What constructing an episode asks for: where its artifacts go, and which
/// outside tools to run for those that are missing.
#[derive(Clone, Debug)]
pub struct Construction {
    pub folder: String,
    pub metadata_path: String,
    pub thumbnail_path: String,
    /// Probe the video's duration and write a fresh record.
    pub probe_duration: bool,
    /// The frame-extraction command, when the thumbnail is missing.
    pub thumbnail_command: Option<String>,
}

fn push_episode_dir(out: &mut Vec<char>, dir: &str, number: u16)
    ensures
        final(out)@ == old(out)@ + episode_dir_text(dir@, number as nat),
{
    push_str(out, dir);
    push_str(out, "/.metadata/episode_");
    push_number(out, number as u64);
    assert(out@ =~= old(out)@ + episode_dir_text(dir@, number as nat));
}

impl Episode {
    /// Decides which outside tools to run: each artifact is made only when
    /// it does not exist yet.
    pub fn plan_artifacts(metadata_exists: bool, thumbnail_exists: bool) -> (r: ArtifactPlan)
        ensures
            r == plan_of(metadata_exists, thumbnail_exists),
    {
        ArtifactPlan { probe_duration: !metadata_exists, make_thumbnail: !thumbnail_exists }
    }

    /// Plans the construction of episode `number`, the file `name` in title
    /// directory `dir`, given which of its artifacts exist: each is made
    /// only when missing, so a second construction runs no tool.
    pub fn plan_construction(
        dir: &str,
        name: &str,
        number: u16,
        metadata_exists: bool,
        thumbnail_exists: bool,
        platform: Platform,
    ) -> (r: Construction)
        ensures
            r.folder@ == episode_dir_text(dir@, number as nat),
            r.metadata_path@ == metadata_path_text(dir@, number as nat, name@),
            r.thumbnail_path@ == thumbnail_path_text(dir@, number as nat),
            r.probe_duration == plan_of(metadata_exists, thumbnail_exists).probe_duration,
            (r.thumbnail_command is Some) == plan_of(metadata_exists, thumbnail_exists).make_thumbnail,
            r.thumbnail_command matches Some(c) ==> c@ == thumbnail_command_text(
                video_path_text(dir@, name@),
                thumbnail_path_text(dir@, number as nat),
                platform,
            ),
    {
        let plan = Episode::plan_artifacts(metadata_exists, thumbnail_exists);
        let thumbnail_path = Episode::thumbnail_file(dir, number);
        let thumbnail_command = if plan.make_thumbnail {
            let mut video: Vec<char> = Vec::new();
            push_str(&mut video, dir);
            push_str(&mut video, "/");
            push_str(&mut video, name);
            let video = string_of(&video);
            Some(Episode::thumbnail_command(video.as_str(), thumbnail_path.as_str(), platform))
        } else {
            None
        };
        Construction {
            folder: Episode::cache_folder(dir, number),
            metadata_path: Episode::metadata_file(dir, number, name),
            thumbnail_path,
            probe_duration: plan.probe_duration,
            thumbnail_command,
        }
    }

    /// The directory of the artifacts of episode `number` in title directory `dir`.
    pub fn cache_folder(dir: &str, number: u16) -> (r: String)
        ensures
            r@ == episode_dir_text(dir@, number as nat),
    {
        let mut out: Vec<char> = Vec::new();
        push_episode_dir(&mut out, dir, number);
        assert(out@ =~= episode_dir_text(dir@, number as nat));
        string_of(&out)
    }

    /// Where the record of episode `number`, file `name`, is kept.
    pub fn metadata_file(dir: &str, number: u16, name: &str) -> (r: String)
        ensures
            r@ == metadata_path_text(dir@, number as nat, name@),
    {
        let mut out: Vec<char> = Vec::new();
        push_episode_dir(&mut out, dir, number);
        push_str(&mut out, "/");
        push_str(&mut out, name);
        push_str(&mut out, ".md");
        assert(out@ =~= metadata_path_text(dir@, number as nat, name@));
        string_of(&out)
    }

    /// Where the thumbnail of episode `number` is kept.
    pub fn thumbnail_file(dir: &str, number: u16) -> (r: String)
        ensures
            r@ == thumbnail_path_text(dir@, number as nat),
    {
        let mut out: Vec<char> = Vec::new();
        push_episode_dir(&mut out, dir, number);
        push_str(&mut out, "/thumbnail.jpg");
        assert(out@ =~= thumbnail_path_text(dir@, number as nat));
        string_of(&out)
    }

    /// The command that extracts a thumbnail from `video` into `thumbnail`.
    pub fn thumbnail_command(video: &str, thumbnail: &str, platform: Platform) -> (r: String)
        ensures
            r@ == thumbnail_command_text(video@, thumbnail@, platform),
    {
        let mut out: Vec<char> = Vec::new();
        match platform {
            Platform::Windows => {
                push_str(&mut out, "ffmpeg,-i,");
                push_str(&mut out, video);
                push_str(&mut out, ",-vf,thumbnail,-frames:v,1,");
                push_str(&mut out, thumbnail);
                push_str(&mut out, ",-f,mjpeg,-hide_banner,-nostdin,-nostats,-loglevel,quiet");
            },
            Platform::Unix => {
                push_str(&mut out, "ffmpeg -i \"");
                push_str(&mut out, video);
                push_str(&mut out, "\" -vf \"thumbnail\" -frames:v 1 \"");
                push_str(&mut out, thumbnail);
                push_str(&mut out, "\" -f mjpeg -hide_banner -nostdin -nostats -loglevel quiet");
            },
        }
        string_of(&out)
    }

    /// Builds episode `number`, the file `name` in title directory `dir`,
    /// from the bytes of its record file. Fails where they are no record.
    pub fn new(dir: &str, name: &str, number: u16, record: &[u8]) -> (r: Result<Episode, RecordError>)
        ensures
            match r {
                Ok(e) => {
                    &&& record_value(record@) matches Some(m)
                    &&& e.metadata == normalized(m)
                    &&& e.number == number
                    &&& e.name@ == name@
                    &&& e.path@ == video_path_text(dir@, name@)
                    &&& e.metadata_path@ == metadata_path_text(dir@, number as nat, name@)
                    &&& e.thumbnail_path@ == thumbnail_path_text(dir@, number as nat)
                },
                Err(e) => e == RecordError::Malformed && record_value(record@) is None,
            },
    {
        let metadata = match VideoMetadata::new(record) {
            Ok(m) => m,
            Err(e) => {
                return Err(e);
            },
        };
        let mut path: Vec<char> = Vec::new();
        push_str(&mut path, dir);
        push_str(&mut path, "/");
        push_str(&mut path, name);
        Ok(Episode {
            number,
            name: String::from_str(name),
            metadata,
            thumbnail_path: Episode::thumbnail_file(dir, number),
            metadata_path: Episode::metadata_file(dir, number, name),
            path: string_of(&path),
        })
    }

    /// Reloads the progress from the record the player left.
    pub fn update(&mut self, record: &[u8]) -> (r: Result<(), RecordError>)
        ensures
            match r {
                Ok(_) => record_value(record@) matches Some(m) && *final(self) == (Episode { metadata: normalized(m), ..*old(self) }),
                Err(e) => e == RecordError::Malformed && record_value(record@) is None && *final(self) == *old(self),
            },
    {
        match VideoMetadata::new(record) {
            Ok(metadata) => {
                self.metadata = metadata;
                Ok(())
            },
            Err(e) => Err(e),
        }
    }

    /// Toggles the watched flag and returns the record file's new bytes.
    pub fn as_watched(&mut self) -> (r: Vec<u8>)
        ensures
            final(self).metadata.watched == !old(self).metadata.watched,
            final(self).metadata.current == (if final(self).metadata.watched {
                old(self).metadata.duration
            } else {
                0
            }),
            final(self).metadata.duration == old(self).metadata.duration,
            final(self).metadata.remaining == old(self).metadata.remaining,
            final(self).number == old(self).number,
            final(self).name == old(self).name,
            final(self).path == old(self).path,
            final(self).metadata_path == old(self).metadata_path,
            final(self).thumbnail_path == old(self).thumbnail_path,
            r@ == record_text(final(self).metadata),
    {
        self.metadata.as_watched();
        VideoMetadata::create_file(&self.metadata)
    }

    /// The player arguments that open this episode where it should resume.
    pub fn start_args(&self, platform: Platform) -> (r: String)
        ensures
            r@ == start_args_text(self.metadata, self.path@, platform),
    {
        let start: u64 = if self.metadata.watched {
            0
        } else {
            self.metadata.current
        };
        let mut out: Vec<char> = Vec::new();
        push_str(&mut out, "--start=");
        push_seconds_chars(&mut out, start);
        match platform {
            Platform::Windows => {
                push_str(&mut out, ",");
                push_str(&mut out, self.path.as_str());
            },
            Platform::Unix => {
                push_str(&mut out, " \"");
                push_str(&mut out, self.path.as_str());
                push_str(&mut out, "\"");
            },
        }
        string_of(&out)
    }

    /// The episode renumbered to `idx`.
    pub fn change_number(self, idx: usize) -> (r: Self)
        ensures
            r == (Episode { number: idx as u16, ..self }),
    {
        let mut e = self;
        e.number = #[verifier::truncate] (idx as u16);
        e
    }
}

} // verus!
