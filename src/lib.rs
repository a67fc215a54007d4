//! Media library core: the title and episode model, watch-progress records,
//! the cache-or-fetch protocol for catalog data, the snapshot handed to a
//! user interface, and the command lines of the outside tools.
//!
//! Everything here computes on plain values; reading directories, spawning
//! processes and talking to the network is left to the caller, which hands
//! the results in (file names, record bytes, catalog answers) and carries
//! out what comes back (records to write, command lines to run).
pub mod decimal;
pub mod text;
pub mod video_metadata;
pub mod query;
pub mod anilist;
pub mod command;
pub mod episode;
pub mod title;
pub mod meta;
pub mod backend;
pub mod cache;
pub mod navigation;
pub mod inner_data;
pub mod task;
