//! An interactive terminal session around a remote media catalog: search,
//! inspect and select candidates, and control playback, with downloaded
//! audio and thumbnails cached on local disk.
//!
//! This crate is the session's verified core: the result-set, cursor,
//! selection and download-mode state machine, the command grammar over it,
//! request construction and response decoding for the catalog, and the
//! cache and playback decisions. Everything that touches the world — the
//! prompt, the transfers, the download tool, the playback engine and the
//! terminal — surrounds this core and only carries out what it decided.

use vstd::prelude::*;

pub mod backend;
pub mod command;
pub mod download;
pub mod error;
pub mod json;
pub mod player;
pub mod setup;
pub mod strutil;
pub mod youtube;
pub mod youtube_dl;

verus! {

} // verus!
