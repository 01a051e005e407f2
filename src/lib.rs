//! A launcher library for classic first-person-shooter engines ("source ports"): the
//! catalogue of supported engines, a staleness-aware cache of their latest releases,
//! the parser for release descriptions, WAD archive parsing and profile management.

pub mod iwad;
pub mod pattern;
pub mod play;
pub mod profile;
pub mod release_cache;
pub mod search;
pub mod settings;
pub mod source_port;
pub mod storage;
pub mod text;
pub mod wad;
