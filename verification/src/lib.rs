//! Decoder for the chunked container of arranger keyboard style files.
//!
//! A style file is a sequence of tagged, length-prefixed chunks. Some of them
//! are sections that hold further chunks. This crate tokenizes the chunks,
//! finds the sections, and decodes the records inside them. It only reads:
//! every value is decoded once from a buffer that is never changed.

pub mod error;
pub mod chunk;
pub mod text;
pub mod key;
pub mod table;
pub mod ctab;
pub mod casm;
pub mod mdb;
pub mod mh;
pub mod ots;

pub use crate::casm::{Casm, Cseg, CsegIter, StylePart};
pub use crate::chunk::{Chunk, ChunkIter, ChunkKind};
pub use crate::ctab::{ChordMute, Ctab, NoteMute, Version};
pub use crate::error::{Cause, DecodeError, Policy, Section};
pub use crate::key::{Chord, Key};
pub use crate::mdb::{Mdb, Record, RecordIter, Signature};
pub use crate::mh::Mh;
pub use crate::ots::Ots;
pub use crate::table::{RetriggerRule, Table, TranspositionTable, TranspositionType};
