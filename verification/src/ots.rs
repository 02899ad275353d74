//! The OTS section.

use vstd::prelude::*;
use crate::chunk::{find_section, section_of, ChunkIter, ChunkKind};
use crate::error::{DecodeError, Section};

verus! {

/// The OTS section: a tokenizer over the chunks inside it, each of which
/// holds a track.
#[derive(Clone, Copy, Debug)]
pub struct Ots<'a>(pub ChunkIter<'a>);

impl<'a> Ots<'a> {
    /// Finds the first OTS section among the chunks of `chunk_iter`. Any
    /// further one is passed over.
    pub fn parse(chunk_iter: ChunkIter<'a>) -> (ots: Result<Option<Ots<'a>>, DecodeError>)
        ensures
            match section_of(chunk_iter@, ChunkKind::Ots, Section::Ots) {
                Ok(None) => ots matches Ok(None),
                Ok(Some(payload)) => ots matches Ok(Some(o)) && o.0@ == payload,
                Err(e) => ots matches Err(x) && x == e,
            },
    {
        match find_section(chunk_iter, ChunkKind::Ots, Section::Ots)? {
            Some(data) => Ok(Some(Ots(ChunkIter::new(data)))),
            None => Ok(None),
        }
    }
}

} // verus!
