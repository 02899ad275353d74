//! The MH section.

use vstd::prelude::*;
use crate::chunk::{find_section, section_of, ChunkIter, ChunkKind};
use crate::error::{DecodeError, Section};

verus! {

/// The MH section: a tokenizer over the chunks inside it.
#[derive(Clone, Copy, Debug)]
pub struct Mh<'a>(pub ChunkIter<'a>);

impl<'a> Mh<'a> {
    /// Finds the first MH section among the chunks of `chunk_iter`. Any
    /// further one is passed over.
    pub fn parse(chunk_iter: ChunkIter<'a>) -> (mh: Result<Option<Mh<'a>>, DecodeError>)
        ensures
            match section_of(chunk_iter@, ChunkKind::Mh, Section::Mh) {
                Ok(None) => mh matches Ok(None),
                Ok(Some(payload)) => mh matches Ok(Some(m)) && m.0@ == payload,
                Err(e) => mh matches Err(x) && x == e,
            },
    {
        match find_section(chunk_iter, ChunkKind::Mh, Section::Mh)? {
            Some(data) => Ok(Some(Mh(ChunkIter::new(data)))),
            None => Ok(None),
        }
    }
}

} // verus!
