//! The ids of the maps that a program uses.
//!
//! The kernel writes them into a buffer of the caller's and reports how many
//! the program has. The buffer has room for as many as the program's record
//! names; the ids are what the kernel reports of it, as far as the buffer
//! holds them.

use crate::records::ProgramRecord;
use vstd::prelude::*;

verus! {

/// What the fetch of a program's maps gave: the buffer, and the number of
/// maps that the kernel reported.
#[derive(Debug)]
pub struct MapIds {
    pub ids: Vec<u32>,
    pub count: u32,
}

/// The first `count` ids of `buffer`, or all of them where it holds fewer.
pub open spec fn reported_ids(buffer: Seq<u32>, count: u32) -> Seq<u32> {
    if count <= buffer.len() {
        buffer.take(count as int)
    } else {
        buffer
    }
}

/// The ids of a program's maps, given what the read of the program gave:
/// none where the program had gone or the fetch failed.
pub open spec fn map_ids_of(outcome: Option<MapIds>) -> Seq<u32> {
    match outcome {
        Some(fetched) => reported_ids(fetched.ids@, fetched.count),
        None => Seq::empty(),
    }
}

/// A buffer for the ids of the maps of `info`: as many zeros as the record
/// names maps.
pub fn map_id_buffer(info: &ProgramRecord) -> (buffer: Vec<u32>)
    ensures
        buffer@ == Seq::new(info.nr_map_ids as nat, |i: int| 0u32),
{
    let buffer = vec![0u32; info.nr_map_ids as usize];
    proof {
        assert(buffer@ =~= Seq::new(info.nr_map_ids as nat, |i: int| 0u32));
    }
    buffer
}

/// The ids of a program's maps, given what the read of the program gave.
pub fn used_map_ids(outcome: Option<MapIds>) -> (ids: Vec<u32>)
    ensures
        ids@ == map_ids_of(outcome),
{
    match outcome {
        Some(fetched) => {
            let mut ids = fetched.ids;
            ids.truncate(fetched.count as usize);
            ids
        },
        None => Vec::new(),
    }
}

} // verus!
