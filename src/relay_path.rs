//! Relay-path bookkeeping: one identifier appended per hop, under a bound.
use vstd::prelude::*;

use crate::packets::RelayId;

verus! {

/// The path already holds as many entries as the mesh allows.
#[derive(Clone, Copy, PartialEq, Eq, Structural, Debug)]
pub struct PathOverflow;

/// Appends `relay_id` to `path` unless the path already holds `max` entries,
/// in which case the path is left as it was.
pub fn append_hop(path: &mut Vec<RelayId>, relay_id: RelayId, max: usize) -> (r: Result<
    (),
    PathOverflow,
>)
    ensures
        r is Ok <==> old(path)@.len() < max,
        r is Ok ==> final(path)@ == old(path)@.push(relay_id),
        r is Err ==> final(path)@ == old(path)@,
{
    if path.len() >= max {
        return Err(PathOverflow);
    }
    path.push(relay_id);
    Ok(())
}

} // verus!
