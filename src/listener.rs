use vstd::prelude::*;

verus! {

/// Where the listener is put.
#[derive(Clone, Copy, Debug, PartialEq, Eq)]
pub enum ListenerPose<T> {
    /// At the given transform: its translation, and the basis it spans.
    At(T),
    /// At the origin, facing along +Z with +Y up.
    Origin,
}

/// World transform first, then local transform; with neither, or with no
/// listener at all, the listener sits at the origin.
pub open spec fn spec_listener_pose<T>(global: Option<T>, local: Option<T>) -> ListenerPose<T> {
    match global {
        Some(t) => ListenerPose::At(t),
        None => match local {
            Some(t) => ListenerPose::At(t),
            None => ListenerPose::Origin,
        },
    }
}

/// Chooses the listener's pose from the transforms of the listener entity
/// (both `None` when there is no listener).
pub fn listener_pose<T>(global: Option<T>, local: Option<T>) -> (r: ListenerPose<T>)
    ensures
        r == spec_listener_pose(global, local),
{
    match global {
        Some(t) => ListenerPose::At(t),
        None => match local {
            Some(t) => ListenerPose::At(t),
            None => ListenerPose::Origin,
        },
    }
}

/// The listener that wins when several entities are marked as the listener:
/// the one with the lowest entity id, the earliest of equal ids.
pub open spec fn is_first_listener(ids: Seq<u64>, i: int) -> bool {
    &&& 0 <= i < ids.len()
    &&& forall|j: int| 0 <= j < ids.len() ==> ids[i] <= #[trigger] ids[j]
    &&& forall|j: int| 0 <= j < i ==> ids[i] != #[trigger] ids[j]
}

/// Picks, among the entities marked as the listener (by entity id), the
/// position of the one that is used; `None` when there is none.
pub fn first_listener(ids: &Vec<u64>) -> (r: Option<usize>)
    ensures
        r is None <==> ids@.len() == 0,
        r matches Some(i) ==> is_first_listener(ids@, i as int),
{
    if ids.len() == 0 {
        return None;
    }
    let mut best: usize = 0;
    let mut k: usize = 1;
    while k < ids.len()
        invariant
            1 <= k <= ids@.len(),
            best < k,
            forall|j: int| 0 <= j < k ==> ids@[best as int] <= #[trigger] ids@[j],
            forall|j: int| 0 <= j < best ==> ids@[best as int] != #[trigger] ids@[j],
        decreases ids@.len() - k,
    {
        if ids[k] < ids[best] {
            best = k;
        }
        k = k + 1;
    }
    Some(best)
}

} // verus!
