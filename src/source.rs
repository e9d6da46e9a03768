use vstd::prelude::*;
use crate::sound::SoundState;

verus! {

/// What the property pass does with a sound's device source before it pushes
/// the sound's properties onto it.
#[derive(Clone, Copy, Debug, PartialEq, Eq, Structural)]
pub enum SourcePlan {
    /// The source the sound holds stays.
    Keep,
    /// The sound holds no source: a new one is made.
    Create,
    /// The source plays a buffer other than the one the sound names now: it
    /// is let go, and a new one is made in its place.
    Replace,
}

/// Where a source is placed.
#[derive(Clone, Copy, Debug, PartialEq, Eq)]
pub enum Placement<T> {
    /// In the world, at the given translation, with distance attenuation.
    Absolute(T),
    /// At the listener itself, untouched by distance.
    Relative,
}

/// The whole property pass for one sound that is not stopped.
pub struct PropertyPlan<T> {
    /// What becomes of the sound's source.
    pub source: SourcePlan,
    /// The device buffer that a newly made source is bound to (`None` for a
    /// source that is kept, or when no buffer stands for the sound's asset).
    pub attach: Option<u32>,
    /// Where the source is placed.
    pub placement: Placement<T>,
    /// The auxiliary send slots wired on the source, each to the global
    /// effect at the same position.
    pub sends: Vec<usize>,
}

/// A source is stale when it is bound to one device buffer while the registry
/// holds another for the sound's asset. A source with no buffer, or a sound
/// whose asset has no buffer any more, is not stale: such a source keeps what
/// it has.
pub open spec fn is_stale(source_buffer: Option<u32>, wanted: Option<u32>) -> bool {
    &&& source_buffer is Some
    &&& wanted is Some
    &&& source_buffer->0 != wanted->0
}

/// What becomes of the source of a sound that is not stopped.
pub open spec fn spec_plan_source(has_source: bool, source_buffer: Option<u32>, wanted: Option<u32>)
    -> SourcePlan {
    if !has_source {
        SourcePlan::Create
    } else if is_stale(source_buffer, wanted) {
        SourcePlan::Replace
    } else {
        SourcePlan::Keep
    }
}

/// Decides what becomes of a sound's source, from whether the sound holds one,
/// the device buffer that source is bound to, and the device buffer the
/// registry holds for the sound's asset.
pub fn plan_source(has_source: bool, source_buffer: Option<u32>, wanted: Option<u32>) -> (r:
    SourcePlan)
    ensures
        r == spec_plan_source(has_source, source_buffer, wanted),
{
    if !has_source {
        SourcePlan::Create
    } else {
        match (source_buffer, wanted) {
            (Some(held), Some(named)) => if held != named {
                SourcePlan::Replace
            } else {
                SourcePlan::Keep
            },
            _ => SourcePlan::Keep,
        }
    }
}

/// World translation first, then local translation; with neither, the source
/// sits at the listener.
pub open spec fn spec_placement<T>(global: Option<T>, local: Option<T>) -> Placement<T> {
    match global {
        Some(t) => Placement::Absolute(t),
        None => match local {
            Some(t) => Placement::Absolute(t),
            None => Placement::Relative,
        },
    }
}

/// Places a source from the translations of its entity.
pub fn placement<T>(global: Option<T>, local: Option<T>) -> (r: Placement<T>)
    ensures
        r == spec_placement(global, local),
{
    match global {
        Some(t) => Placement::Absolute(t),
        None => match local {
            Some(t) => Placement::Absolute(t),
            None => Placement::Relative,
        },
    }
}

/// The send slots `0, 1, ..., n - 1`.
pub open spec fn send_slots(n: nat) -> Seq<usize> {
    Seq::new(n, |i: int| i as usize)
}

/// The auxiliary send slots wired on a source when `effects` global effects
/// are registered: one per effect, at its position, or none at all for a
/// sound that bypasses global effects.
pub fn aux_sends(bypass: bool, effects: usize) -> (r: Vec<usize>)
    ensures
        r@ == (if bypass { Seq::<usize>::empty() } else { send_slots(effects as nat) }),
{
    let mut sends: Vec<usize> = Vec::new();
    if !bypass {
        let mut i: usize = 0;
        while i < effects
            invariant
                i <= effects,
                sends@ == send_slots(i as nat),
            decreases effects - i,
        {
            sends.push(i);
            i = i + 1;
            assert(sends@ =~= send_slots(i as nat));
        }
    }
    proof {
        if bypass {
            assert(sends@ =~= Seq::<usize>::empty());
        }
    }
    sends
}

/// The buffer that a source made in this pass is bound to.
pub open spec fn spec_attach(plan: SourcePlan, wanted: Option<u32>) -> Option<u32> {
    if plan == SourcePlan::Keep {
        None
    } else {
        wanted
    }
}

/// Plans the property pass for one sound in `state`. A stopped sound is left
/// alone (`None`). Otherwise the plan says what becomes of its source, which
/// buffer a new source is bound to, where the source goes, and which sends
/// are wired; every property is pushed each pass whether or not it changed.
pub fn plan_properties<T>(
    state: SoundState,
    has_source: bool,
    source_buffer: Option<u32>,
    wanted: Option<u32>,
    global: Option<T>,
    local: Option<T>,
    bypass: bool,
    effects: usize,
) -> (r: Option<PropertyPlan<T>>)
    ensures
        r is None <==> state == SoundState::Stopped,
        r matches Some(p) ==> {
            &&& p.source == spec_plan_source(has_source, source_buffer, wanted)
            &&& p.attach == spec_attach(p.source, wanted)
            &&& p.placement == spec_placement(global, local)
            &&& p.sends@ == (if bypass {
                Seq::<usize>::empty()
            } else {
                send_slots(effects as nat)
            })
        },
{
    if state == SoundState::Stopped {
        return None;
    }
    let source = plan_source(has_source, source_buffer, wanted);
    let attach = match source {
        SourcePlan::Keep => None,
        _ => wanted,
    };
    Some(
        PropertyPlan {
            source,
            attach,
            placement: placement(global, local),
            sends: aux_sends(bypass, effects),
        },
    )
}

} // verus!
