use vstd::prelude::*;
use crate::buffer::{spec_buffer_format, BufferError, BufferFormat, Buffers};
use crate::listener::{spec_listener_pose, ListenerPose};
use crate::sound::{
    spec_plan_state, spec_settled_state, is_live, SoundState, SourceCommand, SourceStatus, StateStep,
};
use crate::source::{send_slots, spec_attach, spec_plan_source, SourcePlan};

verus! {

/// A channel count has a device format exactly when it is one or two: mono
/// for one, stereo for two.
pub proof fn format_iff_mono_or_stereo(channels: u16)
    ensures
        spec_buffer_format(channels) is Ok <==> (channels == 1 || channels == 2),
        spec_buffer_format(channels) == Ok::<BufferFormat, BufferError>(BufferFormat::Mono) <==> channels == 1,
        spec_buffer_format(channels) == Ok::<BufferFormat, BufferError>(BufferFormat::Stereo) <==> channels == 2,
{
}

/// A stopped sound without a source is left alone: the state pass sends no
/// command and lets nothing go, the sound stays stopped without a source, and
/// so every further pass does the same.
pub proof fn stopped_without_source_is_idle()
    ensures
        spec_plan_state(SoundState::Stopped, None) == (StateStep { command: None, release: false }),
        spec_settled_state(
            SoundState::Stopped,
            spec_plan_state(SoundState::Stopped, None),
            None,
        ) == SoundState::Stopped,
{
}

/// A playing sound that holds no source is given one. Once it holds a source
/// that the device keeps, the source gets a play command exactly when the
/// device does not already report it playing, and it is not let go.
pub proof fn playing_sound_is_played(status: SourceStatus)
    requires
        is_live(status),
    ensures
        spec_plan_source(false, None, None) == SourcePlan::Create,
        forall|wanted: Option<u32>| spec_plan_source(false, None, wanted) == SourcePlan::Create,
        (spec_plan_state(SoundState::Playing, Some(status)).command == Some(SourceCommand::Play))
            <==> status != SourceStatus::Playing,
        spec_plan_state(SoundState::Playing, Some(status)).command is None
            <==> status == SourceStatus::Playing,
        !spec_plan_state(SoundState::Playing, Some(status)).release,
{
}

/// A sound set to paused reads as paused after the state pass, once the
/// device reports its source paused.
pub proof fn paused_state_round_trips(before: SourceStatus)
    ensures
        !spec_plan_state(SoundState::Paused, Some(before)).release,
        spec_settled_state(
            SoundState::Paused,
            spec_plan_state(SoundState::Paused, Some(before)),
            Some(SourceStatus::Paused),
        ) == SoundState::Paused,
{
}

/// When the asset of a playing sound is given another device buffer, its old
/// source is let go, not reused, and the new source is bound to the new
/// buffer.
pub proof fn buffer_swap_replaces_source(held: u32, named: u32)
    requires
        held != named,
    ensures
        spec_plan_source(true, Some(held), Some(named)) == SourcePlan::Replace,
        spec_attach(SourcePlan::Replace, Some(named)) == Some(named),
{
}

/// With `n` global effects, a source that does not bypass them has exactly
/// `n` sends, the send at slot `i` being the effect at position `i`.
pub proof fn sends_follow_effect_order(n: usize)
    ensures
        send_slots(n as nat).len() == n,
        forall|i: int| 0 <= i < n ==> #[trigger] send_slots(n as nat)[i] == i,
{
}

/// The listener sits at the origin when it has no transform, and otherwise
/// at its world transform, or its local one when it has no world transform.
pub proof fn listener_follows_transform<T>(global: T, local: T)
    ensures
        spec_listener_pose::<T>(None, None) == ListenerPose::<T>::Origin,
        spec_listener_pose(Some(global), Some(local)) == ListenerPose::At(global),
        spec_listener_pose(Some(global), None) == ListenerPose::At(global),
        spec_listener_pose(None, Some(local)) == ListenerPose::At(local),
{
}

/// When an asset's buffer leaves the registry, the registry no longer holds
/// it, and a source already bound to that buffer keeps it: it is not
/// replaced, and plays on what it holds.
pub proof fn removed_buffer_keeps_bound_source<B>(registry: Buffers<B>, id: u64, held: u32)
    ensures
        !registry.removed(id).contains_key(id),
        spec_plan_source(true, Some(held), None) == SourcePlan::Keep,
{
}

} // verus!
