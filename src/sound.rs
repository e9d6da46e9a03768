use vstd::prelude::*;

verus! {

/// Playback state of a sound. The caller writes the state it wants; after each
/// state pass it holds what the device reports.
#[derive(Clone, Copy, Debug, PartialEq, Eq, Structural)]
pub enum SoundState {
    Stopped,
    Playing,
    Paused,
}

impl Default for SoundState {
    fn default() -> (r: Self)
        ensures
            r == SoundState::Stopped,
    {
        SoundState::Stopped
    }
}

/// Status of a device source, as the device reports it.
#[derive(Clone, Copy, Debug, PartialEq, Eq, Structural)]
pub enum SourceStatus {
    Initial,
    Playing,
    Paused,
    Stopped,
    Unknown,
}

/// A command sent to a device source.
#[derive(Clone, Copy, Debug, PartialEq, Eq, Structural)]
pub enum SourceCommand {
    Play,
    Pause,
    Stop,
}

/// The state that a device status stands for: only a playing or a paused
/// source counts as such; every other status reads as stopped.
pub open spec fn spec_observed_state(status: SourceStatus) -> SoundState {
    match status {
        SourceStatus::Playing => SoundState::Playing,
        SourceStatus::Paused => SoundState::Paused,
        _ => SoundState::Stopped,
    }
}

/// Maps a device status to the sound state it stands for.
pub fn observed_state(status: SourceStatus) -> (r: SoundState)
    ensures
        r == spec_observed_state(status),
{
    match status {
        SourceStatus::Playing => SoundState::Playing,
        SourceStatus::Paused => SoundState::Paused,
        _ => SoundState::Stopped,
    }
}

/// A source that the device still holds for playback: set up, playing or
/// paused. Any other status means the device let the source go.
pub open spec fn is_live(status: SourceStatus) -> bool {
    ||| status is Initial
    ||| status is Playing
    ||| status is Paused
}

/// What the state pass does to one sound's source: the command to send, if
/// any, and whether the sound lets its source go.
#[derive(Clone, Copy, Debug, PartialEq, Eq, Structural)]
pub struct StateStep {
    pub command: Option<SourceCommand>,
    pub release: bool,
}

/// The state pass for a sound in `state` whose source reports `status`
/// (`None`: the sound holds no source).
pub open spec fn spec_plan_state(state: SoundState, status: Option<SourceStatus>) -> StateStep {
    match state {
        SoundState::Stopped => StateStep {
            command: if status is Some { Some(SourceCommand::Stop) } else { None },
            release: status is Some,
        },
        SoundState::Playing => match status {
            None => StateStep { command: None, release: false },
            Some(s) => if !is_live(s) {
                StateStep { command: None, release: true }
            } else if s != SourceStatus::Playing {
                StateStep { command: Some(SourceCommand::Play), release: false }
            } else {
                StateStep { command: None, release: false }
            },
        },
        SoundState::Paused => match status {
            Some(s) => if s != SourceStatus::Paused {
                StateStep { command: Some(SourceCommand::Pause), release: false }
            } else {
                StateStep { command: None, release: false }
            },
            None => StateStep { command: None, release: false },
        },
    }
}

/// Decides the state pass for one sound: a stopped sound stops and lets go
/// of its source; a playing one is started unless the device already plays
/// it, and is let go if the device dropped it; a paused one is paused unless
/// the device already holds it paused.
pub fn plan_state(state: SoundState, status: Option<SourceStatus>) -> (r: StateStep)
    ensures
        r == spec_plan_state(state, status),
{
    match state {
        SoundState::Stopped => match status {
            Some(_) => StateStep { command: Some(SourceCommand::Stop), release: true },
            None => StateStep { command: None, release: false },
        },
        SoundState::Playing => match status {
            None => StateStep { command: None, release: false },
            Some(s) => match s {
                SourceStatus::Initial | SourceStatus::Paused => StateStep {
                    command: Some(SourceCommand::Play),
                    release: false,
                },
                SourceStatus::Playing => StateStep { command: None, release: false },
                SourceStatus::Stopped | SourceStatus::Unknown => StateStep {
                    command: None,
                    release: true,
                },
            },
        },
        SoundState::Paused => match status {
            Some(SourceStatus::Paused) | None => StateStep { command: None, release: false },
            Some(_) => StateStep { command: Some(SourceCommand::Pause), release: false },
        },
    }
}

/// The state a sound holds once the state pass is over. A sound that let go
/// of its source is stopped; one that still holds a source mirrors the status
/// the device reports after the command (`after`); one without a source keeps
/// the state it asked for.
pub open spec fn spec_settled_state(
    state: SoundState,
    step: StateStep,
    after: Option<SourceStatus>,
) -> SoundState {
    if step.release {
        SoundState::Stopped
    } else {
        match after {
            Some(s) => spec_observed_state(s),
            None => state,
        }
    }
}

/// Computes the state a sound holds after the state pass, from the step that
/// was carried out and the status the device reports afterwards (`None`: no
/// source is held).
pub fn settled_state(state: SoundState, step: StateStep, after: Option<SourceStatus>) -> (r:
    SoundState)
    ensures
        r == spec_settled_state(state, step, after),
{
    if step.release {
        SoundState::Stopped
    } else {
        match after {
            Some(s) => observed_state(s),
            None => state,
        }
    }
}

/// The command that brings a source to `target`.
pub open spec fn command_for(target: SoundState) -> SourceCommand {
    match target {
        SoundState::Stopped => SourceCommand::Stop,
        SoundState::Playing => SourceCommand::Play,
        SoundState::Paused => SourceCommand::Pause,
    }
}

/// An immediate request from the caller to move a sound to `target`: the
/// state is set at once, and a source the sound holds gets the matching
/// command straight away; stopping lets the source go. The next passes still
/// run as usual.
pub fn request(state: &mut SoundState, has_source: bool, target: SoundState) -> (r: StateStep)
    ensures
        *final(state) == target,
        r.command == (if has_source { Some(command_for(target)) } else { None::<SourceCommand> }),
        r.release == (has_source && target == SoundState::Stopped),
{
    *state = target;
    let command = if has_source {
        Some(
            match target {
                SoundState::Stopped => SourceCommand::Stop,
                SoundState::Playing => SourceCommand::Play,
                SoundState::Paused => SourceCommand::Pause,
            },
        )
    } else {
        None
    };
    StateStep { command, release: has_source && target == SoundState::Stopped }
}

} // verus!
