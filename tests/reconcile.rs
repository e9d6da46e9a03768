use bevy_openal::{
    aux_sends, first_listener, listener_pose, observed_state, placement, plan_properties, plan_source, plan_state,
    request, settled_state, ListenerPose, OpenAlConfig, OpenAlSystem, Placement, SoundState,
    SourceCommand, SourcePlan, SourceStatus, StateStep,
};

const IDLE: StateStep = StateStep { command: None, release: false };

#[test]
fn sound_state_defaults_to_stopped() {
    assert_eq!(SoundState::default(), SoundState::Stopped);
}

#[test]
fn stopped_sound_without_source_is_left_alone() {
    let plan = plan_properties::<(f32, f32, f32)>(
        SoundState::Stopped,
        false,
        None,
        Some(7),
        Some((1.0, 2.0, 3.0)),
        None,
        false,
        2,
    );
    assert!(plan.is_none());
    let step = plan_state(SoundState::Stopped, None);
    assert_eq!(step, IDLE);
    let state = settled_state(SoundState::Stopped, step, None);
    assert_eq!(state, SoundState::Stopped);
    // A second pass sees the same sound and does the same.
    let again = plan_state(state, None);
    assert_eq!(again, IDLE);
    assert_eq!(settled_state(state, again, None), SoundState::Stopped);
}

#[test]
fn stopped_sound_with_source_stops_and_releases_it() {
    let step = plan_state(SoundState::Stopped, Some(SourceStatus::Playing));
    assert_eq!(step, StateStep { command: Some(SourceCommand::Stop), release: true });
    assert_eq!(settled_state(SoundState::Stopped, step, None), SoundState::Stopped);
}

#[test]
fn playing_sound_without_source_gets_one() {
    let plan = plan_properties::<(f32, f32, f32)>(
        SoundState::Playing,
        false,
        None,
        Some(11),
        None,
        None,
        false,
        0,
    )
    .unwrap();
    assert_eq!(plan.source, SourcePlan::Create);
    assert_eq!(plan.attach, Some(11));
    assert_eq!(plan.placement, Placement::Relative);
    assert!(plan.sends.is_empty());
}

#[test]
fn playing_sound_is_played_unless_already_playing() {
    for status in [SourceStatus::Initial, SourceStatus::Paused] {
        let step = plan_state(SoundState::Playing, Some(status));
        assert_eq!(step, StateStep { command: Some(SourceCommand::Play), release: false });
    }
    assert_eq!(plan_state(SoundState::Playing, Some(SourceStatus::Playing)), IDLE);
    let step = plan_state(SoundState::Playing, Some(SourceStatus::Initial));
    assert_eq!(
        settled_state(SoundState::Playing, step, Some(SourceStatus::Playing)),
        SoundState::Playing
    );
}

#[test]
fn playing_sound_whose_source_finished_is_stopped() {
    for status in [SourceStatus::Stopped, SourceStatus::Unknown] {
        let step = plan_state(SoundState::Playing, Some(status));
        assert_eq!(step, StateStep { command: None, release: true });
        assert_eq!(settled_state(SoundState::Playing, step, None), SoundState::Stopped);
    }
}

#[test]
fn playing_sound_without_source_keeps_its_state() {
    let step = plan_state(SoundState::Playing, None);
    assert_eq!(step, IDLE);
    assert_eq!(settled_state(SoundState::Playing, step, None), SoundState::Playing);
}

#[test]
fn paused_state_round_trips() {
    let mut state = SoundState::Playing;
    let control = request(&mut state, true, SoundState::Paused);
    assert_eq!(state, SoundState::Paused);
    assert_eq!(control.command, Some(SourceCommand::Pause));
    let step = plan_state(state, Some(SourceStatus::Playing));
    assert_eq!(step, StateStep { command: Some(SourceCommand::Pause), release: false });
    assert_eq!(settled_state(state, step, Some(SourceStatus::Paused)), SoundState::Paused);
    assert_eq!(plan_state(SoundState::Paused, Some(SourceStatus::Paused)), IDLE);
}

#[test]
fn device_status_overrides_the_asked_state() {
    let step = plan_state(SoundState::Paused, Some(SourceStatus::Playing));
    // The device did not take the pause: the sound reads what it reports.
    assert_eq!(settled_state(SoundState::Paused, step, Some(SourceStatus::Playing)), SoundState::Playing);
    assert_eq!(settled_state(SoundState::Playing, IDLE, Some(SourceStatus::Initial)), SoundState::Stopped);
}

#[test]
fn observed_state_maps_every_status() {
    assert_eq!(observed_state(SourceStatus::Initial), SoundState::Stopped);
    assert_eq!(observed_state(SourceStatus::Playing), SoundState::Playing);
    assert_eq!(observed_state(SourceStatus::Paused), SoundState::Paused);
    assert_eq!(observed_state(SourceStatus::Stopped), SoundState::Stopped);
    assert_eq!(observed_state(SourceStatus::Unknown), SoundState::Stopped);
}

#[test]
fn swapped_buffer_replaces_the_source() {
    let plan = plan_properties::<(f32, f32, f32)>(
        SoundState::Playing,
        true,
        Some(3),
        Some(4),
        None,
        Some((0.5, 0.0, -1.0)),
        false,
        1,
    )
    .unwrap();
    assert_eq!(plan.source, SourcePlan::Replace);
    assert_eq!(plan.attach, Some(4));
    assert_eq!(plan.placement, Placement::Absolute((0.5, 0.0, -1.0)));
    assert_eq!(plan.sends, vec![0]);
}

#[test]
fn source_on_the_right_buffer_is_kept() {
    assert_eq!(plan_source(true, Some(4), Some(4)), SourcePlan::Keep);
    assert_eq!(plan_source(true, None, Some(4)), SourcePlan::Keep);
    assert_eq!(plan_source(false, None, Some(4)), SourcePlan::Create);
    let plan = plan_properties::<u8>(SoundState::Paused, true, Some(4), Some(4), None, None, true, 3)
        .unwrap();
    assert_eq!(plan.source, SourcePlan::Keep);
    assert_eq!(plan.attach, None);
}

#[test]
fn sends_follow_global_effects() {
    assert_eq!(aux_sends(false, 3), vec![0, 1, 2]);
    assert_eq!(aux_sends(true, 3), Vec::<usize>::new());
    assert_eq!(aux_sends(false, 0), Vec::<usize>::new());
}

#[test]
fn world_translation_comes_before_local() {
    assert_eq!(placement(Some(1), Some(2)), Placement::Absolute(1));
    assert_eq!(placement(None, Some(2)), Placement::Absolute(2));
    assert_eq!(placement::<i32>(None, None), Placement::Relative);
}

#[test]
fn listener_without_transform_sits_at_origin() {
    assert_eq!(listener_pose::<[f32; 3]>(None, None), ListenerPose::Origin);
}

#[test]
fn listener_follows_its_transform() {
    let world = [15.0f32, 0.0, 0.0];
    let local = [1.0f32, 2.0, 3.0];
    assert_eq!(listener_pose(Some(world), Some(local)), ListenerPose::At(world));
    assert_eq!(listener_pose(None, Some(local)), ListenerPose::At(local));
}

#[test]
fn requests_mirror_onto_a_held_source() {
    let mut state = SoundState::Stopped;
    let step = request(&mut state, true, SoundState::Playing);
    assert_eq!(state, SoundState::Playing);
    assert_eq!(step, StateStep { command: Some(SourceCommand::Play), release: false });
    let step = request(&mut state, true, SoundState::Stopped);
    assert_eq!(state, SoundState::Stopped);
    assert_eq!(step, StateStep { command: Some(SourceCommand::Stop), release: true });
    let step = request(&mut state, false, SoundState::Paused);
    assert_eq!(state, SoundState::Paused);
    assert_eq!(step, IDLE);
}

#[test]
fn hrtf_is_asked_for_only_when_set() {
    assert_eq!(OpenAlConfig::default().hrtf_attribute(), None);
    assert_eq!(OpenAlConfig { soft_hrtf: true }.hrtf_attribute(), Some(true));
}

#[test]
fn state_pass_runs_last() {
    assert!(OpenAlSystem::UpdateListener.runs_before(OpenAlSystem::UpdateSourceState));
    assert!(OpenAlSystem::UpdateSourceProperties.runs_before(OpenAlSystem::UpdateSourceState));
    assert!(!OpenAlSystem::UpdateSourceState.runs_before(OpenAlSystem::UpdateSourceProperties));
    assert!(!OpenAlSystem::UpdateSourceState.runs_before(OpenAlSystem::UpdateSourceState));
}

#[test]
fn lowest_entity_is_the_listener() {
    assert_eq!(first_listener(&vec![]), None);
    assert_eq!(first_listener(&vec![42]), Some(0));
    assert_eq!(first_listener(&vec![9, 3, 7, 3]), Some(1));
    assert_eq!(first_listener(&vec![1, 2, 3]), Some(0));
}
