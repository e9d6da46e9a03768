//! Positional audio for an entity-component engine: the decisions that keep
//! each sound's device source in step with what the caller asks for.
//!
//! The engine and the audio device are driven from outside this crate; every
//! decision they act on is made, and proved, here.

pub mod buffer;
pub mod config;
pub mod decode;
pub mod effects;
pub mod laws;
pub mod listener;
pub mod sound;
pub mod source;

pub use buffer::{
    buffer_format, plan_buffer_event, AssetEvent, Buffer, BufferAction, BufferError, BufferFormat,
    BufferView, Buffers,
};
pub use sound::{
    observed_state, plan_state, request, settled_state, SoundState, SourceCommand, SourceStatus,
    StateStep,
};
pub use source::{aux_sends, placement, plan_properties, plan_source, Placement, PropertyPlan, SourcePlan};
pub use config::{OpenAlConfig, OpenAlSystem};
pub use effects::GlobalEffects;
pub use listener::{first_listener, listener_pose, ListenerPose};
pub use decode::{
    assemble_mp3, codec_for_extension, extensions, join_packets, keep_read, load, load_with,
    vorbis_granules_ok, Codec, DecodeError,
};
