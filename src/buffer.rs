use vstd::prelude::*;
use std::collections::HashMap;

verus! {

broadcast use vstd::std_specs::hash::group_hash_axioms;

/// Decoded audio: interleaved 16-bit samples, the sample rate in hertz and
/// the number of channels.
#[derive(Clone, Debug)]
pub struct Buffer {
    samples: Vec<i16>,
    sample_rate: i32,
    channels: u16,
}

/// What a decoded buffer holds.
pub struct BufferView {
    pub samples: Seq<i16>,
    pub sample_rate: i32,
    pub channels: u16,
}

impl View for Buffer {
    type V = BufferView;

    closed spec fn view(&self) -> BufferView {
        BufferView {
            samples: self.samples@,
            sample_rate: self.sample_rate,
            channels: self.channels,
        }
    }
}

impl Buffer {
    /// A buffer of the given samples, sample rate and channel count.
    pub fn new(samples: Vec<i16>, sample_rate: i32, channels: u16) -> (r: Buffer)
        ensures
            r@ == (BufferView { samples: samples@, sample_rate, channels }),
    {
        Buffer { samples, sample_rate, channels }
    }

    /// The interleaved samples.
    pub fn samples(&self) -> (r: &Vec<i16>)
        ensures
            r@ == self@.samples,
    {
        &self.samples
    }

    /// The sample rate in hertz.
    pub fn sample_rate(&self) -> (r: i32)
        ensures
            r == self@.sample_rate,
    {
        self.sample_rate
    }

    /// The number of channels.
    pub fn channels(&self) -> (r: u16)
        ensures
            r == self@.channels,
    {
        self.channels
    }
}

/// Sample layout of a device buffer.
#[derive(Clone, Copy, Debug, PartialEq, Eq, Structural)]
pub enum BufferFormat {
    Mono,
    Stereo,
}

/// Why a device buffer cannot be made.
#[derive(Clone, Copy, Debug, PartialEq, Eq, Structural)]
pub enum BufferError {
    /// Only one or two channels can go to the device.
    UnsupportedChannelCount,
}

impl BufferError {
    /// A message that describes the error.
    pub fn message(&self) -> (r: &'static str)
        ensures
            r@ == "Unsupported channel count"@,
    {
        "Unsupported channel count"
    }
}

/// The device format for a channel count.
pub open spec fn spec_buffer_format(channels: u16) -> Result<BufferFormat, BufferError> {
    if channels == 1 {
        Ok(BufferFormat::Mono)
    } else if channels == 2 {
        Ok(BufferFormat::Stereo)
    } else {
        Err(BufferError::UnsupportedChannelCount)
    }
}

/// Selects the device format for a channel count: mono for one channel,
/// stereo for two; any other count is refused.
pub fn buffer_format(channels: u16) -> (r: Result<BufferFormat, BufferError>)
    ensures
        r == spec_buffer_format(channels),
        r is Ok <==> (channels == 1 || channels == 2),
{
    match channels {
        1 => Ok(BufferFormat::Mono),
        2 => Ok(BufferFormat::Stereo),
        _ => Err(BufferError::UnsupportedChannelCount),
    }
}

/// A change in the life of a decoded asset, by asset id.
#[derive(Clone, Copy, Debug, PartialEq, Eq, Structural)]
pub enum AssetEvent {
    Created(u64),
    Modified(u64),
    Removed(u64),
}

/// What the registry does on an asset event.
#[derive(Clone, Copy, Debug, PartialEq, Eq, Structural)]
pub enum BufferAction {
    /// Make a device buffer in this format for the asset.
    Create(u64, BufferFormat),
    /// Drop the asset's device buffer.
    Remove(u64),
    /// Nothing to do.
    Ignore,
}

/// The action for an event. `channels` is the channel count of the decoded
/// asset, if it is still there when the event is handled.
pub open spec fn spec_plan_buffer_event(event: AssetEvent, channels: Option<u16>) -> Result<
    BufferAction,
    BufferError,
> {
    match event {
        AssetEvent::Created(id) => match channels {
            None => Ok(BufferAction::Ignore),
            Some(c) => match spec_buffer_format(c) {
                Ok(f) => Ok(BufferAction::Create(id, f)),
                Err(e) => Err(e),
            },
        },
        AssetEvent::Modified(_) => Ok(BufferAction::Ignore),
        AssetEvent::Removed(id) => Ok(BufferAction::Remove(id)),
    }
}

/// Decides what an asset event does to the registry. A created asset gets a
/// device buffer in the format of its channel count (an unsupported count is
/// an error); buffers are not remade when an asset is modified; a removed
/// asset loses its buffer.
pub fn plan_buffer_event(event: AssetEvent, channels: Option<u16>) -> (r: Result<
    BufferAction,
    BufferError,
>)
    ensures
        r == spec_plan_buffer_event(event, channels),
{
    match event {
        AssetEvent::Created(id) => match channels {
            None => Ok(BufferAction::Ignore),
            Some(c) => match buffer_format(c) {
                Ok(f) => Ok(BufferAction::Create(id, f)),
                Err(e) => Err(e),
            },
        },
        AssetEvent::Modified(_) => Ok(BufferAction::Ignore),
        AssetEvent::Removed(id) => Ok(BufferAction::Remove(id)),
    }
}

/// The registry of device buffers, by asset id. `B` is the shared handle of
/// a device buffer.
pub struct Buffers<B> {
    map: HashMap<u64, B>,
}

impl<B> View for Buffers<B> {
    type V = Map<u64, B>;

    closed spec fn view(&self) -> Map<u64, B> {
        self.map@
    }
}

impl<B> Buffers<B> {
    /// The registry without the buffer of asset `id`.
    pub open spec fn removed(&self, id: u64) -> Map<u64, B> {
        self@.remove(id)
    }

    /// An empty registry.
    pub fn new() -> (r: Buffers<B>)
        ensures
            r@ == Map::<u64, B>::empty(),
    {
        Buffers { map: HashMap::new() }
    }

    /// The buffer registered for an asset.
    pub fn get(&self, id: u64) -> (r: Option<&B>)
        ensures
            r matches Some(b) ==> self@.contains_key(id) && *b == self@[id],
            r is None ==> !self@.contains_key(id),
    {
        self.map.get(&id)
    }

    /// Whether an asset has a buffer.
    pub fn contains(&self, id: u64) -> (r: bool)
        ensures
            r == self@.contains_key(id),
    {
        self.map.contains_key(&id)
    }

    /// Registers a buffer for an asset, in place of any earlier one.
    pub fn insert(&mut self, id: u64, buffer: B)
        ensures
            final(self)@ == old(self)@.insert(id, buffer),
    {
        self.map.insert(id, buffer);
    }

    /// Drops an asset's buffer, handing it back.
    pub fn remove(&mut self, id: u64) -> (r: Option<B>)
        ensures
            final(self)@ == old(self).removed(id),
            r matches Some(b) ==> old(self)@.contains_key(id) && b == old(self)@[id],
            r is None ==> !old(self)@.contains_key(id),
    {
        self.map.remove(&id)
    }

    /// Records the outcome of making a device buffer for a created asset:
    /// a buffer that was made is registered; a failure leaves the registry
    /// as it was, and the asset has no buffer.
    pub fn register(&mut self, id: u64, created: Option<B>)
        ensures
            final(self)@ == (match created {
                Some(b) => old(self)@.insert(id, b),
                None => old(self)@,
            }),
    {
        if let Some(b) = created {
            self.map.insert(id, b);
        }
    }
}

} // verus!
