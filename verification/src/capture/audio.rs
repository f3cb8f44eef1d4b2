//! Audio capture settings and the properties of the capture stream.

use vstd::prelude::*;

verus! {

/// Where audio is captured from.
#[derive(Debug, Clone, Copy, PartialEq, Eq, Structural)]
pub enum AudioSource {
    Microphone,
    SystemAudio,
}

/// Audio capture settings.
#[derive(Debug, Clone, PartialEq, Eq)]
pub struct AudioConfig {
    pub source: AudioSource,
    pub device_name: Option<String>,
    pub sample_rate: u32,
    pub channels: u16,
}

impl Default for AudioConfig {
    /// The default microphone, 48 kHz stereo.
    fn default() -> (c: Self)
        ensures
            c.source == AudioSource::Microphone,
            c.device_name.is_none(),
            c.sample_rate == 48000,
            c.channels == 2,
    {
        AudioConfig {
            source: AudioSource::Microphone,
            device_name: None,
            sample_rate: 48000,
            channels: 2,
        }
    }
}

/// An audio device that can be captured.
#[derive(Debug, Clone, PartialEq, Eq)]
pub struct AudioDevice {
    pub name: String,
    pub description: String,
    pub source_type: AudioSource,
}

/// A property of the capture stream, named by its role.
#[derive(Debug, Clone, Copy, PartialEq, Eq)]
pub enum StreamKey {
    MediaType,
    MediaCategory,
    MediaRole,
    StreamCaptureSink,
    TargetObject,
}

/// The texts of a list of stream properties.
pub open spec fn property_texts(v: Seq<(StreamKey, String)>) -> Seq<(StreamKey, Seq<char>)> {
    v.map_values(|p: (StreamKey, String)| (p.0, p.1@))
}

/// The properties of an audio capture stream: an audio capture for the
/// screen role; capturing the sink's output for system audio; and the
/// chosen device as target.
pub open spec fn stream_properties_of(c: AudioConfig) -> Seq<(StreamKey, Seq<char>)> {
    seq![
        (StreamKey::MediaType, "Audio"@),
        (StreamKey::MediaCategory, "Capture"@),
        (StreamKey::MediaRole, "Screen"@),
    ] + (if c.source == AudioSource::SystemAudio {
        seq![(StreamKey::StreamCaptureSink, "true"@)]
    } else {
        seq![]
    }) + (match c.device_name {
        Some(d) => seq![(StreamKey::TargetObject, d@)],
        None => seq![],
    })
}

/// The properties to open the capture stream with, in order.
pub fn stream_properties(config: &AudioConfig) -> (props: Vec<(StreamKey, String)>)
    ensures
        property_texts(props@) == stream_properties_of(*config),
{
    let mut props: Vec<(StreamKey, String)> = Vec::new();
    props.push((StreamKey::MediaType, String::from_str("Audio")));
    props.push((StreamKey::MediaCategory, String::from_str("Capture")));
    props.push((StreamKey::MediaRole, String::from_str("Screen")));
    let ghost base = props@;
    assert(property_texts(base) =~= seq![
        (StreamKey::MediaType, "Audio"@),
        (StreamKey::MediaCategory, "Capture"@),
        (StreamKey::MediaRole, "Screen"@),
    ]);
    if config.source == AudioSource::SystemAudio {
        props.push((StreamKey::StreamCaptureSink, String::from_str("true")));
    }
    let ghost with_sink = props@;
    assert(property_texts(with_sink) =~= property_texts(base) + (if config.source
        == AudioSource::SystemAudio {
        seq![(StreamKey::StreamCaptureSink, "true"@)]
    } else {
        seq![]
    }));
    match &config.device_name {
        Some(device) => {
            props.push((StreamKey::TargetObject, device.clone()));
        },
        None => {},
    }
    assert(property_texts(props@) =~= stream_properties_of(*config));
    props
}

/// The bytes of a delivered audio buffer to decode: `offset..offset + size`
/// when that lies within the mapped data (an empty chunk included);
/// nothing otherwise.
pub fn sample_range(offset: usize, size: usize, mapped_len: usize) -> (r: Option<(usize, usize)>)
    requires
        offset + size <= usize::MAX,
    ensures
        r == (if offset + size <= mapped_len {
            Some((offset, (offset + size) as usize))
        } else {
            None
        }),
{
    if offset + size <= mapped_len {
        Some((offset, offset + size))
    } else {
        None
    }
}

} // verus!
