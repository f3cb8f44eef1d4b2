use openrec::capture::audio::{stream_properties, AudioConfig, AudioDevice, AudioSource, StreamKey};

#[test]
fn test_audio_config_default() {
    let config = AudioConfig::default();
    assert_eq!(config.source, AudioSource::Microphone);
    assert!(config.device_name.is_none());
    assert_eq!(config.sample_rate, 48000);
    assert_eq!(config.channels, 2);
}

#[test]
fn test_audio_source_variants() {
    let mic = AudioSource::Microphone;
    let sys = AudioSource::SystemAudio;
    assert_ne!(mic, sys);
    assert_eq!(mic, AudioSource::Microphone);
    assert_eq!(sys, AudioSource::SystemAudio);
}

#[test]
fn test_audio_device_struct() {
    let device = AudioDevice {
        name: "alsa_input.pci-0000_00_1f.3.analog-stereo".into(),
        description: "Built-in Audio Analog Stereo".into(),
        source_type: AudioSource::Microphone,
    };
    assert_eq!(device.source_type, AudioSource::Microphone);
    assert!(!device.name.is_empty());
    assert!(!device.description.is_empty());
}

#[test]
fn stream_properties_for_microphone() {
    let props = stream_properties(&AudioConfig::default());
    assert_eq!(
        props,
        vec![
            (StreamKey::MediaType, "Audio".to_string()),
            (StreamKey::MediaCategory, "Capture".to_string()),
            (StreamKey::MediaRole, "Screen".to_string()),
        ]
    );
}

#[test]
fn stream_properties_for_system_audio_device() {
    let config = AudioConfig {
        source: AudioSource::SystemAudio,
        device_name: Some("sink-1".into()),
        ..Default::default()
    };
    let props = stream_properties(&config);
    assert_eq!(props.len(), 5);
    assert_eq!(props[3], (StreamKey::StreamCaptureSink, "true".to_string()));
    assert_eq!(props[4], (StreamKey::TargetObject, "sink-1".to_string()));
}
