use taped::config::{AudioConfig, QualityProfile};

#[test]
fn quality_profiles() {
    let all = [
        (QualityProfile::Low, "low", "opus", Some(24)),
        (QualityProfile::Normal, "normal", "opus", Some(64)),
        (QualityProfile::High, "high", "opus", Some(96)),
        (QualityProfile::VeryHigh, "very-high", "opus", Some(128)),
        (QualityProfile::Lossless, "lossless", "flac", None),
    ];
    for (q, name, format, bitrate) in all {
        assert_eq!(q.to_string(), name);
        assert_eq!(q.format(), format);
        assert_eq!(q.encoder(), if format == "flac" { "flac" } else { "libopus" });
        assert_eq!(q.bitrate(), bitrate);
        assert_eq!(q.sample_rate(), 44100);
        assert_eq!(q.channels(), 2);
        let c = AudioConfig { quality: q };
        assert_eq!(c.format(), format);
        assert_eq!(c.encoder(), q.encoder());
        assert_eq!(c.bitrate(), bitrate);
        assert_eq!(c.sample_rate(), 44100);
        assert_eq!(c.channels(), 2);
    }
}

#[test]
fn default_audio_config_is_very_high() {
    let c = AudioConfig::default();
    assert_eq!(c.quality, QualityProfile::VeryHigh);
    assert_eq!(c.format(), "opus");
    assert_eq!(c.bitrate(), Some(128));
}
