use rovr::settings::BotConfig;

#[test]
fn absent_fields_fall_back_to_defaults() {
    let cfg = BotConfig::resolve(None, None, None, None, None, None);
    assert_eq!(cfg.name, "YouTube Downloader Bot");
    assert!(cfg.allowed_senders.is_empty());
    assert_eq!(cfg.nip05, "");
    assert!(cfg.relays.is_empty());
    assert_eq!(cfg.format, "mp3");
    assert_eq!(cfg.quality, "0");
}

#[test]
fn present_fields_pass_through_unchanged() {
    let cfg = BotConfig::resolve(
        Some("Fetcher".to_string()),
        Some(vec!["npub1xyz".to_string()]),
        Some("me@example.com".to_string()),
        Some(vec!["wss://relay.example".to_string()]),
        Some("opus".to_string()),
        Some("5".to_string()),
    );
    assert_eq!(cfg.name, "Fetcher");
    assert_eq!(cfg.allowed_senders, vec!["npub1xyz"]);
    assert_eq!(cfg.nip05, "me@example.com");
    assert_eq!(cfg.relays, vec!["wss://relay.example"]);
    assert_eq!(cfg.format, "opus");
    assert_eq!(cfg.quality, "5");
}
