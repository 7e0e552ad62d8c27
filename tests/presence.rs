use guild_config::presence::{status_text, PresenceGuard};

#[test]
fn burst_of_signals_starts_one_loop() {
    let mut guard = PresenceGuard::new();
    assert!(!guard.is_started());
    let mut starts = 0;
    for _ in 0..5 {
        if guard.on_cache_ready() {
            starts += 1;
        }
    }
    assert_eq!(starts, 1);
    assert!(guard.is_started());
}

#[test]
fn status_text_counts_guilds() {
    assert_eq!(status_text(3), "Monitoring a total of 3 guilds | -help");
    assert_eq!(status_text(0), "Monitoring a total of 0 guilds | -help");
    assert_eq!(status_text(1204), "Monitoring a total of 1204 guilds | -help");
}
