use noci::channel::{poll_tick, status_event_name, StatusChannel};
use noci::params::POLL_INTERVAL_MS;
use noci::player::{
    bridge_result, next_track_script, previous_track_script, seconds_text, set_position_script,
    status_query_script, toggle_playback_script, BridgeOutcome,
};

#[test]
fn absent_player_is_success_for_every_command() {
    // With the player not running each script is a no-op and the bridge
    // exits successfully; all four commands must report success.
    for stderr in ["", "ignored noise"] {
        let outcome = BridgeOutcome::Completed { success: true, stderr: stderr.to_string() };
        assert!(bridge_result(&outcome).is_ok());
    }
}

#[test]
fn launch_failure_is_reported_with_its_cause() {
    let outcome = BridgeOutcome::LaunchFailed("No such file or directory".to_string());
    let err = bridge_result(&outcome).unwrap_err();
    assert_eq!(err, "Failed to run AppleScript: No such file or directory");
}

#[test]
fn script_failure_carries_the_diagnostic_text() {
    let outcome = BridgeOutcome::Completed { success: false, stderr: "oops".to_string() };
    let err = bridge_result(&outcome).unwrap_err();
    assert_eq!(err, "AppleScript error: oops");
}

#[test]
fn seconds_are_printed_like_a_plain_decimal() {
    assert_eq!(seconds_text(42_500), "42.5");
    assert_eq!(seconds_text(42_000), "42");
    assert_eq!(seconds_text(42_050), "42.05");
    assert_eq!(seconds_text(1_234), "1.234");
    assert_eq!(seconds_text(0), "0");
    assert_eq!(seconds_text(5), "0.005");
}

#[test]
fn seek_script_embeds_the_position() {
    let s = set_position_script(42_500);
    assert!(s.contains("set player position to 42.5\n"));
    assert!(s.contains("tell application \"Spotify\""));
    assert!(s.contains("if it is running then"));
    let whole = set_position_script(7_000);
    assert!(whole.contains("set player position to 7\n"));
}

#[test]
fn command_scripts_guard_on_a_running_player() {
    for script in [
        toggle_playback_script(),
        next_track_script(),
        previous_track_script(),
        status_query_script(),
    ] {
        assert!(script.contains("tell application \"Spotify\""));
        assert!(script.contains("if it is running then"));
    }
    assert!(toggle_playback_script().contains("pause"));
    assert!(toggle_playback_script().contains("play"));
    assert!(next_track_script().contains("next track"));
    assert!(previous_track_script().contains("previous track"));
    assert!(status_query_script().contains("{\\\"error\\\":\\\"Spotify not running\\\"}"));
}

#[test]
fn channel_keeps_only_the_latest_sample() {
    let mut chan = StatusChannel::new();
    assert!(chan.latest.is_none());
    assert!(poll_tick(&mut chan, Some("{\"error\":\"a\"}")));
    assert!(poll_tick(&mut chan, Some("{\"error\":\"b\"}")));
    let sample = chan.take().unwrap();
    assert_eq!(sample.error.as_deref(), Some("b"));
    assert!(chan.take().is_none());
}

#[test]
fn undecodable_ticks_publish_nothing() {
    let mut chan = StatusChannel::new();
    assert!(!poll_tick(&mut chan, None));
    assert!(!poll_tick(&mut chan, Some("not json")));
    assert!(chan.latest.is_none());
    assert!(poll_tick(&mut chan, Some("{\"error\":\"x\"}")));
    assert!(!poll_tick(&mut chan, Some("broken")));
    assert_eq!(chan.latest.as_ref().unwrap().error.as_deref(), Some("x"));
}

#[test]
fn poll_interval_is_800ms() {
    assert_eq!(POLL_INTERVAL_MS, 800);
}

#[test]
fn status_topic_name_is_fixed() {
    assert_eq!(status_event_name(), "spotify-status-update");
}
