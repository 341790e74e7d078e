use noci::status::{decode_status, SpotifyStatus};

fn assert_media_fields_absent(st: &SpotifyStatus) {
    assert_eq!(st.track_name, None);
    assert_eq!(st.artist_name, None);
    assert_eq!(st.track_volume, None);
    assert_eq!(st.position_ms, None);
    assert_eq!(st.track_duration_ms, None);
    assert_eq!(st.album_cover, None);
    assert_eq!(st.player_state, None);
}

#[test]
fn player_not_running_yields_error_only() {
    let st = decode_status("{\"error\":\"Spotify not running\"}").unwrap();
    assert_eq!(st.error.as_deref(), Some("Spotify not running"));
    assert_media_fields_absent(&st);
}

#[test]
fn surrounding_whitespace_is_trimmed() {
    let st = decode_status("  \n{\"error\":\"Spotify not running\"}\n").unwrap();
    assert_eq!(st.error.as_deref(), Some("Spotify not running"));
}

#[test]
fn paused_snapshot_scenario() {
    let line = "{\"track_name\":\"Song\",\"artist_name\":\"Band\",\"track_volume\":60,\
                \"position\":42.5,\"track_duration\":210.0,\
                \"album_cover\":\"https://img.example/c.png\",\"player_state\":\"paused\"}";
    let st = decode_status(line).unwrap();
    assert_eq!(st.player_state.as_deref(), Some("paused"));
    assert_eq!(st.position_ms, Some(42_500));
    assert_eq!(st.track_duration_ms, Some(210_000));
    assert_eq!(st.track_volume, Some(60));
    assert_eq!(st.track_name.as_deref(), Some("Song"));
    assert_eq!(st.artist_name.as_deref(), Some("Band"));
    assert_eq!(st.album_cover.as_deref(), Some("https://img.example/c.png"));
    assert_eq!(st.error, None);
}

#[test]
fn missing_brace_yields_no_sample() {
    assert!(decode_status("{\"error\":\"x\"").is_none());
}

#[test]
fn missing_quote_yields_no_sample() {
    assert!(decode_status("{\"error\":\"x}").is_none());
    assert!(decode_status("{error\":\"x\"}").is_none());
}

#[test]
fn empty_and_garbage_lines_yield_no_sample() {
    assert!(decode_status("").is_none());
    assert!(decode_status("   ").is_none());
    assert!(decode_status("not json").is_none());
    assert!(decode_status("42").is_none());
}

#[test]
fn empty_object_is_a_status_with_everything_absent() {
    let st = decode_status("{}").unwrap();
    assert_media_fields_absent(&st);
    assert_eq!(st.error, None);
    let st2 = decode_status("{ }").unwrap();
    assert_eq!(st2.error, None);
}

#[test]
fn string_escapes_are_decoded() {
    let st = decode_status("{\"track_name\":\"a\\\"b\\\\c\\n\\t\\/d\"}").unwrap();
    assert_eq!(st.track_name.as_deref(), Some("a\"b\\c\n\t/d"));
}

#[test]
fn unicode_escape_yields_no_sample() {
    assert!(decode_status("{\"track_name\":\"\\u0041\"}").is_none());
}

#[test]
fn bare_control_character_yields_no_sample() {
    assert!(decode_status("{\"track_name\":\"a\u{0001}b\"}").is_none());
}

#[test]
fn null_clears_a_field() {
    let st = decode_status("{\"track_name\":null,\"error\":null}").unwrap();
    assert_eq!(st.track_name, None);
    assert_eq!(st.error, None);
}

#[test]
fn unknown_scalar_keys_are_tolerated() {
    let line = "{\"shuffle\":true,\"repeat\":false,\"bitrate\":-320,\"note\":null,\
                \"rating\":4.5,\"source\":\"local\",\"error\":\"x\"}";
    let st = decode_status(line).unwrap();
    assert_eq!(st.error.as_deref(), Some("x"));
}

#[test]
fn unknown_key_with_nested_value_yields_no_sample() {
    assert!(decode_status("{\"extra\":{}}").is_none());
    assert!(decode_status("{\"extra\":[1,2]}").is_none());
}

#[test]
fn repeated_key_keeps_its_last_value() {
    let st = decode_status("{\"error\":\"a\",\"error\":\"b\"}").unwrap();
    assert_eq!(st.error.as_deref(), Some("b"));
}

#[test]
fn volume_must_be_a_plain_integer() {
    assert!(decode_status("{\"track_volume\":60.5}").is_none());
    assert!(decode_status("{\"track_volume\":-1}").is_none());
    assert!(decode_status("{\"track_volume\":\"60\"}").is_none());
    assert!(decode_status("{\"track_volume\":5000000000}").is_none());
    assert_eq!(
        decode_status("{\"track_volume\":100}").unwrap().track_volume,
        Some(100)
    );
}

#[test]
fn positions_reject_malformed_numbers() {
    assert!(decode_status("{\"position\":042}").is_none());
    assert!(decode_status("{\"position\":42.}").is_none());
    assert!(decode_status("{\"position\":.5}").is_none());
    assert!(decode_status("{\"position\":-1.0}").is_none());
    assert!(decode_status("{\"position\":1e3}").is_none());
}

#[test]
fn position_without_a_fraction_is_whole_seconds() {
    assert_eq!(
        decode_status("{\"position\":42}").unwrap().position_ms,
        Some(42_000)
    );
    assert_eq!(decode_status("{\"position\":0}").unwrap().position_ms, Some(0));
    assert_eq!(
        decode_status("{\"position\":0.25}").unwrap().position_ms,
        Some(250)
    );
}

#[test]
fn fractional_digits_past_the_third_are_dropped() {
    assert_eq!(
        decode_status("{\"position\":1.2345}").unwrap().position_ms,
        Some(1_234)
    );
    assert_eq!(
        decode_status("{\"position\":1.2}").unwrap().position_ms,
        Some(1_200)
    );
}

#[test]
fn oversized_positions_yield_no_sample() {
    assert!(decode_status("{\"position\":99999999999999999999}").is_none());
}

#[test]
fn text_where_a_number_is_expected_yields_no_sample() {
    assert!(decode_status("{\"position\":\"42\"}").is_none());
    assert!(decode_status("{\"track_name\":42}").is_none());
}

#[test]
fn trailing_content_yields_no_sample() {
    assert!(decode_status("{} trailing").is_none());
    assert!(decode_status("{\"error\":\"x\"}{}").is_none());
}

#[test]
fn both_error_and_media_fields_are_tolerated() {
    let st = decode_status("{\"error\":\"x\",\"player_state\":\"playing\"}").unwrap();
    assert_eq!(st.error.as_deref(), Some("x"));
    assert_eq!(st.player_state.as_deref(), Some("playing"));
}
