//! The playback command bridge: the scripts handed to the external
//! scripting bridge and the mapping of its outcome into a typed result.
//!
//! Every script guards itself with `if it is running`, so an absent
//! player makes each command a successful no-op; only a failure to run
//! the bridge, or a script failure it reports, becomes an error.

use vstd::prelude::*;
use crate::text::{chars_to_string, spec_digits, u64_to_chars, digit_to_char, digit_char};
use vstd::string::StringExecFns;

verus! {

/// The script that samples the player: it prints one status object, or
/// one error object when the player is not running.
pub open spec fn status_query_script_spec() -> Seq<char> {
    r#"
        on escape_json(s)
            set s to my replace_text(s, "\\", "\\\\")
            set s to my replace_text(s, "\"", "\\\"")
            return s
        end escape_json

        on replace_text(t, r, w)
            set AppleScript's text item delimiters to r
            set t_items to every text item of t
            set AppleScript's text item delimiters to w
            set t to t_items as string
            set AppleScript's text item delimiters to ""
            return t
        end replace_text

        on fix_number_string(num)
            set num_str to num as string
            set num_str to my replace_text(num_str, ",", ".")
            return num_str
        end fix_number_string

        tell application "Spotify"
            if it is running then
                set trackNameRaw to name of current track
                set artistNameRaw to artist of current track
                set trackName to my escape_json(trackNameRaw)
                set artistName to my escape_json(artistNameRaw)
                set trackVolume to sound volume as integer
                set position to my fix_number_string(player position)
                set trackDuration to my fix_number_string(duration of current track / 1000)
                set albumCover to artwork url of current track
                set playerState to player state

                return "{\"track_name\":\"" & trackName & "\",\"artist_name\":\"" & artistName & "\",\"track_volume\":" & trackVolume & ",\"position\":" & position & ",\"track_duration\":" & trackDuration & ",\"album_cover\":\"" & albumCover & "\",\"player_state\":\"" & playerState & "\"}"
            else
                return "{\"error\":\"Spotify not running\"}"
            end if
        end tell
    "#@
}

/// The script that samples the player.
pub fn status_query_script() -> (s: String)
    ensures
        s@ == status_query_script_spec(),
{
    String::from_str(
        r#"
        on escape_json(s)
            set s to my replace_text(s, "\\", "\\\\")
            set s to my replace_text(s, "\"", "\\\"")
            return s
        end escape_json

        on replace_text(t, r, w)
            set AppleScript's text item delimiters to r
            set t_items to every text item of t
            set AppleScript's text item delimiters to w
            set t to t_items as string
            set AppleScript's text item delimiters to ""
            return t
        end replace_text

        on fix_number_string(num)
            set num_str to num as string
            set num_str to my replace_text(num_str, ",", ".")
            return num_str
        end fix_number_string

        tell application "Spotify"
            if it is running then
                set trackNameRaw to name of current track
                set artistNameRaw to artist of current track
                set trackName to my escape_json(trackNameRaw)
                set artistName to my escape_json(artistNameRaw)
                set trackVolume to sound volume as integer
                set position to my fix_number_string(player position)
                set trackDuration to my fix_number_string(duration of current track / 1000)
                set albumCover to artwork url of current track
                set playerState to player state

                return "{\"track_name\":\"" & trackName & "\",\"artist_name\":\"" & artistName & "\",\"track_volume\":" & trackVolume & ",\"position\":" & position & ",\"track_duration\":" & trackDuration & ",\"album_cover\":\"" & albumCover & "\",\"player_state\":\"" & playerState & "\"}"
            else
                return "{\"error\":\"Spotify not running\"}"
            end if
        end tell
    "#,
    )
}

/// The script that pauses a playing player and plays a paused one; the
/// decision is the player's own, made from its live state.
pub open spec fn toggle_playback_script_spec() -> Seq<char> {
    r#"
        tell application "Spotify"
            if it is running then
                if player state is playing then
                    pause
                else
                    play
                end if
            end if
        end tell
    "#@
}

/// The script that toggles playback.
pub fn toggle_playback_script() -> (s: String)
    ensures
        s@ == toggle_playback_script_spec(),
{
    String::from_str(
        r#"
        tell application "Spotify"
            if it is running then
                if player state is playing then
                    pause
                else
                    play
                end if
            end if
        end tell
    "#,
    )
}

/// The script that advances one track.
pub open spec fn next_track_script_spec() -> Seq<char> {
    r#"
        tell application "Spotify"
            if it is running then
                next track
            end if
        end tell
    "#@
}

/// The script that advances one track.
pub fn next_track_script() -> (s: String)
    ensures
        s@ == next_track_script_spec(),
{
    String::from_str(
        r#"
        tell application "Spotify"
            if it is running then
                next track
            end if
        end tell
    "#,
    )
}

/// The script that retreats one track.
pub open spec fn previous_track_script_spec() -> Seq<char> {
    r#"
        tell application "Spotify"
            if it is running then
                previous track
            end if
        end tell
    "#@
}

/// The script that retreats one track.
pub fn previous_track_script() -> (s: String)
    ensures
        s@ == previous_track_script_spec(),
{
    String::from_str(
        r#"
        tell application "Spotify"
            if it is running then
                previous track
            end if
        end tell
    "#,
    )
}

/// The fractional digits of a millisecond remainder, trailing zeros
/// dropped, as the default textual form of a number would print them.
pub open spec fn spec_frac_digits(r: int) -> Seq<char> {
    if r % 10 != 0 {
        seq![digit_char(r / 100), digit_char((r / 10) % 10), digit_char(r % 10)]
    } else if r % 100 != 0 {
        seq![digit_char(r / 100), digit_char((r / 10) % 10)]
    } else {
        seq![digit_char(r / 100)]
    }
}

/// A count of milliseconds printed as decimal seconds: the whole
/// seconds, then the fractional digits if there are any.
pub open spec fn spec_seconds_text(ms: int) -> Seq<char> {
    if ms % 1000 == 0 {
        spec_digits(ms / 1000)
    } else {
        spec_digits(ms / 1000) + seq!['.'] + spec_frac_digits(ms % 1000)
    }
}

/// Prints a count of milliseconds as decimal seconds.
pub fn seconds_text(ms: u64) -> (s: String)
    ensures
        s@ == spec_seconds_text(ms as int),
{
    let mut v = u64_to_chars(ms / 1000);
    let r = ms % 1000;
    if r != 0 {
        v.push('.');
        v.push(digit_to_char(r / 100));
        if r % 10 != 0 {
            v.push(digit_to_char((r / 10) % 10));
            v.push(digit_to_char(r % 10));
        } else if r % 100 != 0 {
            v.push(digit_to_char((r / 10) % 10));
        }
        proof {
            assert(v@ =~= spec_seconds_text(ms as int));
        }
    } else {
        proof {
            assert(v@ =~= spec_seconds_text(ms as int));
        }
    }
    chars_to_string(&v)
}

/// The opening of the seek script, up to the position value.
pub open spec fn set_position_script_prefix() -> Seq<char> {
    r#"
        tell application "Spotify"
            if it is running then
                set player position to "#@
}

/// The close of the seek script, after the position value.
pub open spec fn set_position_script_suffix() -> Seq<char> {
    r#"
            end if
        end tell
        "#@
}

/// The script that seeks playback to the given offset, in milliseconds
/// printed as decimal seconds. No bounds are checked here: the player
/// clamps or rejects the value itself.
pub fn set_position_script(position_ms: u64) -> (s: String)
    ensures
        s@ == set_position_script_prefix() + spec_seconds_text(position_ms as int)
            + set_position_script_suffix(),
{
    let mut s = String::from_str(
        r#"
        tell application "Spotify"
            if it is running then
                set player position to "#,
    );
    let sec = seconds_text(position_ms);
    s.append(sec.as_str());
    s.append(
        r#"
            end if
        end tell
        "#,
    );
    s
}

/// What became of one synchronous call into the external scripting
/// bridge: the bridge could not be run at all, or it ran and reported
/// success or failure with its diagnostic text.
pub enum BridgeOutcome {
    /// The bridge process could not be started; the text is the launch
    /// error's description.
    LaunchFailed(String),
    /// The bridge ran to completion with the given exit success and
    /// captured standard-error text.
    Completed { success: bool, stderr: String },
}

/// The typed result a bridge outcome maps to: success exactly when the
/// bridge ran and exited successfully, and otherwise the diagnostic
/// text behind a fixed prefix naming what failed.
pub open spec fn spec_bridge_result(o: BridgeOutcome) -> Result<(), Seq<char>> {
    match o {
        BridgeOutcome::LaunchFailed(e) => Err("Failed to run AppleScript: "@ + e@),
        BridgeOutcome::Completed { success, stderr } => {
            if success {
                Ok(())
            } else {
                Err("AppleScript error: "@ + stderr@)
            }
        },
    }
}

/// Maps the outcome of one bridge call to the result handed back to the
/// caller: `Ok` exactly when the bridge ran and exited successfully,
/// else the bridge's diagnostic text behind a prefix naming the failure.
pub fn bridge_result(o: &BridgeOutcome) -> (r: Result<(), String>)
    ensures
        r is Ok <==> spec_bridge_result(*o) is Ok,
        r matches Err(m) ==> spec_bridge_result(*o) == Err::<(), Seq<char>>(m@),
{
    match o {
        BridgeOutcome::LaunchFailed(e) => {
            Err(String::from_str("Failed to run AppleScript: ").concat(e.as_str()))
        },
        BridgeOutcome::Completed { success, stderr } => {
            if *success {
                Ok(())
            } else {
                Err(String::from_str("AppleScript error: ").concat(stderr.as_str()))
            }
        },
    }
}

/// When the external player is not running, every command script is a
/// successful no-op: the bridge exits successfully, so each of the four
/// playback commands returns success, never an error, whatever the
/// bridge printed on its error stream.
pub proof fn lemma_commands_ok_when_player_absent(stderr: String)
    ensures
        spec_bridge_result(BridgeOutcome::Completed { success: true, stderr }) is Ok,
{
}

} // verus!
