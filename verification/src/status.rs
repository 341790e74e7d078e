//! The player status snapshot and the strict decoder for the one-line
//! status objects the external player bridge prints.
//!
//! The line is a flat JSON object; the decoder accepts exactly that
//! shape, with any of the known keys absent or `null`, and rejects
//! everything else — a rejected line simply yields no sample. Where the
//! protocol leaves room, the decoder picks one deterministic rule:
//! durations are carried in whole milliseconds (fractional digits past
//! the third are dropped, values too large for the representation are
//! rejected), a repeated key keeps its last value, unknown keys are
//! tolerated when their value is a scalar, and a Unicode escape or an
//! exponent yields no sample.

use vstd::prelude::*;
use crate::text::{chars_of, chars_to_string, str_eq_chars};

verus! {

/// The mathematical value of a status snapshot: each field either absent
/// or a plain value, text as character sequences and times in whole
/// milliseconds.
pub struct StatusView {
    pub track_name: Option<Seq<char>>,
    pub artist_name: Option<Seq<char>>,
    pub track_volume: Option<u32>,
    pub position_ms: Option<u64>,
    pub track_duration_ms: Option<u64>,
    pub album_cover: Option<Seq<char>>,
    pub player_state: Option<Seq<char>>,
    pub error: Option<Seq<char>>,
}

/// One sample of the external player, produced once per poll tick and
/// immutable afterwards. Either the media fields are populated or only
/// `error` is set; a sample carrying both is a protocol violation that
/// the decoder tolerates and hands through unchanged.
///
/// `position_ms` and `track_duration_ms` carry the playback position and
/// the track duration in whole milliseconds; `track_volume` is the
/// 0–100 volume of the player.
#[derive(Debug, Clone)]
pub struct SpotifyStatus {
    pub track_name: Option<String>,
    pub artist_name: Option<String>,
    pub track_volume: Option<u32>,
    pub position_ms: Option<u64>,
    pub track_duration_ms: Option<u64>,
    pub album_cover: Option<String>,
    pub player_state: Option<String>,
    pub error: Option<String>,
}

impl View for SpotifyStatus {
    type V = StatusView;

    open spec fn view(&self) -> StatusView {
        StatusView {
            track_name: match self.track_name {
                Some(s) => Some(s@),
                None => None,
            },
            artist_name: match self.artist_name {
                Some(s) => Some(s@),
                None => None,
            },
            track_volume: self.track_volume,
            position_ms: self.position_ms,
            track_duration_ms: self.track_duration_ms,
            album_cover: match self.album_cover {
                Some(s) => Some(s@),
                None => None,
            },
            player_state: match self.player_state {
                Some(s) => Some(s@),
                None => None,
            },
            error: match self.error {
                Some(s) => Some(s@),
                None => None,
            },
        }
    }
}

/// A status with every field absent.
pub open spec fn empty_status() -> StatusView {
    StatusView {
        track_name: None,
        artist_name: None,
        track_volume: None,
        position_ms: None,
        track_duration_ms: None,
        album_cover: None,
        player_state: None,
        error: None,
    }
}

impl SpotifyStatus {
    /// A status with every field absent.
    pub fn empty() -> (r: SpotifyStatus)
        ensures
            r@ == empty_status(),
    {
        SpotifyStatus {
            track_name: None,
            artist_name: None,
            track_volume: None,
            position_ms: None,
            track_duration_ms: None,
            album_cover: None,
            player_state: None,
            error: None,
        }
    }
}

/// The whitespace the decoder skips between tokens and around the line.
pub open spec fn is_ws(c: char) -> bool {
    c == ' ' || c == '\t' || c == '\n' || c == '\r'
}

/// The first position at or after `i` holding no whitespace.
pub open spec fn spec_skip_ws(s: Seq<char>, i: int) -> int
    decreases s.len() - i,
{
    if 0 <= i < s.len() && is_ws(s[i]) {
        spec_skip_ws(s, i + 1)
    } else {
        i
    }
}

fn is_ws_char(c: char) -> (b: bool)
    ensures
        b == is_ws(c),
{
    c == ' ' || c == '\t' || c == '\n' || c == '\r'
}

fn skip_ws(s: &Vec<char>, i: usize) -> (r: usize)
    requires
        i <= s.len(),
    ensures
        r == spec_skip_ws(s@, i as int),
        i <= r <= s.len(),
{
    let mut j = i;
    while j < s.len() && is_ws_char(s[j])
        invariant
            i <= j <= s.len(),
            spec_skip_ws(s@, i as int) == spec_skip_ws(s@, j as int),
        decreases s.len() - j,
    {
        j += 1;
    }
    j
}

/// The character a single-letter escape stands for, if the letter is one
/// of the supported escapes.
pub open spec fn escape_char(e: char) -> Option<char> {
    if e == '"' { Some('"') }
    else if e == '\\' { Some('\\') }
    else if e == '/' { Some('/') }
    else if e == 'n' { Some('\n') }
    else if e == 't' { Some('\t') }
    else if e == 'r' { Some('\r') }
    else if e == 'b' { Some('\u{0008}') }
    else if e == 'f' { Some('\u{000C}') }
    else { None }
}

fn escape_char_exec(e: char) -> (r: Option<char>)
    ensures
        r == escape_char(e),
{
    match e {
        '"' => Some('"'),
        '\\' => Some('\\'),
        '/' => Some('/'),
        'n' => Some('\n'),
        't' => Some('\t'),
        'r' => Some('\r'),
        'b' => Some('\u{0008}'),
        'f' => Some('\u{000C}'),
        _ => None,
    }
}

/// The body of a quoted string from position `i` (just after the opening
/// quote): the text read so far plus what follows up to the closing
/// quote, or nothing when the string is unterminated, holds a bare
/// control character, or uses an escape outside the supported set.
pub open spec fn spec_string_rest(s: Seq<char>, i: int, acc: Seq<char>) -> Option<(Seq<char>, int)>
    decreases s.len() - i,
{
    if i < 0 || i >= s.len() {
        None
    } else if s[i] == '"' {
        Some((acc, i + 1))
    } else if s[i] == '\\' {
        if i + 1 >= s.len() {
            None
        } else {
            match escape_char(s[i + 1]) {
                Some(u) => spec_string_rest(s, i + 2, acc.push(u)),
                None => None,
            }
        }
    } else if (s[i] as u32) < 0x20 {
        None
    } else {
        spec_string_rest(s, i + 1, acc.push(s[i]))
    }
}

/// A quoted string at position `i`: its text and the position just after
/// the closing quote.
pub open spec fn spec_parse_string(s: Seq<char>, i: int) -> Option<(Seq<char>, int)> {
    if 0 <= i < s.len() && s[i] == '"' {
        spec_string_rest(s, i + 1, Seq::empty())
    } else {
        None
    }
}

fn parse_string(s: &Vec<char>, i: usize) -> (r: Option<(Vec<char>, usize)>)
    requires
        i <= s.len(),
    ensures
        match r {
            Some(p) => {
                &&& spec_parse_string(s@, i as int) == Some((p.0@, p.1 as int))
                &&& i < p.1 <= s.len()
            },
            None => spec_parse_string(s@, i as int) is None,
        },
{
    if i >= s.len() || s[i] != '"' {
        return None;
    }
    let mut acc: Vec<char> = Vec::new();
    let mut j = i + 1;
    loop
        invariant
            i + 1 <= j <= s.len(),
            spec_parse_string(s@, i as int) == spec_string_rest(s@, j as int, acc@),
        decreases s.len() - j,
    {
        if j >= s.len() {
            return None;
        }
        let c = s[j];
        if c == '"' {
            return Some((acc, j + 1));
        } else if c == '\\' {
            if j + 1 >= s.len() {
                return None;
            }
            match escape_char_exec(s[j + 1]) {
                Some(u) => {
                    acc.push(u);
                    j += 2;
                },
                None => {
                    return None;
                },
            }
        } else if (c as u32) < 0x20 {
            return None;
        } else {
            acc.push(c);
            j += 1;
        }
    }
}

/// A decimal digit.
pub open spec fn is_digit(c: char) -> bool {
    48 <= (c as u32) <= 57
}

/// The value of a digit character; zero for any other character, so the
/// function is total.
pub open spec fn digit_val(c: char) -> int {
    if is_digit(c) { (c as u32) - 48 } else { 0 }
}

/// The first position at or after `i` holding no decimal digit.
pub open spec fn end_of_digits(s: Seq<char>, i: int) -> int
    decreases s.len() - i,
{
    if 0 <= i < s.len() && is_digit(s[i]) {
        end_of_digits(s, i + 1)
    } else {
        i
    }
}

/// The number the digits of `s` between `i` and `j` spell, most
/// significant first.
pub open spec fn digits_value(s: Seq<char>, i: int, j: int) -> int
    decreases j - i,
{
    if j <= i {
        0
    } else {
        digits_value(s, i, j - 1) * 10 + digit_val(s[j - 1])
    }
}

/// A digit run never ends before it starts.
proof fn lemma_end_of_digits_lb(s: Seq<char>, i: int)
    ensures
        end_of_digits(s, i) >= i,
    decreases s.len() - i,
{
    if 0 <= i < s.len() && is_digit(s[i]) {
        lemma_end_of_digits_lb(s, i + 1);
    }
}

/// A digit string's value is never negative.
proof fn lemma_digits_nonneg(s: Seq<char>, i: int, j: int)
    ensures
        0 <= digits_value(s, i, j),
    decreases j - i,
{
    if j > i {
        lemma_digits_nonneg(s, i, j - 1);
    }
}

/// Reading more digits never shrinks the value.
proof fn lemma_digits_mono(s: Seq<char>, i: int, k: int, j: int)
    requires
        k <= j,
    ensures
        digits_value(s, i, k) <= digits_value(s, i, j),
    decreases j - k,
{
    if k < j {
        lemma_digits_mono(s, i, k, j - 1);
        lemma_digits_nonneg(s, i, j - 1);
    }
}

fn is_digit_char(c: char) -> (b: bool)
    ensures
        b == is_digit(c),
{
    let u = c as u32;
    48 <= u && u <= 57
}

/// Scans a run of digits from `i`. Returns where the run ends and its
/// value, or `None` in place of a value the machine word cannot hold.
fn scan_digits(s: &Vec<char>, i: usize) -> (r: (usize, Option<u64>))
    requires
        i <= s.len(),
    ensures
        r.0 == end_of_digits(s@, i as int),
        i <= r.0 <= s.len(),
        match r.1 {
            Some(v) => v == digits_value(s@, i as int, r.0 as int),
            None => digits_value(s@, i as int, r.0 as int) > u64::MAX,
        },
{
    let mut j = i;
    let mut acc: u64 = 0;
    let mut over = false;
    while j < s.len() && is_digit_char(s[j])
        invariant
            i <= j <= s.len(),
            end_of_digits(s@, i as int) == end_of_digits(s@, j as int),
            !over ==> acc == digits_value(s@, i as int, j as int),
            over ==> digits_value(s@, i as int, j as int) > u64::MAX,
        decreases s.len() - j,
    {
        let d = (s[j] as u32) as u64 - 48;
        proof {
            lemma_digits_nonneg(s@, i as int, j as int);
        }
        if over {
            proof {
                lemma_digits_mono(s@, i as int, j as int, j as int + 1);
            }
        } else if acc > u64::MAX / 10 || (acc == u64::MAX / 10 && d > u64::MAX % 10) {
            over = true;
            proof {
                assert(digits_value(s@, i as int, j as int + 1)
                    == digits_value(s@, i as int, j as int) * 10 + digit_val(s@[j as int]));
            }
        } else {
            acc = acc * 10 + d;
        }
        j += 1;
    }
    if over {
        (j, None)
    } else {
        (j, Some(acc))
    }
}

/// Whether a digit run starting at `i` and ending at `j` is a well-formed
/// integer part: at least one digit and no leading zero.
pub open spec fn well_formed_int(s: Seq<char>, i: int, j: int) -> bool {
    &&& j > i
    &&& (j - i >= 2 ==> s[i] != '0')
}

/// An unsigned integer at position `i`, rejected when it is absent, has
/// a leading zero, or exceeds the 32-bit range the volume field uses.
pub open spec fn spec_parse_u32(s: Seq<char>, i: int) -> Option<(u32, int)> {
    let j = end_of_digits(s, i);
    if !well_formed_int(s, i, j) {
        None
    } else if digits_value(s, i, j) > u32::MAX {
        None
    } else {
        Some((digits_value(s, i, j) as u32, j))
    }
}

fn parse_u32(s: &Vec<char>, i: usize) -> (r: Option<(u32, usize)>)
    requires
        i <= s.len(),
    ensures
        match r {
            Some(p) => {
                &&& spec_parse_u32(s@, i as int) == Some((p.0, p.1 as int))
                &&& i < p.1 <= s.len()
            },
            None => spec_parse_u32(s@, i as int) is None,
        },
{
    let (j, val) = scan_digits(s, i);
    if j == i {
        return None;
    }
    if j - i >= 2 && s[i] == '0' {
        return None;
    }
    match val {
        Some(v) => {
            if v > u32::MAX as u64 {
                None
            } else {
                Some((v as u32, j))
            }
        },
        None => None,
    }
}

/// The factor that scales the leading fractional digits to milliseconds.
pub open spec fn frac_scale(n: int) -> int {
    if n == 1 { 100 } else if n == 2 { 10 } else { 1 }
}

/// The value in milliseconds of the fractional digits between `i` and
/// `j`, of which only the first three count.
pub open spec fn frac_ms(s: Seq<char>, i: int, j: int) -> int {
    let k = if j > i + 3 { i + 3 } else { j };
    digits_value(s, i, k) * frac_scale(k - i)
}

/// A non-negative number of seconds at position `i`, as a count of whole
/// milliseconds and the position after the number. Rejected when the
/// integer part is absent or has a leading zero, when a decimal point is
/// not followed by a digit, or when the millisecond count does not fit
/// the machine word. Fractional digits past the third are dropped.
pub open spec fn spec_parse_ms(s: Seq<char>, i: int) -> Option<(u64, int)> {
    let j = end_of_digits(s, i);
    if !well_formed_int(s, i, j) {
        None
    } else {
        let ip = digits_value(s, i, j);
        if j < s.len() && s[j] == '.' {
            let f_end = end_of_digits(s, j + 1);
            if f_end == j + 1 {
                None
            } else if ip * 1000 + frac_ms(s, j + 1, f_end) > u64::MAX {
                None
            } else {
                Some(((ip * 1000 + frac_ms(s, j + 1, f_end)) as u64, f_end))
            }
        } else {
            if ip * 1000 > u64::MAX {
                None
            } else {
                Some(((ip * 1000) as u64, j))
            }
        }
    }
}

/// The value of at most the first three fractional digits, scaled to
/// milliseconds.
fn scan_frac_ms(s: &Vec<char>, i: usize) -> (r: (usize, u64))
    requires
        i <= s.len(),
    ensures
        r.0 == end_of_digits(s@, i as int),
        i <= r.0 <= s.len(),
        r.1 == frac_ms(s@, i as int, r.0 as int),
        r.1 <= 999,
{
    let mut j = i;
    let mut acc: u64 = 0;
    while j < s.len() && is_digit_char(s[j])
        invariant
            i <= j <= s.len(),
            end_of_digits(s@, i as int) == end_of_digits(s@, j as int),
            j - i <= 3 ==> acc == digits_value(s@, i as int, j as int),
            j - i > 3 ==> acc == digits_value(s@, i as int, i as int + 3),
            acc < frac_scale_bound(j as int - i as int),
        decreases s.len() - j,
    {
        if j - i < 3 {
            let d = (s[j] as u32) as u64 - 48;
            acc = acc * 10 + d;
        }
        j += 1;
    }
    let count = if j - i > 3 { 3 } else { j - i };
    let scale: u64 = if count == 1 { 100 } else if count == 2 { 10 } else { 1 };
    proof {
        lemma_digits_nonneg(s@, i as int, i as int + 3);
        lemma_digits_nonneg(s@, i as int, j as int);
    }
    (j, acc * scale)
}

/// An upper bound on the value of the first `n` fractional digits.
pub open spec fn frac_scale_bound(n: int) -> int {
    if n <= 0 { 1 } else if n == 1 { 10 } else if n == 2 { 100 } else { 1000 }
}

fn parse_ms(s: &Vec<char>, i: usize) -> (r: Option<(u64, usize)>)
    requires
        i <= s.len(),
    ensures
        match r {
            Some(p) => {
                &&& spec_parse_ms(s@, i as int) == Some((p.0, p.1 as int))
                &&& i < p.1 <= s.len()
            },
            None => spec_parse_ms(s@, i as int) is None,
        },
{
    let (j, val) = scan_digits(s, i);
    if j == i {
        return None;
    }
    if j - i >= 2 && s[i] == '0' {
        return None;
    }
    proof {
        lemma_digits_nonneg(s@, i as int, j as int);
    }
    if j < s.len() && s[j] == '.' {
        if j + 1 >= s.len() || !is_digit_char(s[j + 1]) {
            proof {
                assert(end_of_digits(s@, j as int + 1) == j + 1);
            }
            return None;
        }
        let (f_end, frac) = scan_frac_ms(s, j + 1);
        proof {
            lemma_end_of_digits_lb(s@, j as int + 2);
            assert(end_of_digits(s@, j as int + 1) == end_of_digits(s@, j as int + 2));
            assert(f_end >= j + 2);
        }
        match val {
            Some(ip) => {
                let limit = (u64::MAX - frac) / 1000;
                if ip > limit {
                    proof {
                        assert(ip * 1000 + frac > u64::MAX) by (nonlinear_arith)
                            requires
                                ip > (u64::MAX - frac) / 1000,
                                frac <= 999,
                                ip >= 0,
                        ;
                    }
                    None
                } else {
                    proof {
                        assert(ip * 1000 + frac <= u64::MAX) by (nonlinear_arith)
                            requires
                                ip <= (u64::MAX - frac) / 1000,
                                frac <= 999,
                                ip >= 0,
                        ;
                    }
                    Some((ip * 1000 + frac, f_end))
                }
            },
            None => {
                proof {
                    assert(digits_value(s@, i as int, j as int) * 1000
                        + frac_ms(s@, j as int + 1, f_end as int) > u64::MAX) by (nonlinear_arith)
                        requires
                            digits_value(s@, i as int, j as int) > u64::MAX,
                            frac_ms(s@, j as int + 1, f_end as int) >= 0,
                    ;
                }
                None
            },
        }
    } else {
        match val {
            Some(ip) => {
                if ip > u64::MAX / 1000 {
                    proof {
                        assert(ip * 1000 > u64::MAX) by (nonlinear_arith)
                            requires
                                ip > u64::MAX / 1000,
                                ip >= 0,
                        ;
                    }
                    None
                } else {
                    Some((ip * 1000, j))
                }
            },
            None => {
                proof {
                    assert(digits_value(s@, i as int, j as int) * 1000 > u64::MAX)
                        by (nonlinear_arith)
                        requires
                            digits_value(s@, i as int, j as int) > u64::MAX,
                    ;
                }
                None
            },
        }
    }
}

/// The keyword `null` at position `i`.
pub open spec fn spec_is_null(s: Seq<char>, i: int) -> bool {
    &&& i >= 0
    &&& i + 4 <= s.len()
    &&& s[i] == 'n'
    &&& s[i + 1] == 'u'
    &&& s[i + 2] == 'l'
    &&& s[i + 3] == 'l'
}

fn is_null_at(s: &Vec<char>, i: usize) -> (b: bool)
    requires
        i <= s.len(),
    ensures
        b == spec_is_null(s@, i as int),
{
    s.len() - i >= 4 && s[i] == 'n' && s[i + 1] == 'u' && s[i + 2] == 'l' && s[i + 3] == 'l'
}

/// The position just after a scalar value at `i` — a string, a number
/// (optionally signed and with a fraction), `null`, `true` or `false` —
/// or nothing when no scalar starts there. Used to step over the value
/// of a key the status shape does not know.
pub open spec fn spec_skip_scalar(s: Seq<char>, i: int) -> Option<int> {
    if i < 0 || i >= s.len() {
        None
    } else if s[i] == '"' {
        match spec_parse_string(s, i) {
            Some((t, j)) => Some(j),
            None => None,
        }
    } else if s[i] == 'n' {
        if spec_is_null(s, i) {
            Some(i + 4)
        } else {
            None
        }
    } else if s[i] == 't' {
        if i + 4 <= s.len() && s[i + 1] == 'r' && s[i + 2] == 'u' && s[i + 3] == 'e' {
            Some(i + 4)
        } else {
            None
        }
    } else if s[i] == 'f' {
        if i + 5 <= s.len() && s[i + 1] == 'a' && s[i + 2] == 'l' && s[i + 3] == 's' && s[i + 4]
            == 'e' {
            Some(i + 5)
        } else {
            None
        }
    } else {
        let st = if s[i] == '-' { i + 1 } else { i };
        let j = end_of_digits(s, st);
        if !well_formed_int(s, st, j) {
            None
        } else if j < s.len() && s[j] == '.' {
            let f = end_of_digits(s, j + 1);
            if f == j + 1 {
                None
            } else {
                Some(f)
            }
        } else {
            Some(j)
        }
    }
}

fn skip_scalar(s: &Vec<char>, i: usize) -> (r: Option<usize>)
    requires
        i <= s.len(),
    ensures
        match r {
            Some(j) => spec_skip_scalar(s@, i as int) == Some(j as int) && i < j <= s.len(),
            None => spec_skip_scalar(s@, i as int) is None,
        },
{
    if i >= s.len() {
        return None;
    }
    let c = s[i];
    if c == '"' {
        match parse_string(s, i) {
            Some((_t, j)) => Some(j),
            None => None,
        }
    } else if c == 'n' {
        if is_null_at(s, i) {
            Some(i + 4)
        } else {
            None
        }
    } else if c == 't' {
        if s.len() - i >= 4 && s[i + 1] == 'r' && s[i + 2] == 'u' && s[i + 3] == 'e' {
            Some(i + 4)
        } else {
            None
        }
    } else if c == 'f' {
        if s.len() - i >= 5 && s[i + 1] == 'a' && s[i + 2] == 'l' && s[i + 3] == 's' && s[i + 4]
            == 'e' {
            Some(i + 5)
        } else {
            None
        }
    } else {
        let st = if c == '-' {
            i + 1
        } else {
            i
        };
        let (j, _val) = scan_digits(s, st);
        if j == st {
            return None;
        }
        if j - st >= 2 && s[st] == '0' {
            return None;
        }
        if j < s.len() && s[j] == '.' {
            if j + 1 >= s.len() || !is_digit_char(s[j + 1]) {
                proof {
                    assert(end_of_digits(s@, j as int + 1) == j + 1);
                }
                return None;
            }
            let (f, _fv) = scan_digits(s, j + 1);
            proof {
                lemma_end_of_digits_lb(s@, j as int + 2);
                assert(end_of_digits(s@, j as int + 1) == end_of_digits(s@, j as int + 2));
            }
            Some(f)
        } else {
            Some(j)
        }
    }
}

/// A text value or `null` at position `i`: the text (absent for `null`)
/// and the position after it.
pub open spec fn spec_text_or_null(s: Seq<char>, i: int) -> Option<(Option<Seq<char>>, int)> {
    if spec_is_null(s, i) {
        Some((None, i + 4))
    } else {
        match spec_parse_string(s, i) {
            Some((t, j)) => Some((Some(t), j)),
            None => None,
        }
    }
}

fn text_or_null(s: &Vec<char>, i: usize) -> (r: Option<(Option<String>, usize)>)
    requires
        i <= s.len(),
    ensures
        match r {
            Some(p) => {
                &&& spec_text_or_null(s@, i as int) == Some((
                    match p.0 {
                        Some(t) => Some(t@),
                        None => None::<Seq<char>>,
                    },
                    p.1 as int,
                ))
                &&& i < p.1 <= s.len()
            },
            None => spec_text_or_null(s@, i as int) is None,
        },
{
    if is_null_at(s, i) {
        Some((None, i + 4))
    } else {
        match parse_string(s, i) {
            Some((t, j)) => Some((Some(chars_to_string(&t)), j)),
            None => None,
        }
    }
}

/// An unsigned 32-bit value or `null` at position `i`.
pub open spec fn spec_u32_or_null(s: Seq<char>, i: int) -> Option<(Option<u32>, int)> {
    if spec_is_null(s, i) {
        Some((None, i + 4))
    } else {
        match spec_parse_u32(s, i) {
            Some((v, j)) => Some((Some(v), j)),
            None => None,
        }
    }
}

fn u32_or_null(s: &Vec<char>, i: usize) -> (r: Option<(Option<u32>, usize)>)
    requires
        i <= s.len(),
    ensures
        match r {
            Some(p) => {
                &&& spec_u32_or_null(s@, i as int) == Some((p.0, p.1 as int))
                &&& i < p.1 <= s.len()
            },
            None => spec_u32_or_null(s@, i as int) is None,
        },
{
    if is_null_at(s, i) {
        Some((None, i + 4))
    } else {
        match parse_u32(s, i) {
            Some((v, j)) => Some((Some(v), j)),
            None => None,
        }
    }
}

/// A number of seconds in whole milliseconds, or `null`, at position `i`.
pub open spec fn spec_ms_or_null(s: Seq<char>, i: int) -> Option<(Option<u64>, int)> {
    if spec_is_null(s, i) {
        Some((None, i + 4))
    } else {
        match spec_parse_ms(s, i) {
            Some((v, j)) => Some((Some(v), j)),
            None => None,
        }
    }
}

fn ms_or_null(s: &Vec<char>, i: usize) -> (r: Option<(Option<u64>, usize)>)
    requires
        i <= s.len(),
    ensures
        match r {
            Some(p) => {
                &&& spec_ms_or_null(s@, i as int) == Some((p.0, p.1 as int))
                &&& i < p.1 <= s.len()
            },
            None => spec_ms_or_null(s@, i as int) is None,
        },
{
    if is_null_at(s, i) {
        Some((None, i + 4))
    } else {
        match parse_ms(s, i) {
            Some((v, j)) => Some((Some(v), j)),
            None => None,
        }
    }
}

/// The status after reading one `key: value` pair whose value starts at
/// `i`: a known key replaces its field (`null` clears it, so a repeated
/// key keeps its last value), an unknown key is stepped over when its
/// value is a scalar. A value of the wrong shape rejects the line.
pub open spec fn spec_value_for_key(s: Seq<char>, i: int, key: Seq<char>, st: StatusView) -> Option<
    (StatusView, int),
> {
    if key == "track_name"@ {
        match spec_text_or_null(s, i) {
            Some((v, j)) => Some((StatusView { track_name: v, ..st }, j)),
            None => None,
        }
    } else if key == "artist_name"@ {
        match spec_text_or_null(s, i) {
            Some((v, j)) => Some((StatusView { artist_name: v, ..st }, j)),
            None => None,
        }
    } else if key == "track_volume"@ {
        match spec_u32_or_null(s, i) {
            Some((v, j)) => Some((StatusView { track_volume: v, ..st }, j)),
            None => None,
        }
    } else if key == "position"@ {
        match spec_ms_or_null(s, i) {
            Some((v, j)) => Some((StatusView { position_ms: v, ..st }, j)),
            None => None,
        }
    } else if key == "track_duration"@ {
        match spec_ms_or_null(s, i) {
            Some((v, j)) => Some((StatusView { track_duration_ms: v, ..st }, j)),
            None => None,
        }
    } else if key == "album_cover"@ {
        match spec_text_or_null(s, i) {
            Some((v, j)) => Some((StatusView { album_cover: v, ..st }, j)),
            None => None,
        }
    } else if key == "player_state"@ {
        match spec_text_or_null(s, i) {
            Some((v, j)) => Some((StatusView { player_state: v, ..st }, j)),
            None => None,
        }
    } else if key == "error"@ {
        match spec_text_or_null(s, i) {
            Some((v, j)) => Some((StatusView { error: v, ..st }, j)),
            None => None,
        }
    } else {
        match spec_skip_scalar(s, i) {
            Some(j) => Some((st, j)),
            None => None,
        }
    }
}

fn value_for_key(s: &Vec<char>, i: usize, key: &Vec<char>, st: SpotifyStatus) -> (r: Option<
    (SpotifyStatus, usize),
>)
    requires
        i <= s.len(),
    ensures
        match r {
            Some(p) => {
                &&& spec_value_for_key(s@, i as int, key@, st@) == Some((p.0@, p.1 as int))
                &&& i < p.1 <= s.len()
            },
            None => spec_value_for_key(s@, i as int, key@, st@) is None,
        },
{
    if str_eq_chars(key, "track_name") {
        match text_or_null(s, i) {
            Some((v, j)) => Some((SpotifyStatus { track_name: v, ..st }, j)),
            None => None,
        }
    } else if str_eq_chars(key, "artist_name") {
        match text_or_null(s, i) {
            Some((v, j)) => Some((SpotifyStatus { artist_name: v, ..st }, j)),
            None => None,
        }
    } else if str_eq_chars(key, "track_volume") {
        match u32_or_null(s, i) {
            Some((v, j)) => Some((SpotifyStatus { track_volume: v, ..st }, j)),
            None => None,
        }
    } else if str_eq_chars(key, "position") {
        match ms_or_null(s, i) {
            Some((v, j)) => Some((SpotifyStatus { position_ms: v, ..st }, j)),
            None => None,
        }
    } else if str_eq_chars(key, "track_duration") {
        match ms_or_null(s, i) {
            Some((v, j)) => Some((SpotifyStatus { track_duration_ms: v, ..st }, j)),
            None => None,
        }
    } else if str_eq_chars(key, "album_cover") {
        match text_or_null(s, i) {
            Some((v, j)) => Some((SpotifyStatus { album_cover: v, ..st }, j)),
            None => None,
        }
    } else if str_eq_chars(key, "player_state") {
        match text_or_null(s, i) {
            Some((v, j)) => Some((SpotifyStatus { player_state: v, ..st }, j)),
            None => None,
        }
    } else if str_eq_chars(key, "error") {
        match text_or_null(s, i) {
            Some((v, j)) => Some((SpotifyStatus { error: v, ..st }, j)),
            None => None,
        }
    } else {
        match skip_scalar(s, i) {
            Some(j) => Some((st, j)),
            None => None,
        }
    }
}

/// The members of the status object from position `i` (the start of a
/// key), folded over the status read so far, up to and including the
/// closing brace.
pub open spec fn spec_members(s: Seq<char>, i: int, st: StatusView) -> Option<(StatusView, int)>
    decreases s.len() - i,
{
    match spec_parse_string(s, i) {
        None => None,
        Some((key, j)) => {
            let j2 = spec_skip_ws(s, j);
            if !(j2 < s.len() && s[j2] == ':') {
                None
            } else {
                let j3 = spec_skip_ws(s, j2 + 1);
                match spec_value_for_key(s, j3, key, st) {
                    None => None,
                    Some((st2, k)) => {
                        let k2 = spec_skip_ws(s, k);
                        if k2 < s.len() && s[k2] == ',' {
                            let k3 = spec_skip_ws(s, k2 + 1);
                            if i < k3 && k3 <= s.len() {
                                spec_members(s, k3, st2)
                            } else {
                                None
                            }
                        } else if k2 < s.len() && s[k2] == '}' {
                            Some((st2, k2 + 1))
                        } else {
                            None
                        }
                    },
                }
            }
        },
    }
}

fn parse_members(s: &Vec<char>, i: usize, st: SpotifyStatus) -> (r: Option<(SpotifyStatus, usize)>)
    requires
        i <= s.len(),
    ensures
        match r {
            Some(p) => {
                &&& spec_members(s@, i as int, st@) == Some((p.0@, p.1 as int))
                &&& i < p.1 <= s.len()
            },
            None => spec_members(s@, i as int, st@) is None,
        },
    decreases s.len() - i,
{
    match parse_string(s, i) {
        None => None,
        Some((key, j)) => {
            let j2 = skip_ws(s, j);
            if !(j2 < s.len() && s[j2] == ':') {
                return None;
            }
            let j3 = skip_ws(s, j2 + 1);
            match value_for_key(s, j3, &key, st) {
                None => None,
                Some((st2, k)) => {
                    let k2 = skip_ws(s, k);
                    if k2 < s.len() && s[k2] == ',' {
                        let k3 = skip_ws(s, k2 + 1);
                        parse_members(s, k3, st2)
                    } else if k2 < s.len() && s[k2] == '}' {
                        Some((st2, k2 + 1))
                    } else {
                        None
                    }
                },
            }
        },
    }
}

/// The status object at position `i`: an opening brace, members or
/// nothing, and a closing brace; with the position just after the brace.
pub open spec fn spec_object(s: Seq<char>, i: int) -> Option<(StatusView, int)> {
    if 0 <= i < s.len() && s[i] == '{' {
        let j = spec_skip_ws(s, i + 1);
        if j < s.len() && s[j] == '}' {
            Some((empty_status(), j + 1))
        } else {
            spec_members(s, j, empty_status())
        }
    } else {
        None
    }
}

fn parse_object(s: &Vec<char>, i: usize) -> (r: Option<(SpotifyStatus, usize)>)
    requires
        i <= s.len(),
    ensures
        match r {
            Some(p) => {
                &&& spec_object(s@, i as int) == Some((p.0@, p.1 as int))
                &&& i < p.1 <= s.len()
            },
            None => spec_object(s@, i as int) is None,
        },
{
    if i >= s.len() || s[i] != '{' {
        return None;
    }
    let j = skip_ws(s, i + 1);
    if j < s.len() && s[j] == '}' {
        Some((SpotifyStatus::empty(), j + 1))
    } else {
        parse_members(s, j, SpotifyStatus::empty())
    }
}

/// What a line of the external bridge's output means: the status object
/// it spells, surrounded by nothing but whitespace, or nothing at all
/// when the line is not a well-formed status object.
pub open spec fn spec_decode(s: Seq<char>) -> Option<StatusView> {
    let i = spec_skip_ws(s, 0);
    match spec_object(s, i) {
        None => None,
        Some((st, j)) => {
            if spec_skip_ws(s, j) == s.len() {
                Some(st)
            } else {
                None
            }
        },
    }
}

/// Strictly decodes one line of the external bridge's output into a
/// status sample. Surrounding whitespace is trimmed; any deviation from
/// the status shape — a missing bracket or quote, a malformed number, a
/// non-scalar value — yields `None`, never a panic: an undecodable tick
/// is simply not published.
pub fn decode_status(line: &str) -> (r: Option<SpotifyStatus>)
    ensures
        match r {
            Some(st) => spec_decode(line@) == Some(st@),
            None => spec_decode(line@) is None,
        },
{
    let s = chars_of(line);
    let i = skip_ws(&s, 0);
    match parse_object(&s, i) {
        None => None,
        Some((st, j)) => {
            let k = skip_ws(&s, j);
            if k == s.len() {
                Some(st)
            } else {
                None
            }
        },
    }
}

} // verus!
