//! Persisted application settings and their on-disk JSON text.
//!
//! The settings themselves are plain values; the hosting binary reads
//! and writes the file. What is verified here is the text itself:
//! `save_config` renders the exact pretty-printed JSON document for a
//! configuration, character for character, including string escaping and
//! decimal number rendering.

use vstd::prelude::*;

verus! {

/// Relies on `String::push`: appends the given character to the end of
/// the string.
pub assume_specification[ String::push ](s: &mut String, c: char)
    ensures
        final(s)@ == old(s)@.push(c),
;

/// The persisted application settings.
#[derive(Clone, Debug)]
pub struct AppConfig {
    pub provider: String,
    pub unit: String,
    pub auto_location: bool,
    pub auto_start: bool,
    pub location: String,
    pub api_key: String,
    pub pulse: bool,
    pub pulse_speed: u64,
    pub max_brightness: u8,
    pub sunset_sunrise: bool,
    pub temp_horizon: String,
    pub precip_horizon: String,
}

impl Default for AppConfig {
    /// The settings used until a config file exists: automatic location,
    /// metric unit, pulsing enabled at a 5 second period, and a 60%
    /// brightness ceiling.
    fn default() -> (c: AppConfig)
        ensures
            c.provider@ == "open-meteo"@,
            c.unit@ == "C"@,
            c.auto_location,
            !c.auto_start,
            c.location@ == ""@,
            c.api_key@ == ""@,
            c.pulse,
            c.pulse_speed == 5000,
            c.max_brightness == 60,
            !c.sunset_sunrise,
            c.temp_horizon@ == "current"@,
            c.precip_horizon@ == "immediate"@,
    {
        AppConfig {
            provider: "open-meteo".to_owned(),
            unit: "C".to_owned(),
            auto_location: true,
            auto_start: false,
            location: "".to_owned(),
            api_key: "".to_owned(),
            pulse: true,
            pulse_speed: 5000,
            max_brightness: 60,
            sunset_sunrise: false,
            temp_horizon: "current".to_owned(),
            precip_horizon: "immediate".to_owned(),
        }
    }
}

/// The character of a single decimal digit.
pub open spec fn digit_char_spec(d: int) -> char {
    if d == 0 {
        '0'
    } else if d == 1 {
        '1'
    } else if d == 2 {
        '2'
    } else if d == 3 {
        '3'
    } else if d == 4 {
        '4'
    } else if d == 5 {
        '5'
    } else if d == 6 {
        '6'
    } else if d == 7 {
        '7'
    } else if d == 8 {
        '8'
    } else {
        '9'
    }
}

/// The character of a single hexadecimal digit (lower case).
pub open spec fn hex_char_spec(d: int) -> char {
    if d < 10 {
        digit_char_spec(d)
    } else if d == 10 {
        'a'
    } else if d == 11 {
        'b'
    } else if d == 12 {
        'c'
    } else if d == 13 {
        'd'
    } else if d == 14 {
        'e'
    } else {
        'f'
    }
}

/// The decimal rendering of a non-negative integer, no leading zeros
/// (a lone zero for zero).
pub open spec fn dec_str_spec(n: int) -> Seq<char>
    decreases n,
{
    if n < 10 {
        seq![digit_char_spec(n)]
    } else {
        dec_str_spec(n / 10) + seq![digit_char_spec(n % 10)]
    }
}

/// The JSON escape of one character: the two-character escapes for the
/// quote, backslash and common control characters, a `\u00..` escape for
/// the remaining control characters, and the character itself otherwise.
pub open spec fn esc_char_spec(c: char) -> Seq<char> {
    if c == '"' {
        seq!['\\', '"']
    } else if c == '\\' {
        seq!['\\', '\\']
    } else if c == '\n' {
        seq!['\\', 'n']
    } else if c == '\r' {
        seq!['\\', 'r']
    } else if c == '\t' {
        seq!['\\', 't']
    } else if (c as u32) < 32 {
        seq!['\\', 'u', '0', '0', hex_char_spec(c as u32 as int / 16), hex_char_spec(
            c as u32 as int % 16,
        )]
    } else {
        seq![c]
    }
}

/// The JSON escape of a whole string.
pub open spec fn json_escape_spec(s: Seq<char>) -> Seq<char>
    decreases s.len(),
{
    if s.len() == 0 {
        Seq::empty()
    } else {
        esc_char_spec(s[0]) + json_escape_spec(s.drop_first())
    }
}

/// Escaping a string one character at a time, from the front, builds the
/// same text as escaping it whole.
proof fn lemma_escape_snoc(s: Seq<char>, c: char)
    ensures
        json_escape_spec(s.push(c)) == json_escape_spec(s) + esc_char_spec(c),
    decreases s.len(),
{
    if s.len() == 0 {
        assert(s.push(c)[0] == c);
        assert(s.push(c).drop_first() =~= Seq::<char>::empty());
        assert(json_escape_spec(s.push(c)) == esc_char_spec(c) + json_escape_spec(
            s.push(c).drop_first(),
        ));
        assert(json_escape_spec(s.push(c).drop_first()) == Seq::<char>::empty());
        assert(esc_char_spec(c) + Seq::<char>::empty() =~= esc_char_spec(c));
        assert(json_escape_spec(s) + esc_char_spec(c) =~= esc_char_spec(c));
    } else {
        assert(s.push(c).drop_first() =~= s.drop_first().push(c));
        lemma_escape_snoc(s.drop_first(), c);
        assert(json_escape_spec(s.push(c)) =~= json_escape_spec(s) + esc_char_spec(c));
    }
}

/// The rendering of a boolean.
pub open spec fn bool_str_spec(b: bool) -> Seq<char> {
    if b {
        "true"@
    } else {
        "false"@
    }
}

/// The exact pretty-printed JSON document of a configuration: one
/// camel-case key per line, two-space indent, strings escaped as
/// `esc_char_spec` says and numbers in plain decimal.
pub open spec fn config_json_spec(c: AppConfig) -> Seq<char> {
    "{\n  \"provider\": \""@ + json_escape_spec(c.provider@) + "\",\n  \"unit\": \""@
        + json_escape_spec(c.unit@) + "\",\n  \"autoLocation\": "@ + bool_str_spec(c.auto_location)
        + ",\n  \"autoStart\": "@ + bool_str_spec(c.auto_start) + ",\n  \"location\": \""@
        + json_escape_spec(c.location@) + "\",\n  \"apiKey\": \""@ + json_escape_spec(c.api_key@)
        + "\",\n  \"pulse\": "@ + bool_str_spec(c.pulse) + ",\n  \"pulseSpeed\": "@ + dec_str_spec(
        c.pulse_speed as int,
    ) + ",\n  \"maxBrightness\": "@ + dec_str_spec(c.max_brightness as int)
        + ",\n  \"sunsetSunrise\": "@ + bool_str_spec(c.sunset_sunrise)
        + ",\n  \"tempHorizon\": \""@ + json_escape_spec(c.temp_horizon@)
        + "\",\n  \"precipHorizon\": \""@ + json_escape_spec(c.precip_horizon@) + "\"\n}"@
}

/// One decimal digit as a character.
fn digit_char(d: u8) -> (c: char)
    ensures
        c == digit_char_spec(d as int),
{
    match d {
        0 => '0',
        1 => '1',
        2 => '2',
        3 => '3',
        4 => '4',
        5 => '5',
        6 => '6',
        7 => '7',
        8 => '8',
        _ => '9',
    }
}

/// One hexadecimal digit as a character.
fn hex_char(d: u8) -> (c: char)
    ensures
        c == hex_char_spec(d as int),
{
    if d < 10 {
        digit_char(d)
    } else {
        match d {
            10 => 'a',
            11 => 'b',
            12 => 'c',
            13 => 'd',
            14 => 'e',
            _ => 'f',
        }
    }
}

/// Appends the decimal rendering of `n`.
fn push_dec(out: &mut String, n: u64)
    ensures
        final(out)@ == old(out)@ + dec_str_spec(n as int),
    decreases n,
{
    if n < 10 {
        out.push(digit_char(n as u8));
        proof {
            assert(final(out)@ =~= old(out)@ + dec_str_spec(n as int));
        }
    } else {
        push_dec(out, n / 10);
        out.push(digit_char((n % 10) as u8));
        proof {
            assert(final(out)@ =~= old(out)@ + dec_str_spec(n as int));
        }
    }
}

/// Appends the rendering of a boolean.
fn push_bool(out: &mut String, b: bool)
    ensures
        final(out)@ == old(out)@ + bool_str_spec(b),
{
    if b {
        out.append("true");
    } else {
        out.append("false");
    }
}

/// Appends the JSON escape of one character.
fn push_escaped_char(out: &mut String, c: char)
    ensures
        final(out)@ == old(out)@ + esc_char_spec(c),
{
    if c == '"' {
        out.push('\\');
        out.push('"');
    } else if c == '\\' {
        out.push('\\');
        out.push('\\');
    } else if c == '\n' {
        out.push('\\');
        out.push('n');
    } else if c == '\r' {
        out.push('\\');
        out.push('r');
    } else if c == '\t' {
        out.push('\\');
        out.push('t');
    } else if (c as u32) < 32 {
        let v: u32 = c as u32;
        out.push('\\');
        out.push('u');
        out.push('0');
        out.push('0');
        out.push(hex_char((v / 16) as u8));
        out.push(hex_char((v % 16) as u8));
    } else {
        out.push(c);
    }
    proof {
        assert(final(out)@ =~= old(out)@ + esc_char_spec(c));
    }
}

/// Appends the JSON escape of a whole string.
fn push_escaped(out: &mut String, s: &str)
    ensures
        final(out)@ == old(out)@ + json_escape_spec(s@),
{
    let len: usize = s.unicode_len();
    let mut i: usize = 0;
    while i < len
        invariant
            i <= len,
            len == s@.len(),
            out@ == old(out)@ + json_escape_spec(s@.subrange(0, i as int)),
        decreases len - i,
    {
        let c = s.get_char(i);
        push_escaped_char(out, c);
        proof {
            assert(s@.subrange(0, i + 1) =~= s@.subrange(0, i as int).push(s@[i as int]));
            lemma_escape_snoc(s@.subrange(0, i as int), s@[i as int]);
        }
        i = i + 1;
    }
    proof {
        assert(s@.subrange(0, len as int) =~= s@);
    }
}

/// Renders the configuration as the exact JSON document the application
/// persists; the hosting binary writes this text to the config file.
pub fn save_config(config: &AppConfig) -> (r: String)
    ensures
        r@ == config_json_spec(*config),
{
    let mut out = String::new();
    out.append("{\n  \"provider\": \"");
    push_escaped(&mut out, config.provider.as_str());
    out.append("\",\n  \"unit\": \"");
    push_escaped(&mut out, config.unit.as_str());
    out.append("\",\n  \"autoLocation\": ");
    push_bool(&mut out, config.auto_location);
    out.append(",\n  \"autoStart\": ");
    push_bool(&mut out, config.auto_start);
    out.append(",\n  \"location\": \"");
    push_escaped(&mut out, config.location.as_str());
    out.append("\",\n  \"apiKey\": \"");
    push_escaped(&mut out, config.api_key.as_str());
    out.append("\",\n  \"pulse\": ");
    push_bool(&mut out, config.pulse);
    out.append(",\n  \"pulseSpeed\": ");
    push_dec(&mut out, config.pulse_speed);
    out.append(",\n  \"maxBrightness\": ");
    push_dec(&mut out, config.max_brightness as u64);
    out.append(",\n  \"sunsetSunrise\": ");
    push_bool(&mut out, config.sunset_sunrise);
    out.append(",\n  \"tempHorizon\": \"");
    push_escaped(&mut out, config.temp_horizon.as_str());
    out.append("\",\n  \"precipHorizon\": \"");
    push_escaped(&mut out, config.precip_horizon.as_str());
    out.append("\"\n}");
    proof {
        assert(out@ =~= config_json_spec(*config));
    }
    out
}

/// A configuration that cannot drive the weather pipeline yet: no
/// location and no automatic detection, or a provider that needs an API
/// key without one.
pub open spec fn needs_setup_spec(c: AppConfig) -> bool {
    (c.location@.len() == 0 && !c.auto_location) || (c.provider@ == "openweathermap"@
        && c.api_key@.len() == 0)
}

/// Whether the orchestrator must hold off fetching weather and ask the
/// user to finish setup first.
pub fn config_needs_setup(config: &AppConfig) -> (r: bool)
    ensures
        r == needs_setup_spec(*config),
{
    (config.location.as_str().is_empty() && !config.auto_location) || (config.provider.eq(
        &"openweathermap".to_owned(),
    ) && config.api_key.as_str().is_empty())
}

} // verus!
