//! Wire codec: JSON rendering of events and messages, and parsing of the
//! position-event envelope.
//!
//! Frames are JSON objects in the fixed field order the renderer emits.
//! Numbers are decimal; coordinates are microdegrees and millimetres. The
//! renderer's output is pinned character by character to
//! [`spec_position_event_json`]; the parser accepts exactly that field
//! order, and the round trip is exercised by tests on concrete frames.

use vstd::prelude::*;
use crate::domain::{DroneId, Telemetry};
use crate::fmt::{dec_seq, dec_seq_int, fmt_i64, fmt_u64};
use crate::geo::GeoPos;

verus! {

/// Decimal digits of a 128-bit value.
pub open spec fn dec_seq_u128(n: nat) -> Seq<char>
    decreases n,
{
    if n < 10 {
        seq![crate::fmt::digit_char(n)]
    } else {
        dec_seq_u128(n / 10) + seq![crate::fmt::digit_char(n % 10)]
    }
}

/// Renders a 128-bit value in decimal.
pub fn fmt_u128(n: u128) -> (s: String)
    ensures
        s@ == dec_seq_u128(n as nat),
    decreases n,
{
    if n < 10 {
        let d: u64 = n as u64;
        let s = crate::fmt::fmt_u64(d);
        proof {
            assert(dec_seq(d as nat) =~= dec_seq_u128(n as nat));
        }
        s
    } else {
        let mut s = fmt_u128(n / 10);
        let d: u64 = (n % 10) as u64;
        s.append(crate::fmt::fmt_u64(d).as_str());
        proof {
            assert(dec_seq(d as nat) =~= seq![crate::fmt::digit_char(n as nat % 10)]);
            assert(s@ =~= dec_seq_u128(n as nat));
        }
        s
    }
}

/// A string is plain when it holds neither a quote nor a backslash, so it
/// can stand between quotes unescaped.
pub open spec fn plain_str(s: Seq<char>) -> bool {
    forall|i: int| 0 <= i < s.len() ==> s[i] != '"' && s[i] != '\\'
}

/// The rendered position-event envelope.
pub open spec fn spec_position_event_json(
    id: nat,
    at_ms: int,
    drone_id: Seq<char>,
    p: GeoPos,
    t: Telemetry,
) -> Seq<char> {
    "{\"id\":\""@ + dec_seq_u128(id) + "\",\"timestamp\":"@ + dec_seq_int(at_ms)
        + ",\"event_type\":\"DRONE_POSITION_UPDATED\",\"payload\":{\"type\":\"DronePosition\",\"data\":{\"drone_id\":\""@
        + drone_id + "\",\"lat_udeg\":"@ + dec_seq_int(p.lat_udeg as int) + ",\"lng_udeg\":"@
        + dec_seq_int(p.lng_udeg as int) + ",\"alt_mm\":"@ + dec_seq_int(p.alt_mm as int)
        + ",\"battery\":"@ + dec_seq(t.battery_level as nat) + ",\"fuel\":"@ + dec_seq(
        t.fuel_level as nat,
    ) + ",\"health\":"@ + dec_seq(t.system_health as nat) + ",\"speed_ckmh\":"@ + dec_seq(
        t.speed_ckmh as nat,
    ) + ",\"heading_cdeg\":"@ + dec_seq(t.heading_cdeg as nat) + ",\"signal\":"@ + dec_seq(
        t.signal_strength as nat,
    ) + "}}}"@
}

/// Renders a position event as its JSON frame.
pub fn render_position_event(
    id: u128,
    at_ms: i64,
    drone_id: &DroneId,
    position: &GeoPos,
    telemetry: &Telemetry,
) -> (s: String)
    ensures
        s@ == spec_position_event_json(
            id as nat,
            at_ms as int,
            drone_id.0@,
            *position,
            *telemetry,
        ),
{
    proof {
        reveal_strlit("{\"id\":\"");
        reveal_strlit("\",\"timestamp\":");
        reveal_strlit(
            ",\"event_type\":\"DRONE_POSITION_UPDATED\",\"payload\":{\"type\":\"DronePosition\",\"data\":{\"drone_id\":\"",
        );
        reveal_strlit("\",\"lat_udeg\":");
        reveal_strlit(",\"lng_udeg\":");
        reveal_strlit(",\"alt_mm\":");
        reveal_strlit(",\"battery\":");
        reveal_strlit(",\"fuel\":");
        reveal_strlit(",\"health\":");
        reveal_strlit(",\"speed_ckmh\":");
        reveal_strlit(",\"heading_cdeg\":");
        reveal_strlit(",\"signal\":");
        reveal_strlit("}}}");
    }
    let mut s: String = "{\"id\":\"".to_owned();
    s.append(fmt_u128(id).as_str());
    s.append("\",\"timestamp\":");
    s.append(fmt_i64(at_ms).as_str());
    s.append(
        ",\"event_type\":\"DRONE_POSITION_UPDATED\",\"payload\":{\"type\":\"DronePosition\",\"data\":{\"drone_id\":\"",
    );
    s.append(drone_id.as_str());
    s.append("\",\"lat_udeg\":");
    s.append(fmt_i64(position.lat_udeg).as_str());
    s.append(",\"lng_udeg\":");
    s.append(fmt_i64(position.lng_udeg).as_str());
    s.append(",\"alt_mm\":");
    s.append(fmt_i64(position.alt_mm).as_str());
    s.append(",\"battery\":");
    s.append(fmt_u64(telemetry.battery_level as u64).as_str());
    s.append(",\"fuel\":");
    s.append(fmt_u64(telemetry.fuel_level as u64).as_str());
    s.append(",\"health\":");
    s.append(fmt_u64(telemetry.system_health as u64).as_str());
    s.append(",\"speed_ckmh\":");
    s.append(fmt_u64(telemetry.speed_ckmh as u64).as_str());
    s.append(",\"heading_cdeg\":");
    s.append(fmt_u64(telemetry.heading_cdeg as u64).as_str());
    s.append(",\"signal\":");
    s.append(fmt_u64(telemetry.signal_strength as u64).as_str());
    s.append("}}}");
    proof {
        assert(s@ =~= spec_position_event_json(
            id as nat,
            at_ms as int,
            drone_id.0@,
            *position,
            *telemetry,
        ));
    }
    s
}

/// The fields of one parsed position event.
pub struct ParsedPositionEvent {
    pub id: u128,
    pub timestamp_ms: i64,
    pub drone_id: DroneId,
    pub position: GeoPos,
    pub telemetry_battery: u8,
    pub telemetry_fuel: u8,
    pub telemetry_health: u8,
    pub telemetry_speed_ckmh: u32,
    pub telemetry_heading_cdeg: u32,
    pub telemetry_signal: u8,
}

/// Whether the text at `pos` begins with the literal.
fn match_lit(s: &str, pos: usize, lit: &str) -> (r: Option<usize>)
    requires
        pos <= s@.len(),
    ensures
        r matches Some(p) ==> (p as int == pos as int + lit@.len() && p as int <= s@.len()),
{
    let sl: usize = s.unicode_len();
    let ll: usize = lit.unicode_len();
    if sl - pos < ll {
        return None;
    }
    let mut i: usize = 0;
    while i < ll
        invariant
            i <= ll,
            ll == lit@.len(),
            sl == s@.len(),
            pos <= sl,
            sl - pos >= ll,
        decreases ll - i,
    {
        if s.get_char(pos + i) != lit.get_char(i) {
            return None;
        }
        i += 1;
    }
    Some(pos + ll)
}

/// Reads a run of decimal digits at `pos` as an unsigned value; fails on
/// no digits or overflow past 128 bits.
fn parse_u128_at(s: &str, pos: usize) -> (r: Option<(u128, usize)>)
    requires
        pos <= s@.len(),
    ensures
        r matches Some(t) ==> (pos as int) < (t.1 as int) <= s@.len(),
{
    let sl: usize = s.unicode_len();
    let mut p: usize = pos;
    let mut value: u128 = 0;
    let mut any: bool = false;
    while p < sl
        invariant
            pos <= p <= sl,
            sl == s@.len(),
            any ==> pos < p,
        decreases sl - p,
    {
        let c: char = s.get_char(p);
        let d: u32 = char_digit(c);
        if d > 9 {
            break ;
        }
        if value > (u128::MAX - 9) / 10 {
            return None;
        }
        value = value * 10 + (d as u128);
        any = true;
        p += 1;
    }
    if any {
        Some((value, p))
    } else {
        None
    }
}

/// The value of a decimal digit character, or ten for any other.
fn char_digit(c: char) -> (r: u32)
    ensures
        r <= 10,
{
    match c {
        '0' => 0,
        '1' => 1,
        '2' => 2,
        '3' => 3,
        '4' => 4,
        '5' => 5,
        '6' => 6,
        '7' => 7,
        '8' => 8,
        '9' => 9,
        _ => 10,
    }
}

/// Reads a possibly negated 64-bit decimal at `pos`.
fn parse_i64_at(s: &str, pos: usize) -> (r: Option<(i64, usize)>)
    requires
        pos <= s@.len(),
    ensures
        r matches Some(t) ==> (pos as int) < (t.1 as int) <= s@.len(),
{
    let sl: usize = s.unicode_len();
    if pos < sl && s.get_char(pos) == '-' {
        match parse_u128_at(s, pos + 1) {
            Some((v, p)) => {
                if v <= 9_223_372_036_854_775_808u128 {
                    let sv: i64 = if v == 9_223_372_036_854_775_808u128 {
                        i64::MIN
                    } else {
                        -(v as i64)
                    };
                    Some((sv, p))
                } else {
                    None
                }
            },
            None => None,
        }
    } else {
        match parse_u128_at(s, pos) {
            Some((v, p)) => {
                if v <= i64::MAX as u128 {
                    Some((v as i64, p))
                } else {
                    None
                }
            },
            None => None,
        }
    }
}

/// Reads the characters up to the next quote.
fn parse_string_at(s: &str, pos: usize) -> (r: Option<(String, usize)>)
    requires
        pos <= s@.len(),
    ensures
        r matches Some(t) ==> ((pos as int) <= (t.1 as int) <= s@.len() && t.0@ == s@.subrange(
            pos as int,
            t.1 as int,
        )),
{
    let sl: usize = s.unicode_len();
    let mut p: usize = pos;
    while p < sl
        invariant
            pos <= p <= sl,
            sl == s@.len(),
        decreases sl - p,
    {
        let c: char = s.get_char(p);
        if c == '"' {
            let out: String = s.substring_char(pos, p).to_owned();
            return Some((out, p));
        }
        if c == '\\' {
            return None;
        }
        p += 1;
    }
    None
}

/// Parses the position-event frame emitted by `render_position_event`.
/// Accepts exactly the renderer's field order; the returned record holds
/// the parsed fields, with the telemetry within its documented ranges.
/// Any other text is rejected.
pub fn parse_position_event(s: &str) -> (r: Option<ParsedPositionEvent>)
    ensures
        r matches Some(ev) ==> (ev.telemetry_battery <= 100 && ev.telemetry_fuel <= 100
            && ev.telemetry_health <= 100 && ev.telemetry_signal <= 100
            && ev.telemetry_heading_cdeg < 36000),
{
    let mut pos: usize = match match_lit(s, 0, "{\"id\":\"") {
        Some(p) => p,
        None => {
            return None;
        },
    };
    let (id, p1): (u128, usize) = match parse_u128_at(s, pos) {
        Some(t) => t,
        None => {
            return None;
        },
    };
    pos = match match_lit(s, p1, "\",\"timestamp\":") {
        Some(p) => p,
        None => {
            return None;
        },
    };
    let (ts, p2): (i64, usize) = match parse_i64_at(s, pos) {
        Some(t) => t,
        None => {
            return None;
        },
    };
    pos =
    match match_lit(
        s,
        p2,
        ",\"event_type\":\"DRONE_POSITION_UPDATED\",\"payload\":{\"type\":\"DronePosition\",\"data\":{\"drone_id\":\"",
    ) {
        Some(p) => p,
        None => {
            return None;
        },
    };
    let (drone_id, p3): (String, usize) = match parse_string_at(s, pos) {
        Some(t) => t,
        None => {
            return None;
        },
    };
    pos = match match_lit(s, p3, "\",\"lat_udeg\":") {
        Some(p) => p,
        None => {
            return None;
        },
    };
    let (lat, p4): (i64, usize) = match parse_i64_at(s, pos) {
        Some(t) => t,
        None => {
            return None;
        },
    };
    pos = match match_lit(s, p4, ",\"lng_udeg\":") {
        Some(p) => p,
        None => {
            return None;
        },
    };
    let (lng, p5): (i64, usize) = match parse_i64_at(s, pos) {
        Some(t) => t,
        None => {
            return None;
        },
    };
    pos = match match_lit(s, p5, ",\"alt_mm\":") {
        Some(p) => p,
        None => {
            return None;
        },
    };
    let (alt, p6): (i64, usize) = match parse_i64_at(s, pos) {
        Some(t) => t,
        None => {
            return None;
        },
    };
    pos = match match_lit(s, p6, ",\"battery\":") {
        Some(p) => p,
        None => {
            return None;
        },
    };
    let (battery, p7): (i64, usize) = match parse_i64_at(s, pos) {
        Some(t) => t,
        None => {
            return None;
        },
    };
    pos = match match_lit(s, p7, ",\"fuel\":") {
        Some(p) => p,
        None => {
            return None;
        },
    };
    let (fuel, p8): (i64, usize) = match parse_i64_at(s, pos) {
        Some(t) => t,
        None => {
            return None;
        },
    };
    pos = match match_lit(s, p8, ",\"health\":") {
        Some(p) => p,
        None => {
            return None;
        },
    };
    let (health, p9): (i64, usize) = match parse_i64_at(s, pos) {
        Some(t) => t,
        None => {
            return None;
        },
    };
    pos = match match_lit(s, p9, ",\"speed_ckmh\":") {
        Some(p) => p,
        None => {
            return None;
        },
    };
    let (speed, p10): (i64, usize) = match parse_i64_at(s, pos) {
        Some(t) => t,
        None => {
            return None;
        },
    };
    pos = match match_lit(s, p10, ",\"heading_cdeg\":") {
        Some(p) => p,
        None => {
            return None;
        },
    };
    let (heading, p11): (i64, usize) = match parse_i64_at(s, pos) {
        Some(t) => t,
        None => {
            return None;
        },
    };
    pos = match match_lit(s, p11, ",\"signal\":") {
        Some(p) => p,
        None => {
            return None;
        },
    };
    let (signal, p12): (i64, usize) = match parse_i64_at(s, pos) {
        Some(t) => t,
        None => {
            return None;
        },
    };
    pos = match match_lit(s, p12, "}}}") {
        Some(p) => p,
        None => {
            return None;
        },
    };
    if pos != s.unicode_len() {
        return None;
    }
    if battery < 0 || battery > 100 || fuel < 0 || fuel > 100 || health < 0 || health > 100
        || signal < 0 || signal > 100 {
        return None;
    }
    if speed < 0 || speed > u32::MAX as i64 || heading < 0 || heading >= 36000 {
        return None;
    }
    Some(
        ParsedPositionEvent {
            id,
            timestamp_ms: ts,
            drone_id: DroneId::from_string(drone_id),
            position: GeoPos { lat_udeg: lat, lng_udeg: lng, alt_mm: alt },
            telemetry_battery: battery as u8,
            telemetry_fuel: fuel as u8,
            telemetry_health: health as u8,
            telemetry_speed_ckmh: speed as u32,
            telemetry_heading_cdeg: heading as u32,
            telemetry_signal: signal as u8,
        },
    )
}

} // verus!
