//! Reading what Arma's `callExtension` hands over: the unwrapping of JSON
//! wrappers around an argument, and the `v1|...` player state payload.
use vstd::prelude::*;
use crate::text::{trimmed, has_prefix, has_suffix, trim_chars, chars_start_with, chars_end_with, string_from_chars};
use crate::text::{chars_of, parsed_unsigned, parse_u8, parse_u64, same_text};
use vstd::utf8::{valid_utf8, decode_utf8};
use crate::pipe::{split_fields, unescaped, views, split_escaped_pipe, unescape_pipe_field};
use crate::decimal::{float_syntax, is_float_text};
use crate::json::{json_string, json_string_list, decode_json_string, decode_json_string_list};

verus! {

/// A field of the `v1|...` payload whose text did not read as a number.
#[derive(Debug, Clone, Copy, PartialEq, Eq, Structural)]
pub enum V1Field {
    Tick,
    X,
    Y,
    Z,
    Dir,
    SrChannel,
    LrChannel,
    RadioLos,
    SrRange,
    LrRange,
    SrStereo,
    LrStereo,
    IntercomChannel,
}

/// Why an argument from Arma was refused.
#[derive(Debug, Clone, Copy, PartialEq, Eq, Structural)]
pub enum PayloadError {
    /// The bytes are not UTF-8.
    NotUtf8,
    /// Neither `v1|...` nor one of the JSON wrappers around it.
    UnsupportedFormat,
    /// Looked like a JSON string wrapper but did not read as one.
    WrapperString,
    /// Looked like a JSON array wrapper but did not read as one.
    WrapperArray,
    /// A single-string argument that is empty (after trimming).
    EmptyArgument,
    /// A JSON array wrapper around a single-string argument that does not
    /// hold exactly one string.
    ArrayWrapperLength,
    /// The first field is not `v1`.
    MissingPrefix,
    /// A field count other than 18, 19, 21, 23, 25, 27 or 28.
    FieldCount(usize),
    /// A numeric field that did not read.
    BadField(V1Field),
    /// A protocol version other than the one supported.
    WrongVersion(u8),
}

/// What `normalize_v1_payload` gives for the text `s`.
pub open spec fn normalized_v1(s: Seq<char>) -> Result<Seq<char>, PayloadError> {
    let t = trimmed(s);
    if has_prefix(t, "v1|"@) {
        Ok(t)
    } else if has_prefix(t, "\""@) && has_suffix(t, "\""@) {
        match json_string(t) {
            Some(v) => Ok(v),
            None => Err(PayloadError::WrapperString),
        }
    } else if has_prefix(t, "["@) && has_suffix(t, "]"@) {
        match json_string_list(t) {
            None => Err(PayloadError::WrapperArray),
            Some(l) => if l.len() == 1 {
                Ok(l[0])
            } else {
                Err(PayloadError::UnsupportedFormat)
            },
        }
    } else {
        Err(PayloadError::UnsupportedFormat)
    }
}

/// What `normalize_single_string_arg` gives for the text `s`.
pub open spec fn normalized_single(s: Seq<char>) -> Result<Seq<char>, PayloadError> {
    let t = trimmed(s);
    if t.len() == 0 {
        Err(PayloadError::EmptyArgument)
    } else if has_prefix(t, "\""@) && has_suffix(t, "\""@) {
        match json_string(t) {
            Some(v) => Ok(v),
            None => Err(PayloadError::WrapperString),
        }
    } else if has_prefix(t, "["@) && has_suffix(t, "]"@) {
        match json_string_list(t) {
            None => Err(PayloadError::WrapperArray),
            Some(l) => if l.len() == 1 {
                Ok(l[0])
            } else {
                Err(PayloadError::ArrayWrapperLength)
            },
        }
    } else {
        Ok(t)
    }
}

/// Whether a string result matches a spec result.
pub open spec fn text_result(r: Result<String, PayloadError>, s: Result<Seq<char>, PayloadError>) -> bool {
    match r {
        Ok(v) => s == Ok::<Seq<char>, PayloadError>(v@),
        Err(e) => s == Err::<Seq<char>, PayloadError>(e),
    }
}

/// What a JSON string wrapper gives once `serde_json` has read it: the
/// string it holds, or `WrapperString` when it did not read as one.
pub fn from_string_wrapper(decoded: Result<String, serde_json::Error>) -> (r: Result<String, PayloadError>)
    ensures
        match decoded {
            Ok(v) => r matches Ok(t) && t@ == v@,
            Err(_) => r == Err::<String, PayloadError>(PayloadError::WrapperString),
        },
{
    match decoded {
        Ok(v) => Ok(v),
        Err(_) => Err(PayloadError::WrapperString),
    }
}

/// What a JSON array wrapper gives once `serde_json` has read it: its only
/// string; `on_count` when it holds another number of strings;
/// `WrapperArray` when it did not read as an array of strings.
pub fn from_array_wrapper(decoded: Result<Vec<String>, serde_json::Error>, on_count: PayloadError) -> (r: Result<String, PayloadError>)
    ensures
        match decoded {
            Ok(v) => if v@.len() == 1 {
                r matches Ok(t) && t@ == v@[0]@
            } else {
                r == Err::<String, PayloadError>(on_count)
            },
            Err(_) => r == Err::<String, PayloadError>(PayloadError::WrapperArray),
        },
{
    match decoded {
        Ok(arr) => {
            if arr.len() == 1 {
                let mut arr = arr;
                Ok(arr.remove(0))
            } else {
                Err(on_count)
            }
        },
        Err(_) => Err(PayloadError::WrapperArray),
    }
}

/// Arma sometimes hands the `v1|...` payload over as a JSON string
/// (`"v1|..."`) or as a JSON array of one string (`["v1|..."]`); this
/// unwraps those, after trimming whitespace.
pub fn normalize_v1_payload(s: &str) -> (r: Result<String, PayloadError>)
    ensures
        text_result(r, normalized_v1(s@)),
{
    let t = trim_chars(s);
    assert(t@.subrange(0, t@.len() as int) =~= t@);
    if chars_start_with(&t, "v1|") {
        return Ok(string_from_chars(&t, 0, t.len()));
    }
    let text = string_from_chars(&t, 0, t.len());
    if chars_start_with(&t, "\"") && chars_end_with(&t, "\"") {
        return from_string_wrapper(decode_json_string(text.as_str()));
    }
    if chars_start_with(&t, "[") && chars_end_with(&t, "]") {
        return from_array_wrapper(decode_json_string_list(text.as_str()), PayloadError::UnsupportedFormat);
    }
    Err(PayloadError::UnsupportedFormat)
}

/// A single string argument from Arma: plain, as a JSON string or as a JSON
/// array of one string; trimmed, and never empty.
pub fn normalize_single_string_arg(s: &str) -> (r: Result<String, PayloadError>)
    ensures
        text_result(r, normalized_single(s@)),
{
    let t = trim_chars(s);
    assert(t@.subrange(0, t@.len() as int) =~= t@);
    if t.len() == 0 {
        return Err(PayloadError::EmptyArgument);
    }
    let text = string_from_chars(&t, 0, t.len());
    if chars_start_with(&t, "\"") && chars_end_with(&t, "\"") {
        return from_string_wrapper(decode_json_string(text.as_str()));
    }
    if chars_start_with(&t, "[") && chars_end_with(&t, "]") {
        return from_array_wrapper(decode_json_string_list(text.as_str()), PayloadError::ArrayWrapperLength);
    }
    Ok(text)
}

/// A radio as the `v1|...` payload describes it. `range_text` holds the
/// text of the range override when it is neither empty nor `0`, a number
/// in the syntax of `f32::from_str`; reading its value in metres is left to
/// the caller.
pub struct V1Radio {
    pub freq: String,
    pub channel: u8,
    pub stereo: u8,
    pub code: String,
    pub range_text: Option<String>,
}

pub struct V1RadioView {
    pub freq: Seq<char>,
    pub channel: u8,
    pub stereo: u8,
    pub code: Seq<char>,
    pub range_text: Option<Seq<char>>,
}

pub open spec fn opt_text(o: Option<String>) -> Option<Seq<char>> {
    match o {
        Some(s) => Some(s@),
        None => None,
    }
}

impl View for V1Radio {
    type V = V1RadioView;

    open spec fn view(&self) -> V1RadioView {
        V1RadioView {
            freq: self.freq@,
            channel: self.channel,
            stereo: self.stereo,
            code: self.code@,
            range_text: opt_text(self.range_text),
        }
    }
}

/// A player state as the `v1|...` payload describes it. The fields that
/// hold decimal fractions (position, heading, line-of-sight quality and the
/// radio ranges) are kept as their text, checked to be numbers in the
/// syntax of `f32::from_str`, for the caller to read.
pub struct V1Payload {
    pub player_id: String,
    pub server_id: String,
    pub tick: u64,
    pub x_text: String,
    pub y_text: String,
    pub z_text: String,
    pub dir_text: String,
    pub alive: bool,
    pub conscious: bool,
    pub vehicle: String,
    pub ptt_local: bool,
    pub ptt_radio_sr: bool,
    pub ptt_radio_lr: bool,
    pub radio_sr: V1Radio,
    pub radio_lr: Option<V1Radio>,
    /// `None` when the payload has no line-of-sight field (18 fields).
    pub los_text: Option<String>,
    pub intercom_enabled: bool,
    pub intercom_channel: u8,
    pub intercom_vehicle_id: String,
}

pub struct V1PayloadView {
    pub player_id: Seq<char>,
    pub server_id: Seq<char>,
    pub tick: u64,
    pub x_text: Seq<char>,
    pub y_text: Seq<char>,
    pub z_text: Seq<char>,
    pub dir_text: Seq<char>,
    pub alive: bool,
    pub conscious: bool,
    pub vehicle: Seq<char>,
    pub ptt_local: bool,
    pub ptt_radio_sr: bool,
    pub ptt_radio_lr: bool,
    pub radio_sr: V1RadioView,
    pub radio_lr: Option<V1RadioView>,
    pub los_text: Option<Seq<char>>,
    pub intercom_enabled: bool,
    pub intercom_channel: u8,
    pub intercom_vehicle_id: Seq<char>,
}

impl View for V1Payload {
    type V = V1PayloadView;

    open spec fn view(&self) -> V1PayloadView {
        V1PayloadView {
            player_id: self.player_id@,
            server_id: self.server_id@,
            tick: self.tick,
            x_text: self.x_text@,
            y_text: self.y_text@,
            z_text: self.z_text@,
            dir_text: self.dir_text@,
            alive: self.alive,
            conscious: self.conscious,
            vehicle: self.vehicle@,
            ptt_local: self.ptt_local,
            ptt_radio_sr: self.ptt_radio_sr,
            ptt_radio_lr: self.ptt_radio_lr,
            radio_sr: self.radio_sr@,
            radio_lr: match self.radio_lr {
                Some(r) => Some(r@),
                None => None,
            },
            los_text: opt_text(self.los_text),
            intercom_enabled: self.intercom_enabled,
            intercom_channel: self.intercom_channel,
            intercom_vehicle_id: self.intercom_vehicle_id@,
        }
    }
}

/// The field counts that the `v1` format allows.
pub open spec fn v1_count_ok(n: nat) -> bool {
    n == 18 || n == 19 || n == 21 || n == 23 || n == 25 || n == 27 || n == 28
}

/// A flag field: set exactly when its text is `1`.
pub open spec fn flag(f: Seq<char>) -> bool {
    f == "1"@
}

/// A field that holds a number of at most 8 bits.
pub open spec fn field_u8(f: Seq<char>) -> u8 {
    parsed_unsigned(f, u8::MAX as nat)->0 as u8
}

/// A range override: absent when empty or `0`.
pub open spec fn range_text(f: Seq<char>) -> Option<Seq<char>> {
    if f.len() == 0 || f == "0"@ {
        None
    } else {
        Some(f)
    }
}

/// A range field that is neither absent (empty or `0`) nor a number.
pub open spec fn bad_range(f: Seq<char>) -> bool {
    range_text(f) is Some && !float_syntax(f)
}

/// Why the fields `fs` are not a `v1` payload, if they are not one; the
/// fields are checked in the order line of sight, SR and LR range, SR and
/// LR stereo, intercom channel, tick, x, y, z, heading, SR and LR channel.
pub open spec fn v1_error(fs: Seq<Seq<char>>) -> Option<PayloadError> {
    let n = fs.len();
    if n == 0 || fs[0] != "v1"@ {
        Some(PayloadError::MissingPrefix)
    } else if !v1_count_ok(n) {
        Some(PayloadError::FieldCount(n as usize))
    } else if n >= 19 && !float_syntax(fs[18]) {
        Some(PayloadError::BadField(V1Field::RadioLos))
    } else if n >= 21 && bad_range(fs[19]) {
        Some(PayloadError::BadField(V1Field::SrRange))
    } else if n >= 21 && bad_range(fs[20]) {
        Some(PayloadError::BadField(V1Field::LrRange))
    } else if n >= 23 && parsed_unsigned(fs[21], u8::MAX as nat) is None {
        Some(PayloadError::BadField(V1Field::SrStereo))
    } else if n >= 23 && parsed_unsigned(fs[22], u8::MAX as nat) is None {
        Some(PayloadError::BadField(V1Field::LrStereo))
    } else if n >= 27 && parsed_unsigned(fs[26], u8::MAX as nat) is None {
        Some(PayloadError::BadField(V1Field::IntercomChannel))
    } else if parsed_unsigned(fs[3], u64::MAX as nat) is None {
        Some(PayloadError::BadField(V1Field::Tick))
    } else if !float_syntax(fs[4]) {
        Some(PayloadError::BadField(V1Field::X))
    } else if !float_syntax(fs[5]) {
        Some(PayloadError::BadField(V1Field::Y))
    } else if !float_syntax(fs[6]) {
        Some(PayloadError::BadField(V1Field::Z))
    } else if !float_syntax(fs[7]) {
        Some(PayloadError::BadField(V1Field::Dir))
    } else if parsed_unsigned(fs[15], u8::MAX as nat) is None {
        Some(PayloadError::BadField(V1Field::SrChannel))
    } else if parsed_unsigned(fs[17], u8::MAX as nat) is None {
        Some(PayloadError::BadField(V1Field::LrChannel))
    } else {
        None
    }
}

/// The radio described by the fields at `freq`, `ch`, `stereo`, `code` and
/// `range` (the last three only where the payload has that many fields).
pub open spec fn v1_radio(fs: Seq<Seq<char>>, freq: int, ch: int, stereo: int, code: int, range: int) -> V1RadioView {
    let n = fs.len();
    V1RadioView {
        freq: unescaped(fs[freq]),
        channel: field_u8(fs[ch]),
        stereo: if n >= 23 {
            let v = field_u8(fs[stereo]);
            if v > 2 { 2 } else { v }
        } else {
            0
        },
        code: if n >= 25 { unescaped(fs[code]) } else { Seq::empty() },
        range_text: if n >= 21 { range_text(fs[range]) } else { None },
    }
}

/// The player state that the fields `fs` of a well-formed `v1` payload
/// describe. Field order: `v1`, player id, server id, tick, x, y, z,
/// heading, alive, conscious, vehicle, local PTT, SR PTT, LR PTT, SR
/// frequency, SR channel, LR frequency, LR channel, then optionally
/// line-of-sight, SR and LR range, SR and LR stereo, SR and LR code,
/// intercom on and channel, intercom vehicle id.
pub open spec fn v1_payload(fs: Seq<Seq<char>>) -> V1PayloadView {
    let n = fs.len();
    V1PayloadView {
        player_id: unescaped(fs[1]),
        server_id: unescaped(fs[2]),
        tick: parsed_unsigned(fs[3], u64::MAX as nat)->0 as u64,
        x_text: fs[4],
        y_text: fs[5],
        z_text: fs[6],
        dir_text: fs[7],
        alive: flag(fs[8]),
        conscious: flag(fs[9]),
        vehicle: unescaped(fs[10]),
        ptt_local: flag(fs[11]),
        ptt_radio_sr: flag(fs[12]),
        ptt_radio_lr: flag(fs[13]),
        radio_sr: v1_radio(fs, 14, 15, 21, 23, 19),
        radio_lr: if unescaped(fs[16]).len() == 0 {
            None
        } else {
            Some(v1_radio(fs, 16, 17, 22, 24, 20))
        },
        los_text: if n == 18 { None } else { Some(fs[18]) },
        intercom_enabled: if n >= 27 { flag(fs[25]) } else { true },
        intercom_channel: if n >= 27 {
            let c = field_u8(fs[26]);
            if c < 1 { 1 } else { c }
        } else {
            1
        },
        intercom_vehicle_id: if n >= 28 { unescaped(fs[27]) } else { Seq::empty() },
    }
}

/// What the fields `fs` read as.
pub open spec fn v1_parsed(fs: Seq<Seq<char>>) -> Result<V1PayloadView, PayloadError> {
    match v1_error(fs) {
        Some(e) => Err(e),
        None => Ok(v1_payload(fs)),
    }
}

pub open spec fn payload_result(r: Result<V1Payload, PayloadError>) -> Result<V1PayloadView, PayloadError> {
    match r {
        Ok(p) => Ok(p@),
        Err(e) => Err(e),
    }
}

fn read_u8(f: &String, which: V1Field) -> (r: Result<u8, PayloadError>)
    ensures
        r matches Ok(v) ==> parsed_unsigned(f@, u8::MAX as nat) == Some(v as nat),
        r is Err ==> parsed_unsigned(f@, u8::MAX as nat) is None && r == Err::<u8, PayloadError>(PayloadError::BadField(which)),
{
    match parse_u8(f.as_str()) {
        Some(v) => Ok(v),
        None => Err(PayloadError::BadField(which)),
    }
}

fn read_flag(f: &String) -> (r: bool)
    ensures
        r == flag(f@),
{
    same_text(f.as_str(), "1")
}

fn read_range_text(f: &String, which: V1Field) -> (r: Result<Option<String>, PayloadError>)
    ensures
        r matches Ok(t) ==> !bad_range(f@) && opt_text(t) == range_text(f@),
        r is Err ==> bad_range(f@) && r == Err::<Option<String>, PayloadError>(PayloadError::BadField(which)),
{
    if f.as_str().unicode_len() == 0 || same_text(f.as_str(), "0") {
        Ok(None)
    } else if is_float_text(f.as_str()) {
        Ok(Some(f.clone()))
    } else {
        Err(PayloadError::BadField(which))
    }
}

fn check_float(f: &String, which: V1Field) -> (r: Result<(), PayloadError>)
    ensures
        r is Ok <==> float_syntax(f@),
        r is Err ==> r == Err::<(), PayloadError>(PayloadError::BadField(which)),
{
    if is_float_text(f.as_str()) {
        Ok(())
    } else {
        Err(PayloadError::BadField(which))
    }
}

/// Reads the fields of a `v1|...` payload (see `v1_payload` for their
/// order). The decimal-fraction fields are handed back as text.
#[verifier::rlimit(40)]
pub fn parse_player_state_v1(s: &str) -> (r: Result<V1Payload, PayloadError>)
    ensures
        payload_result(r) == v1_parsed(split_fields(s@)),
{
    let fields = split_escaped_pipe(s);
    let ghost fs = split_fields(s@);
    assert(views(fields@) == fs);
    let n = fields.len();
    if n == 0 || !same_text(fields[0].as_str(), "v1") {
        return Err(PayloadError::MissingPrefix);
    }
    if !(n == 18 || n == 19 || n == 21 || n == 23 || n == 25 || n == 27 || n == 28) {
        return Err(PayloadError::FieldCount(n));
    }
    assert(forall|i: int| 0 <= i < n ==> fields@[i]@ == #[trigger] fs[i]);
    let los_text = if n == 18 {
        None
    } else {
        check_float(&fields[18], V1Field::RadioLos)?;
        Some(fields[18].clone())
    };
    let (sr_range, lr_range) = if n >= 21 {
        let sr = read_range_text(&fields[19], V1Field::SrRange)?;
        let lr = read_range_text(&fields[20], V1Field::LrRange)?;
        (sr, lr)
    } else {
        (None, None)
    };
    let (sr_stereo, lr_stereo) = if n >= 23 {
        let srs = read_u8(&fields[21], V1Field::SrStereo)?;
        let lrs = read_u8(&fields[22], V1Field::LrStereo)?;
        (if srs > 2 { 2u8 } else { srs }, if lrs > 2 { 2u8 } else { lrs })
    } else {
        (0u8, 0u8)
    };
    let (sr_code, lr_code) = if n >= 25 {
        (unescape_pipe_field(fields[23].as_str()), unescape_pipe_field(fields[24].as_str()))
    } else {
        (String::new(), String::new())
    };
    let (intercom_enabled, intercom_channel) = if n >= 27 {
        let en = read_flag(&fields[25]);
        let ch = read_u8(&fields[26], V1Field::IntercomChannel)?;
        (en, if ch < 1 { 1u8 } else { ch })
    } else {
        (true, 1u8)
    };
    let intercom_vehicle_id = if n >= 28 {
        unescape_pipe_field(fields[27].as_str())
    } else {
        String::new()
    };
    let player_id = unescape_pipe_field(fields[1].as_str());
    let server_id = unescape_pipe_field(fields[2].as_str());
    let tick = match parse_u64(fields[3].as_str()) {
        Some(t) => t,
        None => {
            return Err(PayloadError::BadField(V1Field::Tick));
        },
    };
    check_float(&fields[4], V1Field::X)?;
    check_float(&fields[5], V1Field::Y)?;
    check_float(&fields[6], V1Field::Z)?;
    check_float(&fields[7], V1Field::Dir)?;
    let alive = read_flag(&fields[8]);
    let conscious = read_flag(&fields[9]);
    let vehicle = unescape_pipe_field(fields[10].as_str());
    let ptt_local = read_flag(&fields[11]);
    let ptt_radio_sr = read_flag(&fields[12]);
    let ptt_radio_lr = read_flag(&fields[13]);
    let sr_freq = unescape_pipe_field(fields[14].as_str());
    let sr_ch = read_u8(&fields[15], V1Field::SrChannel)?;
    let lr_freq = unescape_pipe_field(fields[16].as_str());
    let lr_ch = read_u8(&fields[17], V1Field::LrChannel)?;
    let radio_sr = V1Radio {
        freq: sr_freq,
        channel: sr_ch,
        stereo: sr_stereo,
        code: sr_code,
        range_text: sr_range,
    };
    let radio_lr = if lr_freq.as_str().unicode_len() == 0 {
        None
    } else {
        Some(
            V1Radio {
                freq: lr_freq,
                channel: lr_ch,
                stereo: lr_stereo,
                code: lr_code,
                range_text: lr_range,
            },
        )
    };
    let p = V1Payload {
        player_id,
        server_id,
        tick,
        x_text: fields[4].clone(),
        y_text: fields[5].clone(),
        z_text: fields[6].clone(),
        dir_text: fields[7].clone(),
        alive,
        conscious,
        vehicle,
        ptt_local,
        ptt_radio_sr,
        ptt_radio_lr,
        radio_sr,
        radio_lr,
        los_text,
        intercom_enabled,
        intercom_channel,
        intercom_vehicle_id,
    };
    assert(p@ == v1_payload(fs));
    Ok(p)
}

/// `std::str::from_utf8`: the text that `raw` encodes, when `raw` is valid
/// UTF-8.
#[verifier::external_body]
pub fn utf8_text(raw: &[u8]) -> (r: Option<&str>)
    ensures
        r is Some <==> valid_utf8(raw@),
        r matches Some(t) ==> t@ == decode_utf8(raw@),
{
    std::str::from_utf8(raw).ok()
}

/// What `parse_player_state` gives for the bytes `raw`.
pub open spec fn parsed_player_state(raw: Seq<u8>) -> Result<V1PayloadView, PayloadError> {
    if !valid_utf8(raw) {
        Err(PayloadError::NotUtf8)
    } else {
        match normalized_v1(decode_utf8(raw)) {
            Err(e) => Err(e),
            Ok(p) => if !has_prefix(p, "v1|"@) {
                Err(PayloadError::UnsupportedFormat)
            } else {
                v1_parsed(split_fields(p))
            },
        }
    }
}

/// Reads the argument of a `send` call: UTF-8 text holding a `v1|...`
/// payload, possibly inside a JSON wrapper.
pub fn parse_player_state(raw: &[u8]) -> (r: Result<V1Payload, PayloadError>)
    ensures
        payload_result(r) == parsed_player_state(raw@),
{
    let s = match utf8_text(raw) {
        Some(s) => s,
        None => {
            return Err(PayloadError::NotUtf8);
        },
    };
    let payload = normalize_v1_payload(s)?;
    let chars = chars_of(payload.as_str());
    if !chars_start_with(&chars, "v1|") {
        return Err(PayloadError::UnsupportedFormat);
    }
    parse_player_state_v1(payload.as_str())
}

} // verus!
