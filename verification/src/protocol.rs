//! The protocol model: player state as the extension keeps it, the
//! per-player summary sent to the Mumble plugin and the radio state
//! message that carries the summaries.
//!
//! Decimal-fraction quantities (positions, headings, ranges, volumes,
//! line-of-sight quality) are carried as the bit patterns of their IEEE-754
//! single-precision values (`f32::to_bits`); this library moves them around
//! and never computes with them.
use vstd::prelude::*;
use crate::text::{owned, same_text};
use crate::payload::{V1Payload, V1PayloadView, V1RadioView};

verus! {

/// UDP port on which the bridge receives player states.
pub const BRIDGE_RECV_PORT: u16 = 9500;

/// UDP port on which the Mumble plugin receives radio state messages.
pub const PLUGIN_RECV_PORT: u16 = 9501;

/// The protocol version this library speaks.
pub const PROTOCOL_VERSION: u8 = 1;

/// Maximum distance for direct (non-radio) voice: 50 m, as `f32` bits.
pub const LOCAL_VOICE_RANGE_BITS: u32 = 0x4248_0000;

/// Default short-range radio reach: 5 km, as `f32` bits.
pub const RADIO_SR_RANGE_BITS: u32 = 0x459c_4000;

/// Default long-range radio reach: 20 km, as `f32` bits.
pub const RADIO_LR_RANGE_BITS: u32 = 0x469c_4000;

/// The value 1.0 as `f32` bits (full volume, clear line of sight).
pub const UNIT_BITS: u32 = 0x3f80_0000;

/// The value 0.0 as `f32` bits.
pub const ZERO_BITS: u32 = 0;

/// Why a protocol message was refused.
#[derive(Debug)]
pub enum ProtocolError {
    /// The message was not the JSON expected.
    Json(serde_json::Error),
    /// The message carries another protocol version.
    WrongVersion(u8),
}

impl From<serde_json::Error> for ProtocolError {
    fn from(e: serde_json::Error) -> (r: Self) {
        ProtocolError::Json(e)
    }
}

impl vstd::std_specs::convert::FromSpecImpl<serde_json::Error> for ProtocolError {
    open spec fn obeys_from_spec() -> bool {
        true
    }

    open spec fn from_spec(e: serde_json::Error) -> Self {
        ProtocolError::Json(e)
    }
}

/// Accepts exactly the protocol version this library speaks.
pub fn check_version(v: u8) -> (r: Result<(), ProtocolError>)
    ensures
        r is Ok <==> v == PROTOCOL_VERSION,
        r matches Err(e) ==> e matches ProtocolError::WrongVersion(w) && w == v,
{
    if v == PROTOCOL_VERSION {
        Ok(())
    } else {
        Err(ProtocolError::WrongVersion(v))
    }
}

/// One player's radio (short-range or long-range).
pub struct RadioConfig {
    /// Frequency text, e.g. "152.000".
    pub freq: String,
    /// Channel within the frequency (1-based).
    pub channel: u8,
    /// Volume 0.0–1.0, as `f32` bits.
    pub volume_bits: u32,
    pub enabled: bool,
    /// Reach override in metres, as `f32` bits (`None` = protocol default).
    pub range_bits: Option<u32>,
    /// Ear: 0 = both, 1 = left, 2 = right.
    pub stereo: u8,
    pub code: String,
}

pub struct RadioConfigView {
    pub freq: Seq<char>,
    pub channel: u8,
    pub volume_bits: u32,
    pub enabled: bool,
    pub range_bits: Option<u32>,
    pub stereo: u8,
    pub code: Seq<char>,
}

impl View for RadioConfig {
    type V = RadioConfigView;

    open spec fn view(&self) -> RadioConfigView {
        RadioConfigView {
            freq: self.freq@,
            channel: self.channel,
            volume_bits: self.volume_bits,
            enabled: self.enabled,
            range_bits: self.range_bits,
            stereo: self.stereo,
            code: self.code@,
        }
    }
}

pub open spec fn opt_radio(r: Option<RadioConfig>) -> Option<RadioConfigView> {
    match r {
        Some(c) => Some(c@),
        None => None,
    }
}

impl Default for RadioConfig {
    /// Frequency "152.000", channel 1, full volume, enabled, no range
    /// override, both ears, no code.
    fn default() -> (r: Self)
        ensures
            r@ == (RadioConfigView {
                freq: "152.000"@,
                channel: 1,
                volume_bits: UNIT_BITS,
                enabled: true,
                range_bits: None,
                stereo: 0,
                code: Seq::empty(),
            }),
    {
        RadioConfig {
            freq: owned("152.000"),
            channel: 1,
            volume_bits: UNIT_BITS,
            enabled: true,
            range_bits: None,
            stereo: 0,
            code: String::new(),
        }
    }
}

/// Full state of one player, as sent from Arma 3 (via the extension).
pub struct PlayerState {
    /// Protocol version.
    pub v: u8,
    pub msg_type: String,
    pub player_id: String,
    /// `serverName` from SQF (unique per session).
    pub server_id: String,
    /// Arma 3 mission time tick.
    pub tick: u64,
    /// Position [x, y, z] in metres (ASL), as `f32` bits.
    pub pos_bits: [u32; 3],
    /// Heading in degrees (0 = north), as `f32` bits.
    pub dir_bits: u32,
    pub alive: bool,
    /// Not ACE-unconscious.
    pub conscious: bool,
    /// Class name of the current vehicle, empty on foot.
    pub vehicle: String,
    /// PTT for direct (proximity) voice.
    pub ptt_local: bool,
    /// PTT for the short-range radio.
    pub ptt_radio_sr: bool,
    /// PTT for the long-range radio.
    pub ptt_radio_lr: bool,
    /// Short-range radio (`None` = none equipped).
    pub radio_sr: Option<RadioConfig>,
    /// Long-range radio (`None` = none equipped).
    pub radio_lr: Option<RadioConfig>,
    /// Line-of-sight factor 0.0–1.0, as `f32` bits.
    pub radio_los_bits: u32,
    pub intercom_enabled: bool,
    pub intercom_channel: u8,
    pub intercom_vehicle_id: String,
}

pub struct PlayerStateView {
    pub v: u8,
    pub msg_type: Seq<char>,
    pub player_id: Seq<char>,
    pub server_id: Seq<char>,
    pub tick: u64,
    pub pos_bits: Seq<u32>,
    pub dir_bits: u32,
    pub alive: bool,
    pub conscious: bool,
    pub vehicle: Seq<char>,
    pub ptt_local: bool,
    pub ptt_radio_sr: bool,
    pub ptt_radio_lr: bool,
    pub radio_sr: Option<RadioConfigView>,
    pub radio_lr: Option<RadioConfigView>,
    pub radio_los_bits: u32,
    pub intercom_enabled: bool,
    pub intercom_channel: u8,
    pub intercom_vehicle_id: Seq<char>,
}

impl View for PlayerState {
    type V = PlayerStateView;

    open spec fn view(&self) -> PlayerStateView {
        PlayerStateView {
            v: self.v,
            msg_type: self.msg_type@,
            player_id: self.player_id@,
            server_id: self.server_id@,
            tick: self.tick,
            pos_bits: self.pos_bits@,
            dir_bits: self.dir_bits,
            alive: self.alive,
            conscious: self.conscious,
            vehicle: self.vehicle@,
            ptt_local: self.ptt_local,
            ptt_radio_sr: self.ptt_radio_sr,
            ptt_radio_lr: self.ptt_radio_lr,
            radio_sr: opt_radio(self.radio_sr),
            radio_lr: opt_radio(self.radio_lr),
            radio_los_bits: self.radio_los_bits,
            intercom_enabled: self.intercom_enabled,
            intercom_channel: self.intercom_channel,
            intercom_vehicle_id: self.intercom_vehicle_id@,
        }
    }
}

impl PlayerStateView {
    /// Speaking on direct voice: PTT held, alive and conscious.
    pub open spec fn transmitting_local(self) -> bool {
        self.ptt_local && self.alive && self.conscious
    }

    /// Speaking on the short-range radio: PTT held, alive, conscious and
    /// an enabled short-range radio.
    pub open spec fn transmitting_sr(self) -> bool {
        self.ptt_radio_sr && self.alive && self.conscious && (self.radio_sr matches Some(r)
            && r.enabled)
    }

    /// Speaking on the long-range radio: PTT held, alive, conscious and
    /// an enabled long-range radio.
    pub open spec fn transmitting_lr(self) -> bool {
        self.ptt_radio_lr && self.alive && self.conscious && (self.radio_lr matches Some(r)
            && r.enabled)
    }
}

/// The numbers that a `v1` payload holds as text, once read.
#[derive(Clone, Copy)]
pub struct V1Numbers {
    pub pos_bits: [u32; 3],
    pub dir_bits: u32,
    pub los_bits: u32,
    pub sr_range_bits: Option<u32>,
    pub lr_range_bits: Option<u32>,
}

/// The radio of a `v1` payload, with its range read.
pub open spec fn radio_from_v1(r: V1RadioView, range_bits: Option<u32>) -> RadioConfigView {
    RadioConfigView {
        freq: r.freq,
        channel: r.channel,
        volume_bits: UNIT_BITS,
        enabled: true,
        range_bits: range_bits,
        stereo: r.stereo,
        code: r.code,
    }
}

/// The player state that a `v1` payload describes, once its numbers are
/// read.
pub open spec fn state_from_v1(p: V1PayloadView, n: V1Numbers) -> PlayerStateView {
    PlayerStateView {
        v: PROTOCOL_VERSION,
        msg_type: "player_state"@,
        player_id: p.player_id,
        server_id: p.server_id,
        tick: p.tick,
        pos_bits: n.pos_bits@,
        dir_bits: n.dir_bits,
        alive: p.alive,
        conscious: p.conscious,
        vehicle: p.vehicle,
        ptt_local: p.ptt_local,
        ptt_radio_sr: p.ptt_radio_sr,
        ptt_radio_lr: p.ptt_radio_lr,
        radio_sr: Some(radio_from_v1(p.radio_sr, n.sr_range_bits)),
        radio_lr: match p.radio_lr {
            Some(r) => Some(radio_from_v1(r, n.lr_range_bits)),
            None => None,
        },
        radio_los_bits: n.los_bits,
        intercom_enabled: p.intercom_enabled,
        intercom_channel: p.intercom_channel,
        intercom_vehicle_id: p.intercom_vehicle_id,
    }
}

impl PlayerState {
    /// Builds the state that a `v1` payload describes from the payload and
    /// its numbers: protocol version 1, type "player_state", full volume and
    /// enabled radios.
    pub fn from_v1(p: V1Payload, n: V1Numbers) -> (r: PlayerState)
        ensures
            r@ == state_from_v1(p@, n),
    {
        let radio_sr = RadioConfig {
            freq: p.radio_sr.freq,
            channel: p.radio_sr.channel,
            volume_bits: UNIT_BITS,
            enabled: true,
            range_bits: n.sr_range_bits,
            stereo: p.radio_sr.stereo,
            code: p.radio_sr.code,
        };
        let radio_lr = match p.radio_lr {
            Some(r) => Some(
                RadioConfig {
                    freq: r.freq,
                    channel: r.channel,
                    volume_bits: UNIT_BITS,
                    enabled: true,
                    range_bits: n.lr_range_bits,
                    stereo: r.stereo,
                    code: r.code,
                },
            ),
            None => None,
        };
        PlayerState {
            v: PROTOCOL_VERSION,
            msg_type: owned("player_state"),
            player_id: p.player_id,
            server_id: p.server_id,
            tick: p.tick,
            pos_bits: n.pos_bits,
            dir_bits: n.dir_bits,
            alive: p.alive,
            conscious: p.conscious,
            vehicle: p.vehicle,
            ptt_local: p.ptt_local,
            ptt_radio_sr: p.ptt_radio_sr,
            ptt_radio_lr: p.ptt_radio_lr,
            radio_sr: Some(radio_sr),
            radio_lr,
            radio_los_bits: n.los_bits,
            intercom_enabled: p.intercom_enabled,
            intercom_channel: p.intercom_channel,
            intercom_vehicle_id: p.intercom_vehicle_id,
        }
    }

    pub fn is_transmitting_local(&self) -> (r: bool)
        ensures
            r == self@.transmitting_local(),
    {
        self.ptt_local && self.alive && self.conscious
    }

    pub fn is_transmitting_sr(&self) -> (r: bool)
        ensures
            r == self@.transmitting_sr(),
    {
        self.ptt_radio_sr && self.alive && self.conscious && match &self.radio_sr {
            Some(r) => r.enabled,
            None => false,
        }
    }

    pub fn is_transmitting_lr(&self) -> (r: bool)
        ensures
            r == self@.transmitting_lr(),
    {
        self.ptt_radio_lr && self.alive && self.conscious && match &self.radio_lr {
            Some(r) => r.enabled,
            None => false,
        }
    }
}

/// What one player looks like to the Mumble plugin.
pub struct PlayerSummary {
    pub player_id: String,
    /// Position [x, y, z] in metres (ASL), as `f32` bits.
    pub pos_bits: [u32; 3],
    /// Heading in degrees, as `f32` bits.
    pub dir_bits: u32,
    pub alive: bool,
    pub conscious: bool,
    pub in_vehicle: bool,
    pub transmitting_local: bool,
    pub transmitting_radio: bool,
    /// Which radio is transmitting: "sr", "lr" or "".
    pub radio_type: String,
    /// Frequency of the transmission.
    pub radio_freq: String,
    /// Channel of the transmission.
    pub radio_channel: u8,
    /// Reach of the transmission in metres, as `f32` bits.
    pub radio_range_bits: u32,
    /// The player's tuned short-range frequency ("" without that radio).
    pub tuned_sr_freq: String,
    pub tuned_sr_channel: u8,
    /// The player's tuned long-range frequency ("" without that radio).
    pub tuned_lr_freq: String,
    pub tuned_lr_channel: u8,
    /// Line-of-sight factor, as `f32` bits.
    pub radio_los_bits: u32,
    /// Code of the transmitting radio ("" when not transmitting).
    pub radio_code: String,
    /// Ear of the player's short-range radio: 0 = both, 1 = left, 2 = right.
    pub tuned_sr_stereo: u8,
    /// Code of the player's short-range radio ("" without that radio).
    pub tuned_sr_code: String,
    /// Ear of the player's long-range radio.
    pub tuned_lr_stereo: u8,
    /// Code of the player's long-range radio ("" without that radio).
    pub tuned_lr_code: String,
    pub intercom_enabled: bool,
    pub intercom_channel: u8,
    /// Id of the vehicle whose intercom the player is on ("" for none).
    pub intercom_vehicle_id: String,
    /// Direct-voice PTT held while alive and conscious, in a vehicle or not.
    pub ptt_local_raw: bool,
}

pub struct PlayerSummaryView {
    pub player_id: Seq<char>,
    pub pos_bits: Seq<u32>,
    pub dir_bits: u32,
    pub alive: bool,
    pub conscious: bool,
    pub in_vehicle: bool,
    pub transmitting_local: bool,
    pub transmitting_radio: bool,
    pub radio_type: Seq<char>,
    pub radio_freq: Seq<char>,
    pub radio_channel: u8,
    pub radio_range_bits: u32,
    pub tuned_sr_freq: Seq<char>,
    pub tuned_sr_channel: u8,
    pub tuned_lr_freq: Seq<char>,
    pub tuned_lr_channel: u8,
    pub radio_los_bits: u32,
    pub radio_code: Seq<char>,
    pub tuned_sr_stereo: u8,
    pub tuned_sr_code: Seq<char>,
    pub tuned_lr_stereo: u8,
    pub tuned_lr_code: Seq<char>,
    pub intercom_enabled: bool,
    pub intercom_channel: u8,
    pub intercom_vehicle_id: Seq<char>,
    pub ptt_local_raw: bool,
}

impl View for PlayerSummary {
    type V = PlayerSummaryView;

    open spec fn view(&self) -> PlayerSummaryView {
        PlayerSummaryView {
            player_id: self.player_id@,
            pos_bits: self.pos_bits@,
            dir_bits: self.dir_bits,
            alive: self.alive,
            conscious: self.conscious,
            in_vehicle: self.in_vehicle,
            transmitting_local: self.transmitting_local,
            transmitting_radio: self.transmitting_radio,
            radio_type: self.radio_type@,
            radio_freq: self.radio_freq@,
            radio_channel: self.radio_channel,
            radio_range_bits: self.radio_range_bits,
            tuned_sr_freq: self.tuned_sr_freq@,
            tuned_sr_channel: self.tuned_sr_channel,
            tuned_lr_freq: self.tuned_lr_freq@,
            tuned_lr_channel: self.tuned_lr_channel,
            radio_los_bits: self.radio_los_bits,
            radio_code: self.radio_code@,
            tuned_sr_stereo: self.tuned_sr_stereo,
            tuned_sr_code: self.tuned_sr_code@,
            tuned_lr_stereo: self.tuned_lr_stereo,
            tuned_lr_code: self.tuned_lr_code@,
            intercom_enabled: self.intercom_enabled,
            intercom_channel: self.intercom_channel,
            intercom_vehicle_id: self.intercom_vehicle_id@,
            ptt_local_raw: self.ptt_local_raw,
        }
    }
}

/// The reach of a radio: its override, else the default.
pub open spec fn reach(r: RadioConfigView, default_bits: u32) -> u32 {
    match r.range_bits {
        Some(b) => b,
        None => default_bits,
    }
}

/// The summary of a player state. Short-range takes precedence when both
/// radios transmit; a player in a vehicle does not speak on direct voice
/// (but may on the intercom); a missing radio shows as frequency "" on
/// channel 1, both ears, no code.
pub open spec fn summary_of(st: PlayerStateView) -> PlayerSummaryView {
    let sr = st.transmitting_sr();
    let lr = st.transmitting_lr();
    PlayerSummaryView {
        player_id: st.player_id,
        pos_bits: st.pos_bits,
        dir_bits: st.dir_bits,
        alive: st.alive,
        conscious: st.conscious,
        in_vehicle: st.vehicle.len() > 0,
        transmitting_local: st.transmitting_local() && st.vehicle.len() == 0,
        transmitting_radio: sr || lr,
        radio_type: if sr {
            "sr"@
        } else if lr {
            "lr"@
        } else {
            Seq::empty()
        },
        radio_freq: if sr {
            st.radio_sr->0.freq
        } else if lr {
            st.radio_lr->0.freq
        } else {
            Seq::empty()
        },
        radio_channel: if sr {
            st.radio_sr->0.channel
        } else if lr {
            st.radio_lr->0.channel
        } else {
            0
        },
        radio_range_bits: if sr {
            reach(st.radio_sr->0, RADIO_SR_RANGE_BITS)
        } else if lr {
            reach(st.radio_lr->0, RADIO_LR_RANGE_BITS)
        } else {
            ZERO_BITS
        },
        tuned_sr_freq: match st.radio_sr {
            Some(r) => r.freq,
            None => Seq::empty(),
        },
        tuned_sr_channel: match st.radio_sr {
            Some(r) => r.channel,
            None => 1,
        },
        tuned_lr_freq: match st.radio_lr {
            Some(r) => r.freq,
            None => Seq::empty(),
        },
        tuned_lr_channel: match st.radio_lr {
            Some(r) => r.channel,
            None => 1,
        },
        radio_los_bits: st.radio_los_bits,
        radio_code: if sr {
            st.radio_sr->0.code
        } else if lr {
            st.radio_lr->0.code
        } else {
            Seq::empty()
        },
        tuned_sr_stereo: match st.radio_sr {
            Some(r) => r.stereo,
            None => 0,
        },
        tuned_sr_code: match st.radio_sr {
            Some(r) => r.code,
            None => Seq::empty(),
        },
        tuned_lr_stereo: match st.radio_lr {
            Some(r) => r.stereo,
            None => 0,
        },
        tuned_lr_code: match st.radio_lr {
            Some(r) => r.code,
            None => Seq::empty(),
        },
        intercom_enabled: st.intercom_enabled,
        intercom_channel: st.intercom_channel,
        intercom_vehicle_id: st.intercom_vehicle_id,
        ptt_local_raw: st.transmitting_local(),
    }
}

fn radio_reach(r: &RadioConfig, default_bits: u32) -> (b: u32)
    ensures
        b == reach(r@, default_bits),
{
    match r.range_bits {
        Some(b) => b,
        None => default_bits,
    }
}

impl PlayerSummary {
    pub fn from_state(state: &PlayerState) -> (r: PlayerSummary)
        ensures
            r@ == summary_of(state@),
    {
        let sr = state.is_transmitting_sr();
        let lr = state.is_transmitting_lr();
        let (transmitting_radio, radio_type, radio_freq, radio_channel, radio_range_bits, radio_code) = if sr {
            let cfg = state.radio_sr.as_ref().unwrap();
            (true, owned("sr"), cfg.freq.clone(), cfg.channel, radio_reach(cfg, RADIO_SR_RANGE_BITS), cfg.code.clone())
        } else if lr {
            let cfg = state.radio_lr.as_ref().unwrap();
            (true, owned("lr"), cfg.freq.clone(), cfg.channel, radio_reach(cfg, RADIO_LR_RANGE_BITS), cfg.code.clone())
        } else {
            (false, String::new(), String::new(), 0u8, ZERO_BITS, String::new())
        };
        let on_foot = state.vehicle.as_str().unicode_len() == 0;
        let (tuned_sr_freq, tuned_sr_channel) = match &state.radio_sr {
            Some(r) => (r.freq.clone(), r.channel),
            None => (String::new(), 1u8),
        };
        let (tuned_lr_freq, tuned_lr_channel) = match &state.radio_lr {
            Some(r) => (r.freq.clone(), r.channel),
            None => (String::new(), 1u8),
        };
        let (tuned_sr_stereo, tuned_sr_code) = match &state.radio_sr {
            Some(r) => (r.stereo, r.code.clone()),
            None => (0u8, String::new()),
        };
        let (tuned_lr_stereo, tuned_lr_code) = match &state.radio_lr {
            Some(r) => (r.stereo, r.code.clone()),
            None => (0u8, String::new()),
        };
        PlayerSummary {
            player_id: state.player_id.clone(),
            pos_bits: state.pos_bits,
            dir_bits: state.dir_bits,
            alive: state.alive,
            conscious: state.conscious,
            in_vehicle: !on_foot,
            transmitting_local: state.is_transmitting_local() && on_foot,
            transmitting_radio,
            radio_type,
            radio_freq,
            radio_channel,
            radio_range_bits,
            tuned_sr_freq,
            tuned_sr_channel,
            tuned_lr_freq,
            tuned_lr_channel,
            radio_los_bits: state.radio_los_bits,
            radio_code,
            tuned_sr_stereo,
            tuned_sr_code,
            tuned_lr_stereo,
            tuned_lr_code,
            intercom_enabled: state.intercom_enabled,
            intercom_channel: state.intercom_channel,
            intercom_vehicle_id: state.intercom_vehicle_id.clone(),
            ptt_local_raw: state.is_transmitting_local(),
        }
    }
}

/// Everything the Mumble plugin learns in one update.
pub struct RadioStateMessage {
    pub v: u8,
    pub msg_type: String,
    pub server_id: String,
    pub tick: u64,
    /// Id of the local player (the one running the extension).
    pub local_player: String,
    pub players: Vec<PlayerSummary>,
}

pub struct RadioStateMessageView {
    pub v: u8,
    pub msg_type: Seq<char>,
    pub server_id: Seq<char>,
    pub tick: u64,
    pub local_player: Seq<char>,
    pub players: Seq<PlayerSummaryView>,
}

pub open spec fn summary_views(ps: Seq<PlayerSummary>) -> Seq<PlayerSummaryView> {
    ps.map_values(|p: PlayerSummary| p@)
}

impl View for RadioStateMessage {
    type V = RadioStateMessageView;

    open spec fn view(&self) -> RadioStateMessageView {
        RadioStateMessageView {
            v: self.v,
            msg_type: self.msg_type@,
            server_id: self.server_id@,
            tick: self.tick,
            local_player: self.local_player@,
            players: summary_views(self.players@),
        }
    }
}

/// The position of the first summary of the player `id`, if any.
pub open spec fn first_index_of(ps: Seq<PlayerSummaryView>, id: Seq<char>) -> Option<int>
    decreases ps.len(),
{
    if ps.len() == 0 {
        None
    } else if ps[0].player_id == id {
        Some(0)
    } else {
        match first_index_of(ps.skip(1), id) {
            Some(i) => Some(i + 1),
            None => None,
        }
    }
}

pub proof fn lemma_first_index_of(ps: Seq<PlayerSummaryView>, id: Seq<char>)
    ensures
        first_index_of(ps, id) matches Some(i) ==> 0 <= i < ps.len() && ps[i].player_id == id
            && forall|j: int| 0 <= j < i ==> ps[j].player_id != id,
        first_index_of(ps, id) is None ==> forall|j: int| 0 <= j < ps.len() ==> ps[j].player_id != id,
    decreases ps.len(),
{
    if ps.len() > 0 {
        lemma_first_index_of(ps.skip(1), id);
        if ps[0].player_id != id {
            assert forall|j: int| 1 <= j < ps.len() implies ps[j] == ps.skip(1)[j - 1] by {}
        }
    }
}

/// The summary of the player `id` in `ps`, if any (the first one).
pub open spec fn find_summary(ps: Seq<PlayerSummaryView>, id: Seq<char>) -> Option<PlayerSummaryView> {
    match first_index_of(ps, id) {
        Some(i) => Some(ps[i]),
        None => None,
    }
}

impl RadioStateMessage {
    /// A message of this protocol's version and type "radio_state".
    pub fn new(server_id: String, tick: u64, local_player: String, players: Vec<PlayerSummary>) -> (r: Self)
        ensures
            r@ == (RadioStateMessageView {
                v: PROTOCOL_VERSION,
                msg_type: "radio_state"@,
                server_id: server_id@,
                tick: tick,
                local_player: local_player@,
                players: summary_views(players@),
            }),
    {
        RadioStateMessage {
            v: PROTOCOL_VERSION,
            msg_type: owned("radio_state"),
            server_id,
            tick,
            local_player,
            players,
        }
    }

    /// The first summary of the player `player_id`.
    pub fn find_player(&self, player_id: &str) -> (r: Option<&PlayerSummary>)
        ensures
            match r {
                Some(p) => find_summary(self@.players, player_id@) == Some(p@),
                None => find_summary(self@.players, player_id@) is None,
            },
    {
        let ghost ps = self@.players;
        proof {
            lemma_first_index_of(ps, player_id@);
        }
        let mut i: usize = 0;
        while i < self.players.len()
            invariant
                ps == self@.players,
                ps.len() == self.players@.len(),
                i <= ps.len(),
                forall|j: int| 0 <= j < i ==> ps[j].player_id != player_id@,
                first_index_of(ps, player_id@) matches Some(k) ==> 0 <= k < ps.len() && ps[k].player_id == player_id@
                    && forall|j: int| 0 <= j < k ==> ps[j].player_id != player_id@,
                first_index_of(ps, player_id@) is None ==> forall|j: int| 0 <= j < ps.len() ==> ps[j].player_id != player_id@,
            decreases ps.len() - i,
        {
            assert(ps[i as int] == self.players@[i as int]@);
            if same_text(self.players[i].player_id.as_str(), player_id) {
                return Some(&self.players[i]);
            }
            i = i + 1;
        }
        None
    }

    /// The summary of the local player.
    pub fn local(&self) -> (r: Option<&PlayerSummary>)
        ensures
            match r {
                Some(p) => find_summary(self@.players, self@.local_player) == Some(p@),
                None => find_summary(self@.players, self@.local_player) is None,
            },
    {
        self.find_player(self.local_player.as_str())
    }
}

} // verus!
