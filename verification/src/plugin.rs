//! The Mumble plugin's memory (the latest radio state message and which
//! Mumble session belongs to which player) and its per-frame decision
//! whether, and how, a speaker is heard.
use vstd::prelude::*;
use std::collections::HashMap;
use crate::protocol::{
    PlayerSummary, PlayerSummaryView, RadioStateMessage, RadioStateMessageView, first_index_of,
    lemma_first_index_of,
};
use crate::text::{owned, same_text};

verus! {

broadcast use vstd::std_specs::hash::group_hash_axioms;

/// The plugin's memory.
pub struct PluginState {
    last: Option<RadioStateMessage>,
    /// When `last` arrived, in milliseconds of the caller's clock.
    updated_at: Option<u64>,
    /// Mumble session id → Mumble user name.
    session_to_name: HashMap<u32, String>,
}

pub struct PluginStateView {
    pub last: Option<RadioStateMessageView>,
    pub updated_at: Option<u64>,
    pub sessions: Map<u32, Seq<char>>,
}

impl View for PluginState {
    type V = PluginStateView;

    closed spec fn view(&self) -> PluginStateView {
        PluginStateView {
            last: match self.last {
                Some(m) => Some(m@),
                None => None,
            },
            updated_at: self.updated_at,
            sessions: self.session_to_name@.map_values(|s: String| s@),
        }
    }
}

impl PluginState {
    /// No message yet and no known session.
    pub fn new() -> (r: Self)
        ensures
            r@.last is None,
            r@.updated_at is None,
            r@.sessions == Map::<u32, Seq<char>>::empty(),
    {
        let r = PluginState { last: None, updated_at: None, session_to_name: HashMap::new() };
        assert(r@.sessions =~= Map::<u32, Seq<char>>::empty());
        r
    }

    /// Keeps `msg` as the latest message, received at `now_ms` (milliseconds
    /// on the caller's monotonic clock).
    pub fn update(&mut self, msg: RadioStateMessage, now_ms: u64)
        ensures
            final(self)@.last == Some(msg@),
            final(self)@.updated_at == Some(now_ms),
            final(self)@.sessions == old(self)@.sessions,
    {
        self.last = Some(msg);
        self.updated_at = Some(now_ms);
    }

    /// The latest message, unless it is more than `ttl_ms` milliseconds old
    /// at `now_ms` (a clock reading before the message counts as age 0).
    pub fn last_message_fresh(&self, now_ms: u64, ttl_ms: u64) -> (r: Option<&RadioStateMessage>)
        ensures
            match r {
                Some(m) => self@.last == Some(m@) && (self@.updated_at matches Some(t) && (if now_ms
                    >= t { now_ms - t } else { 0 }) <= ttl_ms),
                None => self@.last is None || self@.updated_at is None || (self@.updated_at matches Some(
                    t,
                ) && (if now_ms >= t { now_ms - t } else { 0 }) > ttl_ms),
            },
    {
        let ts = match self.updated_at {
            Some(t) => t,
            None => {
                return None;
            },
        };
        if now_ms.saturating_sub(ts) > ttl_ms {
            return None;
        }
        self.last.as_ref()
    }

    /// The latest message, if any.
    pub fn last_message(&self) -> (r: Option<&RadioStateMessage>)
        ensures
            match r {
                Some(m) => self@.last == Some(m@),
                None => self@.last is None,
            },
    {
        self.last.as_ref()
    }

    /// Remembers that session `session_id` is the user `name`.
    pub fn register_session(&mut self, session_id: u32, name: String)
        ensures
            final(self)@.sessions == old(self)@.sessions.insert(session_id, name@),
            final(self)@.last == old(self)@.last,
    {
        let ghost nv = name@;
        let _ = self.session_to_name.insert(session_id, name);
        assert(self@.sessions =~= old(self)@.sessions.insert(session_id, nv));
    }

    /// Forgets session `session_id` (the user left).
    pub fn unregister_session(&mut self, session_id: u32)
        ensures
            final(self)@.sessions == old(self)@.sessions.remove(session_id),
            final(self)@.last == old(self)@.last,
    {
        let _ = self.session_to_name.remove(&session_id);
        assert(self@.sessions =~= old(self)@.sessions.remove(session_id));
    }

    /// The user name of session `session_id`, if known.
    pub fn name_for_session(&self, session_id: u32) -> (r: Option<&str>)
        ensures
            match r {
                Some(n) => self@.sessions.contains_key(session_id) && self@.sessions[session_id] == n@,
                None => !self@.sessions.contains_key(session_id),
            },
    {
        match self.session_to_name.get(&session_id) {
            Some(s) => Some(s.as_str()),
            None => None,
        }
    }

    /// Kept for callers that still name identities; sessions are mapped by
    /// user name, so this changes nothing.
    pub fn register_identity(&mut self, _mumble_id: &str, _player_id: String)
        ensures
            final(self)@ == old(self)@,
    {
    }
}

/// The least time between two logged radio state messages, in
/// milliseconds.
pub const LOG_INTERVAL_MS: u64 = 900;

/// Whether a radio state message received at `now_ms` is logged: when none
/// was logged yet, or when at least `LOG_INTERVAL_MS` have passed since the
/// last one at `last_ms` (a clock reading before `last_ms` counts as no time
/// passed).
pub fn should_log(last_ms: Option<u64>, now_ms: u64) -> (r: bool)
    ensures
        r == match last_ms {
            None => true,
            Some(t) => now_ms >= t && now_ms - t >= LOG_INTERVAL_MS,
        },
{
    match last_ms {
        None => true,
        Some(t) => now_ms.saturating_sub(t) >= LOG_INTERVAL_MS,
    }
}

/// Who is speaking, as far as the plugin's memory tells.
#[derive(Debug, Clone, Copy, PartialEq, Eq, Structural)]
pub enum AudioSource {
    /// No message yet, or the local player is not in it: let audio through.
    NoState,
    /// The session is not a known player: let audio through.
    UnknownSender,
    /// The speaker is a known player, but the local player is dead or
    /// unconscious: hear nothing.
    LocalSilenced,
    /// The local player and the speaker, by position in the latest
    /// message's player list.
    Known { local: usize, sender: usize },
}

/// What the plugin does with one audio frame of a speaker.
#[derive(Debug, Clone, Copy, PartialEq, Eq, Structural)]
pub enum AudioDecision {
    PassNoState,
    MuteLocalSilenced,
    PassUnknownUser,
    MuteRadioFreq,
    MuteRadioChannel,
    /// Same frequency and channel, but another radio code.
    MuteRadioCode,
    MuteRadioRange,
    /// Heard through the radio effect, routed to the ears `stereo` names
    /// (0 = both, 1 = left only, 2 = right only).
    RadioEffect { stereo: u8 },
    /// Heard as it is over the vehicle intercom.
    Intercom,
    /// Direct-voice PTT in a vehicle whose intercom the listener is not on.
    MuteIntercom,
    MuteLocalRange,
    /// Heard with distance attenuation.
    LocalVoice,
    MuteSenderDead,
    MuteSenderUnconscious,
    MuteSenderInVehicle,
    MuteNotTransmitting,
}

/// The source of audio from session `mumble_id`.
pub open spec fn source_of(s: PluginStateView, mumble_id: u32) -> AudioSource {
    match s.last {
        None => AudioSource::NoState,
        Some(m) => match first_index_of(m.players, m.local_player) {
            None => AudioSource::NoState,
            Some(li) => if !s.sessions.contains_key(mumble_id) {
                AudioSource::UnknownSender
            } else {
                match first_index_of(m.players, s.sessions[mumble_id]) {
                    None => AudioSource::UnknownSender,
                    Some(si) => if !(m.players[li].alive && m.players[li].conscious) {
                        AudioSource::LocalSilenced
                    } else {
                        AudioSource::Known { local: li as usize, sender: si as usize }
                    },
                }
            },
        },
    }
}

/// Finds the local player and the speaker of session `mumble_id`.
pub fn classify_source(state: &PluginState, mumble_id: u32) -> (r: AudioSource)
    ensures
        r == source_of(state@, mumble_id),
        r matches AudioSource::Known { local, sender } ==> state@.last matches Some(m) && local
            < m.players.len() && sender < m.players.len(),
{
    let msg = match state.last_message() {
        Some(m) => m,
        None => {
            return AudioSource::NoState;
        },
    };
    let ghost ps = msg@.players;
    proof {
        lemma_first_index_of(ps, msg@.local_player);
    }
    let li = match index_of(&msg.players, msg.local_player.as_str()) {
        Some(i) => i,
        None => {
            return AudioSource::NoState;
        },
    };
    assert(ps[li as int] == msg.players@[li as int]@);
    let name = match state.name_for_session(mumble_id) {
        Some(n) => n,
        None => {
            return AudioSource::UnknownSender;
        },
    };
    proof {
        lemma_first_index_of(ps, name@);
    }
    let si = match index_of(&msg.players, name) {
        Some(i) => i,
        None => {
            return AudioSource::UnknownSender;
        },
    };
    if !(msg.players[li].alive && msg.players[li].conscious) {
        return AudioSource::LocalSilenced;
    }
    AudioSource::Known { local: li, sender: si }
}

/// The position of the first summary of player `id`.
fn index_of(players: &Vec<PlayerSummary>, id: &str) -> (r: Option<usize>)
    ensures
        match r {
            Some(i) => first_index_of(crate::protocol::summary_views(players@), id@) == Some(i as int),
            None => first_index_of(crate::protocol::summary_views(players@), id@) is None,
        },
{
    let ghost ps = crate::protocol::summary_views(players@);
    proof {
        lemma_first_index_of(ps, id@);
    }
    let mut i: usize = 0;
    while i < players.len()
        invariant
            ps == crate::protocol::summary_views(players@),
            i <= players@.len(),
            forall|j: int| 0 <= j < i ==> ps[j].player_id != id@,
            first_index_of(ps, id@) matches Some(k) ==> 0 <= k < ps.len() && ps[k].player_id == id@
                && forall|j: int| 0 <= j < k ==> ps[j].player_id != id@,
            first_index_of(ps, id@) is None ==> forall|j: int| 0 <= j < ps.len() ==> ps[j].player_id != id@,
        decreases players@.len() - i,
    {
        assert(ps[i as int] == players@[i as int]@);
        if same_text(players[i].player_id.as_str(), id) {
            return Some(i);
        }
        i = i + 1;
    }
    None
}

/// Whether `local` hears `sender` over a vehicle intercom: both are in a
/// vehicle with the intercom on, the same (named) vehicle and the same
/// intercom channel.
pub open spec fn intercom_matches(local: PlayerSummaryView, sender: PlayerSummaryView) -> bool {
    &&& sender.in_vehicle
    &&& local.in_vehicle
    &&& sender.intercom_enabled
    &&& local.intercom_enabled
    &&& sender.intercom_vehicle_id.len() > 0
    &&& sender.intercom_vehicle_id == local.intercom_vehicle_id
    &&& sender.intercom_channel == local.intercom_channel
}

/// Whether a frame of `sender` is heard by `local`, and how. A radio
/// transmission must match the listener's frequency, channel and code on
/// the same radio (short- or long-range) and be within reach, and is then
/// routed to the listener's ears for that radio; direct-voice PTT inside a
/// vehicle is heard over the intercom only; on foot it is heard within
/// direct-voice range. `beyond_radio` says whether the two are farther
/// apart than the sender's radio reach, `beyond_local` whether they are
/// farther apart than direct voice carries; each is consulted only where it
/// matters.
pub open spec fn verdict(local: PlayerSummaryView, sender: PlayerSummaryView, beyond_radio: bool, beyond_local: bool) -> AudioDecision {
    if sender.transmitting_radio {
        let lr = sender.radio_type == "lr"@;
        let freq = if lr { local.tuned_lr_freq } else { local.tuned_sr_freq };
        let channel = if lr { local.tuned_lr_channel } else { local.tuned_sr_channel };
        let code = if lr { local.tuned_lr_code } else { local.tuned_sr_code };
        let stereo = if lr { local.tuned_lr_stereo } else { local.tuned_sr_stereo };
        if sender.radio_freq.len() == 0 || sender.radio_freq != freq {
            AudioDecision::MuteRadioFreq
        } else if sender.radio_channel != channel {
            AudioDecision::MuteRadioChannel
        } else if sender.radio_code != code {
            AudioDecision::MuteRadioCode
        } else if beyond_radio {
            AudioDecision::MuteRadioRange
        } else {
            AudioDecision::RadioEffect { stereo }
        }
    } else if sender.ptt_local_raw && sender.in_vehicle {
        if intercom_matches(local, sender) {
            AudioDecision::Intercom
        } else {
            AudioDecision::MuteIntercom
        }
    } else if sender.transmitting_local {
        if beyond_local {
            AudioDecision::MuteLocalRange
        } else {
            AudioDecision::LocalVoice
        }
    } else if !sender.alive {
        AudioDecision::MuteSenderDead
    } else if !sender.conscious {
        AudioDecision::MuteSenderUnconscious
    } else if sender.in_vehicle {
        AudioDecision::MuteSenderInVehicle
    } else {
        AudioDecision::MuteNotTransmitting
    }
}

fn intercom_heard(local: &PlayerSummary, sender: &PlayerSummary) -> (r: bool)
    ensures
        r == intercom_matches(local@, sender@),
{
    sender.in_vehicle && local.in_vehicle && sender.intercom_enabled && local.intercom_enabled
        && sender.intercom_vehicle_id.as_str().unicode_len() > 0 && same_text(
        sender.intercom_vehicle_id.as_str(),
        local.intercom_vehicle_id.as_str(),
    ) && sender.intercom_channel == local.intercom_channel
}

pub fn audio_verdict(local: &PlayerSummary, sender: &PlayerSummary, beyond_radio: bool, beyond_local: bool) -> (r: AudioDecision)
    ensures
        r == verdict(local@, sender@, beyond_radio, beyond_local),
{
    if sender.transmitting_radio {
        let lr = same_text(sender.radio_type.as_str(), "lr");
        let (freq, channel, code, stereo) = if lr {
            (&local.tuned_lr_freq, local.tuned_lr_channel, &local.tuned_lr_code, local.tuned_lr_stereo)
        } else {
            (&local.tuned_sr_freq, local.tuned_sr_channel, &local.tuned_sr_code, local.tuned_sr_stereo)
        };
        if sender.radio_freq.as_str().unicode_len() == 0 || !same_text(sender.radio_freq.as_str(), freq.as_str()) {
            AudioDecision::MuteRadioFreq
        } else if sender.radio_channel != channel {
            AudioDecision::MuteRadioChannel
        } else if !same_text(sender.radio_code.as_str(), code.as_str()) {
            AudioDecision::MuteRadioCode
        } else if beyond_radio {
            AudioDecision::MuteRadioRange
        } else {
            AudioDecision::RadioEffect { stereo }
        }
    } else if sender.ptt_local_raw && sender.in_vehicle {
        if intercom_heard(local, sender) {
            AudioDecision::Intercom
        } else {
            AudioDecision::MuteIntercom
        }
    } else if sender.transmitting_local {
        if beyond_local {
            AudioDecision::MuteLocalRange
        } else {
            AudioDecision::LocalVoice
        }
    } else if !sender.alive {
        AudioDecision::MuteSenderDead
    } else if !sender.conscious {
        AudioDecision::MuteSenderUnconscious
    } else if sender.in_vehicle {
        AudioDecision::MuteSenderInVehicle
    } else {
        AudioDecision::MuteNotTransmitting
    }
}

/// What the plugin does with a frame from session `mumble_id`: pass it when
/// there is no usable message or the speaker is unknown, silence it when the
/// local player is dead or unconscious, and otherwise decide by `verdict`.
pub open spec fn decision_of(s: PluginStateView, mumble_id: u32, beyond_radio: bool, beyond_local: bool) -> AudioDecision {
    match source_of(s, mumble_id) {
        AudioSource::NoState => AudioDecision::PassNoState,
        AudioSource::LocalSilenced => AudioDecision::MuteLocalSilenced,
        AudioSource::UnknownSender => AudioDecision::PassUnknownUser,
        AudioSource::Known { local, sender } => verdict(
            s.last->0.players[local as int],
            s.last->0.players[sender as int],
            beyond_radio,
            beyond_local,
        ),
    }
}

/// The decision for a frame from session `mumble_id`. `beyond_radio` and
/// `beyond_local` say whether the speaker that `classify_source` finds is
/// farther from the local player than its radio reach and than direct voice
/// carries. For a known speaker: a radio transmission with another code
/// than the listener's on that radio is muted; a heard radio voice carries
/// the listener's ear setting for that radio; direct-voice PTT in a vehicle
/// is heard exactly over a matching intercom.
pub fn decide_audio(state: &PluginState, mumble_id: u32, beyond_radio: bool, beyond_local: bool) -> (r: AudioDecision)
    ensures
        r == decision_of(state@, mumble_id, beyond_radio, beyond_local),
        source_of(state@, mumble_id) matches AudioSource::Known { local, sender } ==> ({
            let l = state@.last->0.players[local as int];
            let s = state@.last->0.players[sender as int];
            let lr = s.radio_type == "lr"@;
            &&& (s.transmitting_radio && s.radio_code != (if lr { l.tuned_lr_code } else { l.tuned_sr_code })
                ==> !r.spec_passes())
            &&& (r matches AudioDecision::RadioEffect { stereo } ==> s.transmitting_radio && stereo == (
            if lr { l.tuned_lr_stereo } else { l.tuned_sr_stereo }))
            &&& (!s.transmitting_radio && s.ptt_local_raw && s.in_vehicle ==> (r.spec_passes()
                <==> intercom_matches(l, s)))
        }),
{
    match classify_source(state, mumble_id) {
        AudioSource::NoState => AudioDecision::PassNoState,
        AudioSource::LocalSilenced => AudioDecision::MuteLocalSilenced,
        AudioSource::UnknownSender => AudioDecision::PassUnknownUser,
        AudioSource::Known { local, sender } => {
            let msg = state.last_message().unwrap();
            assert(msg@.players[local as int] == msg.players@[local as int]@);
            assert(msg@.players[sender as int] == msg.players@[sender as int]@);
            audio_verdict(&msg.players[local], &msg.players[sender], beyond_radio, beyond_local)
        },
    }
}

impl AudioDecision {
    /// Whether the frame is played (possibly changed) rather than silenced.
    pub open spec fn spec_passes(self) -> bool {
        match self {
            AudioDecision::PassNoState | AudioDecision::PassUnknownUser | AudioDecision::RadioEffect { .. }
            | AudioDecision::Intercom | AudioDecision::LocalVoice => true,
            _ => false,
        }
    }

    pub fn passes(&self) -> (r: bool)
        ensures
            r == self.spec_passes(),
    {
        match self {
            AudioDecision::PassNoState | AudioDecision::PassUnknownUser | AudioDecision::RadioEffect { .. }
            | AudioDecision::Intercom | AudioDecision::LocalVoice => true,
            _ => false,
        }
    }

    /// The reason written to the decision log.
    pub open spec fn spec_reason(self) -> Seq<char> {
        match self {
            AudioDecision::PassNoState => "no_state"@,
            AudioDecision::MuteLocalSilenced => "local_dead_or_unconscious"@,
            AudioDecision::PassUnknownUser => "unknown_user_passthrough"@,
            AudioDecision::MuteRadioFreq => "radio_freq_mismatch"@,
            AudioDecision::MuteRadioChannel => "radio_channel_mismatch"@,
            AudioDecision::MuteRadioCode => "radio_code_mismatch"@,
            AudioDecision::MuteRadioRange => "radio_out_of_range"@,
            AudioDecision::RadioEffect { .. } => "radio_dsp"@,
            AudioDecision::Intercom => "intercom"@,
            AudioDecision::MuteIntercom => "intercom_mismatch"@,
            AudioDecision::MuteLocalRange => "local_out_of_range"@,
            AudioDecision::LocalVoice => "local_voice"@,
            AudioDecision::MuteSenderDead => "sender_dead"@,
            AudioDecision::MuteSenderUnconscious => "sender_unconscious"@,
            AudioDecision::MuteSenderInVehicle => "sender_in_vehicle_no_radio_ptt"@,
            AudioDecision::MuteNotTransmitting => "sender_not_transmitting"@,
        }
    }

    pub fn reason(&self) -> (r: String)
        ensures
            r@ == self.spec_reason(),
    {
        match self {
            AudioDecision::PassNoState => owned("no_state"),
            AudioDecision::MuteLocalSilenced => owned("local_dead_or_unconscious"),
            AudioDecision::PassUnknownUser => owned("unknown_user_passthrough"),
            AudioDecision::MuteRadioFreq => owned("radio_freq_mismatch"),
            AudioDecision::MuteRadioChannel => owned("radio_channel_mismatch"),
            AudioDecision::MuteRadioCode => owned("radio_code_mismatch"),
            AudioDecision::MuteRadioRange => owned("radio_out_of_range"),
            AudioDecision::RadioEffect { .. } => owned("radio_dsp"),
            AudioDecision::Intercom => owned("intercom"),
            AudioDecision::MuteIntercom => owned("intercom_mismatch"),
            AudioDecision::MuteLocalRange => owned("local_out_of_range"),
            AudioDecision::LocalVoice => owned("local_voice"),
            AudioDecision::MuteSenderDead => owned("sender_dead"),
            AudioDecision::MuteSenderUnconscious => owned("sender_unconscious"),
            AudioDecision::MuteSenderInVehicle => owned("sender_in_vehicle_no_radio_ptt"),
            AudioDecision::MuteNotTransmitting => owned("sender_not_transmitting"),
        }
    }
}

} // verus!
