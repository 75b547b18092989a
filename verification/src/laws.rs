//! Properties that span the library's operations.
use vstd::prelude::*;
use crate::decimal::float_syntax;
use crate::extension::{message_of, summaries, command_of, ExtCommand};
use crate::payload::{v1_error, v1_payload, v1_parsed};
use crate::pipe::{escaped, joined, split_fields, unescaped, law_split_inverts_join};
use crate::text::{decimal_value, parsed_unsigned};
use crate::decimal::first_mark;
use crate::plugin::{verdict, AudioDecision, PluginStateView, decision_of};
use crate::protocol::{
    PlayerStateView, PlayerSummaryView, summary_of, first_index_of, lemma_first_index_of,
    find_summary, reach, PROTOCOL_VERSION, RADIO_LR_RANGE_BITS, RADIO_SR_RANGE_BITS,
};
use crate::radio::hears_radio;
use crate::store::{PlayerStore, lemma_map_of, is_newest, recent};

verus! {

/// A dead or unconscious player transmits nothing: neither direct voice
/// nor radio.
pub proof fn law_silenced_player_transmits_nothing(st: PlayerStateView)
    requires
        !st.alive || !st.conscious,
    ensures
        !summary_of(st).transmitting_local,
        !summary_of(st).transmitting_radio,
{
}

/// In a vehicle a player cannot speak on direct voice, while the radio
/// works as on foot: the radio part of the summary does not depend on the
/// vehicle.
pub proof fn law_vehicle_blocks_direct_voice_only(st: PlayerStateView, vehicle: Seq<char>)
    requires
        vehicle.len() > 0,
    ensures
        ({
            let inside = summary_of(PlayerStateView { vehicle: vehicle, ..st });
            let on_foot = summary_of(PlayerStateView { vehicle: Seq::empty(), ..st });
            &&& inside.in_vehicle
            &&& !inside.transmitting_local
            &&& inside.transmitting_radio == on_foot.transmitting_radio
            &&& inside.radio_type == on_foot.radio_type
            &&& inside.radio_freq == on_foot.radio_freq
            &&& inside.radio_channel == on_foot.radio_channel
            &&& inside.radio_range_bits == on_foot.radio_range_bits
        }),
{
}

/// A stored state reads back as written, and storing one player's state
/// leaves every other player's state as it was.
pub proof fn law_store_read_after_write(m: Map<Seq<char>, PlayerStateView>, st: PlayerStateView, other: Seq<char>)
    requires
        other != st.player_id,
    ensures
        m.insert(st.player_id, st).contains_key(st.player_id),
        m.insert(st.player_id, st)[st.player_id] == st,
        m.insert(st.player_id, st).contains_key(other) == m.contains_key(other),
        m.contains_key(other) ==> m.insert(st.player_id, st)[other] == m[other],
{
}

/// Forgetting a player that was just stored for the first time gives back
/// the store as it was.
pub proof fn law_forget_undoes_first_update(m: Map<Seq<char>, PlayerStateView>, st: PlayerStateView)
    requires
        !m.contains_key(st.player_id),
    ensures
        m.insert(st.player_id, st).remove(st.player_id) == m,
{
    assert(m.insert(st.player_id, st).remove(st.player_id) =~= m);
}

/// Evicting stale players never evicts the player with the newest tick.
pub proof fn law_evict_keeps_newest(m: Map<Seq<char>, PlayerStateView>, t: u64, max_age: u64, k: Seq<char>)
    requires
        is_newest(m, t),
        m.contains_key(k),
        m[k].tick == t,
    ensures
        recent(m, t, max_age).contains_key(k),
        recent(m, t, max_age)[k] == m[k],
{
}

proof fn lemma_summaries_ids(ps: Seq<PlayerStateView>)
    ensures
        summaries(ps).len() == ps.len(),
        forall|i: int| 0 <= i < ps.len() ==> (#[trigger] summaries(ps)[i]).player_id == ps[i].player_id
            && summaries(ps)[i] == summary_of(ps[i]),
{
}

/// The message built from a store holds, for every stored player, that
/// player's summary, found by its id; and it lists nobody else.
pub proof fn law_message_lists_every_stored_player(store: PlayerStore, local_id: Seq<char>, id: Seq<char>)
    requires
        store.wf(),
    ensures
        store@.contains_key(id) ==> find_summary(message_of(store, local_id).players, id) == Some(summary_of(store@[id])),
        !store@.contains_key(id) ==> find_summary(message_of(store, local_id).players, id) is None,
{
    store.lemma_entries();
    let es = store.entries();
    let ps = message_of(store, local_id).players;
    assert(ps == summaries(es));
    lemma_summaries_ids(es);
    lemma_map_of(es);
    lemma_first_index_of(ps, id);
    match first_index_of(ps, id) {
        Some(i) => {
            assert(ps[i].player_id == es[i].player_id);
            assert(store@.contains_key(id));
            assert(store@[id] == es[i]);
        },
        None => {
            if store@.contains_key(id) {
                let j = choose|j: int| 0 <= j < es.len() && #[trigger] es[j].player_id == id;
                assert(ps[j].player_id == id);
            }
        },
    }
}

/// A speaker on the radio is heard only on the listener's tuned frequency,
/// channel and code for that radio, and only within reach; what is heard is
/// routed to the listener's ears for that radio.
pub proof fn law_radio_heard_only_on_tuned_net(local: PlayerSummaryView, sender: PlayerSummaryView, beyond_radio: bool, beyond_local: bool)
    requires
        sender.transmitting_radio,
    ensures
        ({
            let lr = sender.radio_type == "lr"@;
            let heard = {
                &&& sender.radio_freq.len() > 0
                &&& sender.radio_freq == if lr { local.tuned_lr_freq } else { local.tuned_sr_freq }
                &&& sender.radio_channel == if lr { local.tuned_lr_channel } else { local.tuned_sr_channel }
                &&& sender.radio_code == if lr { local.tuned_lr_code } else { local.tuned_sr_code }
                &&& !beyond_radio
            };
            &&& verdict(local, sender, beyond_radio, beyond_local).spec_passes() <==> heard
            &&& heard ==> verdict(local, sender, beyond_radio, beyond_local) == (AudioDecision::RadioEffect {
                stereo: if lr { local.tuned_lr_stereo } else { local.tuned_sr_stereo },
            })
        }),
{
}

/// A radio transmission on the listener's frequency and channel but with
/// another code is muted.
pub proof fn law_radio_code_mismatch_mutes(local: PlayerSummaryView, sender: PlayerSummaryView, beyond_radio: bool, beyond_local: bool)
    requires
        sender.transmitting_radio,
        sender.radio_freq.len() > 0,
        sender.radio_type == "lr"@ ==> sender.radio_freq == local.tuned_lr_freq && sender.radio_channel
            == local.tuned_lr_channel && sender.radio_code != local.tuned_lr_code,
        sender.radio_type != "lr"@ ==> sender.radio_freq == local.tuned_sr_freq && sender.radio_channel
            == local.tuned_sr_channel && sender.radio_code != local.tuned_sr_code,
    ensures
        verdict(local, sender, beyond_radio, beyond_local) == AudioDecision::MuteRadioCode,
        !verdict(local, sender, beyond_radio, beyond_local).spec_passes(),
{
}

/// Direct-voice PTT inside a vehicle is heard exactly when both players
/// have the intercom on, are in the same vehicle and on the same intercom
/// channel; it is then heard as it is, whatever the distance.
pub proof fn law_intercom_heard_exactly_in_same_vehicle(local: PlayerSummaryView, sender: PlayerSummaryView, beyond_radio: bool, beyond_local: bool)
    requires
        !sender.transmitting_radio,
        sender.ptt_local_raw,
        sender.in_vehicle,
    ensures
        verdict(local, sender, beyond_radio, beyond_local).spec_passes() <==> {
            &&& local.in_vehicle
            &&& sender.intercom_enabled
            &&& local.intercom_enabled
            &&& sender.intercom_vehicle_id.len() > 0
            &&& sender.intercom_vehicle_id == local.intercom_vehicle_id
            &&& sender.intercom_channel == local.intercom_channel
        },
        verdict(local, sender, beyond_radio, beyond_local).spec_passes() ==> verdict(local, sender, beyond_radio, beyond_local) == AudioDecision::Intercom,
{
}

/// A known speaker who holds neither a radio PTT nor the direct-voice PTT
/// (on foot or on the intercom) is never heard.
pub proof fn law_silent_sender_is_muted(local: PlayerSummaryView, sender: PlayerSummaryView, beyond_radio: bool, beyond_local: bool)
    requires
        !sender.transmitting_radio,
        !sender.transmitting_local,
        !sender.ptt_local_raw,
    ensures
        !verdict(local, sender, beyond_radio, beyond_local).spec_passes(),
{
}

/// Before the first radio state message arrives, every frame is played as
/// it is.
pub proof fn law_no_message_passes_everything(s: PluginStateView, mumble_id: u32, beyond_radio: bool, beyond_local: bool)
    requires
        s.last is None,
    ensures
        decision_of(s, mumble_id, beyond_radio, beyond_local) == AudioDecision::PassNoState,
        decision_of(s, mumble_id, beyond_radio, beyond_local).spec_passes(),
{
}

/// A local player who is dead or unconscious hears no known player.
pub proof fn law_silenced_listener_hears_nobody(s: PluginStateView, mumble_id: u32, beyond_radio: bool, beyond_local: bool)
    requires
        s.last matches Some(m) && (find_summary(m.players, m.local_player) matches Some(l) && !(l.alive
            && l.conscious)),
        s.sessions.contains_key(mumble_id),
        find_summary(s.last->0.players, s.sessions[mumble_id]) is Some,
    ensures
        decision_of(s, mumble_id, beyond_radio, beyond_local) == AudioDecision::MuteLocalSilenced,
        !decision_of(s, mumble_id, beyond_radio, beyond_local).spec_passes(),
{
}

/// Audio from a session that belongs to no player in the latest message is
/// played as it is.
pub proof fn law_unknown_speaker_passes(s: PluginStateView, mumble_id: u32, beyond_radio: bool, beyond_local: bool)
    requires
        s.last matches Some(m) && find_summary(m.players, m.local_player) is Some,
        !s.sessions.contains_key(mumble_id) || find_summary(s.last->0.players, s.sessions[mumble_id]) is None,
    ensures
        decision_of(s, mumble_id, beyond_radio, beyond_local) == AudioDecision::PassUnknownUser,
        decision_of(s, mumble_id, beyond_radio, beyond_local).spec_passes(),
{
}

/// Nobody hears a dead or unconscious player on the radio, and a dead or
/// unconscious player hears nobody on it, whatever the distance.
pub proof fn law_radio_needs_living_parties(tx: PlayerStateView, rx: PlayerStateView, within_sr_range: bool, within_lr_range: bool)
    requires
        !tx.alive || !tx.conscious || !rx.alive || !rx.conscious,
    ensures
        !hears_radio(tx, rx, within_sr_range, within_lr_range),
{
}

/// A long-range transmission is described by the long-range radio alone:
/// its frequency, channel and reach (20 km unless overridden), whatever the
/// short-range radio is tuned to.
pub proof fn law_lr_transmission_uses_lr_radio(st: PlayerStateView)
    requires
        st.transmitting_lr(),
        !st.transmitting_sr(),
    ensures
        summary_of(st).transmitting_radio,
        summary_of(st).radio_type == "lr"@,
        summary_of(st).radio_freq == st.radio_lr->0.freq,
        summary_of(st).radio_channel == st.radio_lr->0.channel,
        summary_of(st).radio_range_bits == reach(st.radio_lr->0, RADIO_LR_RANGE_BITS),
{
}

/// Every decimal field of an accepted `v1` payload is a number that
/// `f32::from_str` reads: position, heading, line of sight and any range
/// override.
pub proof fn law_accepted_payload_decimals_read(fs: Seq<Seq<char>>)
    requires
        v1_error(fs) is None,
    ensures
        float_syntax(v1_payload(fs).x_text),
        float_syntax(v1_payload(fs).y_text),
        float_syntax(v1_payload(fs).z_text),
        float_syntax(v1_payload(fs).dir_text),
        v1_payload(fs).los_text matches Some(t) ==> float_syntax(t),
        v1_payload(fs).radio_sr.range_text matches Some(t) ==> float_syntax(t),
        v1_payload(fs).radio_lr matches Some(r) ==> (r.range_text matches Some(t) ==> float_syntax(t)),
{
}

/// Every message the extension builds carries this protocol's version and
/// the type `radio_state`, and names the local player it was built for.
pub proof fn law_message_is_radio_state(store: PlayerStore, local_id: Seq<char>)
    ensures
        message_of(store, local_id).v == PROTOCOL_VERSION,
        message_of(store, local_id).msg_type == "radio_state"@,
        message_of(store, local_id).local_player == local_id,
{
}

/// An 18-field payload has no line-of-sight field (the reader uses 1.0)
/// and no range overrides (the protocol defaults apply).
pub proof fn law_short_payload_has_no_overrides(fs: Seq<Seq<char>>)
    requires
        v1_error(fs) is None,
        fs.len() == 18,
    ensures
        v1_payload(fs).los_text is None,
        v1_payload(fs).radio_sr.range_text is None,
        v1_payload(fs).radio_lr matches Some(r) ==> r.range_text is None,
{
}

/// Forgetting a Mumble session that was just registered for the first
/// time gives back the session map as it was.
pub proof fn law_unregister_undoes_register(sessions: Map<u32, Seq<char>>, id: u32, name: Seq<char>)
    requires
        !sessions.contains_key(id),
    ensures
        sessions.insert(id, name).remove(id) == sessions,
{
    assert(sessions.insert(id, name).remove(id) =~= sessions);
}

/// `f` holds no backslash.
pub open spec fn no_backslash(f: Seq<char>) -> bool {
    forall|i: int| 0 <= i < f.len() ==> f[i] != '\\'
}

proof fn lemma_unescaped_plain(f: Seq<char>)
    requires
        no_backslash(f),
    ensures
        unescaped(f) == f,
    decreases f.len(),
{
    if f.len() > 0 {
        assert(no_backslash(f.skip(1))) by {
            assert forall|i: int| 0 <= i < f.skip(1).len() implies f.skip(1)[i] != '\\' by {
                assert(f.skip(1)[i] == f[i + 1]);
            }
        }
        lemma_unescaped_plain(f.skip(1));
        assert(f =~= seq![f[0]] + f.skip(1));
    }
}

/// The fields of an 18-field `v1` line with the given player id, server id,
/// vehicle and radio frequencies, every number 0 or 1.
pub open spec fn line_fields(id: Seq<char>, srv: Seq<char>, veh: Seq<char>, sr_freq: Seq<char>, lr_freq: Seq<char>) -> Seq<Seq<char>> {
    seq![
        "v1"@, id, srv, "0"@, "0"@, "0"@, "0"@, "0"@, "1"@, "1"@, veh, "0"@, "0"@, "0"@, sr_freq,
        "1"@, lr_freq, "1"@,
    ]
}

/// Parsing a line built by escaping its fields (a backslash before each
/// `|`) and joining them with `|` gives back the player id, server id,
/// vehicle and frequencies, for fields that hold no backslash; an empty
/// long-range frequency means no long-range radio.
pub proof fn law_parse_gives_back_escaped_fields(id: Seq<char>, srv: Seq<char>, veh: Seq<char>, sr_freq: Seq<char>, lr_freq: Seq<char>)
    requires
        no_backslash(id),
        no_backslash(srv),
        no_backslash(veh),
        no_backslash(sr_freq),
        no_backslash(lr_freq),
    ensures
        v1_parsed(split_fields(joined(line_fields(id, srv, veh, sr_freq, lr_freq)))) matches Ok(p) && {
            &&& p.player_id == id
            &&& p.server_id == srv
            &&& p.vehicle == veh
            &&& p.radio_sr.freq == sr_freq
            &&& (lr_freq.len() > 0 ==> (p.radio_lr matches Some(r) && r.freq == lr_freq))
            &&& (lr_freq.len() == 0 ==> p.radio_lr is None)
        },
{
    let fs = line_fields(id, srv, veh, sr_freq, lr_freq);
    law_split_inverts_join(fs);
    reveal_strlit("0");
    reveal_strlit("1");
    reveal_with_fuel(decimal_value, 2);
    reveal_with_fuel(first_mark, 2);
    assert(fs.len() == 18);
    assert(float_syntax("0"@));
    assert(v1_error(fs) is None);
    lemma_unescaped_plain(id);
    lemma_unescaped_plain(srv);
    lemma_unescaped_plain(veh);
    lemma_unescaped_plain(sr_freq);
    lemma_unescaped_plain(lr_freq);
}

/// A speaker on foot holding the direct-voice PTT (and no radio PTT) is
/// heard with distance attenuation exactly when within direct-voice range,
/// and muted otherwise, whatever the listener's own situation (on foot or
/// in a vehicle, tuning, intercom).
pub proof fn law_direct_voice_heard_within_range(local: PlayerSummaryView, sender: PlayerSummaryView, beyond_radio: bool, beyond_local: bool)
    requires
        !sender.transmitting_radio,
        sender.transmitting_local,
        !sender.in_vehicle,
    ensures
        !beyond_local ==> verdict(local, sender, beyond_radio, beyond_local) == AudioDecision::LocalVoice,
        beyond_local ==> verdict(local, sender, beyond_radio, beyond_local) == AudioDecision::MuteLocalRange,
        forall|other: PlayerSummaryView|
            #[trigger] verdict(other, sender, beyond_radio, beyond_local) == verdict(local, sender, beyond_radio, beyond_local),
{
}

/// Where each field of an accepted `v1` payload ends up: ids, tick, flags
/// and frequencies from fields 1–17 (the long-range radio present exactly
/// when field 16 is not empty), then line of sight (18), range overrides
/// (19, 20), ears (21, 22, at most 2), codes (23 for the short-range radio,
/// 24 for the long-range one), intercom switch and channel (25, 26, at
/// least 1) and intercom vehicle (27), each only where the payload has that
/// many fields.
pub proof fn law_payload_field_positions(fs: Seq<Seq<char>>)
    requires
        v1_error(fs) is None,
    ensures
        ({
            let p = v1_payload(fs);
            let n = fs.len();
            &&& p.player_id == unescaped(fs[1])
            &&& p.server_id == unescaped(fs[2])
            &&& parsed_unsigned(fs[3], u64::MAX as nat) == Some(p.tick as nat)
            &&& p.x_text == fs[4] && p.y_text == fs[5] && p.z_text == fs[6] && p.dir_text == fs[7]
            &&& p.alive == (fs[8] == "1"@) && p.conscious == (fs[9] == "1"@)
            &&& p.vehicle == unescaped(fs[10])
            &&& p.ptt_local == (fs[11] == "1"@) && p.ptt_radio_sr == (fs[12] == "1"@)
                && p.ptt_radio_lr == (fs[13] == "1"@)
            &&& p.radio_sr.freq == unescaped(fs[14])
            &&& parsed_unsigned(fs[15], u8::MAX as nat) == Some(p.radio_sr.channel as nat)
            &&& (p.radio_lr is Some <==> unescaped(fs[16]).len() > 0)
            &&& (p.radio_lr matches Some(r) ==> r.freq == unescaped(fs[16]) && parsed_unsigned(
                fs[17],
                u8::MAX as nat,
            ) == Some(r.channel as nat))
            &&& (n == 18 ==> p.los_text is None) && (n > 18 ==> p.los_text == Some(fs[18]))
            &&& (n >= 21 && !(fs[19].len() == 0 || fs[19] == "0"@) ==> p.radio_sr.range_text == Some(
                fs[19],
            ))
            &&& (n < 21 || fs[19].len() == 0 || fs[19] == "0"@ ==> p.radio_sr.range_text is None)
            &&& (n >= 23 ==> p.radio_sr.stereo as nat == (if parsed_unsigned(fs[21], u8::MAX as nat)->0 > 2 { 2 } else { parsed_unsigned(fs[21], u8::MAX as nat)->0 }))
            &&& (n < 23 ==> p.radio_sr.stereo == 0)
            &&& (n >= 25 ==> p.radio_sr.code == unescaped(fs[23]))
            &&& (n < 25 ==> p.radio_sr.code.len() == 0)
            &&& (p.radio_lr matches Some(r) ==> {
                &&& (n >= 21 && !(fs[20].len() == 0 || fs[20] == "0"@) ==> r.range_text == Some(fs[20]))
                &&& (n < 21 || fs[20].len() == 0 || fs[20] == "0"@ ==> r.range_text is None)
                &&& (n >= 23 ==> r.stereo as nat == (if parsed_unsigned(fs[22], u8::MAX as nat)->0 > 2 { 2 } else { parsed_unsigned(fs[22], u8::MAX as nat)->0 }))
                &&& (n < 23 ==> r.stereo == 0)
                &&& (n >= 25 ==> r.code == unescaped(fs[24]))
                &&& (n < 25 ==> r.code.len() == 0)
            })
            &&& (n >= 27 ==> p.intercom_enabled == (fs[25] == "1"@) && p.intercom_channel as nat
                == (if parsed_unsigned(fs[26], u8::MAX as nat)->0 < 1 { 1 } else { parsed_unsigned(fs[26], u8::MAX as nat)->0 }))
            &&& (n < 27 ==> p.intercom_enabled && p.intercom_channel == 1)
            &&& (n >= 28 ==> p.intercom_vehicle_id == unescaped(fs[27]))
            &&& (n < 28 ==> p.intercom_vehicle_id.len() == 0)
        }),
{
}

/// A short-range transmission is described by the short-range radio: its
/// frequency, channel, code and reach (5 km unless overridden); it wins
/// over a long-range transmission at the same time.
pub proof fn law_sr_transmission_uses_sr_radio(st: PlayerStateView)
    requires
        st.transmitting_sr(),
    ensures
        summary_of(st).transmitting_radio,
        summary_of(st).radio_type == "sr"@,
        summary_of(st).radio_freq == st.radio_sr->0.freq,
        summary_of(st).radio_channel == st.radio_sr->0.channel,
        summary_of(st).radio_code == st.radio_sr->0.code,
        summary_of(st).radio_range_bits == reach(st.radio_sr->0, RADIO_SR_RANGE_BITS),
        summary_of(st).tuned_sr_freq == st.radio_sr->0.freq,
        summary_of(st).tuned_sr_channel == st.radio_sr->0.channel,
{
}

/// A player hears another on the radio exactly when both are alive and
/// conscious and either the transmitter speaks on the short-range radio
/// and both short-range radios share frequency and channel, within
/// short-range reach; or, failing such a short-range match, the
/// transmitter speaks on the long-range radio and both long-range radios
/// share frequency and channel, within long-range reach.
pub proof fn law_radio_hearing_needs_same_frequency_and_channel(tx: PlayerStateView, rx: PlayerStateView, within_sr_range: bool, within_lr_range: bool)
    ensures
        ({
            let alive = tx.alive && rx.alive && tx.conscious && rx.conscious;
            let sr_match = tx.transmitting_sr() && rx.radio_sr is Some && tx.radio_sr->0.freq
                == rx.radio_sr->0.freq && tx.radio_sr->0.channel == rx.radio_sr->0.channel;
            let lr_match = tx.transmitting_lr() && tx.radio_lr is Some && rx.radio_lr is Some
                && tx.radio_lr->0.freq == rx.radio_lr->0.freq && tx.radio_lr->0.channel
                == rx.radio_lr->0.channel;
            hears_radio(tx, rx, within_sr_range, within_lr_range) <==> alive && ((sr_match
                && within_sr_range) || (!sr_match && lr_match && within_lr_range))
        }),
{
}

/// The extension's calls: `init`, `send` and `forget` with at least one
/// argument, and `version` with any; everything else is unknown.
pub proof fn law_command_classification(func: Seq<char>, arg_count: i32)
    ensures
        func == "init"@ && arg_count >= 1 ==> command_of(func, arg_count) == ExtCommand::Init,
        func == "send"@ && arg_count >= 1 ==> command_of(func, arg_count) == ExtCommand::Send,
        func == "forget"@ && arg_count >= 1 ==> command_of(func, arg_count) == ExtCommand::Forget,
        func == "version"@ ==> command_of(func, arg_count) == ExtCommand::Version,
        func != "init"@ && func != "send"@ && func != "forget"@ && func != "version"@ ==> command_of(
            func,
            arg_count,
        ) == ExtCommand::Unknown,
        arg_count < 1 && func != "version"@ ==> command_of(func, arg_count) == ExtCommand::Unknown,
{
    reveal_strlit("init");
    reveal_strlit("send");
    reveal_strlit("forget");
    reveal_strlit("version");
    assert("send"@ != "init"@) by {
        assert("send"@[0] != "init"@[0]);
    }
    assert("forget"@ != "init"@) by {
        assert("forget"@.len() != "init"@.len());
    }
    assert("forget"@ != "send"@) by {
        assert("forget"@.len() != "send"@.len());
    }
    assert("version"@ != "init"@ && "version"@ != "send"@ && "version"@ != "forget"@) by {
        assert("version"@.len() != "init"@.len());
        assert("version"@.len() != "send"@.len());
        assert("version"@[0] != "forget"@[0]);
    }
}

} // verus!
