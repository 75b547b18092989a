use rmtfar::protocol::{
    check_version, PlayerState, PlayerSummary, ProtocolError, RadioConfig, RadioStateMessage,
    LOCAL_VOICE_RANGE_BITS, RADIO_LR_RANGE_BITS, RADIO_SR_RANGE_BITS, UNIT_BITS, ZERO_BITS,
};

fn sample_state() -> PlayerState {
    PlayerState {
        v: 1,
        msg_type: "player_state".into(),
        player_id: "76561198000000000".into(),
        server_id: "192.168.1.100:2302".into(),
        tick: 1000,
        pos_bits: [100.0f32.to_bits(), 50.0f32.to_bits(), 10.0f32.to_bits()],
        dir_bits: 90.0f32.to_bits(),
        alive: true,
        conscious: true,
        vehicle: String::new(),
        ptt_local: false,
        ptt_radio_sr: false,
        ptt_radio_lr: false,
        radio_sr: Some(RadioConfig::default()),
        radio_lr: None,
        radio_los_bits: UNIT_BITS,
        intercom_enabled: false,
        intercom_channel: 1,
        intercom_vehicle_id: String::new(),
    }
}

fn lr_radio(freq: &str, channel: u8) -> RadioConfig {
    RadioConfig {
        freq: freq.into(),
        channel,
        volume_bits: UNIT_BITS,
        enabled: true,
        range_bits: None,
        stereo: 0,
        code: String::new(),
    }
}

#[test]
fn player_summary_sr_transmit() {
    let mut state = sample_state();
    state.ptt_radio_sr = true;
    let summary = PlayerSummary::from_state(&state);
    assert!(summary.transmitting_radio);
    assert_eq!(summary.radio_type, "sr");
    assert_eq!(summary.radio_freq, "152.000");
    assert!((f32::from_bits(summary.radio_range_bits) - 5000.0).abs() < f32::EPSILON);
}

#[test]
fn radio_state_message_find_local() {
    let state = sample_state();
    let summary = PlayerSummary::from_state(&state);
    let msg = RadioStateMessage::new(
        state.server_id.clone(),
        state.tick,
        state.player_id.clone(),
        vec![summary],
    );
    assert!(msg.local().is_some());
    assert_eq!(msg.local().unwrap().player_id, state.player_id);
}

#[test]
fn range_constants_are_the_documented_distances() {
    assert_eq!(f32::from_bits(LOCAL_VOICE_RANGE_BITS), 50.0);
    assert_eq!(f32::from_bits(RADIO_SR_RANGE_BITS), 5_000.0);
    assert_eq!(f32::from_bits(RADIO_LR_RANGE_BITS), 20_000.0);
    assert_eq!(f32::from_bits(UNIT_BITS), 1.0);
    assert_eq!(f32::from_bits(ZERO_BITS), 0.0);
}

#[test]
fn radio_config_default_values() {
    let r = RadioConfig::default();
    assert_eq!(r.freq, "152.000");
    assert_eq!(r.channel, 1);
    assert_eq!(f32::from_bits(r.volume_bits), 1.0);
    assert!(r.enabled);
    assert!(r.range_bits.is_none());
    assert_eq!(r.stereo, 0);
    assert_eq!(r.code, "");
}

#[test]
fn check_version_accepts_only_one() {
    assert!(check_version(1).is_ok());
    assert!(matches!(check_version(2), Err(ProtocolError::WrongVersion(2))));
    assert!(matches!(check_version(0), Err(ProtocolError::WrongVersion(0))));
}

#[test]
fn summary_idle_player() {
    let state = sample_state();
    let s = PlayerSummary::from_state(&state);
    assert!(!s.transmitting_radio);
    assert!(!s.transmitting_local);
    assert_eq!(s.radio_type, "");
    assert_eq!(s.radio_freq, "");
    assert_eq!(s.radio_channel, 0);
    assert_eq!(s.radio_range_bits, ZERO_BITS);
    assert_eq!(s.tuned_sr_freq, "152.000");
    assert_eq!(s.tuned_sr_channel, 1);
    assert_eq!(s.tuned_lr_freq, "");
    assert_eq!(s.tuned_lr_channel, 1);
    assert!(!s.in_vehicle);
    assert_eq!(s.pos_bits, state.pos_bits);
}

#[test]
fn summary_lr_default_range_is_20km() {
    let mut state = sample_state();
    state.radio_lr = Some(lr_radio("30.0", 2));
    state.ptt_radio_lr = true;
    let s = PlayerSummary::from_state(&state);
    assert!(s.transmitting_radio);
    assert_eq!(s.radio_type, "lr");
    assert_eq!(s.radio_freq, "30.0");
    assert_eq!(s.radio_channel, 2);
    assert_eq!(f32::from_bits(s.radio_range_bits), 20_000.0);
    assert_eq!(s.tuned_lr_freq, "30.0");
    assert_eq!(s.tuned_lr_channel, 2);
}

#[test]
fn summary_sr_wins_over_lr() {
    let mut state = sample_state();
    state.radio_lr = Some(lr_radio("30.0", 2));
    state.ptt_radio_lr = true;
    state.ptt_radio_sr = true;
    let s = PlayerSummary::from_state(&state);
    assert_eq!(s.radio_type, "sr");
    assert_eq!(s.radio_freq, "152.000");
}

#[test]
fn summary_range_override_is_used() {
    let mut state = sample_state();
    state.radio_sr.as_mut().unwrap().range_bits = Some(3000.0f32.to_bits());
    state.ptt_radio_sr = true;
    let s = PlayerSummary::from_state(&state);
    assert_eq!(f32::from_bits(s.radio_range_bits), 3000.0);
}

#[test]
fn summary_vehicle_blocks_local_ptt() {
    let mut state = sample_state();
    state.vehicle = "B_MRAP_01_F".into();
    state.ptt_local = true;
    state.ptt_radio_sr = true;
    let s = PlayerSummary::from_state(&state);
    assert!(s.in_vehicle);
    assert!(!s.transmitting_local);
    assert!(s.transmitting_radio);
    assert_eq!(s.radio_type, "sr");
    assert_eq!(s.radio_freq, "152.000");
    state.vehicle = String::new();
    let s = PlayerSummary::from_state(&state);
    assert!(!s.in_vehicle);
    assert!(s.transmitting_local);
}

#[test]
fn summary_dead_player_does_not_transmit() {
    let mut state = sample_state();
    state.alive = false;
    state.ptt_local = true;
    state.ptt_radio_sr = true;
    let s = PlayerSummary::from_state(&state);
    assert!(!s.transmitting_local);
    assert!(!s.transmitting_radio);
    assert!(!state.is_transmitting_sr());
}

#[test]
fn disabled_radio_does_not_transmit() {
    let mut state = sample_state();
    state.radio_sr.as_mut().unwrap().enabled = false;
    state.ptt_radio_sr = true;
    assert!(!state.is_transmitting_sr());
    assert!(!PlayerSummary::from_state(&state).transmitting_radio);
}

#[test]
fn find_player_takes_the_first_match_and_misses_unknown() {
    let a = PlayerSummary::from_state(&sample_state());
    let mut other = sample_state();
    other.player_id = "B".into();
    let b = PlayerSummary::from_state(&other);
    let msg = RadioStateMessage::new("srv".into(), 7, "nobody".into(), vec![a, b]);
    assert_eq!(msg.v, 1);
    assert_eq!(msg.msg_type, "radio_state");
    assert_eq!(msg.find_player("B").unwrap().player_id, "B");
    assert!(msg.find_player("C").is_none());
    assert!(msg.local().is_none());
}

#[test]
fn summary_carries_codes_ears_and_intercom() {
    let mut state = sample_state();
    {
        let sr = state.radio_sr.as_mut().unwrap();
        sr.code = "ALFA".into();
        sr.stereo = 1;
    }
    let mut lr = lr_radio("30.0", 2);
    lr.code = "BRAVO".into();
    lr.stereo = 2;
    state.radio_lr = Some(lr);
    state.ptt_radio_sr = true;
    state.vehicle = "B_MRAP_01_F".into();
    state.ptt_local = true;
    state.intercom_enabled = true;
    state.intercom_channel = 3;
    state.intercom_vehicle_id = "2:15".into();
    let s = PlayerSummary::from_state(&state);
    assert_eq!(s.radio_code, "ALFA");
    assert_eq!(s.tuned_sr_code, "ALFA");
    assert_eq!(s.tuned_sr_stereo, 1);
    assert_eq!(s.tuned_lr_code, "BRAVO");
    assert_eq!(s.tuned_lr_stereo, 2);
    assert!(s.intercom_enabled);
    assert_eq!(s.intercom_channel, 3);
    assert_eq!(s.intercom_vehicle_id, "2:15");
    assert!(s.ptt_local_raw);
    assert!(!s.transmitting_local);
}

#[test]
fn summary_without_radios_has_no_codes() {
    let mut state = sample_state();
    state.radio_sr = None;
    let s = PlayerSummary::from_state(&state);
    assert_eq!(s.radio_code, "");
    assert_eq!(s.tuned_sr_code, "");
    assert_eq!(s.tuned_sr_stereo, 0);
    assert_eq!(s.tuned_lr_stereo, 0);
    assert!(!s.ptt_local_raw);
}
