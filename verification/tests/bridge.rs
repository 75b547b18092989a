use rmtfar::bridge::bridge_receive;
use rmtfar::protocol::{PlayerState, ProtocolError, RadioConfig, PROTOCOL_VERSION, UNIT_BITS};
use rmtfar::store::PlayerStore;

fn radio(freq: &str, channel: u8) -> RadioConfig {
    RadioConfig {
        freq: freq.into(),
        channel,
        volume_bits: UNIT_BITS,
        enabled: true,
        range_bits: None,
        stereo: 0,
        code: String::new(),
    }
}

fn make_state(id: &str, pos: [f32; 3], ptt_sr: bool) -> PlayerState {
    PlayerState {
        v: PROTOCOL_VERSION,
        msg_type: "player_state".into(),
        player_id: id.into(),
        server_id: "test-server:2302".into(),
        tick: 42,
        pos_bits: [pos[0].to_bits(), pos[1].to_bits(), pos[2].to_bits()],
        dir_bits: 90.0f32.to_bits(),
        alive: true,
        conscious: true,
        vehicle: String::new(),
        ptt_local: false,
        ptt_radio_sr: ptt_sr,
        ptt_radio_lr: false,
        radio_sr: Some(radio("43.0", 1)),
        radio_lr: None,
        radio_los_bits: UNIT_BITS,
        intercom_enabled: true,
        intercom_channel: 1,
        intercom_vehicle_id: String::new(),
    }
}

#[test]
fn bridge_echoes_radio_state_message() {
    let mut store = PlayerStore::new();
    let msg = bridge_receive(&mut store, make_state("p1", [0.0; 3], true), Some("p1")).unwrap();
    assert_eq!(msg.local_player, "p1");
    assert_eq!(msg.players.len(), 1);
    let player = &msg.players[0];
    assert_eq!(player.player_id, "p1");
    assert!(player.transmitting_radio, "SR PTT should be active");
    assert_eq!(player.radio_type, "sr");
    assert_eq!(player.radio_freq, "43.0");
    assert_eq!(player.radio_channel, 1);
}

#[test]
fn bridge_tracks_multiple_players() {
    let mut store = PlayerStore::new();
    bridge_receive(&mut store, make_state("p1", [0.0; 3], true), Some("p1")).unwrap();
    let msg = bridge_receive(&mut store, make_state("p2", [100.0, 0.0, 0.0], false), Some("p1")).unwrap();
    assert!(msg.players.len() >= 2, "expected >=2 players, got {}", msg.players.len());
    let p2 = msg.players.iter().find(|p| p.player_id == "p2").unwrap();
    assert!(!p2.transmitting_radio, "p2 is not pressing PTT");
    assert_eq!(p2.tuned_sr_freq, "43.0");
    assert_eq!(msg.local_player, "p1");
}

#[test]
fn bridge_reflects_dead_player() {
    let mut store = PlayerStore::new();
    let mut state = make_state("p1", [0.0; 3], true);
    state.alive = false;
    state.ptt_radio_sr = true;
    let msg = bridge_receive(&mut store, state, Some("p1")).unwrap();
    let player = msg.players.iter().find(|p| p.player_id == "p1").unwrap();
    assert!(!player.alive);
    assert!(!player.transmitting_radio, "dead player must not transmit");
}

#[test]
fn bridge_vehicle_blocks_local_ptt() {
    let mut store = PlayerStore::new();
    let mut state = make_state("p1", [0.0; 3], false);
    state.ptt_local = true;
    state.vehicle = "B_MRAP_01_F".into();
    let msg = bridge_receive(&mut store, state, Some("p1")).unwrap();
    let player = msg.players.iter().find(|p| p.player_id == "p1").unwrap();
    assert!(player.in_vehicle);
    assert!(!player.transmitting_local, "local PTT must be blocked by vehicle");
}

#[test]
fn bridge_lr_radio_state() {
    let mut store = PlayerStore::new();
    let mut state = make_state("p1", [0.0; 3], false);
    state.ptt_radio_lr = true;
    state.radio_lr = Some(radio("30.0", 2));
    let msg = bridge_receive(&mut store, state, Some("p1")).unwrap();
    let player = msg.players.iter().find(|p| p.player_id == "p1").unwrap();
    assert!(player.transmitting_radio);
    assert_eq!(player.radio_type, "lr");
    assert_eq!(player.radio_freq, "30.0");
    assert_eq!(player.radio_channel, 2);
    let range = f32::from_bits(player.radio_range_bits);
    assert!(range > 15_000.0, "LR default range should be ~20km, got {}", range);
}

#[test]
fn bridge_without_configured_local_uses_sender() {
    let mut store = PlayerStore::new();
    bridge_receive(&mut store, make_state("p1", [0.0; 3], false), None).unwrap();
    let msg = bridge_receive(&mut store, make_state("p2", [0.0; 3], false), None).unwrap();
    assert_eq!(msg.local_player, "p2");
    assert_eq!(msg.server_id, "test-server:2302");
    assert_eq!(msg.tick, 42);
}

#[test]
fn bridge_refuses_other_versions() {
    let mut store = PlayerStore::new();
    let mut state = make_state("p1", [0.0; 3], false);
    state.v = 9;
    assert!(matches!(bridge_receive(&mut store, state, None), Err(ProtocolError::WrongVersion(9))));
    assert!(store.get("p1").is_none());
}
