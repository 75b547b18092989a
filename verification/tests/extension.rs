use rmtfar::extension::{
    build_message, classify_command, command_status, handle_forget_arg, handle_init, output_len,
    simple_reply,
    ExtCommand, ExtensionCore, SimpleReply,
};
use rmtfar::payload::{parse_player_state, PayloadError, V1Payload};
use rmtfar::protocol::{PlayerState, V1Numbers, PROTOCOL_VERSION};
use rmtfar::store::PlayerStore;

fn num(t: &str) -> f32 {
    t.parse::<f32>().unwrap()
}

/// Reads the decimal fields of a payload as the extension does.
fn numbers(p: &V1Payload) -> V1Numbers {
    let range = |t: &Option<String>| t.as_deref().map(num).filter(|v| *v > 0.0).map(f32::to_bits);
    V1Numbers {
        pos_bits: [num(&p.x_text).to_bits(), num(&p.y_text).to_bits(), num(&p.z_text).to_bits()],
        dir_bits: num(&p.dir_text).to_bits(),
        los_bits: p.los_text.as_deref().map_or(1.0, |t| num(t).clamp(0.0, 1.0)).to_bits(),
        sr_range_bits: range(&p.radio_sr.range_text),
        lr_range_bits: p.radio_lr.as_ref().and_then(|r| range(&r.range_text)),
    }
}

fn state_of(payload: &str) -> PlayerState {
    let p = parse_player_state(payload.as_bytes()).unwrap();
    let n = numbers(&p);
    PlayerState::from_v1(p, n)
}

#[test]
fn init_names_the_local_player() {
    let mut core = ExtensionCore::new();
    assert!(handle_init(&mut core, "\"Jugador1\"").is_ok());
    assert_eq!(core.local_id.as_deref(), Some("Jugador1"));
    assert!(handle_init(&mut core, "[\"Jugador2\"]").is_ok());
    assert_eq!(core.local_id.as_deref(), Some("Jugador2"));
}

#[test]
fn init_with_empty_name_fails_and_keeps_old() {
    let mut core = ExtensionCore::new();
    handle_init(&mut core, "Jugador1").unwrap();
    assert!(matches!(handle_init(&mut core, "  \t "), Err(PayloadError::EmptyArgument)));
    assert!(matches!(handle_init(&mut core, "[\"a\",\"b\"]"), Err(PayloadError::ArrayWrapperLength)));
    assert_eq!(core.local_id.as_deref(), Some("Jugador1"));
}

#[test]
fn send_stores_state_and_reports_local() {
    let mut core = ExtensionCore::new();
    handle_init(&mut core, "id").unwrap();
    let st = state_of("v1|id|srv|77|1.5|2|3|90|1|1||0|1|0|43.0|1||1");
    assert_eq!(st.v, PROTOCOL_VERSION);
    assert_eq!(st.msg_type, "player_state");
    assert_eq!(f32::from_bits(st.pos_bits[0]), 1.5);
    let msg = core.handle_state(st).unwrap();
    assert_eq!(msg.msg_type, "radio_state");
    assert_eq!(msg.server_id, "srv");
    assert_eq!(msg.tick, 77);
    assert_eq!(msg.local_player, "id");
    let local = msg.local().unwrap();
    assert!(local.transmitting_radio);
    assert_eq!(local.radio_type, "sr");
    assert_eq!(local.radio_freq, "43.0");
}

#[test]
fn send_of_wrong_version_is_refused() {
    let mut core = ExtensionCore::new();
    let mut st = state_of("v1|id|srv|77|0|0|0|0|1|1||0|0|0|43.0|1||1");
    st.v = 2;
    assert!(matches!(core.handle_state(st), Err(PayloadError::WrongVersion(2))));
    assert!(core.store.get("id").is_none());
}

#[test]
fn message_before_init_has_empty_local() {
    let mut core = ExtensionCore::new();
    let msg = core.handle_state(state_of("v1|a|srv|5|0|0|0|0|1|1||0|0|0|43.0|1||1")).unwrap();
    assert_eq!(msg.local_player, "");
    assert_eq!(msg.server_id, "");
    assert_eq!(msg.tick, 0);
    assert_eq!(msg.players.len(), 1);
}

#[test]
fn forget_drops_the_player_from_the_message() {
    let mut core = ExtensionCore::new();
    handle_init(&mut core, "a").unwrap();
    core.handle_state(state_of("v1|a|srv|5|0|0|0|0|1|1||0|0|0|43.0|1||1")).unwrap();
    core.handle_state(state_of("v1|b|srv|6|0|0|0|0|1|1||0|0|0|43.0|1||1")).unwrap();
    let msg = core.handle_forget("b");
    assert_eq!(msg.players.len(), 1);
    assert!(msg.find_player("b").is_none());
    assert!(msg.find_player("a").is_some());
}

#[test]
fn message_lists_every_stored_player() {
    let mut store = PlayerStore::new();
    store.update(state_of("v1|a|srv|5|0|0|0|0|1|1||0|0|0|43.0|1||1"));
    store.update(state_of("v1|b|srv2|6|0|0|0|0|0|1||1|1|0|43.0|1||1"));
    let msg = build_message(&store, "b");
    assert_eq!(msg.players.len(), 2);
    assert_eq!(msg.server_id, "srv2");
    assert_eq!(msg.tick, 6);
    let b = msg.find_player("b").unwrap();
    assert!(!b.alive);
    assert!(!b.transmitting_radio);
    assert!(!b.transmitting_local);
    assert!(msg.find_player("a").is_some());
}

#[test]
fn vehicle_blocks_local_ptt_end_to_end() {
    let mut core = ExtensionCore::new();
    handle_init(&mut core, "id").unwrap();
    let msg = core.handle_state(state_of("v1|id|srv|0|0|0|0|0|1|1|B_MRAP_01_F|1|0|0|43.0|1||1")).unwrap();
    let s = msg.local().unwrap();
    assert!(s.in_vehicle);
    assert!(!s.transmitting_local);
}

#[test]
fn lr_default_range_end_to_end() {
    let mut core = ExtensionCore::new();
    handle_init(&mut core, "id").unwrap();
    let msg = core.handle_state(state_of("v1|id|srv|0|0|0|0|0|1|1||0|0|1|43.0|1|30.0|2|1")).unwrap();
    let s = msg.local().unwrap();
    assert_eq!(s.radio_type, "lr");
    assert_eq!(s.radio_freq, "30.0");
    assert_eq!(s.radio_channel, 2);
    assert!((f32::from_bits(s.radio_range_bits) - 20000.0).abs() < 1.0);
}

#[test]
fn commands_are_classified() {
    assert_eq!(classify_command("init", 1), ExtCommand::Init);
    assert_eq!(classify_command("init", 0), ExtCommand::Unknown);
    assert_eq!(classify_command("send", 2), ExtCommand::Send);
    assert_eq!(classify_command("forget", 1), ExtCommand::Forget);
    assert_eq!(classify_command("version", 0), ExtCommand::Version);
    assert_eq!(classify_command("bogus", 3), ExtCommand::Unknown);
}

#[test]
fn command_status_codes() {
    assert_eq!(command_status(ExtCommand::Send, true), 0);
    assert_eq!(command_status(ExtCommand::Send, false), -1);
    assert_eq!(command_status(ExtCommand::Init, false), -1);
    assert_eq!(command_status(ExtCommand::Version, false), 0);
    assert_eq!(command_status(ExtCommand::Unknown, true), -2);
}

#[test]
fn simple_replies() {
    assert_eq!(simple_reply("version"), SimpleReply::Version);
    assert_eq!(simple_reply("ping"), SimpleReply::Pong);
    assert_eq!(simple_reply("other"), SimpleReply::Nothing);
}

#[test]
fn output_len_leaves_room_for_nul() {
    assert_eq!(output_len(0, 5), None);
    assert_eq!(output_len(-3, 5), None);
    assert_eq!(output_len(1, 5), Some(0));
    assert_eq!(output_len(10, 5), Some(5));
    assert_eq!(output_len(6, 5), Some(5));
    assert_eq!(output_len(5, 5), Some(4));
}

#[test]
fn forget_argument_is_trimmed() {
    let mut core = ExtensionCore::new();
    handle_init(&mut core, "a").unwrap();
    core.handle_state(state_of("v1|a|srv|5|0|0|0|0|1|1||0|0|0|43.0|1||1")).unwrap();
    core.handle_state(state_of("v1|b|srv|6|0|0|0|0|1|1||0|0|0|43.0|1||1")).unwrap();
    let msg = handle_forget_arg(&mut core, "  b\n");
    assert_eq!(msg.players.len(), 1);
    assert!(core.store.get("b").is_none());
    assert_eq!(msg.local_player, "a");
}
