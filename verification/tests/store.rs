use rmtfar::protocol::{PlayerState, UNIT_BITS};
use rmtfar::store::PlayerStore;

fn make(id: &str, tick: u64) -> PlayerState {
    PlayerState {
        v: 1,
        msg_type: "player_state".into(),
        player_id: id.to_string(),
        server_id: "srv".into(),
        tick,
        pos_bits: [0; 3],
        dir_bits: 0,
        alive: true,
        conscious: true,
        vehicle: String::new(),
        ptt_local: false,
        ptt_radio_sr: false,
        ptt_radio_lr: false,
        radio_sr: None,
        radio_lr: None,
        radio_los_bits: UNIT_BITS,
        intercom_enabled: false,
        intercom_channel: 1,
        intercom_vehicle_id: String::new(),
    }
}

#[test]
fn update_and_retrieve() {
    let mut store = PlayerStore::new();
    store.update(make("A", 1));
    assert!(store.get("A").is_some());
    assert!(store.get("B").is_none());
}

#[test]
fn evict_stale() {
    let mut store = PlayerStore::new();
    store.update(make("A", 100));
    store.update(make("B", 10));
    store.evict_stale(50);
    assert!(store.get("A").is_some());
    assert!(store.get("B").is_none());
}

#[test]
fn update_replaces_the_same_player() {
    let mut store = PlayerStore::new();
    store.update(make("A", 1));
    store.update(make("A", 2));
    assert_eq!(store.all().len(), 1);
    assert_eq!(store.get("A").unwrap().tick, 2);
}

#[test]
fn remove_forgets_only_that_player() {
    let mut store = PlayerStore::new();
    store.update(make("A", 1));
    store.update(make("B", 2));
    assert!(store.remove("A"));
    assert!(!store.remove("A"));
    assert!(store.get("A").is_none());
    assert_eq!(store.get("B").unwrap().tick, 2);
}

#[test]
fn evict_keeps_age_equal_to_limit() {
    let mut store = PlayerStore::new();
    store.update(make("A", 100));
    store.update(make("B", 50));
    store.update(make("C", 49));
    store.evict_stale(50);
    assert!(store.get("A").is_some());
    assert!(store.get("B").is_some());
    assert!(store.get("C").is_none());
    assert_eq!(store.all().len(), 2);
}

#[test]
fn evict_on_empty_store_does_nothing() {
    let mut store = PlayerStore::new();
    store.evict_stale(0);
    assert!(store.all().is_empty());
}

#[test]
fn store_read_after_write_scenario() {
    let mut store = PlayerStore::new();
    store.update(make("A", 5));
    store.update(make("B", 6));
    store.update(make("A", 9));
    assert_eq!(store.get("A").unwrap().tick, 9);
    assert_eq!(store.get("B").unwrap().tick, 6);
}

#[test]
fn forget_after_first_update_restores_store() {
    let mut store = PlayerStore::new();
    store.update(make("A", 5));
    store.update(make("B", 6));
    store.remove("B");
    assert_eq!(store.all().len(), 1);
    assert!(store.get("B").is_none());
    assert_eq!(store.get("A").unwrap().tick, 5);
}
