use movement_node::{
    construction_steps, light_node_connection, prepare_store, Config, DaDB, LightNodeSettings,
    Subsystem, SyncStoreError, WireVariant, TRANSACTION_CHANNEL_CAPACITY,
};

#[test]
fn config_default_values() {
    let c = Config::default();
    assert_eq!(c.max_transactions_in_flight, Some(12000));
    assert_eq!(c.batch_production_time, 1000);
}

#[test]
fn initialize_twice_keeps_first() {
    let mut db = DaDB::new();
    db.initialize_synced_height(5);
    db.initialize_synced_height(9);
    assert_eq!(db.get_synced_height(), Some(5));
}

#[test]
fn initialize_keeps_stored_height() {
    let mut db = DaDB::from_stored(Some(40));
    db.initialize_synced_height(3);
    assert_eq!(db.get_synced_height(), Some(40));
}

#[test]
fn set_height_advances() {
    let mut db = DaDB::from_stored(Some(1));
    assert_eq!(db.set_synced_height(2), Ok(()));
    assert_eq!(db.get_synced_height(), Some(2));
}

#[test]
fn set_height_refuses_equal_or_lower() {
    let mut db = DaDB::from_stored(Some(5));
    assert_eq!(
        db.set_synced_height(5),
        Err(SyncStoreError::NotAdvancing { stored: 5, requested: 5 })
    );
    assert_eq!(
        db.set_synced_height(4),
        Err(SyncStoreError::NotAdvancing { stored: 5, requested: 4 })
    );
    assert_eq!(db.get_synced_height(), Some(5));
}

#[test]
fn set_height_on_empty_store_fails() {
    let mut db = DaDB::new();
    assert_eq!(db.set_synced_height(1), Err(SyncStoreError::Uninitialized));
    assert_eq!(db.get_synced_height(), None);
}

#[test]
fn prepare_store_starts_from_initial_or_stored() {
    assert_eq!(prepare_store(None, 100).get_synced_height(), Some(100));
    assert_eq!(prepare_store(Some(250), 100).get_synced_height(), Some(250));
}

fn settings(port: u16, http1: bool) -> LightNodeSettings {
    LightNodeSettings {
        protocol: "http".to_string(),
        hostname: "movement-celestia-da-light-node".to_string(),
        port,
        http1,
        initial_height: 0,
    }
}

#[test]
fn endpoint_joins_protocol_host_and_port() {
    let c = light_node_connection(&settings(30730, true));
    assert_eq!(c.endpoint, "http://movement-celestia-da-light-node:30730");
    assert_eq!(c.variant, WireVariant::Http1);
}

#[test]
fn endpoint_port_edges() {
    let c = light_node_connection(&settings(0, false));
    assert_eq!(c.endpoint, "http://movement-celestia-da-light-node:0");
    assert_eq!(c.variant, WireVariant::Http2);
    let c = light_node_connection(&settings(65535, false));
    assert_eq!(c.endpoint, "http://movement-celestia-da-light-node:65535");
    let c = light_node_connection(&settings(100, false));
    assert_eq!(c.endpoint, "http://movement-celestia-da-light-node:100");
}

#[test]
fn settlement_client_built_only_when_settling() {
    assert_eq!(
        construction_steps(true),
        vec![
            Subsystem::LightNodeClient,
            Subsystem::Executor,
            Subsystem::SettlementClient,
            Subsystem::RestService,
            Subsystem::SyncStore
        ]
    );
    let steps = construction_steps(false);
    assert!(!steps.contains(&Subsystem::SettlementClient));
    assert_eq!(steps.len(), 4);
}

#[test]
fn channel_capacity_is_small_and_fixed() {
    assert_eq!(TRANSACTION_CHANNEL_CAPACITY, 16);
}
