use chain_sync::registry::ChainRegistry;

#[test]
fn spawn_is_idempotent() {
    // Repeated spawns for one identity create exactly one worker; every
    // later call observes it and creates nothing.
    let mut registry = ChainRegistry::new();
    let id = "chain-a".to_string();
    assert!(registry.try_spawn_chain(&id));
    assert!(!registry.try_spawn_chain(&id));
    assert!(!registry.try_spawn_chain(&id));
    assert_eq!(registry.len(), 1);
    let worker = registry.get(&id).expect("worker must be registered");
    assert_eq!(worker.chain_id, "chain-a");
    assert_eq!(worker.cache.count, None);
}

#[test]
fn discovery_offers_are_deduplicated() {
    // The discovery channel delivers ["X", "X", "Y"]: afterwards exactly two
    // workers exist, and X was spawned only once.
    let mut registry = ChainRegistry::new();
    let offered = vec!["X".to_string(), "X".to_string(), "Y".to_string()];
    registry.absorb_discovered(&offered);
    assert_eq!(registry.len(), 2);
    assert!(registry.is_running(&"X".to_string()));
    assert!(registry.is_running(&"Y".to_string()));

    // A second delivery of the same identities changes nothing.
    registry.absorb_discovered(&offered);
    assert_eq!(registry.len(), 2);
}

#[test]
fn existing_worker_survives_rediscovery() {
    // A worker already running is not replaced when its chain is discovered
    // again.
    let mut registry = ChainRegistry::new();
    let id = "X".to_string();
    assert!(registry.try_spawn_chain(&id));
    registry.absorb_discovered(&vec!["X".to_string()]);
    assert_eq!(registry.len(), 1);
    assert!(registry.is_running(&id));
}

#[test]
fn blank_identity_is_rejected() {
    let mut registry = ChainRegistry::new();
    let running = registry.ensure_running(&"".to_string());
    assert!(!running);
    assert_eq!(registry.len(), 0);
}

#[test]
fn ensure_running_registers_and_reports() {
    let mut registry = ChainRegistry::new();
    assert!(registry.ensure_running(&"Z".to_string()));
    assert!(registry.ensure_running(&"Z".to_string()));
    assert_eq!(registry.len(), 1);
}
