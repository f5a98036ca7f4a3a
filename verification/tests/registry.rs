use drasi_reactions::engine::EntityRecord;
use drasi_reactions::keyed::KeyedStore;
use drasi_reactions::node::{change_for_record, NodeChange};
use drasi_reactions::registry::{
    current_sender, register_source, unregister_source, SenderRegistry, CHANNEL_CAPACITY,
};
use tokio::sync::mpsc;

fn record(key: &str) -> EntityRecord {
    EntityRecord {
        key: key.to_string(),
        label: "X".to_string(),
        key_field: "key".to_string(),
        state: "S".to_string(),
        previous_state: None,
        entered_at: 1,
        fields: KeyedStore::new(),
    }
}

#[test]
fn register_then_send_and_receive() {
    let mut registry = SenderRegistry::new();
    let id = "test-source-reg-1";
    let (tx, mut rx) = mpsc::channel::<NodeChange>(CHANNEL_CAPACITY);
    register_source(&mut registry, id, tx);
    let tx = current_sender(&registry, id).expect("sender should be registered").clone();

    tx.blocking_send(change_for_record(id, &record("e1"))).unwrap();

    let got = rx.blocking_recv();
    assert!(matches!(got, Some(NodeChange::Insert { .. })));

    unregister_source(&mut registry, id);
    assert!(current_sender(&registry, id).is_none());
}

#[test]
fn restart_replaces_sender() {
    let mut registry = SenderRegistry::new();
    let id = "test-source-reg-2";
    let (tx1, mut rx1) = mpsc::channel::<u32>(CHANNEL_CAPACITY);
    let (tx2, mut rx2) = mpsc::channel::<u32>(CHANNEL_CAPACITY);
    register_source(&mut registry, id, tx1);
    register_source(&mut registry, id, tx2); // simulates a restart
    // The latest sender is the one returned.
    assert!(current_sender(&registry, id).is_some());
    current_sender(&registry, id).unwrap().blocking_send(7).unwrap();
    assert_eq!(rx2.try_recv(), Ok(7));
    assert!(rx1.try_recv().is_err());
    unregister_source(&mut registry, id);
}

#[test]
fn sources_are_independent() {
    let mut registry: SenderRegistry<u32> = SenderRegistry::new();
    register_source(&mut registry, "a", 1);
    register_source(&mut registry, "b", 2);
    unregister_source(&mut registry, "a");
    assert_eq!(current_sender(&registry, "a"), None);
    assert_eq!(current_sender(&registry, "b"), Some(&2));
    unregister_source(&mut registry, "missing");
    assert_eq!(current_sender(&registry, "b"), Some(&2));
}

#[test]
fn channel_capacity_value() {
    assert_eq!(CHANNEL_CAPACITY, 1024);
}
