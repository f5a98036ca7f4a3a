use drasi_reactions::engine::EntityRecord;
use drasi_reactions::keyed::KeyedStore;
use drasi_reactions::node::{
    bootstrap_admits, bootstrap_elements, bootstrap_elements_at, change_for_record,
    node_element_at, node_properties, push_decision, record_to_node_element, NodeChange,
    PropertyValue, PushDecision,
};
use serde_json::Value;

fn record(key: &str, label: &str, previous: Option<&str>, entered_at: i64) -> EntityRecord {
    let mut fields = KeyedStore::new();
    fields.insert("customer".to_string(), Value::String("Acme".to_string()));
    fields.insert("state".to_string(), Value::String("shadowed".to_string()));
    EntityRecord {
        key: key.to_string(),
        label: label.to_string(),
        key_field: "orderId".to_string(),
        state: "PAID".to_string(),
        previous_state: previous.map(|p| p.to_string()),
        entered_at,
        fields,
    }
}

fn text(p: Option<&PropertyValue>) -> Option<String> {
    match p {
        Some(PropertyValue::Text(s)) => Some(s.clone()),
        _ => None,
    }
}

#[test]
fn node_properties_hold_fields_then_state() {
    let r = record("o1", "OrderState", Some("CONFIRMED"), 1234);
    let p = node_properties(&r);
    assert_eq!(p.len(), 5);
    assert!(matches!(p.get("customer"), Some(PropertyValue::Json(Value::String(c))) if c == "Acme"));
    assert_eq!(text(p.get("orderId")), Some("o1".to_string()));
    assert_eq!(text(p.get("state")), Some("PAID".to_string()));
    assert_eq!(text(p.get("previousState")), Some("CONFIRMED".to_string()));
    assert!(matches!(p.get("enteredAt"), Some(PropertyValue::Integer(1234))));
}

#[test]
fn first_state_has_null_previous_state() {
    let p = node_properties(&record("o1", "OrderState", None, 1));
    assert!(matches!(p.get("previousState"), Some(PropertyValue::Null)));
}

#[test]
fn node_element_uses_entry_time_when_positive() {
    let e = node_element_at("order-state-source", &record("o1", "OrderState", None, 1234), 99);
    assert_eq!(e.source_id, "order-state-source");
    assert_eq!(e.element_id, "o1");
    assert_eq!(e.labels, vec!["OrderState".to_string()]);
    assert_eq!(e.effective_from, 1234);
    let e = node_element_at("s", &record("o1", "OrderState", None, 0), 99);
    assert_eq!(e.effective_from, 99);
    let e = node_element_at("s", &record("o1", "OrderState", None, -5), -7);
    assert_eq!(e.effective_from, 0);
    let e = record_to_node_element("s", &record("o1", "OrderState", None, 1234));
    assert_eq!(e.effective_from, 1234);
    let e = record_to_node_element("s", &record("o1", "OrderState", None, 0));
    assert!(e.effective_from > 0);
}

#[test]
fn first_transition_inserts_later_updates() {
    assert!(matches!(change_for_record("s", &record("o1", "L", None, 1)), NodeChange::Insert(_)));
    assert!(matches!(change_for_record("s", &record("o1", "L", Some("NEW"), 1)), NodeChange::Update(_)));
}

#[test]
fn push_decision_after_persisting() {
    assert_eq!(push_decision(false, true), PushDecision::Skip);
    assert_eq!(push_decision(false, false), PushDecision::Skip);
    assert_eq!(push_decision(true, true), PushDecision::Push);
    assert_eq!(push_decision(true, false), PushDecision::PersistedOnly);
}

#[test]
fn bootstrap_filters_by_requested_labels() {
    let records = vec![record("a", "OrderState", None, 1), record("b", "Other", None, 2)];
    assert!(bootstrap_admits(&vec![], &"Anything".to_string()));
    assert!(bootstrap_admits(&vec!["OrderState".to_string()], &"OrderState".to_string()));
    assert!(!bootstrap_admits(&vec!["OrderState".to_string()], &"Other".to_string()));
    let all = bootstrap_elements_at("s", &records, &vec![], 5);
    assert_eq!(all.len(), 2);
    let some = bootstrap_elements_at("s", &records, &vec!["OrderState".to_string()], 5);
    assert_eq!(some.len(), 1);
    assert_eq!(some[0].element_id, "a");
    let none = bootstrap_elements("s", &records, &vec!["Nope".to_string()]);
    assert!(none.is_empty());
}
