use drasi_reactions::config::{EnterCondition, Op, StateDef, StateMachineReactionConfig};
use drasi_reactions::engine::{changes_of, EntityRecord, ResultChange, ResultDiff, StateMachine};
use drasi_reactions::keyed::KeyedStore;
use serde_json::Value;

fn cond(query: &str, previous: &[&str], ops: &[Op]) -> EnterCondition {
    EnterCondition {
        query: query.to_string(),
        previous: previous.iter().map(|s| s.to_string()).collect(),
        key: "{{orderId}}".to_string(),
        ops: ops.to_vec(),
    }
}

fn orders_config() -> StateMachineReactionConfig {
    let mut c = StateMachineReactionConfig::default();
    c.source_id = "order-state-source".to_string();
    c.entity_label = "OrderState".to_string();
    c.key_field = "orderId".to_string();
    c.states = vec![
        StateDef { id: "NEW".to_string(), enter: vec![cond("draft-orders", &[], &[Op::Added])] },
        StateDef {
            id: "CONFIRMED".to_string(),
            enter: vec![cond("confirmed-orders", &["NEW"], &[Op::Added, Op::Updated])],
        },
        StateDef {
            id: "CANCELLED".to_string(),
            enter: vec![cond("cancelled-orders", &["*"], &[Op::Added])],
        },
    ];
    c
}

fn change(query: &str, op: Op, fields: &[(&str, Value)]) -> ResultChange {
    ResultChange {
        query_id: query.to_string(),
        op,
        row: fields.iter().map(|(k, v)| (k.to_string(), v.clone())).collect(),
    }
}

fn s(x: &str) -> Value {
    Value::String(x.to_string())
}

#[test]
fn initial_entry_then_guarded_transition() {
    let mut sm = StateMachine::new(&orders_config()).unwrap();
    assert_eq!(sm.rule_count(), 3);

    let r = sm
        .process(&change("draft-orders", Op::Added, &[("orderId", s("o1")), ("customer", s("Acme"))]), 10)
        .expect("new order enters NEW");
    assert_eq!(r.key, "o1");
    assert_eq!(r.state, "NEW");
    assert_eq!(r.previous_state, None);
    assert_eq!(r.entered_at, 10);
    assert_eq!(r.label, "OrderState");
    assert_eq!(r.key_field, "orderId");

    let r = sm
        .process(&change("confirmed-orders", Op::Updated, &[("orderId", s("o1"))]), 20)
        .expect("NEW order is confirmed");
    assert_eq!(r.state, "CONFIRMED");
    assert_eq!(r.previous_state, Some("NEW".to_string()));
    assert_eq!(r.entered_at, 20);
    // Only the triggering row's fields are passed through.
    assert_eq!(r.fields.get("customer"), None);
    assert_eq!(r.fields.get("orderId"), Some(&s("o1")));
    assert_eq!(r.fields.len(), 1);
    assert_eq!(sm.entity("o1").unwrap().state, "CONFIRMED");
    assert_eq!(sm.entity_count(), 1);
}

#[test]
fn guard_refuses_wrong_previous_state() {
    let mut sm = StateMachine::new(&orders_config()).unwrap();
    // Not yet NEW: cannot be confirmed.
    assert!(sm.process(&change("confirmed-orders", Op::Added, &[("orderId", s("o2"))]), 1).is_none());
    assert!(sm.entity("o2").is_none());
    sm.process(&change("draft-orders", Op::Added, &[("orderId", s("o2"))]), 2).unwrap();
    // Already exists: cannot enter NEW again.
    assert!(sm.process(&change("draft-orders", Op::Added, &[("orderId", s("o2"))]), 3).is_none());
    assert_eq!(sm.entity("o2").unwrap().entered_at, 2);
}

#[test]
fn star_admits_any_existing_state_only() {
    let mut sm = StateMachine::new(&orders_config()).unwrap();
    assert!(sm.process(&change("cancelled-orders", Op::Added, &[("orderId", s("o3"))]), 1).is_none());
    sm.process(&change("draft-orders", Op::Added, &[("orderId", s("o3"))]), 2).unwrap();
    sm.process(&change("confirmed-orders", Op::Added, &[("orderId", s("o3"))]), 3).unwrap();
    let r = sm.process(&change("cancelled-orders", Op::Added, &[("orderId", s("o3"))]), 4).unwrap();
    assert_eq!(r.state, "CANCELLED");
    assert_eq!(r.previous_state, Some("CONFIRMED".to_string()));
}

#[test]
fn undriven_operation_or_query_is_ignored() {
    let mut sm = StateMachine::new(&orders_config()).unwrap();
    assert!(sm.process(&change("draft-orders", Op::Deleted, &[("orderId", s("o4"))]), 1).is_none());
    assert!(sm.process(&change("unknown-query", Op::Added, &[("orderId", s("o4"))]), 1).is_none());
    assert_eq!(sm.entity_count(), 0);
}

#[test]
fn missing_key_field_moves_nothing() {
    let mut sm = StateMachine::new(&orders_config()).unwrap();
    assert!(sm.process(&change("draft-orders", Op::Added, &[("other", s("x"))]), 1).is_none());
    assert_eq!(sm.entity_count(), 0);
}

#[test]
fn numeric_keys_render_as_text() {
    let mut sm = StateMachine::new(&orders_config()).unwrap();
    let r = sm
        .process(&change("draft-orders", Op::Added, &[("orderId", Value::from(42))]), 1)
        .unwrap();
    assert_eq!(r.key, "42");
}

#[test]
fn fields_come_from_triggering_row() {
    let mut sm = StateMachine::new(&orders_config()).unwrap();
    sm.process(&change("draft-orders", Op::Added, &[("orderId", s("o5")), ("amount", Value::from(1))]), 1)
        .unwrap();
    let r = sm
        .process(&change("confirmed-orders", Op::Added, &[("orderId", s("o5")), ("amount", Value::from(2))]), 2)
        .unwrap();
    assert_eq!(r.fields.get("amount"), Some(&Value::from(2)));
    assert_eq!(r.fields.get("orderId"), Some(&s("o5")));
    let r = sm
        .process(&change("cancelled-orders", Op::Added, &[("orderId", s("o5")), ("reason", s("late"))]), 3)
        .unwrap();
    assert_eq!(r.fields.get("amount"), None);
    assert_eq!(r.fields.get("reason"), Some(&s("late")));
}

#[test]
fn process_all_applies_changes_in_order() {
    let mut sm = StateMachine::new(&orders_config()).unwrap();
    let changes = vec![
        change("draft-orders", Op::Added, &[("orderId", s("a"))]),
        change("confirmed-orders", Op::Added, &[("orderId", s("a"))]),
        change("confirmed-orders", Op::Added, &[("orderId", s("b"))]),
        change("draft-orders", Op::Added, &[("orderId", s("b"))]),
    ];
    let out = sm.process_all(&changes, 7);
    let states: Vec<(String, String)> = out.iter().map(|r| (r.key.clone(), r.state.clone())).collect();
    assert_eq!(
        states,
        vec![
            ("a".to_string(), "NEW".to_string()),
            ("a".to_string(), "CONFIRMED".to_string()),
            ("b".to_string(), "NEW".to_string()),
        ]
    );
}

fn record(key: &str, state: &str, entered_at: i64) -> EntityRecord {
    EntityRecord {
        key: key.to_string(),
        label: "OrderState".to_string(),
        key_field: "orderId".to_string(),
        state: state.to_string(),
        previous_state: None,
        entered_at,
        fields: KeyedStore::new(),
    }
}

#[test]
fn loaded_state_guards_later_transitions() {
    let mut sm = StateMachine::new(&orders_config()).unwrap();
    sm.load(vec![record("p", "NEW", 5), record("q", "CONFIRMED", 6), record("p", "NEW", 9)]);
    assert_eq!(sm.entity_count(), 2);
    assert_eq!(sm.entity("p").unwrap().entered_at, 9);
    let r = sm.process(&change("confirmed-orders", Op::Added, &[("orderId", s("p"))]), 10).unwrap();
    assert_eq!(r.previous_state, Some("NEW".to_string()));
    assert!(sm.process(&change("confirmed-orders", Op::Added, &[("orderId", s("q"))]), 11).is_none());
}

#[test]
fn first_matching_rule_wins() {
    let mut c = orders_config();
    c.states.push(StateDef { id: "DUPLICATE".to_string(), enter: vec![cond("draft-orders", &[], &[Op::Added])] });
    let mut sm = StateMachine::new(&c).unwrap();
    let r = sm.process(&change("draft-orders", Op::Added, &[("orderId", s("z"))]), 1).unwrap();
    assert_eq!(r.state, "NEW");
}

#[test]
fn keyed_store_insert_get_remove() {
    let mut store: KeyedStore<u32> = KeyedStore::new();
    store.insert("a".to_string(), 1);
    store.insert("b".to_string(), 2);
    store.insert("a".to_string(), 3);
    assert_eq!(store.len(), 2);
    assert_eq!(store.get("a"), Some(&3));
    assert_eq!(store.remove("a"), Some(3));
    assert_eq!(store.get("a"), None);
    assert_eq!(store.remove("a"), None);
    let (k, v) = store.entry_at(0);
    assert_eq!((k.as_str(), *v), ("b", 2));
}

#[test]
fn each_driven_rule_renders_its_own_template() {
    let mut c = StateMachineReactionConfig::default();
    c.source_id = "s".to_string();
    c.states = vec![
        StateDef {
            id: "A".to_string(),
            enter: vec![EnterCondition {
                query: "q".to_string(),
                previous: vec![],
                key: "{{a}}".to_string(),
                ops: vec![Op::Added],
            }],
        },
        StateDef {
            id: "B".to_string(),
            enter: vec![
                EnterCondition {
                    query: "q".to_string(),
                    previous: vec![],
                    key: "{{b}}-x".to_string(),
                    ops: vec![Op::Added],
                },
                EnterCondition {
                    query: "other".to_string(),
                    previous: vec![],
                    key: "{{a}}".to_string(),
                    ops: vec![Op::Added],
                },
            ],
        },
    ];
    let sm = StateMachine::new(&c).unwrap();
    let keys = sm.rendered_keys(&change("q", Op::Added, &[("a", s("1")), ("b", s("2"))]));
    assert_eq!(keys, vec![Some("1".to_string()), Some("2-x".to_string()), None]);
    let keys = sm.rendered_keys(&change("q", Op::Deleted, &[("a", s("1"))]));
    assert_eq!(keys, vec![None, None, None]);
}

fn with_key(key: &str) -> StateMachineReactionConfig {
    let mut c = orders_config();
    c.states[1].enter[0].key = key.to_string();
    c
}

#[test]
fn partial_and_decorator_key_templates_are_refused() {
    for key in [
        "{{> other}}",
        "{{#> layout}}x{{/layout}}",
        "{{#*inline \"a\"}}{{> a}}{{/inline}}{{> a}}",
        "{{~ > spaced}}",
        "{{* deco}}",
    ] {
        let c = with_key(key);
        assert!(!c.key_templates_are_plain(), "{key}");
        assert!(StateMachine::new(&c).is_err(), "{key}");
        assert_eq!(c.validate(), Err(drasi_reactions::config::ConfigError::UnsupportedKeyTemplate));
    }
}

#[test]
fn plain_key_templates_are_accepted() {
    for key in ["{{orderId}}", "order-{{orderId}}", "a > b {{orderId}}", "{{#if orderId}}{{orderId}}{{/if}}"] {
        let c = with_key(key);
        assert!(c.key_templates_are_plain(), "{key}");
        assert!(StateMachine::new(&c).is_ok(), "{key}");
        assert_eq!(c.validate(), Ok(()));
    }
}

fn row(fields: &[(&str, Value)]) -> Vec<(String, Value)> {
    fields.iter().map(|(k, v)| (k.to_string(), v.clone())).collect()
}

#[test]
fn changes_of_maps_each_entry_kind() {
    let diffs = vec![
        ResultDiff::Added(row(&[("orderId", s("a"))])),
        ResultDiff::Other,
        ResultDiff::Updated { before: row(&[("orderId", s("old"))]), after: row(&[("orderId", s("new"))]) },
        ResultDiff::Deleted(row(&[("orderId", s("d"))])),
    ];
    let out = changes_of("q", diffs);
    assert_eq!(out.len(), 3);
    assert!(out.iter().all(|c| c.query_id == "q"));
    assert_eq!(out[0].op, Op::Added);
    assert_eq!(out[0].row, row(&[("orderId", s("a"))]));
    assert_eq!(out[1].op, Op::Updated);
    assert_eq!(out[1].row, row(&[("orderId", s("new"))]));
    assert_eq!(out[2].op, Op::Deleted);
    assert_eq!(out[2].row, row(&[("orderId", s("d"))]));
}

#[test]
fn changes_of_no_entries_is_empty() {
    assert!(changes_of("q", vec![ResultDiff::Other]).is_empty());
    assert!(changes_of("q", vec![]).is_empty());
}
