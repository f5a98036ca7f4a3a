use drasi_reactions::engine::ResultDiff;
use drasi_reactions::postgres::{parse_ssl_mode, InvalidSslMode, SslMode};
use drasi_reactions::component::{MissingStateStore, StateMachineBuilder, StateMachineReaction, StateMachineSource};
use drasi_reactions::config::{ConfigError, EnterCondition, Op, StateDef, StateMachineReactionConfig};
use drasi_reactions::descriptor::{StateMachineReactionDescriptor, StateMachineSourceDescriptor};

fn order_states() -> Vec<StateDef> {
    vec![
        StateDef {
            id: "NEW".to_string(),
            enter: vec![EnterCondition {
                query: "draft-orders".to_string(),
                previous: vec![],
                key: "{{orderId}}".to_string(),
                ops: vec![Op::Added],
            }],
        },
        StateDef {
            id: "CONFIRMED".to_string(),
            enter: vec![EnterCondition {
                query: "confirmed-orders".to_string(),
                previous: vec!["NEW".to_string()],
                key: "{{orderId}}".to_string(),
                ops: vec![Op::Added],
            }],
        },
    ]
}

fn build() -> (StateMachineReaction, StateMachineSource) {
    let mut builder = StateMachineBuilder::new("order-state")
        .with_source_id("order-state-source")
        .with_entity_label("OrderState")
        .with_key_field("orderId");
    for state in order_states() {
        builder = builder.with_state(state);
    }
    builder.build_pair().expect("build pair")
}

#[test]
fn builder_produces_linked_pair() {
    let (reaction, source) = build();
    assert_eq!(reaction.id(), "order-state");
    assert_eq!(reaction.kind(), "state-machine");
    assert_eq!(reaction.source_id(), "order-state-source");
    assert_eq!(source.id(), "order-state-source");
    assert_eq!(source.kind(), "state-machine");
    assert!(reaction.is_durable());
    assert!(!source.supports_replay());
}

#[test]
fn reaction_subscribes_to_referenced_queries() {
    let (reaction, _source) = build();
    let mut queries = reaction.query_ids();
    queries.sort();
    assert_eq!(queries, vec!["confirmed-orders", "draft-orders"]);
}

#[test]
fn build_fails_without_source_id() {
    let result = StateMachineBuilder::new("order-state")
        .with_state(order_states().remove(0))
        .build_pair();
    assert!(result.is_err());
}

#[test]
fn build_error_names_missing_source_id() {
    let result = StateMachineBuilder::new("order-state").build_pair();
    assert!(matches!(result, Err(ConfigError::MissingSourceId)));
}

#[test]
fn builder_carries_label_key_field_capacity_and_auto_start() {
    let (reaction, source) = StateMachineBuilder::new("r")
        .with_source_id("s")
        .with_entity_label("OrderState")
        .with_key_field("orderId")
        .with_priority_queue_capacity(64)
        .with_auto_start(false)
        .build_pair()
        .unwrap();
    assert_eq!(reaction.config().entity_label, "OrderState");
    assert_eq!(reaction.config().key_field, "orderId");
    assert_eq!(reaction.priority_queue_capacity(), Some(64));
    assert!(!reaction.auto_start());
    assert!(!source.auto_start());
}

#[test]
fn builder_defaults() {
    let (reaction, source) = StateMachineBuilder::new("r").with_source_id("s").build_pair().unwrap();
    assert_eq!(reaction.config().entity_label, "EntityState");
    assert_eq!(reaction.config().key_field, "key");
    assert_eq!(reaction.priority_queue_capacity(), None);
    assert!(reaction.auto_start());
    assert!(source.auto_start());
    assert!(reaction.query_ids().is_empty());
}

#[test]
fn with_config_replaces_everything() {
    let mut config = StateMachineReactionConfig::default();
    config.source_id = "other-source".to_string();
    config.states = order_states();
    let (reaction, source) = StateMachineBuilder::new("r")
        .with_source_id("ignored")
        .with_config(config)
        .build_pair()
        .unwrap();
    assert_eq!(reaction.source_id(), "other-source");
    assert_eq!(source.id(), "other-source");
    assert_eq!(reaction.query_ids(), vec!["draft-orders", "confirmed-orders"]);
}

#[test]
fn referenced_queries_are_distinct_in_first_mention_order() {
    let mut config = StateMachineReactionConfig::default();
    config.source_id = "s".to_string();
    let cond = |q: &str| EnterCondition {
        query: q.to_string(),
        previous: vec![],
        key: "{{id}}".to_string(),
        ops: vec![Op::Added, Op::Updated],
    };
    config.states = vec![
        StateDef { id: "A".to_string(), enter: vec![cond("q2"), cond("q1")] },
        StateDef { id: "B".to_string(), enter: vec![cond("q1"), cond("q3"), cond("q2")] },
    ];
    assert_eq!(config.referenced_queries(), vec!["q2", "q1", "q3"]);
}

#[test]
fn validate_requires_source_id() {
    let mut config = StateMachineReactionConfig::default();
    assert_eq!(config.validate(), Err(ConfigError::MissingSourceId));
    config.source_id = "s".to_string();
    assert_eq!(config.validate(), Ok(()));
}

#[test]
fn reaction_new_starts_with_host() {
    let mut config = StateMachineReactionConfig::default();
    config.source_id = "s".to_string();
    let reaction = StateMachineReaction::new("r", config).unwrap();
    assert!(reaction.auto_start());
    assert_eq!(reaction.priority_queue_capacity(), None);
    assert_eq!(reaction.engine().entity_count(), 0);
    assert!(StateMachineReaction::new("r", StateMachineReactionConfig::default()).is_err());
}

#[test]
fn descriptors_describe_state_machine_plugins() {
    let r = StateMachineReactionDescriptor;
    assert_eq!(r.kind(), "state-machine");
    assert_eq!(r.config_version(), "1.0.0");
    assert_eq!(r.config_schema_name(), "reaction.state_machine.StateMachineReactionConfig");
    assert_eq!(r.display_name(), "State Machine");
    let s = StateMachineSourceDescriptor;
    assert_eq!(s.kind(), "state-machine");
    assert_eq!(s.config_schema_name(), "source.state_machine.StateMachineSourceConfig");
    let source = s.create_source("src", false);
    assert_eq!(source.id(), "src");
    assert!(!source.auto_start());
    let mut config = StateMachineReactionConfig::default();
    config.source_id = "src".to_string();
    config.states = order_states();
    let reaction = r.create_reaction("rx", vec!["ignored".to_string()], config, true).unwrap();
    assert_eq!(reaction.id(), "rx");
    assert_eq!(reaction.query_ids(), vec!["draft-orders", "confirmed-orders"]);
}

#[test]
fn ssl_mode_names() {
    assert_eq!(parse_ssl_mode("disable"), Ok(SslMode::Disable));
    assert_eq!(parse_ssl_mode("prefer"), Ok(SslMode::Prefer));
    assert_eq!(parse_ssl_mode("require"), Ok(SslMode::Require));
    assert_eq!(parse_ssl_mode("Require"), Err(InvalidSslMode));
    assert_eq!(parse_ssl_mode(""), Err(InvalidSslMode));
}

#[test]
fn start_requires_state_store() {
    let (reaction, _) = build();
    assert!(reaction.require_state_store(true).is_ok());
    assert_eq!(reaction.require_state_store(false), Err(MissingStateStore));
}

#[test]
fn process_result_moves_entities_from_result_entries() {
    let (mut reaction, _source) = build();
    let row = |id: &str| vec![("orderId".to_string(), serde_json::Value::String(id.to_string()))];
    let out = reaction.process_result(
        "draft-orders",
        vec![ResultDiff::Added(row("o1")), ResultDiff::Other, ResultDiff::Deleted(row("o2"))],
    );
    assert_eq!(out.len(), 1);
    assert_eq!(out[0].key, "o1");
    assert_eq!(out[0].state, "NEW");
    let out = reaction.process_result(
        "confirmed-orders",
        vec![ResultDiff::Updated { before: row("x"), after: row("o1") }],
    );
    // The confirmed-orders condition is driven by additions only.
    assert!(out.is_empty());
    let out = reaction.process_result("confirmed-orders", vec![ResultDiff::Added(row("o1"))]);
    assert_eq!(out.len(), 1);
    assert_eq!(out[0].state, "CONFIRMED");
    assert_eq!(out[0].previous_state, Some("NEW".to_string()));
}

#[test]
fn unsupported_key_template_is_refused() {
    let mut states = order_states();
    states[0].enter[0].key = "{{> orderKey}}".to_string();
    let mut builder = StateMachineBuilder::new("r").with_source_id("s");
    for state in states {
        builder = builder.with_state(state);
    }
    assert!(matches!(builder.build_pair(), Err(ConfigError::UnsupportedKeyTemplate)));
}
