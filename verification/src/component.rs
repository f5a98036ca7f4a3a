//! The paired components of a state machine: the reaction that moves entities
//! and the source that exposes their state, and the builder that makes both.

use vstd::prelude::*;

use crate::clock::clock_millis;
use crate::config::{
    config_error, config_valid, copy_strings, referenced_queries_of, strings_view, ConfigError, ConfigView,
    StateDef, StateMachineReactionConfig,
};
use crate::engine::{
    changes_of, diff_changes, record_views, rules_of, run, EntityRecord, EntityRecordView,
    ResultDiff, StateMachine, StateMachineView,
};

verus! {

/// The type name of both halves of a state machine component.
pub open spec fn state_machine_kind() -> Seq<char> {
    seq!['s', 't', 'a', 't', 'e', '-', 'm', 'a', 'c', 'h', 'i', 'n', 'e']
}

/// The reaction half of a state machine component.
pub struct StateMachineReaction {
    id: String,
    config: StateMachineReactionConfig,
    queries: Vec<String>,
    priority_queue_capacity: Option<usize>,
    auto_start: bool,
    engine: StateMachine,
}

pub struct ReactionView {
    pub id: Seq<char>,
    pub config: ConfigView,
    pub queries: Seq<Seq<char>>,
    pub priority_queue_capacity: Option<usize>,
    pub auto_start: bool,
    pub engine: StateMachineView,
}

impl View for StateMachineReaction {
    type V = ReactionView;

    closed spec fn view(&self) -> ReactionView {
        ReactionView {
            id: self.id@,
            config: self.config@,
            queries: strings_view(self.queries@),
            priority_queue_capacity: self.priority_queue_capacity,
            auto_start: self.auto_start,
            engine: self.engine@,
        }
    }
}

/// The state machine a configuration starts with: its rules, no entities.
pub open spec fn fresh_engine(c: ConfigView) -> StateMachineView {
    StateMachineView {
        rules: rules_of(c.states),
        entity_label: c.entity_label,
        key_field: c.key_field,
        entities: Map::empty(),
    }
}

/// The reaction a valid configuration makes.
pub open spec fn reaction_of(
    id: Seq<char>,
    c: ConfigView,
    capacity: Option<usize>,
    auto_start: bool,
) -> ReactionView {
    ReactionView {
        id,
        config: c,
        queries: referenced_queries_of(c),
        priority_queue_capacity: capacity,
        auto_start,
        engine: fresh_engine(c),
    }
}

impl StateMachineReaction {
    /// A state machine reaction with id `id` and configuration `config`,
    /// subscribed to the queries its states reference. Refused when the
    /// configuration is.
    pub fn create(
        id: String,
        config: StateMachineReactionConfig,
        priority_queue_capacity: Option<usize>,
        auto_start: bool,
    ) -> (r: Result<Self, ConfigError>)
        ensures
            r is Ok <==> config_valid(config@),
            match r {
                Ok(x) => x@ == reaction_of(id@, config@, priority_queue_capacity, auto_start),
                Err(e) => e == config_error(config@),
            },
    {
        match config.validate() {
            Err(e) => Err(e),
            Ok(()) => {
                let queries = config.referenced_queries();
                match StateMachine::new(&config) {
                    Ok(engine) => Ok(StateMachineReaction {
                        id,
                        config,
                        queries,
                        priority_queue_capacity,
                        auto_start,
                        engine,
                    }),
                    Err(e) => Err(e),
                }
            },
        }
    }

    /// A state machine reaction that starts with its host.
    pub fn new(id: &str, config: StateMachineReactionConfig) -> (r: Result<Self, ConfigError>)
        ensures
            r is Ok <==> config_valid(config@),
            match r {
                Ok(x) => x@ == reaction_of(id@, config@, None, true),
                Err(e) => e == config_error(config@),
            },
    {
        Self::create(id.to_owned(), config, None, true)
    }

    pub fn id(&self) -> (r: &str)
        ensures
            r@ == self@.id,
    {
        self.id.as_str()
    }

    pub fn kind(&self) -> (r: &'static str)
        ensures
            r@ == state_machine_kind(),
    {
        proof {
            reveal_strlit("state-machine");
        }
        "state-machine"
    }

    /// The id of the companion source this reaction feeds.
    pub fn source_id(&self) -> (r: &str)
        ensures
            r@ == self@.config.source_id,
    {
        self.config.source_id.as_str()
    }

    /// The queries this reaction subscribes to.
    pub fn query_ids(&self) -> (r: Vec<String>)
        ensures
            strings_view(r@) == self@.queries,
    {
        copy_strings(&self.queries)
    }

    pub fn auto_start(&self) -> (r: bool)
        ensures
            r == self@.auto_start,
    {
        self.auto_start
    }

    pub fn priority_queue_capacity(&self) -> (r: Option<usize>)
        ensures
            r == self@.priority_queue_capacity,
    {
        self.priority_queue_capacity
    }

    /// The reaction's state survives restarts through the state store.
    pub fn is_durable(&self) -> (r: bool)
        ensures
            r,
    {
        true
    }

    /// The configuration.
    pub fn config(&self) -> (r: &StateMachineReactionConfig)
        ensures
            r@ == self@.config,
    {
        &self.config
    }

    /// The state machine.
    pub fn engine(&self) -> (r: &StateMachine)
        ensures
            r@ == self@.engine,
    {
        &self.engine
    }

    /// Load persisted entity records, so that `previous` guards hold across
    /// restarts.
    pub fn load_persisted(&mut self, records: Vec<EntityRecord>)
        ensures
            final(self)@ == (ReactionView {
                engine: StateMachineView {
                    entities: old(self)@.engine.entities.union_prefer_right(
                        crate::engine::records_by_key(record_views(records@)),
                    ),
                    ..old(self)@.engine
                },
                ..old(self)@
            }),
    {
        self.engine.load(records);
    }

    /// Process one result of query `query_id` at the clock's reading: the row
    /// change of each of its entries `diffs`, in order. The records of the
    /// entities that moved are handed back, in order.
    pub fn process_result(&mut self, query_id: &str, diffs: Vec<ResultDiff>) -> (out: Vec<
        EntityRecord,
    >)
        ensures
            exists|now: int|
                #[trigger] run(old(self)@.engine, diff_changes(query_id@, diffs@), now) == (
                    final(self)@.engine,
                    record_views(out@),
                ),
            final(self)@ == (ReactionView { engine: final(self)@.engine, ..old(self)@ }),
    {
        let ghost entries = diffs@;
        let changes = changes_of(query_id, diffs);
        let now = clock_millis();
        let ghost before = self.engine@;
        let out = self.engine.process_all(&changes, now);
        assert(run(before, diff_changes(query_id@, entries), now as int) == (
            self@.engine,
            record_views(out@),
        ));
        assert(before == old(self)@.engine);
        assert(exists|t: int|
            #[trigger] run(before, diff_changes(query_id@, entries), t) == (
                self@.engine,
                record_views(out@),
            ));
        out
    }
}

/// A state machine reaction was started with no durable state store.
#[derive(Clone, Copy, Debug, PartialEq, Eq, Structural)]
pub struct MissingStateStore;

impl StateMachineReaction {
    /// The reaction starts only with a durable state store to persist entity
    /// state in and reload it from.
    pub fn require_state_store(&self, store_configured: bool) -> (r: Result<(), MissingStateStore>)
        ensures
            r is Ok <==> store_configured,
    {
        if store_configured {
            Ok(())
        } else {
            Err(MissingStateStore)
        }
    }
}

/// The source half of a state machine component.
pub struct StateMachineSource {
    id: String,
    auto_start: bool,
}

pub struct SourceView {
    pub id: Seq<char>,
    pub auto_start: bool,
}

impl View for StateMachineSource {
    type V = SourceView;

    closed spec fn view(&self) -> SourceView {
        SourceView { id: self.id@, auto_start: self.auto_start }
    }
}

impl StateMachineSource {
    /// A state machine source registered under `source_id`.
    pub fn create(source_id: &str, auto_start: bool) -> (s: Self)
        ensures
            s@ == (SourceView { id: source_id@, auto_start }),
    {
        StateMachineSource { id: source_id.to_owned(), auto_start }
    }

    /// A state machine source that starts with its host.
    pub fn new(source_id: &str) -> (s: Self)
        ensures
            s@ == (SourceView { id: source_id@, auto_start: true }),
    {
        Self::create(source_id, true)
    }

    pub fn id(&self) -> (r: &str)
        ensures
            r@ == self@.id,
    {
        self.id.as_str()
    }

    pub fn kind(&self) -> (r: &'static str)
        ensures
            r@ == state_machine_kind(),
    {
        proof {
            reveal_strlit("state-machine");
        }
        "state-machine"
    }

    pub fn auto_start(&self) -> (r: bool)
        ensures
            r == self@.auto_start,
    {
        self.auto_start
    }

    /// The source keeps no log to replay from; late subscribers are
    /// bootstrapped from the persisted records instead.
    pub fn supports_replay(&self) -> (r: bool)
        ensures
            !r,
    {
        false
    }
}

/// Builder of a linked state machine reaction and source.
pub struct StateMachineBuilder {
    reaction_id: String,
    config: StateMachineReactionConfig,
    priority_queue_capacity: Option<usize>,
    auto_start: bool,
}

pub struct BuilderView {
    pub reaction_id: Seq<char>,
    pub config: ConfigView,
    pub priority_queue_capacity: Option<usize>,
    pub auto_start: bool,
}

impl View for StateMachineBuilder {
    type V = BuilderView;

    closed spec fn view(&self) -> BuilderView {
        BuilderView {
            reaction_id: self.reaction_id@,
            config: self.config@,
            priority_queue_capacity: self.priority_queue_capacity,
            auto_start: self.auto_start,
        }
    }
}

impl StateMachineBuilder {
    /// Start building a state machine with reaction id `reaction_id`, the
    /// default configuration, no queue capacity of its own, starting with its
    /// host.
    pub fn new(reaction_id: &str) -> (b: Self)
        ensures
            b@.reaction_id == reaction_id@,
            b@.config.source_id.len() == 0,
            b@.config.entity_label == crate::config::default_entity_label(),
            b@.config.key_field == crate::config::default_key_field(),
            b@.config.states.len() == 0,
            b@.priority_queue_capacity is None,
            b@.auto_start,
    {
        StateMachineBuilder {
            reaction_id: reaction_id.to_owned(),
            config: StateMachineReactionConfig::default(),
            priority_queue_capacity: None,
            auto_start: true,
        }
    }

    /// Set the id under which the companion source is registered.
    pub fn with_source_id(self, source_id: &str) -> (b: Self)
        ensures
            b@ == (BuilderView {
                config: ConfigView { source_id: source_id@, ..self@.config },
                ..self@
            }),
    {
        let mut b = self;
        b.config.source_id = source_id.to_owned();
        b
    }

    /// Set the label of emitted entity nodes.
    pub fn with_entity_label(self, label: &str) -> (b: Self)
        ensures
            b@ == (BuilderView {
                config: ConfigView { entity_label: label@, ..self@.config },
                ..self@
            }),
    {
        let mut b = self;
        b.config.entity_label = label.to_owned();
        b
    }

    /// Set the node property that holds the entity key.
    pub fn with_key_field(self, key_field: &str) -> (b: Self)
        ensures
            b@ == (BuilderView {
                config: ConfigView { key_field: key_field@, ..self@.config },
                ..self@
            }),
    {
        let mut b = self;
        b.config.key_field = key_field.to_owned();
        b
    }

    /// Add a state definition after those already there.
    pub fn with_state(self, state: StateDef) -> (b: Self)
        ensures
            b@ == (BuilderView {
                config: ConfigView { states: self@.config.states.push(state@), ..self@.config },
                ..self@
            }),
    {
        let mut b = self;
        b.config.states.push(state);
        assert(b@.config.states =~= self@.config.states.push(state@));
        b
    }

    /// Replace the whole configuration.
    pub fn with_config(self, config: StateMachineReactionConfig) -> (b: Self)
        ensures
            b@ == (BuilderView { config: config@, ..self@ }),
    {
        let mut b = self;
        b.config = config;
        b
    }

    /// Set the reaction's priority queue capacity.
    pub fn with_priority_queue_capacity(self, capacity: usize) -> (b: Self)
        ensures
            b@ == (BuilderView { priority_queue_capacity: Some(capacity), ..self@ }),
    {
        let mut b = self;
        b.priority_queue_capacity = Some(capacity);
        b
    }

    /// Set whether the reaction and the source start with their host.
    pub fn with_auto_start(self, auto_start: bool) -> (b: Self)
        ensures
            b@ == (BuilderView { auto_start, ..self@ }),
    {
        let mut b = self;
        b.auto_start = auto_start;
        b
    }

    /// Build the linked reaction and source: the source is registered under
    /// the configured source id, which the reaction feeds. Refused when the
    /// configuration is.
    pub fn build_pair(self) -> (r: Result<(StateMachineReaction, StateMachineSource), ConfigError>)
        ensures
            r is Ok <==> config_valid(self@.config),
            match r {
                Ok((reaction, source)) => {
                    &&& reaction@ == reaction_of(
                        self@.reaction_id,
                        self@.config,
                        self@.priority_queue_capacity,
                        self@.auto_start,
                    )
                    &&& source@ == (SourceView {
                        id: self@.config.source_id,
                        auto_start: self@.auto_start,
                    })
                },
                Err(e) => e == config_error(self@.config),
            },
    {
        let source = StateMachineSource::create(self.config.source_id.as_str(), self.auto_start);
        let reaction = StateMachineReaction::create(
            self.reaction_id,
            self.config,
            self.priority_queue_capacity,
            self.auto_start,
        )?;
        Ok((reaction, source))
    }
}

} // verus!
