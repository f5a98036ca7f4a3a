//! The transition engine: which state an entity enters when a query result
//! arrives, and the record of every entity's current state.

use vstd::prelude::*;

use crate::config::{
    key_templates_plain, strings_contain, strings_view, ConfigError, EnterCondition,
    EnterConditionView, Op, StateDefView, StateMachineReactionConfig,
};
use crate::keyed::{pairs_map, str_eq, KeyedStore};
use crate::template::{plain_template, render_key, rendered_key, row_view};

verus! {

/// An enter condition together with the state it leads into.
pub struct Rule {
    pub state: String,
    pub condition: EnterCondition,
}

pub struct RuleView {
    pub state: Seq<char>,
    pub condition: EnterConditionView,
}

impl View for Rule {
    type V = RuleView;

    open spec fn view(&self) -> RuleView {
        RuleView { state: self.state@, condition: self.condition@ }
    }
}

/// The current state of one entity, as persisted and as exposed on its node.
///
/// `previous_state` is `None` for an entity that has entered its first state.
/// `fields` are the pass-through fields of the query row that moved the entity
/// into its current state.
pub struct EntityRecord {
    pub key: String,
    pub label: String,
    pub key_field: String,
    pub state: String,
    pub previous_state: Option<String>,
    pub entered_at: i64,
    pub fields: KeyedStore<serde_json::Value>,
}

pub struct EntityRecordView {
    pub key: Seq<char>,
    pub label: Seq<char>,
    pub key_field: Seq<char>,
    pub state: Seq<char>,
    pub previous_state: Option<Seq<char>>,
    pub entered_at: int,
    pub fields: Map<Seq<char>, serde_json::Value>,
}

pub open spec fn opt_string_view(s: Option<String>) -> Option<Seq<char>> {
    match s {
        Some(x) => Some(x@),
        None => None,
    }
}

impl View for EntityRecord {
    type V = EntityRecordView;

    open spec fn view(&self) -> EntityRecordView {
        EntityRecordView {
            key: self.key@,
            label: self.label@,
            key_field: self.key_field@,
            state: self.state@,
            previous_state: opt_string_view(self.previous_state),
            entered_at: self.entered_at as int,
            fields: self.fields@,
        }
    }
}

/// The views of a sequence of records.
pub open spec fn record_views(s: Seq<EntityRecord>) -> Seq<EntityRecordView> {
    s.map_values(|r: EntityRecord| r@)
}

pub open spec fn opt_record_view(r: Option<EntityRecord>) -> Option<EntityRecordView> {
    match r {
        Some(x) => Some(x@),
        None => None,
    }
}

/// One row change of a query result: the query, the operation, and the row's
/// fields (for a deletion, the row as it was).
pub struct ResultChange {
    pub query_id: String,
    pub op: Op,
    pub row: Vec<(String, serde_json::Value)>,
}

pub struct ResultChangeView {
    pub query_id: Seq<char>,
    pub op: Op,
    /// The row's fields in order.
    pub fields: Seq<(Seq<char>, serde_json::Value)>,
    /// The row's fields by name, a later one replacing an earlier.
    pub row: Map<Seq<char>, serde_json::Value>,
}

impl View for ResultChange {
    type V = ResultChangeView;

    open spec fn view(&self) -> ResultChangeView {
        ResultChangeView {
            query_id: self.query_id@,
            op: self.op,
            fields: row_view(self.row@),
            row: pairs_map(self.row@),
        }
    }
}

/// One entry of a continuous query's result: a row that was added, a row that
/// was updated (as it was before and as it is after), a row that was deleted,
/// or an entry of another kind (an aggregation or a no-op), which carries no
/// row change.
pub enum ResultDiff {
    Added(Vec<(String, serde_json::Value)>),
    Updated { before: Vec<(String, serde_json::Value)>, after: Vec<(String, serde_json::Value)> },
    Deleted(Vec<(String, serde_json::Value)>),
    Other,
}

/// The row change of query `query_id` that a result entry carries, if any: an
/// update is judged on the row as it is after the update.
pub open spec fn change_of(query_id: Seq<char>, d: ResultDiff) -> Option<ResultChangeView> {
    let mk = |op: Op, row: Vec<(String, serde_json::Value)>|
        ResultChangeView { query_id, op, fields: row_view(row@), row: pairs_map(row@) };
    match d {
        ResultDiff::Added(row) => Some(mk(Op::Added, row)),
        ResultDiff::Updated { before, after } => Some(mk(Op::Updated, after)),
        ResultDiff::Deleted(row) => Some(mk(Op::Deleted, row)),
        ResultDiff::Other => None,
    }
}

/// The row changes of the entries `diffs` of a result of query `query_id`, in
/// order.
pub open spec fn diff_changes(query_id: Seq<char>, diffs: Seq<ResultDiff>) -> Seq<ResultChangeView>
    decreases diffs.len(),
{
    if diffs.len() == 0 {
        Seq::empty()
    } else {
        let rest = diff_changes(query_id, diffs.drop_last());
        match change_of(query_id, diffs.last()) {
            Some(c) => rest.push(c),
            None => rest,
        }
    }
}

/// The row changes that the entries of a result of query `query_id` carry, in
/// order.
pub fn changes_of(query_id: &str, diffs: Vec<ResultDiff>) -> (r: Vec<ResultChange>)
    ensures
        change_views(r@) == diff_changes(query_id@, diffs@),
{
    let ghost total = diffs@;
    let mut diffs = diffs;
    let n = diffs.len();
    let mut out: Vec<ResultChange> = Vec::new();
    let mut i: usize = 0;
    assert(change_views(out@) =~= diff_changes(query_id@, total.take(0)));
    assert(diffs@ =~= total.subrange(0, n as int));
    while i < n
        invariant
            n == total.len(),
            i <= n,
            diffs@ == total.subrange(i as int, n as int),
            change_views(out@) == diff_changes(query_id@, total.take(i as int)),
        decreases n - i,
    {
        let d = diffs.remove(0);
        assert(d == total[i as int]);
        assert(diffs@ =~= total.subrange(i as int + 1, n as int));
        assert(total.take(i as int + 1).drop_last() =~= total.take(i as int));
        let ghost before = change_views(out@);
        let c = match d {
            ResultDiff::Added(row) => Some(ResultChange { query_id: query_id.to_owned(), op: Op::Added, row }),
            ResultDiff::Updated { before: _, after } => Some(
                ResultChange { query_id: query_id.to_owned(), op: Op::Updated, row: after },
            ),
            ResultDiff::Deleted(row) => Some(
                ResultChange { query_id: query_id.to_owned(), op: Op::Deleted, row },
            ),
            ResultDiff::Other => None,
        };
        match c {
            Some(c) => {
                assert(change_of(query_id@, total[i as int]) == Some(c@));
                out.push(c);
                assert(change_views(out@) =~= before.push(c@));
            },
            None => {},
        }
        i = i + 1;
    }
    assert(total.take(n as int) =~= total);
    out
}

pub struct StateMachineView {
    pub rules: Seq<RuleView>,
    pub entity_label: Seq<char>,
    pub key_field: Seq<char>,
    pub entities: Map<Seq<char>, EntityRecordView>,
}

/// The rules of one state: each of its enter conditions, leading into it.
pub open spec fn state_rules(s: StateDefView) -> Seq<RuleView> {
    s.enter.map_values(|c: EnterConditionView| RuleView { state: s.id, condition: c })
}

/// The rules of a configuration, state by state and condition by condition.
pub open spec fn rules_of(states: Seq<StateDefView>) -> Seq<RuleView>
    decreases states.len(),
{
    if states.len() == 0 {
        Seq::empty()
    } else {
        rules_of(states.drop_last()) + state_rules(states.last())
    }
}

/// The `previous` entry that admits an entity in any state.
pub open spec fn any_state() -> Seq<char> {
    seq!['*']
}

/// Whether a rule is driven by this query and this operation.
pub open spec fn applicable(r: RuleView, query: Seq<char>, op: Op) -> bool {
    r.condition.query == query && r.condition.ops.contains(op)
}

/// Whether an entity whose current state is `current` (`None`: the entity does
/// not exist) may enter through a condition with these `previous` states.
pub open spec fn guard_allows(previous: Seq<Seq<char>>, current: Option<Seq<char>>) -> bool {
    if previous.len() == 0 {
        current is None
    } else if previous.contains(any_state()) {
        current is Some
    } else {
        current is Some && previous.contains(current->0)
    }
}

/// The current state of the entity `key`, if it exists.
pub open spec fn current_state(entities: Map<Seq<char>, EntityRecordView>, key: Seq<char>) -> Option<
    Seq<char>,
> {
    if entities.contains_key(key) {
        Some(entities[key].state)
    } else {
        None
    }
}

/// Whether rule `i` fires for this change, given the key it rendered.
pub open spec fn eligible(
    m: StateMachineView,
    query: Seq<char>,
    op: Op,
    keys: Seq<Option<Seq<char>>>,
    i: int,
) -> bool {
    &&& applicable(m.rules[i], query, op)
    &&& keys[i] is Some
    &&& keys[i]->0.len() > 0
    &&& guard_allows(m.rules[i].condition.previous, current_state(m.entities, keys[i]->0))
}

/// The first rule at or after `from` that fires.
pub open spec fn first_eligible(
    m: StateMachineView,
    query: Seq<char>,
    op: Op,
    keys: Seq<Option<Seq<char>>>,
    from: int,
) -> Option<int>
    decreases m.rules.len() - from,
{
    if from < 0 || from >= m.rules.len() {
        None
    } else if eligible(m, query, op, keys, from) {
        Some(from)
    } else {
        first_eligible(m, query, op, keys, from + 1)
    }
}

/// The record of entity `key` after it enters `state` at `now` on a row with
/// fields `row`, when its record was `old`: the row's fields are passed
/// through, and of the old record only its state is kept, as the previous one.
pub open spec fn entered(
    old: Option<EntityRecordView>,
    state: Seq<char>,
    key: Seq<char>,
    label: Seq<char>,
    key_field: Seq<char>,
    now: int,
    row: Map<Seq<char>, serde_json::Value>,
) -> EntityRecordView {
    EntityRecordView {
        key,
        label,
        key_field,
        state,
        previous_state: match old {
            Some(r) => Some(r.state),
            None => None,
        },
        entered_at: now,
        fields: row,
    }
}

/// The machine and the new record after entity `key` enters by rule `rule`.
pub open spec fn after_entering(
    m: StateMachineView,
    rule: int,
    key: Seq<char>,
    now: int,
    row: Map<Seq<char>, serde_json::Value>,
) -> (StateMachineView, EntityRecordView) {
    let old = if m.entities.contains_key(key) {
        Some(m.entities[key])
    } else {
        None
    };
    let rec = entered(old, m.rules[rule].state, key, m.entity_label, m.key_field, now, row);
    (StateMachineView { entities: m.entities.insert(key, rec), ..m }, rec)
}

/// The key each rule renders from a change's row: a rule the change drives
/// renders its key template over the row; any other rule renders nothing.
pub open spec fn keys_of(m: StateMachineView, change: ResultChangeView) -> Seq<Option<Seq<char>>> {
    Seq::new(
        m.rules.len(),
        |i: int|
            if applicable(m.rules[i], change.query_id, change.op) {
                rendered_key(m.rules[i].condition.key, change.fields)
            } else {
                None
            },
    )
}

/// What one row change does, given the key each rule rendered from the row:
/// the first rule that fires moves its entity; if none fires, nothing changes.
pub open spec fn step_with(
    m: StateMachineView,
    change: ResultChangeView,
    keys: Seq<Option<Seq<char>>>,
    now: int,
) -> (StateMachineView, Option<EntityRecordView>) {
    match first_eligible(m, change.query_id, change.op, keys, 0) {
        None => (m, None),
        Some(i) => {
            let (m2, r) = after_entering(m, i, keys[i]->0, now, change.row);
            (m2, Some(r))
        },
    }
}

/// What one row change does at time `now`: each driven rule renders the key
/// of its template over the row, and the first rule that fires moves the
/// entity it names.
pub open spec fn step(m: StateMachineView, change: ResultChangeView, now: int) -> (
    StateMachineView,
    Option<EntityRecordView>,
) {
    step_with(m, change, keys_of(m, change), now)
}

/// What a sequence of row changes does, change by change: the machine
/// afterwards and the records of the entities that moved, in order.
pub open spec fn run(m: StateMachineView, changes: Seq<ResultChangeView>, now: int) -> (
    StateMachineView,
    Seq<EntityRecordView>,
)
    decreases changes.len(),
{
    if changes.len() == 0 {
        (m, Seq::empty())
    } else {
        let (m1, out) = run(m, changes.drop_last(), now);
        let (m2, r) = step(m1, changes.last(), now);
        (
            m2,
            match r {
                Some(x) => out.push(x),
                None => out,
            },
        )
    }
}

/// The views of a sequence of changes.
pub open spec fn change_views(s: Seq<ResultChange>) -> Seq<ResultChangeView> {
    s.map_values(|c: ResultChange| c@)
}

pub open spec fn opt_strings_view(s: Seq<Option<String>>) -> Seq<Option<Seq<char>>> {
    s.map_values(|x: Option<String>| opt_string_view(x))
}

/// The records loaded into a map by key, a later record replacing an earlier one
/// with the same key.
pub open spec fn records_by_key(s: Seq<EntityRecordView>) -> Map<Seq<char>, EntityRecordView>
    decreases s.len(),
{
    if s.len() == 0 {
        Map::empty()
    } else {
        records_by_key(s.drop_last()).insert(s.last().key, s.last())
    }
}

/// A copy of a field store.
pub fn copy_fields(f: &KeyedStore<serde_json::Value>) -> (r: KeyedStore<serde_json::Value>)
    ensures
        r@ == f@,
{
    let n = f.len();
    let mut r = KeyedStore::new();
    let mut i: usize = 0;
    while i < n
        invariant
            n == f.entries().len(),
            f@ == pairs_map(f.entries()),
            i <= n,
            r@ == pairs_map(f.entries().take(i as int)),
        decreases n - i,
    {
        let (k, v) = f.entry_at(i);
        assert(f.entries().take(i as int + 1).drop_last() =~= f.entries().take(i as int));
        r.insert(k.clone(), v.clone());
        i = i + 1;
    }
    assert(f.entries().take(n as int) =~= f.entries());
    r
}

/// Put each of `row`'s fields into `fields`, a later one replacing an earlier.
pub fn merge_fields(fields: &mut KeyedStore<serde_json::Value>, row: &Vec<(String, serde_json::Value)>)
    ensures
        final(fields)@ == old(fields)@.union_prefer_right(pairs_map(row@)),
{
    let ghost start = fields@;
    let mut i: usize = 0;
    while i < row.len()
        invariant
            i <= row@.len(),
            fields@ == start.union_prefer_right(pairs_map(row@.take(i as int))),
        decreases row@.len() - i,
    {
        let ghost before = pairs_map(row@.take(i as int));
        assert(row@.take(i as int + 1).drop_last() =~= row@.take(i as int));
        fields.insert(row[i].0.clone(), row[i].1.clone());
        assert(fields@ =~= start.union_prefer_right(before.insert(row@[i as int].0@, row@[i as int].1)));
        i = i + 1;
    }
    assert(row@.take(row@.len() as int) =~= row@);
}

impl EntityRecord {
    /// A copy of this record.
    pub fn duplicate(&self) -> (r: Self)
        ensures
            r@ == self@,
    {
        EntityRecord {
            key: self.key.clone(),
            label: self.label.clone(),
            key_field: self.key_field.clone(),
            state: self.state.clone(),
            previous_state: match &self.previous_state {
                Some(s) => Some(s.clone()),
                None => None,
            },
            entered_at: self.entered_at,
            fields: copy_fields(&self.fields),
        }
    }
}

/// Whether `v` holds the string `*`.
fn admits_any(v: &Vec<String>) -> (r: bool)
    ensures
        r == strings_view(v@).contains(any_state()),
{
    proof {
        reveal_strlit("*");
    }
    let mut i: usize = 0;
    while i < v.len()
        invariant
            i <= v@.len(),
            "*"@ == any_state(),
            forall|j: int| 0 <= j < i ==> v@[j]@ != any_state(),
        decreases v@.len() - i,
    {
        if str_eq(v[i].as_str(), "*") {
            assert(strings_view(v@)[i as int] == any_state());
            return true;
        }
        i = i + 1;
    }
    proof {
        if strings_view(v@).contains(any_state()) {
            let j = choose|j: int|
                0 <= j < strings_view(v@).len() && strings_view(v@)[j] == any_state();
            assert(v@[j]@ == any_state());
        }
    }
    false
}

/// Whether an entity in state `current` may enter through a condition that
/// admits the states `previous`.
pub fn guard_admits(previous: &Vec<String>, current: Option<&String>) -> (r: bool)
    ensures
        r == guard_allows(
            strings_view(previous@),
            match current {
                Some(c) => Some(c@),
                None => None,
            },
        ),
{
    if previous.len() == 0 {
        current.is_none()
    } else if admits_any(previous) {
        current.is_some()
    } else {
        match current {
            Some(c) => strings_contain(previous, c),
            None => false,
        }
    }
}

/// A state machine: its rules and the current state of every entity it has
/// moved or loaded.
pub struct StateMachine {
    rules: Vec<Rule>,
    entity_label: String,
    key_field: String,
    entities: KeyedStore<EntityRecord>,
}

impl View for StateMachine {
    type V = StateMachineView;

    closed spec fn view(&self) -> StateMachineView {
        StateMachineView {
            rules: self.rules@.map_values(|r: Rule| r@),
            entity_label: self.entity_label@,
            key_field: self.key_field@,
            entities: self.entities@.map_values(|r: EntityRecord| r@),
        }
    }
}

impl StateMachine {
    /// Every entity is held under its own key, and every rule's key template
    /// is plain.
    #[verifier::type_invariant]
    closed spec fn records_keyed(self) -> bool {
        &&& forall|k: Seq<char>| #[trigger]
            self.entities@.contains_key(k) ==> self.entities@[k].key@ == k
        &&& forall|i: int|
            0 <= i < self.rules@.len() ==> plain_template(#[trigger] self.rules@[i].condition.key@)
    }

    /// A state machine with the rules of `config` and no entities; refused
    /// when a key template of `config` uses a partial or a decorator.
    pub fn new(config: &StateMachineReactionConfig) -> (r: Result<Self, ConfigError>)
        ensures
            r is Ok <==> key_templates_plain(config@.states),
            match r {
                Ok(m) => {
                    &&& m@.rules == rules_of(config@.states)
                    &&& m@.entity_label == config@.entity_label
                    &&& m@.key_field == config@.key_field
                    &&& m@.entities == Map::<Seq<char>, EntityRecordView>::empty()
                },
                Err(e) => e == ConfigError::UnsupportedKeyTemplate,
            },
    {
        if !config.key_templates_are_plain() {
            return Err(ConfigError::UnsupportedKeyTemplate);
        }
        let ghost states = config@.states;
        let mut rules: Vec<Rule> = Vec::new();
        let mut i: usize = 0;
        while i < config.states.len()
            invariant
                i <= config.states@.len(),
                states == config@.states,
                key_templates_plain(states),
                forall|k: int| 0 <= k < rules@.len() ==> plain_template(#[trigger] rules@[k].condition.key@),
                rules@.map_values(|r: Rule| r@) == rules_of(states.take(i as int)),
            decreases config.states@.len() - i,
        {
            let state = &config.states[i];
            let ghost before = rules_of(states.take(i as int));
            let mut j: usize = 0;
            while j < state.enter.len()
                invariant
                    i < config.states@.len(),
                    state == config.states@[i as int],
                    j <= state.enter@.len(),
                    states == config@.states,
                    key_templates_plain(states),
                    forall|k: int| 0 <= k < rules@.len() ==> plain_template(#[trigger] rules@[k].condition.key@),
                    before == rules_of(states.take(i as int)),
                    rules@.map_values(|r: Rule| r@) == before + state_rules(states[i as int]).take(
                        j as int,
                    ),
                decreases state.enter@.len() - j,
            {
                let rule = Rule { state: state.id.clone(), condition: state.enter[j].duplicate() };
                assert(plain_template(states[i as int].enter[j as int].key));
                let ghost old_rules = rules@;
                rules.push(rule);
                assert(rules@.map_values(|r: Rule| r@) =~= old_rules.map_values(|r: Rule| r@).push(
                    rule@,
                ));
                assert(before + state_rules(states[i as int]).take(j as int + 1) =~= (before
                    + state_rules(states[i as int]).take(j as int)).push(rule@));
                j = j + 1;
            }
            assert(state_rules(states[i as int]).take(state.enter@.len() as int) =~= state_rules(
                states[i as int],
            ));
            assert(states.take(i as int + 1).drop_last() =~= states.take(i as int));
            i = i + 1;
        }
        assert(states.take(config.states@.len() as int) =~= states);
        let m = StateMachine {
            rules,
            entity_label: config.entity_label.clone(),
            key_field: config.key_field.clone(),
            entities: KeyedStore::new(),
        };
        assert(m@.entities =~= Map::<Seq<char>, EntityRecordView>::empty());
        Ok(m)
    }

    /// The number of rules.
    pub fn rule_count(&self) -> (n: usize)
        ensures
            n == self@.rules.len(),
    {
        self.rules.len()
    }

    /// The record of entity `key`, if it exists.
    pub fn entity(&self, key: &str) -> (r: Option<&EntityRecord>)
        ensures
            match r {
                Some(x) => self@.entities.contains_key(key@) && x@ == self@.entities[key@],
                None => !self@.entities.contains_key(key@),
            },
    {
        self.entities.get(key)
    }

    /// The number of entities held.
    pub fn entity_count(&self) -> (n: usize)
        ensures
            n == self@.entities.len(),
    {
        let n = self.entities.len();
        assert(self@.entities.dom() =~= self.entities@.dom());
        n
    }

    /// Load persisted records, each replacing what was held under its key.
    pub fn load(&mut self, records: Vec<EntityRecord>)
        ensures
            final(self)@ == (StateMachineView {
                entities: old(self)@.entities.union_prefer_right(
                    records_by_key(record_views(records@)),
                ),
                ..old(self)@
            }),
    {
        let ghost start = self@;
        let ghost total = records@;
        let ghost views = total.map_values(|r: EntityRecord| r@);
        let mut records = records;
        let n = records.len();
        let mut i: usize = 0;
        assert(records_by_key(views.take(0)) =~= Map::<Seq<char>, EntityRecordView>::empty());
        assert(start.entities.union_prefer_right(records_by_key(views.take(0))) =~= start.entities);
        assert(records@ =~= total.subrange(0, n as int));
        while i < n
            invariant
                n == total.len(),
                i <= n,
                records@ == total.subrange(i as int, n as int),
                views == total.map_values(|r: EntityRecord| r@),
                self@ == (StateMachineView {
                    entities: start.entities.union_prefer_right(
                        records_by_key(views.take(i as int)),
                    ),
                    ..start
                }),
            decreases n - i,
        {
            let r = records.remove(0);
            assert(r == total[i as int]);
            assert(records@ =~= total.subrange(i as int + 1, n as int));
            assert(views.take(i as int + 1).drop_last() =~= views.take(i as int));
            let key = r.key.clone();
            proof {
                use_type_invariant(&*self);
            }
            let ghost rv = r@;
            let ghost prev = self@.entities;
            let mut entities = KeyedStore::new();
            std::mem::swap(&mut entities, &mut self.entities);
            entities.insert(key, r);
            self.entities = entities;
            assert(views[i as int] == rv);
            assert(records_by_key(views.take(i as int + 1)) == records_by_key(views.take(i as int)).insert(rv.key, rv));
            assert(self@.entities =~= prev.insert(rv.key, rv));
            assert(self@.entities =~= start.entities.union_prefer_right(
                records_by_key(views.take(i as int + 1)),
            ));
            i = i + 1;
        }
        assert(views.take(n as int) =~= views);
    }

    /// The key each rule renders from the change's row: a rule the change's
    /// query and operation drive renders its key template over the row, any
    /// other rule renders nothing.
    pub fn rendered_keys(&self, change: &ResultChange) -> (keys: Vec<Option<String>>)
        ensures
            keys@.len() == self@.rules.len(),
            opt_strings_view(keys@) == keys_of(self@, change@),
    {
        proof {
            use_type_invariant(self);
        }
        let ghost all = keys_of(self@, change@);
        let mut keys: Vec<Option<String>> = Vec::new();
        let mut i: usize = 0;
        while i < self.rules.len()
            invariant
                i <= self.rules@.len(),
                all == keys_of(self@, change@),
                forall|k: int|
                    0 <= k < self.rules@.len() ==> plain_template(#[trigger] self.rules@[k].condition.key@),
                opt_strings_view(keys@) == all.take(i as int),
            decreases self.rules@.len() - i,
        {
            let rule = &self.rules[i];
            assert(self@.rules[i as int] == rule@);
            let ghost before = keys@;
            let k = if rule.condition.query == change.query_id && rule.condition.triggered_by(change.op) {
                render_key(rule.condition.key.as_str(), &change.row)
            } else {
                None
            };
            assert(opt_string_view(k) == all[i as int]);
            keys.push(k);
            assert(opt_strings_view(keys@) =~= opt_strings_view(before).push(opt_string_view(k)));
            assert(all.take(i as int + 1) =~= all.take(i as int).push(all[i as int]));
            i = i + 1;
        }
        assert(all.take(self.rules@.len() as int) =~= all);
        assert(keys@.len() == opt_strings_view(keys@).len());
        keys
    }

    /// The first rule that fires for a change to `query_id` by `op`, given the
    /// key each rule rendered.
    pub fn select_rule(&self, query_id: &String, op: Op, keys: &Vec<Option<String>>) -> (r: Option<
        usize,
    >)
        requires
            keys@.len() == self@.rules.len(),
        ensures
            match r {
                Some(i) => first_eligible(self@, query_id@, op, opt_strings_view(keys@), 0) == Some(
                    i as int,
                ),
                None => first_eligible(self@, query_id@, op, opt_strings_view(keys@), 0) is None,
            },
    {
        let ghost ks = opt_strings_view(keys@);
        let mut i: usize = 0;
        while i < self.rules.len()
            invariant
                i <= self.rules@.len(),
                keys@.len() == self@.rules.len(),
                ks == opt_strings_view(keys@),
                first_eligible(self@, query_id@, op, ks, 0) == first_eligible(
                    self@,
                    query_id@,
                    op,
                    ks,
                    i as int,
                ),
            decreases self.rules@.len() - i,
        {
            let rule = &self.rules[i];
            assert(self@.rules[i as int] == rule@);
            assert(ks[i as int] == opt_string_view(keys@[i as int]));
            if rule.condition.query == *query_id && rule.condition.triggered_by(op) {
                match &keys[i] {
                    Some(k) => {
                        if !k.as_str().is_empty() {
                            let current = match self.entities.get(k.as_str()) {
                                Some(rec) => Some(&rec.state),
                                None => None,
                            };
                            if guard_admits(&rule.condition.previous, current) {
                                return Some(i);
                            }
                        }
                    },
                    None => {},
                }
            }
            i = i + 1;
        }
        None
    }

    /// Entity `key` enters the state of rule `rule` at `now`, taking on the
    /// fields of `row`. The new record is held and a copy handed back.
    pub fn enter_state(
        &mut self,
        rule: usize,
        key: String,
        row: &Vec<(String, serde_json::Value)>,
        now: i64,
    ) -> (r: EntityRecord)
        requires
            rule < old(self)@.rules.len(),
        ensures
            (final(self)@, r@) == after_entering(old(self)@, rule as int, key@, now as int, pairs_map(row@)),
    {
        let ghost m = self@;
        proof {
            use_type_invariant(&*self);
        }
        let mut entities = KeyedStore::new();
        std::mem::swap(&mut entities, &mut self.entities);
        let old = entities.remove(key.as_str());
        let previous_state = match old {
            Some(rec) => Some(rec.state),
            None => None,
        };
        let mut fields = KeyedStore::new();
        merge_fields(&mut fields, row);
        assert(fields@ =~= pairs_map(row@));
        let record = EntityRecord {
            key: key.clone(),
            label: self.entity_label.clone(),
            key_field: self.key_field.clone(),
            state: self.rules[rule].state.clone(),
            previous_state,
            entered_at: now,
            fields,
        };
        let copy = record.duplicate();
        entities.insert(key, record);
        self.entities = entities;
        proof {
            let old_view = if m.entities.contains_key(key@) {
                Some(m.entities[key@])
            } else {
                None
            };
            assert(self@.rules[rule as int] == m.rules[rule as int]);
            assert(copy@ == entered(
                old_view,
                m.rules[rule as int].state,
                key@,
                m.entity_label,
                m.key_field,
                now as int,
                pairs_map(row@),
            ));
            assert(self@.entities =~= m.entities.insert(key@, copy@));
        }
        copy
    }

    /// Apply one row change at time `now`: render each driven rule's key, take
    /// the first rule that fires, and move its entity. The new record, if any,
    /// is handed back.
    pub fn process(&mut self, change: &ResultChange, now: i64) -> (r: Option<EntityRecord>)
        ensures
            step(old(self)@, change@, now as int) == (final(self)@, opt_record_view(r)),
    {
        let keys = self.rendered_keys(change);
        let ghost ks = opt_strings_view(keys@);
        match self.select_rule(&change.query_id, change.op, &keys) {
            None => {
                assert(step_with(self@, change@, ks, now as int) == (self@, opt_record_view(None)));
                None
            },
            Some(i) => {
                let ghost m = self@;
                proof {
                    lemma_first_eligible(m, change@.query_id, change@.op, ks, 0);
                    assert(ks[i as int] == opt_string_view(keys@[i as int]));
                }
                let key = match &keys[i] {
                    Some(k) => k.clone(),
                    None => String::new(),
                };
                let rec = self.enter_state(i, key, &change.row, now);
                assert(step_with(m, change@, ks, now as int) == (self@, opt_record_view(Some(rec))));
                Some(rec)
            },
        }
    }
}

impl StateMachine {
    /// Apply the row changes of one query result, in order, at time `now`. The
    /// records of the entities that moved are handed back in order.
    pub fn process_all(&mut self, changes: &Vec<ResultChange>, now: i64) -> (out: Vec<EntityRecord>)
        ensures
            run(old(self)@, change_views(changes@), now as int) == (final(self)@, record_views(out@)),
    {
        let ghost start = self@;
        let ghost views = change_views(changes@);
        let mut out: Vec<EntityRecord> = Vec::new();
        let mut i: usize = 0;
        assert(record_views(out@) =~= Seq::<EntityRecordView>::empty());
        while i < changes.len()
            invariant
                i <= changes@.len(),
                views == change_views(changes@),
                run(start, views.take(i as int), now as int) == (self@, record_views(out@)),
            decreases changes@.len() - i,
        {
            let ghost out_before = record_views(out@);
            let r = self.process(&changes[i], now);
            assert(views[i as int] == changes@[i as int]@);
            assert(views.take(i as int + 1).drop_last() =~= views.take(i as int));
            match r {
                Some(rec) => {
                    out.push(rec);
                    assert(record_views(out@) =~= out_before.push(rec@));
                },
                None => {},
            }
            i = i + 1;
        }
        assert(views.take(changes@.len() as int) =~= views);
        out
    }
}

/// The rule `first_eligible` picks does fire, and lies after `from`.
pub proof fn lemma_first_eligible(
    m: StateMachineView,
    query: Seq<char>,
    op: Op,
    keys: Seq<Option<Seq<char>>>,
    from: int,
)
    requires
        0 <= from,
    ensures
        match first_eligible(m, query, op, keys, from) {
            Some(i) => from <= i < m.rules.len() && eligible(m, query, op, keys, i) && forall|j: int|
                from <= j < i ==> !#[trigger] eligible(m, query, op, keys, j),
            None => forall|j: int|
                from <= j < m.rules.len() ==> !#[trigger] eligible(m, query, op, keys, j),
        },
    decreases m.rules.len() - from,
{
    if from < m.rules.len() && !eligible(m, query, op, keys, from) {
        lemma_first_eligible(m, query, op, keys, from + 1);
    }
}

} // verus!
