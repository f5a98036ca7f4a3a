//! Configuration of a state machine reaction: its states and the conditions
//! under which an entity enters each of them.

use vstd::prelude::*;

use crate::template::{is_plain_template, plain_template};

verus! {

/// A result operation of a continuous query.
#[derive(Clone, Copy, Debug, PartialEq, Eq, Structural)]
pub enum Op {
    Added,
    Updated,
    Deleted,
}

/// One way into a state: which query's results drive it, which of their
/// operations trigger it, which states the entity may be in beforehand, and
/// the template that extracts the entity key from a result row.
///
/// `previous` empty means the entity must not exist yet (initial entry);
/// `previous` holding `"*"` admits an entity in any state.
#[derive(Debug)]
pub struct EnterCondition {
    pub query: String,
    pub previous: Vec<String>,
    pub key: String,
    pub ops: Vec<Op>,
}

/// A state and the conditions under which an entity enters it.
#[derive(Debug)]
pub struct StateDef {
    pub id: String,
    pub enter: Vec<EnterCondition>,
}

/// The configuration of a state machine reaction.
#[derive(Debug)]
pub struct StateMachineReactionConfig {
    /// The id under which the companion source is registered.
    pub source_id: String,
    /// The label of emitted entity-state nodes.
    pub entity_label: String,
    /// The node property that holds the entity key.
    pub key_field: String,
    pub states: Vec<StateDef>,
}

/// Why a configuration is refused.
#[derive(Clone, Copy, Debug, PartialEq, Eq, Structural)]
pub enum ConfigError {
    /// `source_id` is empty: the companion source would have no id.
    MissingSourceId,
    /// An entity-key template uses a partial or a decorator.
    UnsupportedKeyTemplate,
}

pub struct EnterConditionView {
    pub query: Seq<char>,
    pub previous: Seq<Seq<char>>,
    pub key: Seq<char>,
    pub ops: Seq<Op>,
}

pub struct StateDefView {
    pub id: Seq<char>,
    pub enter: Seq<EnterConditionView>,
}

pub struct ConfigView {
    pub source_id: Seq<char>,
    pub entity_label: Seq<char>,
    pub key_field: Seq<char>,
    pub states: Seq<StateDefView>,
}

/// The characters of each string.
pub open spec fn strings_view(s: Seq<String>) -> Seq<Seq<char>> {
    s.map_values(|x: String| x@)
}

impl View for EnterCondition {
    type V = EnterConditionView;

    open spec fn view(&self) -> EnterConditionView {
        EnterConditionView {
            query: self.query@,
            previous: strings_view(self.previous@),
            key: self.key@,
            ops: self.ops@,
        }
    }
}

impl View for StateDef {
    type V = StateDefView;

    open spec fn view(&self) -> StateDefView {
        StateDefView { id: self.id@, enter: self.enter@.map_values(|c: EnterCondition| c@) }
    }
}

impl View for StateMachineReactionConfig {
    type V = ConfigView;

    open spec fn view(&self) -> ConfigView {
        ConfigView {
            source_id: self.source_id@,
            entity_label: self.entity_label@,
            key_field: self.key_field@,
            states: self.states@.map_values(|s: StateDef| s@),
        }
    }
}

/// The label of entity nodes when none is configured.
pub open spec fn default_entity_label() -> Seq<char> {
    seq!['E', 'n', 't', 'i', 't', 'y', 'S', 't', 'a', 't', 'e']
}

/// The key property of entity nodes when none is configured.
pub open spec fn default_key_field() -> Seq<char> {
    seq!['k', 'e', 'y']
}

/// Every enter condition's key template is plain: it uses no partial and no
/// decorator.
pub open spec fn key_templates_plain(states: Seq<StateDefView>) -> bool {
    forall|i: int, j: int|
        0 <= i < states.len() && 0 <= j < states[i].enter.len() ==> plain_template(
            #[trigger] states[i].enter[j].key,
        )
}

/// A configuration is accepted exactly when it names its companion source and
/// all its key templates are plain.
pub open spec fn config_valid(c: ConfigView) -> bool {
    c.source_id.len() > 0 && key_templates_plain(c.states)
}

/// Why a configuration that is not valid is refused: a missing source id
/// first, else a key template.
pub open spec fn config_error(c: ConfigView) -> ConfigError {
    if c.source_id.len() == 0 {
        ConfigError::MissingSourceId
    } else {
        ConfigError::UnsupportedKeyTemplate
    }
}

/// The queries of a state's enter conditions, in order.
pub open spec fn state_queries(s: StateDefView) -> Seq<Seq<char>> {
    s.enter.map_values(|c: EnterConditionView| c.query)
}

/// The queries of all enter conditions, state by state, in order.
pub open spec fn all_queries(states: Seq<StateDefView>) -> Seq<Seq<char>>
    decreases states.len(),
{
    if states.len() == 0 {
        Seq::empty()
    } else {
        all_queries(states.drop_last()) + state_queries(states.last())
    }
}

/// The elements of `s` in order of first occurrence, each once.
pub open spec fn distinct<A>(s: Seq<A>) -> Seq<A>
    decreases s.len(),
{
    if s.len() == 0 {
        Seq::empty()
    } else {
        let d = distinct(s.drop_last());
        if d.contains(s.last()) {
            d
        } else {
            d.push(s.last())
        }
    }
}

/// The queries a state machine subscribes to: every query an enter condition
/// names, once each, in order of first mention.
pub open spec fn referenced_queries_of(c: ConfigView) -> Seq<Seq<char>> {
    distinct(all_queries(c.states))
}

proof fn lemma_distinct_push<A>(s: Seq<A>, x: A)
    ensures
        distinct(s.push(x)) == (if distinct(s).contains(x) {
            distinct(s)
        } else {
            distinct(s).push(x)
        }),
{
    assert(s.push(x).drop_last() =~= s);
}

proof fn lemma_contains_push<A>(t: Seq<A>, a: A, x: A)
    ensures
        t.push(a).contains(x) <==> (t.contains(x) || x == a),
{
    if t.contains(x) {
        let i = choose|i: int| 0 <= i < t.len() && t[i] == x;
        assert(t.push(a)[i] == x);
    }
    if x == a {
        assert(t.push(a)[t.len() as int] == x);
    }
    if t.push(a).contains(x) && x != a {
        let i = choose|i: int| 0 <= i < t.push(a).len() && t.push(a)[i] == x;
        assert(t[i] == x);
    }
}

/// Every element of `s` occurs in `distinct(s)` and the other way round, and
/// nothing occurs twice in it.
pub proof fn lemma_distinct<A>(s: Seq<A>)
    ensures
        distinct(s).no_duplicates(),
        forall|x: A| distinct(s).contains(x) <==> s.contains(x),
    decreases s.len(),
{
    if s.len() > 0 {
        let t = s.drop_last();
        let a = s.last();
        let d = distinct(t);
        lemma_distinct(t);
        assert(s =~= t.push(a));
        assert forall|x: A| distinct(s).contains(x) <==> s.contains(x) by {
            lemma_contains_push(t, a, x);
            lemma_contains_push(d, a, x);
        }
        if !d.contains(a) {
            assert forall|i: int, j: int|
                0 <= i < d.push(a).len() && 0 <= j < d.push(a).len() && i != j
                implies d.push(a)[i] != d.push(a)[j] by {
                if i == d.len() {
                    assert(d[j] == d.push(a)[j]);
                } else if j == d.len() {
                    assert(d[i] == d.push(a)[i]);
                }
            }
        }
    }
}

/// Whether `v` holds a string with the characters of `x`.
pub fn strings_contain(v: &Vec<String>, x: &String) -> (r: bool)
    ensures
        r == strings_view(v@).contains(x@),
{
    let mut i: usize = 0;
    while i < v.len()
        invariant
            i <= v@.len(),
            forall|j: int| 0 <= j < i ==> v@[j]@ != x@,
        decreases v@.len() - i,
    {
        if v[i] == *x {
            assert(strings_view(v@)[i as int] == x@);
            return true;
        }
        i = i + 1;
    }
    proof {
        if strings_view(v@).contains(x@) {
            let j = choose|j: int| 0 <= j < strings_view(v@).len() && strings_view(v@)[j] == x@;
            assert(v@[j]@ == x@);
        }
    }
    false
}

/// A copy of a vector of strings.
pub fn copy_strings(v: &Vec<String>) -> (r: Vec<String>)
    ensures
        r@ == v@,
{
    let mut r: Vec<String> = Vec::new();
    let mut i: usize = 0;
    while i < v.len()
        invariant
            i <= v@.len(),
            r@ == v@.take(i as int),
        decreases v@.len() - i,
    {
        r.push(v[i].clone());
        assert(v@.take(i as int + 1) =~= v@.take(i as int).push(v@[i as int]));
        i = i + 1;
    }
    assert(v@.take(v@.len() as int) =~= v@);
    r
}

/// A copy of a vector of operations.
pub fn copy_ops(v: &Vec<Op>) -> (r: Vec<Op>)
    ensures
        r@ == v@,
{
    let mut r: Vec<Op> = Vec::new();
    let mut i: usize = 0;
    while i < v.len()
        invariant
            i <= v@.len(),
            r@ == v@.take(i as int),
        decreases v@.len() - i,
    {
        r.push(v[i]);
        assert(v@.take(i as int + 1) =~= v@.take(i as int).push(v@[i as int]));
        i = i + 1;
    }
    assert(v@.take(v@.len() as int) =~= v@);
    r
}

impl EnterCondition {
    /// A copy of this condition.
    pub fn duplicate(&self) -> (r: Self)
        ensures
            r@ == self@,
    {
        let r = EnterCondition {
            query: self.query.clone(),
            previous: copy_strings(&self.previous),
            key: self.key.clone(),
            ops: copy_ops(&self.ops),
        };
        assert(r@.previous =~= self@.previous);
        r
    }

    /// Whether `op` triggers this condition.
    pub fn triggered_by(&self, op: Op) -> (r: bool)
        ensures
            r == self@.ops.contains(op),
    {
        let mut i: usize = 0;
        while i < self.ops.len()
            invariant
                i <= self.ops@.len(),
                forall|j: int| 0 <= j < i ==> self.ops@[j] != op,
            decreases self.ops@.len() - i,
        {
            if self.ops[i] == op {
                return true;
            }
            i = i + 1;
        }
        false
    }
}

impl StateDef {
    /// A copy of this state definition.
    pub fn duplicate(&self) -> (r: Self)
        ensures
            r@ == self@,
    {
        let mut enter: Vec<EnterCondition> = Vec::new();
        let mut i: usize = 0;
        while i < self.enter.len()
            invariant
                i <= self.enter@.len(),
                enter@.len() == i,
                forall|j: int| 0 <= j < i ==> #[trigger] enter@[j]@ == self.enter@[j]@,
            decreases self.enter@.len() - i,
        {
            enter.push(self.enter[i].duplicate());
            i = i + 1;
        }
        let r = StateDef { id: self.id.clone(), enter };
        assert(r@.enter =~= self@.enter);
        r
    }
}

impl StateMachineReactionConfig {
    /// The default configuration: no source id, label `EntityState`, key
    /// property `key`, no states.
    pub fn default() -> (c: Self)
        ensures
            c@.source_id.len() == 0,
            c@.entity_label == default_entity_label(),
            c@.key_field == default_key_field(),
            c@.states.len() == 0,
    {
        let c = StateMachineReactionConfig {
            source_id: String::new(),
            entity_label: "EntityState".to_owned(),
            key_field: "key".to_owned(),
            states: Vec::new(),
        };
        proof {
            reveal_strlit("EntityState");
            reveal_strlit("key");
        }
        assert(c@.states =~= Seq::<StateDefView>::empty());
        c
    }

    /// A copy of this configuration.
    pub fn duplicate(&self) -> (r: Self)
        ensures
            r@ == self@,
    {
        let mut states: Vec<StateDef> = Vec::new();
        let mut i: usize = 0;
        while i < self.states.len()
            invariant
                i <= self.states@.len(),
                states@.len() == i,
                forall|j: int| 0 <= j < i ==> #[trigger] states@[j]@ == self.states@[j]@,
            decreases self.states@.len() - i,
        {
            states.push(self.states[i].duplicate());
            i = i + 1;
        }
        let r = StateMachineReactionConfig {
            source_id: self.source_id.clone(),
            entity_label: self.entity_label.clone(),
            key_field: self.key_field.clone(),
            states,
        };
        assert(r@.states =~= self@.states);
        r
    }

    /// Accept the configuration, or say why not.
    pub fn validate(&self) -> (r: Result<(), ConfigError>)
        ensures
            r is Ok <==> config_valid(self@),
            r is Err ==> r == Err::<(), ConfigError>(config_error(self@)),
    {
        if self.source_id.as_str().is_empty() {
            Err(ConfigError::MissingSourceId)
        } else if !self.key_templates_are_plain() {
            Err(ConfigError::UnsupportedKeyTemplate)
        } else {
            Ok(())
        }
    }

    /// Whether every enter condition's key template is plain.
    pub fn key_templates_are_plain(&self) -> (r: bool)
        ensures
            r == key_templates_plain(self@.states),
    {
        let ghost states = self@.states;
        let mut i: usize = 0;
        while i < self.states.len()
            invariant
                i <= self.states@.len(),
                states == self@.states,
                forall|a: int, b: int|
                    0 <= a < i && 0 <= b < states[a].enter.len() ==> plain_template(
                        #[trigger] states[a].enter[b].key,
                    ),
            decreases self.states@.len() - i,
        {
            let state = &self.states[i];
            let mut j: usize = 0;
            while j < state.enter.len()
                invariant
                    i < self.states@.len(),
                    state == self.states@[i as int],
                    states == self@.states,
                    j <= state.enter@.len(),
                    forall|a: int, b: int|
                        0 <= a < i && 0 <= b < states[a].enter.len() ==> plain_template(
                            #[trigger] states[a].enter[b].key,
                        ),
                    forall|b: int| 0 <= b < j ==> plain_template(#[trigger] states[i as int].enter[b].key),
                decreases state.enter@.len() - j,
            {
                assert(states[i as int].enter[j as int] == state.enter@[j as int]@);
                if !is_plain_template(state.enter[j].key.as_str()) {
                    assert(!plain_template(states[i as int].enter[j as int].key));
                    return false;
                }
                j = j + 1;
            }
            assert forall|a: int, b: int|
                0 <= a < i + 1 && 0 <= b < states[a].enter.len() implies plain_template(
                    #[trigger] states[a].enter[b].key,
                ) by {
                if a == i {
                    assert(plain_template(states[i as int].enter[b].key));
                }
            }
            i = i + 1;
        }
        true
    }

    /// The queries this state machine subscribes to: each query named by an
    /// enter condition, once, in order of first mention.
    pub fn referenced_queries(&self) -> (r: Vec<String>)
        ensures
            strings_view(r@) == referenced_queries_of(self@),
    {
        let ghost states = self@.states;
        let mut r: Vec<String> = Vec::new();
        let mut i: usize = 0;
        while i < self.states.len()
            invariant
                i <= self.states@.len(),
                states == self@.states,
                strings_view(r@) == distinct(all_queries(states.take(i as int))),
            decreases self.states@.len() - i,
        {
            let state = &self.states[i];
            let ghost before = all_queries(states.take(i as int));
            let mut j: usize = 0;
            while j < state.enter.len()
                invariant
                    i < self.states@.len(),
                    state == self.states@[i as int],
                    j <= state.enter@.len(),
                    states == self@.states,
                    before == all_queries(states.take(i as int)),
                    strings_view(r@) == distinct(
                        before + state_queries(states[i as int]).take(j as int),
                    ),
                decreases state.enter@.len() - j,
            {
                let q = &state.enter[j].query;
                let ghost prefix = before + state_queries(states[i as int]).take(j as int);
                assert(before + state_queries(states[i as int]).take(j as int + 1) =~= prefix.push(
                    q@,
                ));
                proof {
                    lemma_distinct_push(prefix, q@);
                }
                if !strings_contain(&r, q) {
                    r.push(q.clone());
                    assert(strings_view(r@) =~= distinct(prefix).push(q@));
                }
                j = j + 1;
            }
            assert(state_queries(states[i as int]).take(state.enter@.len() as int)
                =~= state_queries(states[i as int]));
            assert(states.take(i as int + 1).drop_last() =~= states.take(i as int));
            i = i + 1;
        }
        assert(states.take(self.states@.len() as int) =~= states);
        r
    }
}

} // verus!
