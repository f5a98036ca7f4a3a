//! What holds of the state machine, its registry and its persisted state
//! across calls, and of the mapping of dashboard settings.

use vstd::prelude::*;

use crate::node::{admits, bootstrap_of, node_of, NodeElementView};
use crate::config::{all_queries, lemma_distinct, referenced_queries_of, ConfigView};
use crate::engine::{
    any_state, applicable, current_state, eligible, RuleView, first_eligible, guard_allows, keys_of,
    lemma_first_eligible, records_by_key, step, EntityRecordView, ResultChangeView,
    StateMachineView,
};
use crate::template::rendered_key;
use crate::config::Op;
use crate::dashboard::{
    dashboard_of, settings_config, settings_reaction, widget_of, DashboardReactionSettingsView,
    DashboardWidgetView, GridOptions, PredefinedDashboardDtoView, WidgetGrid,
};

verus! {

/// An entity only moves by a rule that its change drives, into that rule's
/// state, from a state the rule admits: a `previous` list that is empty admits
/// only an entity that does not exist yet, one holding `*` any existing
/// entity. The entity that moves is the one whose key the rule's template
/// renders from the row, and its record remembers the state it left.
pub proof fn lemma_transition_respects_guard(
    m: StateMachineView,
    change: ResultChangeView,
    now: int,
    r: EntityRecordView,
)
    requires
        step(m, change, now).1 == Some(r),
    ensures
        exists|i: int|
            0 <= i < m.rules.len() && applicable(#[trigger] m.rules[i], change.query_id, change.op)
                && r.state == m.rules[i].state && rendered_key(
                m.rules[i].condition.key,
                change.fields,
            ) == Some(r.key) && guard_allows(m.rules[i].condition.previous, r.previous_state),
        r.previous_state == current_state(m.entities, r.key),
        r.key.len() > 0,
        r.entered_at == now,
{
    let keys = keys_of(m, change);
    lemma_first_eligible(m, change.query_id, change.op, keys, 0);
    let i = first_eligible(m, change.query_id, change.op, keys, 0)->0;
    assert(eligible(m, change.query_id, change.op, keys, i));
    assert(applicable(m.rules[i], change.query_id, change.op));
}

/// When a change drives a rule whose template renders a non-empty key for an
/// entity in a state the rule admits, some entity moves: the one named by the
/// first such rule, which is this rule or an earlier one.
pub proof fn lemma_matching_change_moves(
    m: StateMachineView,
    change: ResultChangeView,
    now: int,
    i: int,
)
    requires
        0 <= i < m.rules.len(),
        applicable(m.rules[i], change.query_id, change.op),
        rendered_key(m.rules[i].condition.key, change.fields) is Some,
        rendered_key(m.rules[i].condition.key, change.fields)->0.len() > 0,
        guard_allows(
            m.rules[i].condition.previous,
            current_state(m.entities, rendered_key(m.rules[i].condition.key, change.fields)->0),
        ),
    ensures
        step(m, change, now).1 is Some,
        first_eligible(m, change.query_id, change.op, keys_of(m, change), 0) is Some,
        first_eligible(m, change.query_id, change.op, keys_of(m, change), 0)->0 <= i,
{
    let keys = keys_of(m, change);
    assert(keys[i] == rendered_key(m.rules[i].condition.key, change.fields));
    assert(eligible(m, change.query_id, change.op, keys, i));
    lemma_first_eligible(m, change.query_id, change.op, keys, 0);
}

/// A change that no rule is driven by (another query, or an operation no
/// condition of that query lists) leaves every entity as it was.
pub proof fn lemma_undriven_change_is_ignored(m: StateMachineView, change: ResultChangeView, now: int)
    requires
        forall|i: int| 0 <= i < m.rules.len() ==> !applicable(#[trigger] m.rules[i], change.query_id, change.op),
    ensures
        step(m, change, now) == (m, None::<EntityRecordView>),
{
    let keys = keys_of(m, change);
    lemma_first_eligible(m, change.query_id, change.op, keys, 0);
    if first_eligible(m, change.query_id, change.op, keys, 0) is Some {
        let i = first_eligible(m, change.query_id, change.op, keys, 0)->0;
        assert(applicable(m.rules[i], change.query_id, change.op));
    }
}

/// After a transition the entity's record is the one handed back, every other
/// entity is as it was, and the rules do not change. The record's fields are
/// exactly those of the row that moved it, and its previous state is the state
/// it was in (none for an entity that did not exist).
pub proof fn lemma_transition_is_recorded(
    m: StateMachineView,
    change: ResultChangeView,
    now: int,
    r: EntityRecordView,
)
    requires
        step(m, change, now).1 == Some(r),
    ensures
        ({
            let m2 = step(m, change, now).0;
            &&& m2.entities.contains_key(r.key)
            &&& m2.entities[r.key] == r
            &&& forall|k: Seq<char>|
                k != r.key ==> (#[trigger] m2.entities.contains_key(k) <==> m.entities.contains_key(k))
                    && (m.entities.contains_key(k) ==> m2.entities[k] == m.entities[k])
            &&& m2.rules == m.rules
            &&& m2.entity_label == m.entity_label
            &&& m2.key_field == m.key_field
        }),
        r.fields == change.row,
        r.previous_state == current_state(m.entities, r.key),
{
}

/// Loading records leaves each loaded key with the last record loaded for it.
pub proof fn lemma_load_keeps_last(s: Seq<EntityRecordView>, i: int)
    requires
        0 <= i < s.len(),
        forall|j: int| i < j < s.len() ==> #[trigger] s[j].key != s[i].key,
    ensures
        records_by_key(s).contains_key(s[i].key),
        records_by_key(s)[s[i].key] == s[i],
    decreases s.len(),
{
    if i < s.len() - 1 {
        let t = s.drop_last();
        assert forall|j: int| i < j < t.len() implies #[trigger] t[j].key != t[i].key by {
            assert(t[j] == s[j]);
        }
        lemma_load_keeps_last(t, i);
        assert(s.last() == s[s.len() - 1]);
    }
}

proof fn lemma_records_by_key_agrees(s: Seq<EntityRecordView>, e: Map<Seq<char>, EntityRecordView>)
    requires
        forall|i: int| 0 <= i < s.len() ==> e.contains_key(#[trigger] s[i].key) && e[s[i].key] == s[i],
    ensures
        forall|k: Seq<char>| #[trigger]
            records_by_key(s).contains_key(k) ==> e.contains_key(k) && records_by_key(s)[k] == e[k],
        forall|k: Seq<char>|
            (exists|i: int| 0 <= i < s.len() && #[trigger] s[i].key == k) ==> #[trigger] records_by_key(s).contains_key(k),
    decreases s.len(),
{
    if s.len() > 0 {
        let t = s.drop_last();
        assert forall|i: int| 0 <= i < t.len() implies e.contains_key(#[trigger] t[i].key) && e[t[i].key] == t[i] by {
            assert(t[i] == s[i]);
        }
        lemma_records_by_key_agrees(t, e);
        let last = s[s.len() - 1];
        assert(s.last() == last);
        assert(records_by_key(s) == records_by_key(t).insert(last.key, last));
        assert forall|k: Seq<char>| #[trigger]
            records_by_key(s).contains_key(k) implies e.contains_key(k) && records_by_key(s)[k] == e[k] by {
            if k != last.key {
                assert(records_by_key(t).contains_key(k));
            }
        }
        assert forall|k: Seq<char>|
            (exists|i: int| 0 <= i < s.len() && #[trigger] s[i].key == k) implies #[trigger] records_by_key(s).contains_key(k) by {
            let i = choose|i: int| 0 <= i < s.len() && #[trigger] s[i].key == k;
            if i < s.len() - 1 {
                assert(t[i].key == k);
                assert(records_by_key(t).contains_key(k));
            }
        }
    }
}

/// Reloading the records of every entity, in any order, into a state machine
/// that holds none gives back exactly the entities it held: a restart loses
/// no state and changes no guard.
pub proof fn lemma_reload_restores(s: Seq<EntityRecordView>, e: Map<Seq<char>, EntityRecordView>)
    requires
        forall|i: int| 0 <= i < s.len() ==> e.contains_key(#[trigger] s[i].key) && e[s[i].key] == s[i],
        forall|k: Seq<char>| #[trigger] e.contains_key(k) ==> exists|i: int| 0 <= i < s.len() && #[trigger] s[i].key == k,
    ensures
        Map::<Seq<char>, EntityRecordView>::empty().union_prefer_right(records_by_key(s)) == e,
{
    lemma_records_by_key_agrees(s, e);
    assert(Map::<Seq<char>, EntityRecordView>::empty().union_prefer_right(records_by_key(s)) =~= e);
}

/// The queries a state machine subscribes to are exactly those its enter
/// conditions name, each once.
pub proof fn lemma_referenced_queries(c: ConfigView)
    ensures
        referenced_queries_of(c).no_duplicates(),
        forall|q: Seq<char>|
            #[trigger] referenced_queries_of(c).contains(q) <==> all_queries(c.states).contains(q),
{
    lemma_distinct(all_queries(c.states));
}

/// Once a source publishes a sender, the reaction finds that sender under the
/// source's id, whatever other sources do.
pub proof fn lemma_register_then_find<T>(registry: Map<Seq<char>, T>, id: Seq<char>, sender: T)
    ensures
        registry.insert(id, sender).contains_key(id),
        registry.insert(id, sender)[id] == sender,
        forall|other: Seq<char>|
            other != id ==> (#[trigger] registry.insert(id, sender).contains_key(other)
                <==> registry.contains_key(other)),
{
}

/// A restarted source replaces the sender it published before.
pub proof fn lemma_restart_replaces_sender<T>(
    registry: Map<Seq<char>, T>,
    id: Seq<char>,
    first: T,
    second: T,
)
    ensures
        registry.insert(id, first).insert(id, second) == registry.insert(id, second),
{
    assert(registry.insert(id, first).insert(id, second) =~= registry.insert(id, second));
}

/// Once a source stops, the reaction finds no sender under its id, and a
/// stopped source can be restarted.
pub proof fn lemma_unregister_then_absent<T>(registry: Map<Seq<char>, T>, id: Seq<char>, sender: T)
    ensures
        !registry.remove(id).contains_key(id),
        registry.insert(id, sender).remove(id) == registry.remove(id),
        registry.remove(id).insert(id, sender)[id] == sender,
{
    assert(registry.insert(id, sender).remove(id) =~= registry.remove(id));
}

/// A late subscriber is bootstrapped with the node of every persisted record
/// whose label it asked for (or of every record, if it asked for none), and
/// with nothing else.
pub proof fn lemma_bootstrap_replays_persisted(
    source_id: Seq<char>,
    records: Seq<EntityRecordView>,
    requested: Seq<Seq<char>>,
    now: int,
)
    ensures
        forall|i: int|
            0 <= i < records.len() && admits(requested, records[i].label) ==> bootstrap_of(
                source_id,
                records,
                requested,
                now,
            ).contains(#[trigger] node_of(source_id, records[i], now)),
        forall|e: NodeElementView|
            #[trigger] bootstrap_of(source_id, records, requested, now).contains(e) ==> exists|i: int|
                0 <= i < records.len() && admits(requested, records[i].label) && e == node_of(
                    source_id,
                    #[trigger] records[i],
                    now,
                ),
    decreases records.len(),
{
    if records.len() > 0 {
        let t = records.drop_last();
        let last = records.last();
        let rest = bootstrap_of(source_id, t, requested, now);
        lemma_bootstrap_replays_persisted(source_id, t, requested, now);
        assert forall|i: int|
            0 <= i < records.len() && admits(requested, records[i].label) implies bootstrap_of(
                source_id,
                records,
                requested,
                now,
            ).contains(#[trigger] node_of(source_id, records[i], now)) by {
            if i < records.len() - 1 {
                assert(t[i] == records[i]);
                let j = choose|j: int| 0 <= j < rest.len() && rest[j] == node_of(source_id, t[i], now);
                if admits(requested, last.label) {
                    assert(rest.push(node_of(source_id, last, now))[j] == rest[j]);
                }
            } else {
                let full = rest.push(node_of(source_id, last, now));
                assert(full[rest.len() as int] == node_of(source_id, last, now));
            }
        }
        assert forall|e: NodeElementView|
            #[trigger] bootstrap_of(source_id, records, requested, now).contains(e) implies exists|i: int|
                0 <= i < records.len() && admits(requested, records[i].label) && e == node_of(
                    source_id,
                    #[trigger] records[i],
                    now,
                ) by {
            let full = bootstrap_of(source_id, records, requested, now);
            let j = choose|j: int| 0 <= j < full.len() && full[j] == e;
            if j < rest.len() {
                assert(full[j] == rest[j]);
                assert(rest.contains(e));
                let i = choose|i: int|
                    0 <= i < t.len() && admits(requested, t[i].label) && e == node_of(
                        source_id,
                        #[trigger] t[i],
                        now,
                    );
                assert(records[i] == t[i]);
            } else {
                assert(records[records.len() - 1] == last);
            }
        }
    }
}

/// A condition is driven by a change exactly when the change comes from the
/// condition's query and its operation is one of those the condition lists,
/// whichever operation that is (additions, updates and deletions alike).
pub proof fn lemma_listed_operation_drives(r: RuleView, query: Seq<char>, op: Op)
    ensures
        applicable(r, query, op) <==> (r.condition.query == query && exists|k: int|
            0 <= k < r.condition.ops.len() && r.condition.ops[k] == op),
{
}

/// The previous-state guard: an empty list admits only an entity that does
/// not exist yet; a list holding `*` admits every existing entity; any other
/// list admits exactly the existing entities whose state is one of its
/// entries, wherever in the list that entry stands.
pub proof fn lemma_guard_admits_listed_states(previous: Seq<Seq<char>>, s: Seq<char>)
    ensures
        previous.len() == 0 ==> guard_allows(previous, None) && !guard_allows(previous, Some(s)),
        previous.len() > 0 ==> !guard_allows(previous, None),
        (exists|j: int| 0 <= j < previous.len() && previous[j] == seq!['*']) ==> guard_allows(
            previous,
            Some(s),
        ),
        (forall|j: int| 0 <= j < previous.len() ==> previous[j] != seq!['*']) ==> (guard_allows(
            previous,
            Some(s),
        ) <==> (previous.len() > 0 && exists|j: int| 0 <= j < previous.len() && previous[j] == s)),
{
    assert(any_state() =~= seq!['*']);
    if exists|j: int| 0 <= j < previous.len() && previous[j] == seq!['*'] {
        let j = choose|j: int| 0 <= j < previous.len() && previous[j] == seq!['*'];
        assert(previous[j] == any_state());
    }
    if forall|j: int| 0 <= j < previous.len() ==> previous[j] != seq!['*'] {
        assert(!previous.contains(any_state()));
    }
}

/// A change from a condition's query, by an operation the condition lists,
/// whose row renders a non-empty key for an existing entity in a state the
/// condition lists (and no `*`), moves that entity into the condition's state,
/// remembering the state it left, when no earlier condition is driven by the
/// change.
pub proof fn lemma_driven_change_moves_listed_entity(
    m: StateMachineView,
    change: ResultChangeView,
    now: int,
    i: int,
    k: int,
    j: int,
    key: Seq<char>,
)
    requires
        0 <= i < m.rules.len(),
        m.rules[i].condition.query == change.query_id,
        0 <= k < m.rules[i].condition.ops.len(),
        m.rules[i].condition.ops[k] == change.op,
        forall|h: int, o: int|
            0 <= h < i && 0 <= o < m.rules[h].condition.ops.len() && m.rules[h].condition.query
                == change.query_id ==> m.rules[h].condition.ops[o] != change.op,
        rendered_key(m.rules[i].condition.key, change.fields) == Some(key),
        key.len() > 0,
        m.entities.contains_key(key),
        forall|x: int|
            0 <= x < m.rules[i].condition.previous.len() ==> m.rules[i].condition.previous[x]
                != seq!['*'],
        0 <= j < m.rules[i].condition.previous.len(),
        m.rules[i].condition.previous[j] == m.entities[key].state,
    ensures
        ({
            let (m2, r) = step(m, change, now);
            &&& r == Some(m2.entities[key])
            &&& m2.entities[key].key == key
            &&& m2.entities[key].state == m.rules[i].state
            &&& m2.entities[key].previous_state == Some(m.entities[key].state)
            &&& m2.entities[key].fields == change.row
        }),
{
    let keys = keys_of(m, change);
    lemma_listed_operation_drives(m.rules[i], change.query_id, change.op);
    lemma_guard_admits_listed_states(m.rules[i].condition.previous, m.entities[key].state);
    lemma_matching_change_moves(m, change, now, i);
    lemma_first_eligible(m, change.query_id, change.op, keys, 0);
    let f = first_eligible(m, change.query_id, change.op, keys, 0)->0;
    if f < i {
        assert(eligible(m, change.query_id, change.op, keys, f));
        assert(applicable(m.rules[f], change.query_id, change.op));
        let o = choose|o: int|
            0 <= o < m.rules[f].condition.ops.len() && m.rules[f].condition.ops[o] == change.op;
        assert(m.rules[f].condition.ops[o] != change.op);
    }
    assert(f == i);
    assert(keys[i] == rendered_key(m.rules[i].condition.key, change.fields));
}

/// A bootstrap request that names labels takes a node exactly when its label
/// is one of them, wherever in the request it stands; one that names none
/// takes every node. So every persisted record whose label is requested is
/// replayed.
pub proof fn lemma_bootstrap_takes_requested_labels(
    source_id: Seq<char>,
    records: Seq<EntityRecordView>,
    requested: Seq<Seq<char>>,
    label: Seq<char>,
    now: int,
)
    ensures
        requested.len() == 0 ==> admits(requested, label),
        admits(requested, label) <==> (requested.len() == 0 || exists|j: int|
            0 <= j < requested.len() && requested[j] == label),
        forall|i: int, j: int|
            #![trigger records[i], requested[j]]
            0 <= i < records.len() && 0 <= j < requested.len() && records[i].label == requested[j]
                ==> bootstrap_of(source_id, records, requested, now).contains(
                node_of(source_id, records[i], now),
            ),
{
    lemma_bootstrap_replays_persisted(source_id, records, requested, now);
    assert forall|i: int, j: int|
        #![trigger records[i], requested[j]]
        0 <= i < records.len() && 0 <= j < requested.len() && records[i].label == requested[j]
            implies bootstrap_of(source_id, records, requested, now).contains(
            node_of(source_id, records[i], now),
        ) by {
        assert(requested.contains(records[i].label));
    }
}

/// A predefined dashboard keeps its id and name, takes its configured grid
/// options or the default 12 columns of rows 60 high with margin 10, and
/// holds one widget per configured widget, in order, each mapped as a single
/// widget is: the same id, type, title and configuration, at its configured
/// place or else at the default place (top left, 4 wide, 3 high).
pub proof fn lemma_dashboard_widgets_mapped_one_by_one(dto: PredefinedDashboardDtoView)
    ensures
        dashboard_of(dto).id == dto.id,
        dashboard_of(dto).name == dto.name,
        dashboard_of(dto).grid_options == match dto.grid_options {
            Some(g) => GridOptions { columns: g.columns, row_height: g.row_height, margin: g.margin },
            None => GridOptions { columns: 12, row_height: 60, margin: 10 },
        },
        dashboard_of(dto).widgets.len() == dto.widgets.len(),
        forall|j: int|
            0 <= j < dto.widgets.len() ==> #[trigger] dashboard_of(dto).widgets[j] == widget_of(
                dto.widgets[j],
            ),
        forall|j: int|
            0 <= j < dto.widgets.len() ==> #[trigger] dashboard_of(dto).widgets[j] == (
            DashboardWidgetView {
                id: dto.widgets[j].id,
                widget_type: dto.widgets[j].widget_type,
                title: dto.widgets[j].title,
                grid: match dto.widgets[j].grid {
                    Some(g) => WidgetGrid { x: g.x, y: g.y, w: g.w, h: g.h },
                    None => WidgetGrid { x: 0, y: 0, w: 4, h: 3 },
                },
                config: dto.widgets[j].config,
            }),
{
}

/// Each dashboard setting depends on its own field alone: a configured host,
/// port, heartbeat interval, results URL or queue capacity is taken as given,
/// whatever else is configured, and a missing one is the default (all
/// interfaces, port 3000, a heartbeat every 30 seconds, no results URL, no
/// capacity of its own). The predefined dashboards are mapped in order.
pub proof fn lemma_settings_apply_independently(
    id: Seq<char>,
    queries: Seq<Seq<char>>,
    s: DashboardReactionSettingsView,
    auto_start: bool,
)
    ensures
        settings_config(s).host == match s.host {
            Some(h) => h,
            None => seq!['0', '.', '0', '.', '0', '.', '0'],
        },
        settings_config(s).port == match s.port {
            Some(p) => p,
            None => 3000u16,
        },
        settings_config(s).heartbeat_interval_ms == match s.heartbeat_interval_ms {
            Some(h) => h,
            None => 30000u64,
        },
        settings_config(s).results_api_url == s.results_api_url,
        settings_reaction(id, queries, s, auto_start).config == settings_config(s),
        settings_reaction(id, queries, s, auto_start).priority_queue_capacity
            == s.priority_queue_capacity,
        settings_reaction(id, queries, s, auto_start).id == id,
        settings_reaction(id, queries, s, auto_start).queries == queries,
        settings_reaction(id, queries, s, auto_start).auto_start == auto_start,
        settings_reaction(id, queries, s, auto_start).dashboards.len() == s.predefined_dashboards.len(),
        forall|j: int|
            0 <= j < s.predefined_dashboards.len() ==> #[trigger] settings_reaction(
                id,
                queries,
                s,
                auto_start,
            ).dashboards[j] == dashboard_of(s.predefined_dashboards[j]),
{
    reveal_strlit("0.0.0.0");
    assert("0.0.0.0"@ =~= seq!['0', '.', '0', '.', '0', '.', '0']);
}

} // verus!
