//! Entity records as graph nodes: what the companion source emits for each
//! state transition and replays to late subscribers.

use vstd::prelude::*;

use crate::clock::clock_millis;
use crate::config::{strings_contain, strings_view};
use crate::engine::{record_views, EntityRecord, EntityRecordView};
use crate::keyed::{pairs_map, KeyedStore};

verus! {

/// A node property value.
pub enum PropertyValue {
    Null,
    Integer(i64),
    /// A non-negative integer too wide for `Integer`.
    Unsigned(u64),
    Text(String),
    /// A pass-through field of a query row, as the row held it.
    Json(serde_json::Value),
}

pub enum PropertyValueView {
    Null,
    Integer(int),
    Text(Seq<char>),
    Json(serde_json::Value),
}

impl View for PropertyValue {
    type V = PropertyValueView;

    open spec fn view(&self) -> PropertyValueView {
        match self {
            PropertyValue::Null => PropertyValueView::Null,
            PropertyValue::Integer(i) => PropertyValueView::Integer(*i as int),
            PropertyValue::Unsigned(u) => PropertyValueView::Integer(*u as int),
            PropertyValue::Text(s) => PropertyValueView::Text(s@),
            PropertyValue::Json(v) => PropertyValueView::Json(*v),
        }
    }
}

/// A graph node: where it comes from, its id, its labels, from when it holds,
/// and its properties.
pub struct NodeElement {
    pub source_id: String,
    pub element_id: String,
    pub labels: Vec<String>,
    pub effective_from: u64,
    pub properties: KeyedStore<PropertyValue>,
}

pub struct NodeElementView {
    pub source_id: Seq<char>,
    pub element_id: Seq<char>,
    pub labels: Seq<Seq<char>>,
    pub effective_from: int,
    pub properties: Map<Seq<char>, PropertyValueView>,
}

impl View for NodeElement {
    type V = NodeElementView;

    open spec fn view(&self) -> NodeElementView {
        NodeElementView {
            source_id: self.source_id@,
            element_id: self.element_id@,
            labels: strings_view(self.labels@),
            effective_from: self.effective_from as int,
            properties: self.properties@.map_values(|v: PropertyValue| v@),
        }
    }
}

/// A change the source emits: a node that appears, or one that changes.
pub enum NodeChange {
    Insert(NodeElement),
    Update(NodeElement),
}

/// What the reaction does with a transition once it tried to persist it.
#[derive(Clone, Copy, Debug, PartialEq, Eq, Structural)]
pub enum PushDecision {
    /// Persisting failed: the transition is neither pushed nor retried.
    Skip,
    /// Push the node change to the started source.
    Push,
    /// The source is not started: the persisted state is all there is, and a
    /// later bootstrap replays it.
    PersistedOnly,
}

pub open spec fn state_property() -> Seq<char> {
    seq!['s', 't', 'a', 't', 'e']
}

pub open spec fn previous_state_property() -> Seq<char> {
    seq!['p', 'r', 'e', 'v', 'i', 'o', 'u', 's', 'S', 't', 'a', 't', 'e']
}

pub open spec fn entered_at_property() -> Seq<char> {
    seq!['e', 'n', 't', 'e', 'r', 'e', 'd', 'A', 't']
}

/// The properties of an entity's node: its pass-through fields, then the key
/// under the key property, `state`, `previousState` (null before the first
/// transition) and `enteredAt`, these last replacing a field of the same name.
pub open spec fn node_properties_of(r: EntityRecordView) -> Map<Seq<char>, PropertyValueView> {
    r.fields.map_values(|v: serde_json::Value| PropertyValueView::Json(v)).insert(
        r.key_field,
        PropertyValueView::Text(r.key),
    ).insert(state_property(), PropertyValueView::Text(r.state)).insert(
        previous_state_property(),
        match r.previous_state {
            Some(p) => PropertyValueView::Text(p),
            None => PropertyValueView::Null,
        },
    ).insert(entered_at_property(), PropertyValueView::Integer(r.entered_at))
}

/// When a node holds from: the entity's entry time if it is positive, else
/// `now` (never before the epoch).
pub open spec fn effective_from_of(entered_at: int, now: int) -> int {
    if entered_at > 0 {
        entered_at
    } else if now > 0 {
        now
    } else {
        0
    }
}

/// The node of an entity record from source `source_id` at time `now`.
pub open spec fn node_of(source_id: Seq<char>, r: EntityRecordView, now: int) -> NodeElementView {
    NodeElementView {
        source_id,
        element_id: r.key,
        labels: seq![r.label],
        effective_from: effective_from_of(r.entered_at, now),
        properties: node_properties_of(r),
    }
}

/// A bootstrap request for `requested` labels takes a node labelled `label`
/// when it asks for no label in particular or names this one.
pub open spec fn admits(requested: Seq<Seq<char>>, label: Seq<char>) -> bool {
    requested.len() == 0 || requested.contains(label)
}

/// The views of a sequence of nodes.
pub open spec fn node_views(s: Seq<NodeElement>) -> Seq<NodeElementView> {
    s.map_values(|e: NodeElement| e@)
}

/// The nodes a bootstrap replays: those of the records whose label the request
/// admits, in order.
pub open spec fn bootstrap_of(
    source_id: Seq<char>,
    records: Seq<EntityRecordView>,
    requested: Seq<Seq<char>>,
    now: int,
) -> Seq<NodeElementView>
    decreases records.len(),
{
    if records.len() == 0 {
        Seq::empty()
    } else {
        let rest = bootstrap_of(source_id, records.drop_last(), requested, now);
        if admits(requested, records.last().label) {
            rest.push(node_of(source_id, records.last(), now))
        } else {
            rest
        }
    }
}

/// The node properties of an entity record.
pub fn node_properties(record: &EntityRecord) -> (p: KeyedStore<PropertyValue>)
    ensures
        p@.map_values(|v: PropertyValue| v@) == node_properties_of(record@),
{
    let n = record.fields.len();
    let mut p: KeyedStore<PropertyValue> = KeyedStore::new();
    let mut i: usize = 0;
    while i < n
        invariant
            n == record.fields.entries().len(),
            record.fields@ == pairs_map(record.fields.entries()),
            i <= n,
            p@.map_values(|v: PropertyValue| v@) == pairs_map(record.fields.entries().take(i as int)).map_values(
                |v: serde_json::Value| PropertyValueView::Json(v),
            ),
        decreases n - i,
    {
        let (k, v) = record.fields.entry_at(i);
        let ghost before = pairs_map(record.fields.entries().take(i as int));
        assert(record.fields.entries().take(i as int + 1).drop_last() =~= record.fields.entries().take(i as int));
        let ghost old_p = p@;
        let pv = PropertyValue::Json(v.clone());
        assert(pv@ == PropertyValueView::Json(*v));
        p.insert(k.clone(), pv);
        assert(p@.map_values(|v: PropertyValue| v@) =~= old_p.map_values(|v: PropertyValue| v@).insert(k@, pv@));
        assert(before.insert(k@, *v).map_values(|v: serde_json::Value| PropertyValueView::Json(v)) =~= before.map_values(
            |v: serde_json::Value| PropertyValueView::Json(v),
        ).insert(k@, PropertyValueView::Json(*v)));
        i = i + 1;
    }
    assert(record.fields.entries().take(n as int) =~= record.fields.entries());
    let ghost fields_part = p@.map_values(|v: PropertyValue| v@);
    proof {
        reveal_strlit("state");
        reveal_strlit("previousState");
        reveal_strlit("enteredAt");
        assert("state"@ =~= state_property());
        assert("previousState"@ =~= previous_state_property());
        assert("enteredAt"@ =~= entered_at_property());
    }
    let v1 = PropertyValue::Text(record.key.clone());
    let v2 = PropertyValue::Text(record.state.clone());
    let v3 = match &record.previous_state {
        Some(s) => PropertyValue::Text(s.clone()),
        None => PropertyValue::Null,
    };
    let v4 = PropertyValue::Integer(record.entered_at);
    let ghost p0 = p@;
    p.insert(record.key_field.clone(), v1);
    let ghost p1 = p@;
    p.insert("state".to_owned(), v2);
    let ghost p2 = p@;
    p.insert("previousState".to_owned(), v3);
    let ghost p3 = p@;
    p.insert("enteredAt".to_owned(), v4);
    proof {
        let f = |v: PropertyValue| v@;
        assert(p1.map_values(f) =~= p0.map_values(f).insert(record@.key_field, v1@));
        assert(p2.map_values(f) =~= p1.map_values(f).insert(state_property(), v2@));
        assert(p3.map_values(f) =~= p2.map_values(f).insert(previous_state_property(), v3@));
        assert(p@.map_values(f) =~= p3.map_values(f).insert(entered_at_property(), v4@));
        assert(fields_part =~= record@.fields.map_values(|v: serde_json::Value| PropertyValueView::Json(v)));
    }
    assert(p@.map_values(|v: PropertyValue| v@) =~= node_properties_of(record@));
    p
}

/// The node of an entity record from source `source_id`, as of `now`
/// (milliseconds since the epoch) where the record carries no entry time.
pub fn node_element_at(source_id: &str, record: &EntityRecord, now: i64) -> (e: NodeElement)
    ensures
        e@ == node_of(source_id@, record@, now as int),
{
    let effective_from: u64 = if record.entered_at > 0 {
        record.entered_at as u64
    } else if now > 0 {
        now as u64
    } else {
        0
    };
    let mut labels: Vec<String> = Vec::new();
    labels.push(record.label.clone());
    let e = NodeElement {
        source_id: source_id.to_owned(),
        element_id: record.key.clone(),
        labels,
        effective_from,
        properties: node_properties(record),
    };
    assert(e@.labels =~= seq![record@.label]);
    e
}

/// The node of an entity record from source `source_id`; a record without an
/// entry time holds from now.
pub fn record_to_node_element(source_id: &str, record: &EntityRecord) -> (e: NodeElement)
    ensures
        exists|now: int| #[trigger] node_of(source_id@, record@, now) == e@,
        record@.entered_at > 0 ==> e@ == node_of(source_id@, record@, record@.entered_at),
{
    let now = if record.entered_at > 0 {
        record.entered_at
    } else {
        clock_millis()
    };
    node_element_at(source_id, record, now)
}

/// The change a transition makes to the source: an entity's first state makes
/// its node appear, a later one updates it.
pub fn change_for_record(source_id: &str, record: &EntityRecord) -> (c: NodeChange)
    ensures
        match c {
            NodeChange::Insert(e) => record@.previous_state is None && exists|now: int| #[trigger] node_of(source_id@, record@, now) == e@,
            NodeChange::Update(e) => record@.previous_state is Some && exists|now: int| #[trigger] node_of(source_id@, record@, now) == e@,
        },
{
    let element = record_to_node_element(source_id, record);
    if record.previous_state.is_none() {
        NodeChange::Insert(element)
    } else {
        NodeChange::Update(element)
    }
}

/// What the reaction does with a transition, given whether persisting it
/// succeeded and whether the source has published a sender.
pub fn push_decision(persisted: bool, source_started: bool) -> (d: PushDecision)
    ensures
        d == (if !persisted {
            PushDecision::Skip
        } else if source_started {
            PushDecision::Push
        } else {
            PushDecision::PersistedOnly
        }),
{
    if !persisted {
        PushDecision::Skip
    } else if source_started {
        PushDecision::Push
    } else {
        PushDecision::PersistedOnly
    }
}

/// Whether a bootstrap request for the labels `requested` takes a node
/// labelled `label`.
pub fn bootstrap_admits(requested: &Vec<String>, label: &String) -> (r: bool)
    ensures
        r == admits(strings_view(requested@), label@),
{
    requested.len() == 0 || strings_contain(requested, label)
}

/// The nodes replayed to a subscriber that asked for the labels `requested`,
/// as of `now`.
pub fn bootstrap_elements_at(
    source_id: &str,
    records: &Vec<EntityRecord>,
    requested: &Vec<String>,
    now: i64,
) -> (nodes: Vec<NodeElement>)
    ensures
        node_views(nodes@) == bootstrap_of(
            source_id@,
            record_views(records@),
            strings_view(requested@),
            now as int,
        ),
{
    let ghost views = record_views(records@);
    let mut nodes: Vec<NodeElement> = Vec::new();
    let mut i: usize = 0;
    while i < records.len()
        invariant
            i <= records@.len(),
            views == record_views(records@),
            node_views(nodes@) == bootstrap_of(
                source_id@,
                views.take(i as int),
                strings_view(requested@),
                now as int,
            ),
        decreases records@.len() - i,
    {
        let record = &records[i];
        assert(views.take(i as int + 1).drop_last() =~= views.take(i as int));
        assert(views.take(i as int + 1).last() == record@);
        if bootstrap_admits(requested, &record.label) {
            let ghost before = nodes@;
            let e = node_element_at(source_id, record, now);
            nodes.push(e);
            assert(node_views(nodes@) =~= node_views(before).push(e@));
        }
        i = i + 1;
    }
    assert(views.take(records@.len() as int) =~= views);
    nodes
}

/// The nodes replayed to a subscriber that asked for the labels `requested`,
/// as of the clock's reading.
pub fn bootstrap_elements(source_id: &str, records: &Vec<EntityRecord>, requested: &Vec<String>) -> (nodes:
    Vec<NodeElement>)
    ensures
        exists|now: int|
            #[trigger] bootstrap_of(
                source_id@,
                record_views(records@),
                strings_view(requested@),
                now,
            ) == node_views(nodes@),
{
    let now = clock_millis();
    bootstrap_elements_at(source_id, records, requested, now)
}

} // verus!
