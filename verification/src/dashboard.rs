//! The dashboard reaction's predefined dashboards: their configuration as the
//! plugin receives it, the model the reaction serves, and the mapping between.

use vstd::prelude::*;

use crate::config::{copy_strings, strings_view};
use crate::keyed::KeyedStore;
use crate::node::{PropertyValue, PropertyValueView};

verus! {

/// The layout grid of a dashboard.
#[derive(Clone, Copy, Debug, PartialEq, Eq, Structural)]
pub struct GridOptions {
    pub columns: u32,
    pub row_height: u32,
    pub margin: u32,
}

/// Where a widget sits on the grid and how much of it it covers.
#[derive(Clone, Copy, Debug, PartialEq, Eq, Structural)]
pub struct WidgetGrid {
    pub x: u32,
    pub y: u32,
    pub w: u32,
    pub h: u32,
}

/// A widget of a dashboard. `config` is the widget's own configuration,
/// which the dashboard's web UI reads.
#[derive(Debug)]
pub struct DashboardWidget {
    pub id: String,
    pub widget_type: String,
    pub title: String,
    pub grid: WidgetGrid,
    pub config: serde_json::Value,
}

/// A predefined dashboard.
#[derive(Debug)]
pub struct DashboardConfig {
    pub id: String,
    pub name: String,
    pub grid_options: GridOptions,
    pub widgets: Vec<DashboardWidget>,
}

/// Grid options as configured.
#[derive(Clone, Copy, Debug, PartialEq, Eq, Structural)]
pub struct GridOptionsDto {
    pub columns: u32,
    pub row_height: u32,
    pub margin: u32,
}

/// A widget's place on the grid as configured.
#[derive(Clone, Copy, Debug, PartialEq, Eq, Structural)]
pub struct WidgetGridDto {
    pub x: u32,
    pub y: u32,
    pub w: u32,
    pub h: u32,
}

/// A widget as configured; without a grid it takes the default place.
#[derive(Debug)]
pub struct DashboardWidgetDto {
    pub id: String,
    pub widget_type: String,
    pub title: String,
    pub grid: Option<WidgetGridDto>,
    pub config: serde_json::Value,
}

/// A predefined dashboard as configured; without grid options it takes the
/// default ones.
#[derive(Debug)]
pub struct PredefinedDashboardDto {
    pub id: String,
    pub name: String,
    pub grid_options: Option<GridOptionsDto>,
    pub widgets: Vec<DashboardWidgetDto>,
}

pub struct DashboardWidgetView {
    pub id: Seq<char>,
    pub widget_type: Seq<char>,
    pub title: Seq<char>,
    pub grid: WidgetGrid,
    pub config: serde_json::Value,
}

pub struct DashboardConfigView {
    pub id: Seq<char>,
    pub name: Seq<char>,
    pub grid_options: GridOptions,
    pub widgets: Seq<DashboardWidgetView>,
}

pub struct DashboardWidgetDtoView {
    pub id: Seq<char>,
    pub widget_type: Seq<char>,
    pub title: Seq<char>,
    pub grid: Option<WidgetGridDto>,
    pub config: serde_json::Value,
}

pub struct PredefinedDashboardDtoView {
    pub id: Seq<char>,
    pub name: Seq<char>,
    pub grid_options: Option<GridOptionsDto>,
    pub widgets: Seq<DashboardWidgetDtoView>,
}

impl View for DashboardWidget {
    type V = DashboardWidgetView;

    open spec fn view(&self) -> DashboardWidgetView {
        DashboardWidgetView {
            id: self.id@,
            widget_type: self.widget_type@,
            title: self.title@,
            grid: self.grid,
            config: self.config,
        }
    }
}

impl View for DashboardConfig {
    type V = DashboardConfigView;

    open spec fn view(&self) -> DashboardConfigView {
        DashboardConfigView {
            id: self.id@,
            name: self.name@,
            grid_options: self.grid_options,
            widgets: self.widgets@.map_values(|w: DashboardWidget| w@),
        }
    }
}

impl View for DashboardWidgetDto {
    type V = DashboardWidgetDtoView;

    open spec fn view(&self) -> DashboardWidgetDtoView {
        DashboardWidgetDtoView {
            id: self.id@,
            widget_type: self.widget_type@,
            title: self.title@,
            grid: self.grid,
            config: self.config,
        }
    }
}

impl View for PredefinedDashboardDto {
    type V = PredefinedDashboardDtoView;

    open spec fn view(&self) -> PredefinedDashboardDtoView {
        PredefinedDashboardDtoView {
            id: self.id@,
            name: self.name@,
            grid_options: self.grid_options,
            widgets: self.widgets@.map_values(|w: DashboardWidgetDto| w@),
        }
    }
}

/// The default grid: 12 columns of rows 60 high, with a margin of 10.
pub open spec fn default_grid_options() -> GridOptions {
    GridOptions { columns: 12, row_height: 60, margin: 10 }
}

/// The default place of a widget: the top left corner, 4 wide and 3 high.
pub open spec fn default_widget_grid() -> WidgetGrid {
    WidgetGrid { x: 0, y: 0, w: 4, h: 3 }
}

pub open spec fn grid_options_of(dto: GridOptionsDto) -> GridOptions {
    GridOptions { columns: dto.columns, row_height: dto.row_height, margin: dto.margin }
}

pub open spec fn widget_grid_of(dto: WidgetGridDto) -> WidgetGrid {
    WidgetGrid { x: dto.x, y: dto.y, w: dto.w, h: dto.h }
}

/// The widget a configured widget stands for.
pub open spec fn widget_of(dto: DashboardWidgetDtoView) -> DashboardWidgetView {
    DashboardWidgetView {
        id: dto.id,
        widget_type: dto.widget_type,
        title: dto.title,
        grid: match dto.grid {
            Some(g) => widget_grid_of(g),
            None => default_widget_grid(),
        },
        config: dto.config,
    }
}

/// The dashboard a configured dashboard stands for.
pub open spec fn dashboard_of(dto: PredefinedDashboardDtoView) -> DashboardConfigView {
    DashboardConfigView {
        id: dto.id,
        name: dto.name,
        grid_options: match dto.grid_options {
            Some(g) => grid_options_of(g),
            None => default_grid_options(),
        },
        widgets: dto.widgets.map_values(|w: DashboardWidgetDtoView| widget_of(w)),
    }
}

impl Default for GridOptions {
    fn default() -> (g: Self)
        ensures
            g == default_grid_options(),
    {
        GridOptions { columns: 12, row_height: 60, margin: 10 }
    }
}

impl Default for WidgetGrid {
    fn default() -> (g: Self)
        ensures
            g == default_widget_grid(),
    {
        WidgetGrid { x: 0, y: 0, w: 4, h: 3 }
    }
}

impl Default for GridOptionsDto {
    fn default() -> (g: Self)
        ensures
            g == (GridOptionsDto { columns: 12, row_height: 60, margin: 10 }),
    {
        GridOptionsDto { columns: 12, row_height: 60, margin: 10 }
    }
}

/// The grid options configured options stand for.
pub fn map_grid_options(dto: &GridOptionsDto) -> (g: GridOptions)
    ensures
        g == grid_options_of(*dto),
{
    GridOptions { columns: dto.columns, row_height: dto.row_height, margin: dto.margin }
}

/// The widget place a configured place stands for.
pub fn map_widget_grid(dto: &WidgetGridDto) -> (g: WidgetGrid)
    ensures
        g == widget_grid_of(*dto),
{
    WidgetGrid { x: dto.x, y: dto.y, w: dto.w, h: dto.h }
}

/// The widget a configured widget stands for; a widget without a grid takes
/// the default place.
pub fn map_widget(dto: &DashboardWidgetDto) -> (w: DashboardWidget)
    ensures
        w@ == widget_of(dto@),
{
    let grid = match &dto.grid {
        Some(g) => map_widget_grid(g),
        None => WidgetGrid::default(),
    };
    DashboardWidget {
        id: dto.id.clone(),
        widget_type: dto.widget_type.clone(),
        title: dto.title.clone(),
        grid,
        config: dto.config.clone(),
    }
}

/// The dashboard a configured dashboard stands for; one without grid options
/// takes the default ones.
pub fn map_predefined_dashboard(dto: &PredefinedDashboardDto) -> (d: DashboardConfig)
    ensures
        d@ == dashboard_of(dto@),
{
    let grid_options = match &dto.grid_options {
        Some(g) => map_grid_options(g),
        None => GridOptions::default(),
    };
    let mut widgets: Vec<DashboardWidget> = Vec::new();
    let mut i: usize = 0;
    while i < dto.widgets.len()
        invariant
            i <= dto.widgets@.len(),
            widgets@.len() == i,
            forall|j: int| 0 <= j < i ==> #[trigger] widgets@[j]@ == widget_of(dto.widgets@[j]@),
        decreases dto.widgets@.len() - i,
    {
        widgets.push(map_widget(&dto.widgets[i]));
        i = i + 1;
    }
    let d = DashboardConfig { id: dto.id.clone(), name: dto.name.clone(), grid_options, widgets };
    assert(d@.widgets =~= dashboard_of(dto@).widgets);
    d
}

/// The settings a dashboard reaction is configured with; what is not given
/// keeps its default.
#[derive(Debug)]
pub struct DashboardReactionSettings {
    pub host: Option<String>,
    pub port: Option<u16>,
    pub heartbeat_interval_ms: Option<u64>,
    pub results_api_url: Option<String>,
    pub priority_queue_capacity: Option<usize>,
    pub predefined_dashboards: Vec<PredefinedDashboardDto>,
}

pub struct DashboardReactionSettingsView {
    pub host: Option<Seq<char>>,
    pub port: Option<u16>,
    pub heartbeat_interval_ms: Option<u64>,
    pub results_api_url: Option<Seq<char>>,
    pub priority_queue_capacity: Option<usize>,
    pub predefined_dashboards: Seq<PredefinedDashboardDtoView>,
}

impl View for DashboardReactionSettings {
    type V = DashboardReactionSettingsView;

    open spec fn view(&self) -> DashboardReactionSettingsView {
        DashboardReactionSettingsView {
            host: match self.host {
                Some(h) => Some(h@),
                None => None,
            },
            port: self.port,
            heartbeat_interval_ms: self.heartbeat_interval_ms,
            results_api_url: match self.results_api_url {
                Some(u) => Some(u@),
                None => None,
            },
            priority_queue_capacity: self.priority_queue_capacity,
            predefined_dashboards: self.predefined_dashboards@.map_values(
                |d: PredefinedDashboardDto| d@,
            ),
        }
    }
}

/// The server settings that `s` gives, each missing one at its default.
pub open spec fn settings_config(s: DashboardReactionSettingsView) -> DashboardReactionConfigView {
    let d = default_dashboard_config();
    DashboardReactionConfigView {
        host: match s.host {
            Some(h) => h,
            None => d.host,
        },
        port: match s.port {
            Some(p) => p,
            None => d.port,
        },
        heartbeat_interval_ms: match s.heartbeat_interval_ms {
            Some(h) => h,
            None => d.heartbeat_interval_ms,
        },
        results_api_url: match s.results_api_url {
            Some(u) => Some(u),
            None => d.results_api_url,
        },
    }
}

/// The dashboard reaction that settings `s` make, with id `id`, subscribed to
/// `queries`.
pub open spec fn settings_reaction(
    id: Seq<char>,
    queries: Seq<Seq<char>>,
    s: DashboardReactionSettingsView,
    auto_start: bool,
) -> DashboardReactionView {
    DashboardReactionView {
        id,
        queries,
        config: settings_config(s),
        dashboards: s.predefined_dashboards.map_values(|d: PredefinedDashboardDtoView| dashboard_of(d)),
        priority_queue_capacity: s.priority_queue_capacity,
        auto_start,
    }
}

/// The plugin descriptor of the dashboard reaction.
pub struct DashboardReactionDescriptor;

impl DashboardReactionDescriptor {
    pub fn kind(&self) -> (r: &'static str)
        ensures
            r@ == "dashboard"@,
    {
        "dashboard"
    }

    pub fn config_version(&self) -> (r: &'static str)
        ensures
            r@ == "1.0.0"@,
    {
        "1.0.0"
    }

    pub fn config_schema_name(&self) -> (r: &'static str)
        ensures
            r@ == "reaction.dashboard.DashboardReactionConfig"@,
    {
        "reaction.dashboard.DashboardReactionConfig"
    }

    /// The dashboard reaction with id `id`, subscribed to `query_ids`, that
    /// the configured `settings` describe: each setting given replaces its
    /// default, and each predefined dashboard is mapped in order.
    pub fn create_reaction(
        &self,
        id: &str,
        query_ids: Vec<String>,
        settings: DashboardReactionSettings,
        auto_start: bool,
    ) -> (r: DashboardReaction)
        ensures
            r@ == settings_reaction(id@, strings_view(query_ids@), settings@, auto_start),
    {
        let mut b = DashboardReaction::builder(id).with_queries(query_ids).with_auto_start(auto_start);
        assert(Seq::<Seq<char>>::empty() + strings_view(query_ids@) =~= strings_view(query_ids@));
        match &settings.host {
            Some(h) => {
                b = b.with_host(h.as_str());
            },
            None => {},
        }
        match settings.port {
            Some(p) => {
                b = b.with_port(p);
            },
            None => {},
        }
        match settings.heartbeat_interval_ms {
            Some(h) => {
                b = b.with_heartbeat_interval_ms(h);
            },
            None => {},
        }
        match &settings.results_api_url {
            Some(u) => {
                b = b.with_results_api_url(u.as_str());
            },
            None => {},
        }
        match settings.priority_queue_capacity {
            Some(c) => {
                b = b.with_priority_queue_capacity(c);
            },
            None => {},
        }
        let ghost start = b@;
        let dtos = &settings.predefined_dashboards;
        let ghost views = settings@.predefined_dashboards;
        let mut i: usize = 0;
        assert(start.dashboards =~= views.take(0).map_values(|d: PredefinedDashboardDtoView| dashboard_of(d)));
        while i < dtos.len()
            invariant
                i <= dtos@.len(),
                views == dtos@.map_values(|d: PredefinedDashboardDto| d@),
                b@ == (DashboardReactionView {
                    dashboards: views.take(i as int).map_values(
                        |d: PredefinedDashboardDtoView| dashboard_of(d),
                    ),
                    ..start
                }),
            decreases dtos@.len() - i,
        {
            let d = map_predefined_dashboard(&dtos[i]);
            let ghost before = b@.dashboards;
            b = b.with_dashboard(d);
            assert(views[i as int] == dtos@[i as int]@);
            assert(views.take(i as int + 1).map_values(|d: PredefinedDashboardDtoView| dashboard_of(d))
                =~= before.push(dashboard_of(views[i as int])));
            i = i + 1;
        }
        assert(views.take(dtos@.len() as int) =~= views);
        b.reaction
    }
}

/// The server settings of a dashboard reaction.
#[derive(Debug)]
pub struct DashboardReactionConfig {
    /// Host the dashboard server binds.
    pub host: String,
    /// Port the dashboard server binds.
    pub port: u16,
    /// Interval of the WebSocket heartbeat.
    pub heartbeat_interval_ms: u64,
    /// Where the web UI fetches current query results, if elsewhere.
    pub results_api_url: Option<String>,
}

pub struct DashboardReactionConfigView {
    pub host: Seq<char>,
    pub port: u16,
    pub heartbeat_interval_ms: u64,
    pub results_api_url: Option<Seq<char>>,
}

impl View for DashboardReactionConfig {
    type V = DashboardReactionConfigView;

    open spec fn view(&self) -> DashboardReactionConfigView {
        DashboardReactionConfigView {
            host: self.host@,
            port: self.port,
            heartbeat_interval_ms: self.heartbeat_interval_ms,
            results_api_url: match self.results_api_url {
                Some(u) => Some(u@),
                None => None,
            },
        }
    }
}

/// The default server settings: all interfaces, port 3000, a heartbeat every
/// 30 seconds, results from the dashboard server itself.
pub open spec fn default_dashboard_config() -> DashboardReactionConfigView {
    DashboardReactionConfigView {
        host: "0.0.0.0"@,
        port: 3000,
        heartbeat_interval_ms: 30000,
        results_api_url: None,
    }
}

impl Default for DashboardReactionConfig {
    fn default() -> (c: Self)
        ensures
            c@ == default_dashboard_config(),
    {
        DashboardReactionConfig {
            host: "0.0.0.0".to_owned(),
            port: 3000,
            heartbeat_interval_ms: 30000,
            results_api_url: None,
        }
    }
}

pub open spec fn host_property() -> Seq<char> {
    seq!['h', 'o', 's', 't']
}

pub open spec fn port_property() -> Seq<char> {
    seq!['p', 'o', 'r', 't']
}

pub open spec fn heartbeat_property() -> Seq<char> {
    seq!['h', 'e', 'a', 'r', 't', 'b', 'e', 'a', 't', '_', 'i', 'n', 't', 'e', 'r', 'v', 'a', 'l', '_', 'm', 's']
}

pub open spec fn results_api_url_property() -> Seq<char> {
    seq!['r', 'e', 's', 'u', 'l', 't', 's', '_', 'a', 'p', 'i', '_', 'u', 'r', 'l']
}

/// The reaction's properties: its server settings by field name, a missing
/// results URL as null.
pub open spec fn dashboard_properties_of(c: DashboardReactionConfigView) -> Map<Seq<char>, PropertyValueView> {
    Map::<Seq<char>, PropertyValueView>::empty().insert(host_property(), PropertyValueView::Text(c.host)).insert(
        port_property(),
        PropertyValueView::Integer(c.port as int),
    ).insert(heartbeat_property(), PropertyValueView::Integer(c.heartbeat_interval_ms as int)).insert(
        results_api_url_property(),
        match c.results_api_url {
            Some(u) => PropertyValueView::Text(u),
            None => PropertyValueView::Null,
        },
    )
}

/// A dashboard reaction: the queries whose results it shows, its server
/// settings, and its predefined dashboards.
pub struct DashboardReaction {
    id: String,
    queries: Vec<String>,
    config: DashboardReactionConfig,
    dashboards: Vec<DashboardConfig>,
    priority_queue_capacity: Option<usize>,
    auto_start: bool,
}

pub struct DashboardReactionView {
    pub id: Seq<char>,
    pub queries: Seq<Seq<char>>,
    pub config: DashboardReactionConfigView,
    pub dashboards: Seq<DashboardConfigView>,
    pub priority_queue_capacity: Option<usize>,
    pub auto_start: bool,
}

impl View for DashboardReaction {
    type V = DashboardReactionView;

    closed spec fn view(&self) -> DashboardReactionView {
        DashboardReactionView {
            id: self.id@,
            queries: strings_view(self.queries@),
            config: self.config@,
            dashboards: self.dashboards@.map_values(|d: DashboardConfig| d@),
            priority_queue_capacity: self.priority_queue_capacity,
            auto_start: self.auto_start,
        }
    }
}

/// Builder of a dashboard reaction.
pub struct DashboardReactionBuilder {
    reaction: DashboardReaction,
}

impl View for DashboardReactionBuilder {
    type V = DashboardReactionView;

    closed spec fn view(&self) -> DashboardReactionView {
        self.reaction@
    }
}

/// The builder has no failing input: a built dashboard reaction is always
/// returned. The error type keeps the shape of a fallible build.
#[derive(Clone, Copy, Debug, PartialEq, Eq, Structural)]
pub struct DashboardBuildError;

impl DashboardReaction {
    /// Start building a dashboard reaction with id `id`.
    pub fn builder(id: &str) -> (b: DashboardReactionBuilder)
        ensures
            b@ == (DashboardReactionView {
                id: id@,
                queries: Seq::empty(),
                config: default_dashboard_config(),
                dashboards: Seq::empty(),
                priority_queue_capacity: None,
                auto_start: true,
            }),
    {
        DashboardReactionBuilder::new(id)
    }

    pub fn id(&self) -> (r: &str)
        ensures
            r@ == self@.id,
    {
        self.id.as_str()
    }

    pub fn kind(&self) -> (r: &'static str)
        ensures
            r@ == "dashboard"@,
    {
        "dashboard"
    }

    pub fn query_ids(&self) -> (r: Vec<String>)
        ensures
            strings_view(r@) == self@.queries,
    {
        copy_strings(&self.queries)
    }

    pub fn auto_start(&self) -> (r: bool)
        ensures
            r == self@.auto_start,
    {
        self.auto_start
    }

    pub fn priority_queue_capacity(&self) -> (r: Option<usize>)
        ensures
            r == self@.priority_queue_capacity,
    {
        self.priority_queue_capacity
    }

    /// The number of predefined dashboards.
    pub fn dashboard_count(&self) -> (n: usize)
        ensures
            n == self@.dashboards.len(),
    {
        self.dashboards.len()
    }

    /// The reaction's properties: host, port, heartbeat interval and results
    /// URL.
    pub fn properties(&self) -> (p: KeyedStore<PropertyValue>)
        ensures
            p@.map_values(|v: PropertyValue| v@) == dashboard_properties_of(self@.config),
    {
        proof {
            reveal_strlit("host");
            reveal_strlit("port");
            reveal_strlit("heartbeat_interval_ms");
            reveal_strlit("results_api_url");
            assert("host"@ =~= host_property());
            assert("port"@ =~= port_property());
            assert("heartbeat_interval_ms"@ =~= heartbeat_property());
            assert("results_api_url"@ =~= results_api_url_property());
        }
        let mut p: KeyedStore<PropertyValue> = KeyedStore::new();
        let v1 = PropertyValue::Text(self.config.host.clone());
        let v2 = PropertyValue::Integer(self.config.port as i64);
        let v3 = PropertyValue::Unsigned(self.config.heartbeat_interval_ms);
        let v4 = match &self.config.results_api_url {
            Some(u) => PropertyValue::Text(u.clone()),
            None => PropertyValue::Null,
        };
        let ghost p0 = p@;
        p.insert("host".to_owned(), v1);
        let ghost p1 = p@;
        p.insert("port".to_owned(), v2);
        let ghost p2 = p@;
        p.insert("heartbeat_interval_ms".to_owned(), v3);
        let ghost p3 = p@;
        p.insert("results_api_url".to_owned(), v4);
        proof {
            let f = |v: PropertyValue| v@;
            assert(p0.map_values(f) =~= Map::<Seq<char>, PropertyValueView>::empty());
            assert(p1.map_values(f) =~= p0.map_values(f).insert(host_property(), v1@));
            assert(p2.map_values(f) =~= p1.map_values(f).insert(port_property(), v2@));
            assert(p3.map_values(f) =~= p2.map_values(f).insert(heartbeat_property(), v3@));
            assert(p@.map_values(f) =~= p3.map_values(f).insert(results_api_url_property(), v4@));
        }
        assert(p@.map_values(|v: PropertyValue| v@) =~= dashboard_properties_of(self@.config));
        p
    }
}

impl DashboardReactionBuilder {
    /// A builder for a dashboard reaction with id `id`: no queries, the
    /// default server settings, no predefined dashboard, no queue capacity of
    /// its own, starting with its host.
    pub fn new(id: &str) -> (b: Self)
        ensures
            b@ == (DashboardReactionView {
                id: id@,
                queries: Seq::empty(),
                config: default_dashboard_config(),
                dashboards: Seq::empty(),
                priority_queue_capacity: None,
                auto_start: true,
            }),
    {
        let b = DashboardReactionBuilder {
            reaction: DashboardReaction {
                id: id.to_owned(),
                queries: Vec::new(),
                config: DashboardReactionConfig::default(),
                dashboards: Vec::new(),
                priority_queue_capacity: None,
                auto_start: true,
            },
        };
        assert(b@.queries =~= Seq::<Seq<char>>::empty());
        assert(b@.dashboards =~= Seq::<DashboardConfigView>::empty());
        b
    }

    /// Subscribe to one more query.
    pub fn with_query(self, query_id: &str) -> (b: Self)
        ensures
            b@ == (DashboardReactionView { queries: self@.queries.push(query_id@), ..self@ }),
    {
        let mut b = self;
        b.reaction.queries.push(query_id.to_owned());
        assert(b@.queries =~= self@.queries.push(query_id@));
        b
    }

    /// Subscribe to more queries, in order.
    pub fn with_queries(self, query_ids: Vec<String>) -> (b: Self)
        ensures
            b@ == (DashboardReactionView {
                queries: self@.queries + strings_view(query_ids@),
                ..self@
            }),
    {
        let mut b = self;
        let mut i: usize = 0;
        while i < query_ids.len()
            invariant
                i <= query_ids@.len(),
                b@ == (DashboardReactionView {
                    queries: self@.queries + strings_view(query_ids@).take(i as int),
                    ..self@
                }),
            decreases query_ids@.len() - i,
        {
            let ghost before = b@.queries;
            b.reaction.queries.push(query_ids[i].clone());
            assert(strings_view(query_ids@).take(i as int + 1) =~= strings_view(query_ids@).take(
                i as int,
            ).push(query_ids@[i as int]@));
            assert(b@.queries =~= before.push(query_ids@[i as int]@));
            assert(b@.queries =~= self@.queries + strings_view(query_ids@).take(i as int + 1));
            i = i + 1;
        }
        assert(strings_view(query_ids@).take(query_ids@.len() as int) =~= strings_view(query_ids@));
        b
    }

    pub fn with_host(self, host: &str) -> (b: Self)
        ensures
            b@ == (DashboardReactionView {
                config: DashboardReactionConfigView { host: host@, ..self@.config },
                ..self@
            }),
    {
        let mut b = self;
        b.reaction.config.host = host.to_owned();
        b
    }

    pub fn with_port(self, port: u16) -> (b: Self)
        ensures
            b@ == (DashboardReactionView {
                config: DashboardReactionConfigView { port, ..self@.config },
                ..self@
            }),
    {
        let mut b = self;
        b.reaction.config.port = port;
        b
    }

    pub fn with_heartbeat_interval_ms(self, interval_ms: u64) -> (b: Self)
        ensures
            b@ == (DashboardReactionView {
                config: DashboardReactionConfigView {
                    heartbeat_interval_ms: interval_ms,
                    ..self@.config
                },
                ..self@
            }),
    {
        let mut b = self;
        b.reaction.config.heartbeat_interval_ms = interval_ms;
        b
    }

    pub fn with_results_api_url(self, url: &str) -> (b: Self)
        ensures
            b@ == (DashboardReactionView {
                config: DashboardReactionConfigView { results_api_url: Some(url@), ..self@.config },
                ..self@
            }),
    {
        let mut b = self;
        b.reaction.config.results_api_url = Some(url.to_owned());
        b
    }

    /// Add a predefined dashboard after those already there.
    pub fn with_dashboard(self, dashboard: DashboardConfig) -> (b: Self)
        ensures
            b@ == (DashboardReactionView { dashboards: self@.dashboards.push(dashboard@), ..self@ }),
    {
        let mut b = self;
        b.reaction.dashboards.push(dashboard);
        assert(b@.dashboards =~= self@.dashboards.push(dashboard@));
        b
    }

    pub fn with_priority_queue_capacity(self, capacity: usize) -> (b: Self)
        ensures
            b@ == (DashboardReactionView { priority_queue_capacity: Some(capacity), ..self@ }),
    {
        let mut b = self;
        b.reaction.priority_queue_capacity = Some(capacity);
        b
    }

    pub fn with_auto_start(self, auto_start: bool) -> (b: Self)
        ensures
            b@ == (DashboardReactionView { auto_start, ..self@ }),
    {
        let mut b = self;
        b.reaction.auto_start = auto_start;
        b
    }

    /// The dashboard reaction built.
    pub fn build(self) -> (r: Result<DashboardReaction, DashboardBuildError>)
        ensures
            r matches Ok(x) && x@ == self@,
    {
        Ok(self.reaction)
    }
}

impl DashboardConfig {
    /// A predefined dashboard with id `id`.
    pub fn with_id(id: &str, name: String, grid_options: GridOptions, widgets: Vec<DashboardWidget>) -> (d:
        Self)
        ensures
            d@ == (DashboardConfigView {
                id: id@,
                name: name@,
                grid_options,
                widgets: widgets@.map_values(|w: DashboardWidget| w@),
            }),
    {
        DashboardConfig { id: id.to_owned(), name, grid_options, widgets }
    }
}

} // verus!
