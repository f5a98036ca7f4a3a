use drasi_reactions::dashboard::{
    map_grid_options, map_predefined_dashboard, map_widget, DashboardConfig, DashboardReaction,
    DashboardReactionBuilder, DashboardReactionDescriptor, DashboardReactionSettings,
    DashboardWidgetDto, GridOptions,
    GridOptionsDto, PredefinedDashboardDto, WidgetGrid, WidgetGridDto,
};
use drasi_reactions::node::PropertyValue;

fn json(text: &str) -> serde_json::Value {
    serde_json::from_str(text).unwrap()
}

#[test]
fn test_descriptor_kind() {
    let desc = DashboardReactionDescriptor;
    assert_eq!(desc.kind(), "dashboard");
}

#[test]
fn test_descriptor_config_version() {
    let desc = DashboardReactionDescriptor;
    assert_eq!(desc.config_version(), "1.0.0");
}

#[test]
fn test_descriptor_config_schema_name() {
    let desc = DashboardReactionDescriptor;
    assert_eq!(
        desc.config_schema_name(),
        "reaction.dashboard.DashboardReactionConfig"
    );
}

#[test]
fn test_map_grid_options() {
    let dto = GridOptionsDto {
        columns: 16,
        row_height: 80,
        margin: 5,
    };
    let domain = map_grid_options(&dto);
    assert_eq!(domain.columns, 16);
    assert_eq!(domain.row_height, 80);
    assert_eq!(domain.margin, 5);
}

#[test]
fn test_map_widget_with_grid() {
    let dto = DashboardWidgetDto {
        id: "w-test".into(),
        widget_type: "gauge".into(),
        title: "Max Temp".into(),
        grid: Some(WidgetGridDto {
            x: 4,
            y: 2,
            w: 6,
            h: 3,
        }),
        config: json(r#"{ "queryId": "q1", "valueField": "temp" }"#),
    };
    let domain = map_widget(&dto);
    assert_eq!(domain.id, "w-test");
    assert_eq!(domain.widget_type, "gauge");
    assert_eq!(domain.title, "Max Temp");
    assert_eq!(domain.grid.x, 4);
    assert_eq!(domain.grid.y, 2);
    assert_eq!(domain.grid.w, 6);
    assert_eq!(domain.grid.h, 3);
    assert_eq!(domain.config["queryId"], "q1");
}

#[test]
fn test_map_widget_without_grid_uses_default() {
    let dto = DashboardWidgetDto {
        id: "w-no-grid".into(),
        widget_type: "table".into(),
        title: "Data".into(),
        grid: None,
        config: json("{}"),
    };
    let domain = map_widget(&dto);
    assert_eq!(domain.grid.x, 0);
    assert_eq!(domain.grid.y, 0);
    assert_eq!(domain.grid.w, 4);
    assert_eq!(domain.grid.h, 3);
}

#[test]
fn test_map_predefined_dashboard() {
    let dto = PredefinedDashboardDto {
        id: "test-id".into(),
        name: "Test Dashboard".into(),
        grid_options: Some(GridOptionsDto {
            columns: 8,
            row_height: 50,
            margin: 15,
        }),
        widgets: vec![DashboardWidgetDto {
            id: "w1".into(),
            widget_type: "kpi".into(),
            title: "Count".into(),
            grid: Some(WidgetGridDto {
                x: 0,
                y: 0,
                w: 3,
                h: 2,
            }),
            config: json(r#"{ "queryId": "q1" }"#),
        }],
    };
    let domain = map_predefined_dashboard(&dto);
    assert_eq!(domain.id, "test-id");
    assert_eq!(domain.name, "Test Dashboard");
    assert_eq!(domain.grid_options.columns, 8);
    assert_eq!(domain.grid_options.row_height, 50);
    assert_eq!(domain.widgets.len(), 1);
    assert_eq!(domain.widgets[0].id, "w1");
}

#[test]
fn test_map_predefined_dashboard_without_grid_uses_default() {
    let dto = PredefinedDashboardDto {
        id: "default-grid".into(),
        name: "Default Grid".into(),
        grid_options: None,
        widgets: vec![],
    };
    let domain = map_predefined_dashboard(&dto);
    assert_eq!(domain.grid_options.columns, 12);
    assert_eq!(domain.grid_options.row_height, 60);
    assert_eq!(domain.grid_options.margin, 10);
}

#[test]
fn grid_defaults() {
    assert_eq!(GridOptions::default(), GridOptions { columns: 12, row_height: 60, margin: 10 });
    assert_eq!(WidgetGrid::default(), WidgetGrid { x: 0, y: 0, w: 4, h: 3 });
    assert_eq!(GridOptionsDto::default(), GridOptionsDto { columns: 12, row_height: 60, margin: 10 });
}

#[test]
fn widgets_keep_their_order_and_config() {
    let widget = |id: &str| DashboardWidgetDto {
        id: id.into(),
        widget_type: "kpi".into(),
        title: "t".into(),
        grid: None,
        config: json(r#"{ "label": "L" }"#),
    };
    let dto = PredefinedDashboardDto {
        id: "d".into(),
        name: "n".into(),
        grid_options: None,
        widgets: vec![widget("a"), widget("b"), widget("c")],
    };
    let domain = map_predefined_dashboard(&dto);
    let ids: Vec<&str> = domain.widgets.iter().map(|w| w.id.as_str()).collect();
    assert_eq!(ids, vec!["a", "b", "c"]);
    assert_eq!(domain.widgets[2].config["label"], "L");
}

fn text(p: Option<&PropertyValue>) -> Option<String> {
    match p {
        Some(PropertyValue::Text(s)) => Some(s.clone()),
        _ => None,
    }
}

fn number(p: Option<&PropertyValue>) -> Option<u64> {
    match p {
        Some(PropertyValue::Integer(i)) => Some(*i as u64),
        Some(PropertyValue::Unsigned(u)) => Some(*u),
        _ => None,
    }
}

#[test]
fn test_dashboard_builder_defaults() {
    let reaction = DashboardReactionBuilder::new("dashboard-test")
        .build()
        .expect("builder should succeed");
    assert_eq!(reaction.id(), "dashboard-test");
    assert_eq!(reaction.kind(), "dashboard");

    let properties = reaction.properties();
    assert_eq!(text(properties.get("host")), Some("0.0.0.0".to_string()));
    assert_eq!(number(properties.get("port")), Some(3000));
    assert_eq!(number(properties.get("heartbeat_interval_ms")), Some(30_000));
}

#[test]
fn test_dashboard_builder_custom_values() {
    let reaction = DashboardReaction::builder("dashboard-custom")
        .with_query("q1")
        .with_host("127.0.0.1")
        .with_port(18000)
        .with_heartbeat_interval_ms(5000)
        .with_priority_queue_capacity(500)
        .with_auto_start(false)
        .build()
        .expect("builder should succeed");

    assert_eq!(reaction.id(), "dashboard-custom");
    assert_eq!(reaction.query_ids(), vec!["q1".to_string()]);
    assert!(!reaction.auto_start());

    let properties = reaction.properties();
    assert_eq!(text(properties.get("host")), Some("127.0.0.1".to_string()));
    assert_eq!(number(properties.get("port")), Some(18_000));
}

#[test]
fn dashboard_builder_results_url_queries_and_dashboards() {
    let reaction = DashboardReaction::builder("d")
        .with_queries(vec!["a".to_string(), "b".to_string()])
        .with_query("c")
        .with_results_api_url("http://localhost:8080")
        .with_dashboard(DashboardConfig::with_id("m", "Monitor".to_string(), GridOptions::default(), vec![]))
        .build()
        .unwrap();
    assert_eq!(reaction.query_ids(), vec!["a", "b", "c"]);
    assert_eq!(reaction.dashboard_count(), 1);
    assert_eq!(reaction.priority_queue_capacity(), None);
    assert!(reaction.auto_start());
    let properties = reaction.properties();
    assert_eq!(text(properties.get("results_api_url")), Some("http://localhost:8080".to_string()));
    let plain = DashboardReaction::builder("p").build().unwrap();
    assert!(matches!(plain.properties().get("results_api_url"), Some(PropertyValue::Null)));
}

fn no_settings() -> DashboardReactionSettings {
    DashboardReactionSettings {
        host: None,
        port: None,
        heartbeat_interval_ms: None,
        results_api_url: None,
        priority_queue_capacity: None,
        predefined_dashboards: vec![],
    }
}

#[test]
fn create_reaction_keeps_defaults_for_missing_settings() {
    let r = DashboardReactionDescriptor.create_reaction("d", vec!["q".to_string()], no_settings(), true);
    assert_eq!(r.id(), "d");
    assert_eq!(r.query_ids(), vec!["q"]);
    assert!(r.auto_start());
    assert_eq!(r.priority_queue_capacity(), None);
    assert_eq!(r.dashboard_count(), 0);
    let p = r.properties();
    assert_eq!(text(p.get("host")), Some("0.0.0.0".to_string()));
    assert_eq!(number(p.get("port")), Some(3000));
    assert_eq!(number(p.get("heartbeat_interval_ms")), Some(30_000));
    assert!(matches!(p.get("results_api_url"), Some(PropertyValue::Null)));
}

#[test]
fn create_reaction_applies_given_settings() {
    let settings = DashboardReactionSettings {
        host: Some("127.0.0.1".to_string()),
        port: Some(18000),
        heartbeat_interval_ms: Some(5000),
        results_api_url: Some("http://localhost:8080".to_string()),
        priority_queue_capacity: Some(500),
        predefined_dashboards: vec![PredefinedDashboardDto {
            id: "m".to_string(),
            name: "Monitor".to_string(),
            grid_options: None,
            widgets: vec![],
        }],
    };
    let r = DashboardReactionDescriptor.create_reaction(
        "d",
        vec!["a".to_string(), "b".to_string()],
        settings,
        false,
    );
    assert_eq!(r.query_ids(), vec!["a", "b"]);
    assert!(!r.auto_start());
    assert_eq!(r.priority_queue_capacity(), Some(500));
    assert_eq!(r.dashboard_count(), 1);
    let p = r.properties();
    assert_eq!(text(p.get("host")), Some("127.0.0.1".to_string()));
    assert_eq!(number(p.get("port")), Some(18_000));
    assert_eq!(number(p.get("heartbeat_interval_ms")), Some(5000));
    assert_eq!(text(p.get("results_api_url")), Some("http://localhost:8080".to_string()));
}
