use covermint::monitor::{
    is_internal_connector, monitor_description, monitor_is_internal, monitor_label,
    monitor_search_terms, select_monitor, MonitorInfo,
};

fn monitor(connector: Option<&str>, manufacturer: Option<&str>, model: Option<&str>) -> MonitorInfo {
    MonitorInfo {
        connector: connector.map(|s| s.to_string()),
        manufacturer: manufacturer.map(|s| s.to_string()),
        model: model.map(|s| s.to_string()),
    }
}

fn desk() -> Vec<MonitorInfo> {
    vec![
        monitor(Some("HDMI-A-1"), Some("Dell"), Some("U2720Q")),
        monitor(Some("eDP-1"), Some("BOE"), None),
        monitor(Some("DP-2"), None, Some("Studio Display")),
    ]
}

#[test]
fn internal_connectors() {
    assert!(is_internal_connector("eDP-1"));
    assert!(is_internal_connector("LVDS1"));
    assert!(is_internal_connector("dsi-0"));
    assert!(!is_internal_connector("HDMI-A-1"));
    assert!(monitor_is_internal(&monitor(Some("EDP-2"), None, None)));
    assert!(!monitor_is_internal(&monitor(None, Some("BOE"), None)));
}

#[test]
fn labels_and_descriptions() {
    let m = monitor(Some("HDMI-A-1"), Some("Dell"), Some("U2720Q"));
    assert_eq!(monitor_description(&m), Some("Dell U2720Q".to_string()));
    assert_eq!(monitor_label(&m), "HDMI-A-1 \u{2014} Dell U2720Q");
    assert_eq!(monitor_label(&monitor(None, None, Some("X"))), "X");
    assert_eq!(monitor_label(&monitor(None, None, None)), "unknown monitor");
    assert_eq!(
        monitor_search_terms(&m),
        vec!["HDMI-A-1".to_string(), "Dell U2720Q".to_string(), "Dell".to_string(), "U2720Q".to_string()]
    );
}

#[test]
fn aliases_pick_by_kind() {
    let all = desk();
    assert_eq!(select_monitor(&all, "auto"), Some(1));
    assert_eq!(select_monitor(&all, "Internal"), Some(1));
    assert_eq!(select_monitor(&all, "external"), Some(0));
    let externals = vec![monitor(Some("DP-1"), None, None)];
    assert_eq!(select_monitor(&externals, "auto"), Some(0));
    assert_eq!(select_monitor(&externals, "internal"), None);
    assert_eq!(select_monitor(&Vec::new(), "auto"), None);
}

#[test]
fn index_and_name_selectors() {
    let all = desk();
    assert_eq!(select_monitor(&all, "2"), Some(2));
    assert_eq!(select_monitor(&all, " #1 "), Some(1));
    assert_eq!(select_monitor(&all, "#9"), None);
    assert_eq!(select_monitor(&all, "studio"), Some(2));
    assert_eq!(select_monitor(&all, "hdmi"), Some(0));
    assert_eq!(select_monitor(&all, "boe"), Some(1));
    assert_eq!(select_monitor(&all, "LG"), None);
}
