use mdns_browser::aggregator::{Action, Aggregator, ServiceEvent, Wakeup};
use mdns_browser::info::Info;
use mdns_browser::instances::InstanceMap;
use mdns_browser::list::ListWidget;

fn info(service_type: &str, hostname: &str) -> Info {
    Info {
        hostname: hostname.to_string(),
        service_type: service_type.to_string(),
        addresses: vec!["192.168.1.10".to_string()],
        port: 8080,
        host_ttl: 120,
        other_ttl: 4500,
        priority: 0,
        weight: 0,
        properties: "".to_string(),
    }
}

fn setup(query: &str) -> (Aggregator, ListWidget<String>, InstanceMap) {
    let agg = Aggregator::new(query.to_string());
    let services = ListWidget::default().name("Services".to_string());
    let instances = InstanceMap::new();
    (agg, services, instances)
}

#[test]
fn found_then_removed_leaves_the_other_category() {
    let (mut agg, mut services, mut instances) = setup("_http");
    for ev in [
        ServiceEvent::Found("_http".to_string(), "host-a".to_string()),
        ServiceEvent::Found("_http".to_string(), "host-b".to_string()),
        ServiceEvent::Removed("_http".to_string(), "host-a".to_string()),
    ] {
        agg.handle_event(ev, &mut services, &mut instances);
    }
    assert_eq!(services.items, vec!["host-b".to_string()]);
    assert!(instances.get(&"host-b".to_string()).is_some());
    assert!(instances.get(&"host-a".to_string()).is_none());
}

#[test]
fn found_matching_query_requests_a_new_source() {
    let (mut agg, mut services, mut instances) = setup("_http");
    let browse = agg.handle_event(
        ServiceEvent::Found("_http".to_string(), "x._http".to_string()),
        &mut services,
        &mut instances,
    );
    assert_eq!(browse, Some("x._http".to_string()));
    assert_eq!(agg.sources, vec!["_http".to_string(), "x._http".to_string()]);
    // the same category found again does not add a second source
    let browse = agg.handle_event(
        ServiceEvent::Found("_http".to_string(), "x._http".to_string()),
        &mut services,
        &mut instances,
    );
    assert_eq!(browse, None);
    assert_eq!(agg.sources.len(), 2);
    assert_eq!(services.items, vec!["x._http".to_string()]);
}

#[test]
fn found_not_matching_query_is_ignored() {
    let (mut agg, mut services, mut instances) = setup("_http");
    let browse = agg.handle_event(
        ServiceEvent::Found("_ipp".to_string(), "x._ipp".to_string()),
        &mut services,
        &mut instances,
    );
    assert_eq!(browse, None);
    assert!(services.items.is_empty());
    assert_eq!(instances.entries.len(), 0);
}

#[test]
fn resolved_joins_its_category() {
    let (mut agg, mut services, mut instances) = setup("_http");
    agg.handle_event(
        ServiceEvent::Found("_http".to_string(), "x._http".to_string()),
        &mut services,
        &mut instances,
    );
    agg.handle_event(
        ServiceEvent::Resolved(info("x._http", "a.local")),
        &mut services,
        &mut instances,
    );
    // a duplicate host name is silently de-duplicated
    agg.handle_event(
        ServiceEvent::Resolved(info("x._http", "a.local")),
        &mut services,
        &mut instances,
    );
    agg.handle_event(
        ServiceEvent::Resolved(info("x._http", "b.local")),
        &mut services,
        &mut instances,
    );
    let w = instances.get(&"x._http".to_string()).expect("category is tracked");
    let hosts: Vec<&str> = w.items.iter().map(|i| i.hostname.as_str()).collect();
    assert_eq!(hosts, vec!["a.local", "b.local"]);
}

#[test]
fn resolved_for_untracked_category_is_ignored() {
    let (mut agg, mut services, mut instances) = setup("_http");
    agg.handle_event(
        ServiceEvent::Resolved(info("x._http", "a.local")),
        &mut services,
        &mut instances,
    );
    assert_eq!(instances.entries.len(), 0);
}

#[test]
fn removed_scoped_to_category_removes_the_instance() {
    let (mut agg, mut services, mut instances) = setup("_http");
    agg.handle_event(
        ServiceEvent::Found("_http".to_string(), "x._http".to_string()),
        &mut services,
        &mut instances,
    );
    agg.handle_event(
        ServiceEvent::Resolved(info("x._http", "a.local")),
        &mut services,
        &mut instances,
    );
    agg.handle_event(
        ServiceEvent::Removed("x._http".to_string(), "a.local".to_string()),
        &mut services,
        &mut instances,
    );
    let w = instances.get(&"x._http".to_string()).expect("category is tracked");
    assert!(w.items.is_empty());
    // the category itself stays
    assert_eq!(services.items, vec!["x._http".to_string()]);
}

#[test]
fn lifecycle_events_change_nothing() {
    let (mut agg, mut services, mut instances) = setup("_http");
    agg.handle_event(
        ServiceEvent::Found("_http".to_string(), "x._http".to_string()),
        &mut services,
        &mut instances,
    );
    let before = services.items.clone();
    agg.handle_event(
        ServiceEvent::SearchStarted("_http".to_string()),
        &mut services,
        &mut instances,
    );
    agg.handle_event(
        ServiceEvent::SearchStopped("_http".to_string()),
        &mut services,
        &mut instances,
    );
    assert_eq!(services.items, before);
    assert_eq!(instances.entries.len(), 1);
}

#[test]
fn shutdown_stops_in_one_pass_with_three_sources() {
    let (mut agg, mut services, mut instances) = setup("_http");
    agg.handle_wakeup(
        Wakeup::Event(ServiceEvent::Found("_http".to_string(), "x._http".to_string())),
        &mut services,
        &mut instances,
    );
    agg.handle_wakeup(
        Wakeup::Event(ServiceEvent::Found("_http".to_string(), "y._http".to_string())),
        &mut services,
        &mut instances,
    );
    assert_eq!(agg.sources.len(), 3);
    // one wakeup carrying the stop signal suffices, whatever is registered
    let action = agg.handle_wakeup(Wakeup::Stop, &mut services, &mut instances);
    assert!(matches!(action, Action::Stop));
    assert_eq!(agg.sources.len(), 3);
    assert_eq!(services.items, vec!["x._http".to_string(), "y._http".to_string()]);
}

#[test]
fn wakeup_event_reports_browse_action() {
    let (mut agg, mut services, mut instances) = setup("_http");
    let action = agg.handle_wakeup(
        Wakeup::Event(ServiceEvent::Found("_http".to_string(), "x._http".to_string())),
        &mut services,
        &mut instances,
    );
    assert!(matches!(action, Action::Browse(name) if name == "x._http"));
    let action = agg.handle_wakeup(
        Wakeup::Event(ServiceEvent::SearchStarted("_http".to_string())),
        &mut services,
        &mut instances,
    );
    assert!(matches!(action, Action::Continue));
}
