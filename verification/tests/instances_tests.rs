use mdns_browser::info::Info;
use mdns_browser::instances::InstanceMap;
use mdns_browser::key::Key;
use mdns_browser::list::{ListEntry, ListWidget};
use mdns_browser::widget::DiscoveryWidget;

fn info(hostname: &str) -> Info {
    Info {
        hostname: hostname.to_string(),
        service_type: "x._http".to_string(),
        addresses: Vec::new(),
        port: 80,
        host_ttl: 120,
        other_ttl: 4500,
        priority: 0,
        weight: 0,
        properties: "".to_string(),
    }
}

#[test]
fn entries_are_created_and_dropped_with_their_key() {
    let mut m = InstanceMap::new();
    assert!(!m.contains_key(&"a".to_string()));
    m.insert("a".to_string(), ListWidget::default());
    m.insert("b".to_string(), ListWidget::default());
    assert!(m.contains_key(&"a".to_string()));
    assert!(m.contains_key(&"b".to_string()));
    m.remove(&"a".to_string());
    assert!(!m.contains_key(&"a".to_string()));
    assert!(m.contains_key(&"b".to_string()));
    m.remove(&"zzz".to_string());
    assert_eq!(m.entries.len(), 1);
}

#[test]
fn insert_replaces_an_existing_entry() {
    let mut m = InstanceMap::new();
    let mut w: ListWidget<Info> = ListWidget::default();
    w.push(info("a.local"));
    m.insert("x".to_string(), w);
    assert_eq!(m.get(&"x".to_string()).unwrap().items.len(), 1);
    m.insert("x".to_string(), ListWidget::default());
    assert_eq!(m.entries.len(), 1);
    assert_eq!(m.get(&"x".to_string()).unwrap().items.len(), 0);
}

#[test]
fn push_and_remove_reach_the_keyed_collection() {
    let mut m = InstanceMap::new();
    m.insert("x".to_string(), ListWidget::default());
    m.push_instance(&"x".to_string(), info("a.local"));
    m.push_instance(&"ghost".to_string(), info("b.local"));
    assert_eq!(m.get(&"x".to_string()).unwrap().items.len(), 1);
    m.remove_instance(&"x".to_string(), &"a.local".to_string());
    assert_eq!(m.get(&"x".to_string()).unwrap().items.len(), 0);
}

#[test]
fn instance_identity_is_the_host_name() {
    let a = info("a.local");
    let mut b = info("a.local");
    b.port = 9999;
    b.properties = "path=/other".to_string();
    assert_eq!(a, b);
    assert_eq!(a.id(), "a.local");
    assert_eq!(a.entry(), "a.local");
    let c = info("c.local");
    assert_ne!(a, c);
}

#[test]
fn filter_instances_by_host_name() {
    let mut w: ListWidget<Info> = ListWidget::default();
    w.push(info("a.local"));
    w.push(info("b.local"));
    w.push(info("c.local"));
    w.process_key_event(&Key::Char('/'));
    w.process_key_event(&Key::Char('b'));
    w.process_key_event(&Key::Enter);
    let hosts: Vec<&str> =
        w.filtered().into_iter().map(|i| w.items[i].hostname.as_str()).collect();
    assert_eq!(hosts, vec!["b.local"]);
    assert_eq!(w.cursor, Some(0));
    // clearing the filter restores the full view with the cursor reset
    w.process_key_event(&Key::Char('/'));
    w.process_key_event(&Key::Enter);
    let hosts: Vec<&str> =
        w.filtered().into_iter().map(|i| w.items[i].hostname.as_str()).collect();
    assert_eq!(hosts, vec!["a.local", "b.local", "c.local"]);
    assert_eq!(w.cursor, Some(0));
}
