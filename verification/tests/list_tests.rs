use mdns_browser::key::Key;
use mdns_browser::list::{ListWidget, Mode};
use mdns_browser::widget::DiscoveryWidget;

fn widget(names: &[&str]) -> ListWidget<String> {
    let mut w = ListWidget::default().name("Services".to_string());
    for n in names {
        w.push(n.to_string());
    }
    w
}

fn visible(w: &ListWidget<String>) -> Vec<String> {
    w.filtered().into_iter().map(|i| w.items[i].clone()).collect()
}

fn type_filter(w: &mut ListWidget<String>, pattern: &str) {
    w.process_key_event(&Key::Char('/'));
    for c in pattern.chars() {
        w.process_key_event(&Key::Char(c));
    }
    w.process_key_event(&Key::Enter);
}

#[test]
fn insert_deduplicates_by_identity() {
    let mut w = widget(&["a", "b"]);
    w.push("a".to_string());
    assert_eq!(w.items, vec!["a".to_string(), "b".to_string()]);
    w.push("c".to_string());
    assert_eq!(w.items, vec!["a".to_string(), "b".to_string(), "c".to_string()]);
}

#[test]
fn first_insert_selects_position_zero() {
    let mut w: ListWidget<String> = ListWidget::default();
    assert_eq!(w.cursor, None);
    w.push("a".to_string());
    assert_eq!(w.cursor, Some(0));
    w.push("b".to_string());
    assert_eq!(w.cursor, Some(0));
}

#[test]
fn move_wraps_below_and_above() {
    let mut w = widget(&["a", "b", "c"]);
    assert_eq!(w.cursor, Some(0));
    w.prev();
    assert_eq!(w.cursor, Some(2));
    w.next();
    assert_eq!(w.cursor, Some(0));
}

#[test]
fn move_round_trip_returns_to_start() {
    let mut w = widget(&["a", "b", "c", "d"]);
    w.next();
    assert_eq!(w.cursor, Some(1));
    w.next();
    w.prev();
    assert_eq!(w.cursor, Some(1));
    w.prev();
    w.next();
    assert_eq!(w.cursor, Some(1));
}

#[test]
fn move_on_empty_view_is_noop() {
    let mut w: ListWidget<String> = ListWidget::default();
    w.next();
    assert_eq!(w.cursor, None);
    w.prev();
    assert_eq!(w.cursor, None);
}

#[test]
fn top_and_bottom_reach_the_ends() {
    let mut w = widget(&["a", "b", "c"]);
    w.next();
    assert_eq!(w.cursor, Some(1));
    w.bottom();
    assert_eq!(w.cursor, Some(2));
    w.top();
    assert_eq!(w.cursor, Some(0));
}

#[test]
fn top_and_bottom_keys_in_display_mode() {
    let mut w = widget(&["a", "b", "c"]);
    w.process_key_event(&Key::Char('G'));
    assert_eq!(w.cursor, Some(2));
    w.process_key_event(&Key::Char('g'));
    assert_eq!(w.cursor, Some(0));
    w.process_key_event(&Key::Down);
    assert_eq!(w.cursor, Some(1));
    w.process_key_event(&Key::Up);
    assert_eq!(w.cursor, Some(0));
}

#[test]
fn filter_narrows_view_and_resets_cursor() {
    let mut w = widget(&["a.local", "b.local", "c.local"]);
    w.next();
    type_filter(&mut w, "b");
    assert_eq!(visible(&w), vec!["b.local".to_string()]);
    assert_eq!(w.cursor, Some(0));
    // clearing the filter restores the full view, cursor back at the top
    type_filter(&mut w, "");
    assert_eq!(
        visible(&w),
        vec!["a.local".to_string(), "b.local".to_string(), "c.local".to_string()]
    );
    assert_eq!(w.cursor, Some(0));
}

#[test]
fn filter_is_idempotent() {
    let mut w = widget(&["a.local", "b.local", "ab.local"]);
    type_filter(&mut w, "b");
    let once = visible(&w);
    let cursor_once = w.cursor;
    type_filter(&mut w, "b");
    assert_eq!(visible(&w), once);
    assert_eq!(w.cursor, cursor_once);
}

#[test]
fn filter_never_mutates_stored_order() {
    let mut w = widget(&["b.local", "a.local"]);
    type_filter(&mut w, "^a");
    assert_eq!(w.items, vec!["b.local".to_string(), "a.local".to_string()]);
    assert_eq!(visible(&w), vec!["a.local".to_string()]);
}

#[test]
fn filter_matching_nothing_clears_cursor() {
    let mut w = widget(&["a", "b"]);
    type_filter(&mut w, "zzz");
    assert_eq!(visible(&w), Vec::<String>::new());
    assert_eq!(w.cursor, None);
    type_filter(&mut w, "");
    assert_eq!(w.cursor, Some(0));
}

#[test]
fn invalid_pattern_keeps_previous_filter() {
    let mut w = widget(&["a.local", "b.local"]);
    type_filter(&mut w, "b");
    assert_eq!(visible(&w), vec!["b.local".to_string()]);
    type_filter(&mut w, "[");
    // the ill-formed pattern was rejected: the previous filter still applies
    assert_eq!(visible(&w), vec!["b.local".to_string()]);
    assert!(matches!(w.current_mode, Mode::Display));
}

#[test]
fn regex_is_anchored_only_where_written() {
    let mut w = widget(&["ba", "ab"]);
    type_filter(&mut w, "^b");
    assert_eq!(visible(&w), vec!["ba".to_string()]);
}

#[test]
fn remove_only_selected_element_clears_cursor() {
    let mut w = widget(&["a"]);
    assert_eq!(w.cursor, Some(0));
    w.remove(&"a".to_string());
    assert_eq!(w.cursor, None);
    assert!(w.items.is_empty());
}

#[test]
fn remove_non_selected_keeps_cursor_value() {
    let mut w = widget(&["a", "b", "c"]);
    assert_eq!(w.cursor, Some(0));
    w.remove(&"c".to_string());
    assert_eq!(w.cursor, Some(0));
    w.remove(&"zzz".to_string());
    assert_eq!(w.items, vec!["a".to_string(), "b".to_string()]);
    assert_eq!(w.cursor, Some(0));
}

#[test]
fn remove_last_selected_clamps_cursor() {
    let mut w = widget(&["a", "b", "c"]);
    w.bottom();
    assert_eq!(w.cursor, Some(2));
    w.remove(&"c".to_string());
    assert_eq!(w.cursor, Some(1));
}

#[test]
fn selected_returns_item_under_cursor() {
    let w = widget(&["a", "b"]);
    assert_eq!(w.selected(), Some(&"a".to_string()));
    let empty: ListWidget<String> = ListWidget::default();
    assert_eq!(empty.selected(), None);
}

#[test]
fn title_reflects_name_and_filter() {
    let mut w = widget(&["a.local", "b.local"]);
    assert_eq!(w.title(), "Services");
    type_filter(&mut w, "b");
    assert_eq!(w.title(), "Services(/b/)");
}

#[test]
fn controls_hint_lists_bindings() {
    let w = widget(&[]);
    assert_eq!(
        w.controls(),
        "Use \u{2193}\u{2191} to select next/prev, g/G to go top/bottom, / to search"
    );
}

#[test]
fn large_deltas_wrap_and_round_trip() {
    let mut w = widget(&["a", "b", "c"]);
    w.select_delta(7);
    assert_eq!(w.cursor, Some(1));
    w.select_delta(-7);
    assert_eq!(w.cursor, Some(0));
    w.select_delta(-4);
    assert_eq!(w.cursor, Some(2));
}
