use golob_plugin::debug_store::ErrorStore;
use golob_plugin::plugin::GlobalPlugin;

#[test]
fn a_recorded_error_is_found_under_its_instance_and_parameter() {
    let mut plugin = GlobalPlugin::new();
    plugin.record_error(7, 3, String::from("script failed"));
    let errors = plugin.query_errors(7);
    assert!(errors.contains_key(&3));
    assert_eq!(errors.get(&3), Some(&String::from("script failed")));
    assert_eq!(errors.len(), 1);
}

#[test]
fn a_second_record_for_the_same_key_overwrites_the_first() {
    let mut plugin = GlobalPlugin::new();
    plugin.record_error(7, 3, String::from("script failed"));
    plugin.record_error(7, 3, String::from("script failed again"));
    let errors = plugin.query_errors(7);
    assert_eq!(errors.len(), 1);
    assert_eq!(errors.get(&3), Some(&String::from("script failed again")));
}

#[test]
fn records_for_other_keys_stay() {
    let mut plugin = GlobalPlugin::new();
    plugin.record_error(7, 3, String::from("three"));
    plugin.record_error(7, -1, String::from("minus one"));
    plugin.record_error(8, 3, String::from("other instance"));
    plugin.record_error(7, 3, String::from("three again"));
    let seven = plugin.query_errors(7);
    assert_eq!(seven.len(), 2);
    assert_eq!(seven.get(&3), Some(&String::from("three again")));
    assert_eq!(seven.get(&-1), Some(&String::from("minus one")));
    let eight = plugin.query_errors(8);
    assert_eq!(eight.len(), 1);
    assert_eq!(eight.get(&3), Some(&String::from("other instance")));
}

#[test]
fn an_instance_without_records_has_an_empty_map() {
    let mut plugin = GlobalPlugin::new();
    assert!(plugin.query_errors(7).is_empty());
    plugin.record_error(7, 3, String::from("script failed"));
    assert!(plugin.query_errors(6).is_empty());
}

#[test]
fn nothing_expires_until_the_instance_is_cleared() {
    let mut plugin = GlobalPlugin::new();
    plugin.record_error(7, 3, String::from("script failed"));
    plugin.record_error(8, 1, String::from("kept"));
    for _ in 0..3 {
        assert_eq!(plugin.query_errors(7).len(), 1);
    }
    plugin.clear_errors(7);
    assert!(plugin.query_errors(7).is_empty());
    assert_eq!(plugin.query_errors(8).get(&1), Some(&String::from("kept")));
    plugin.clear_errors(7);
    assert!(plugin.query_errors(7).is_empty());
}

#[test]
fn the_store_alone_keeps_the_last_write_per_key() {
    let mut store = ErrorStore::new();
    assert!(store.query(1).is_empty());
    store.record(1, 2, String::from("a"));
    store.record(1, 4, String::from("b"));
    store.record(1, 2, String::from("c"));
    let messages = store.query(1);
    assert_eq!(messages.len(), 2);
    assert_eq!(messages.get(&2), Some(&String::from("c")));
    assert_eq!(messages.get(&4), Some(&String::from("b")));
    store.clear_instance(1);
    assert!(store.query(1).is_empty());
}
