use fire_ant_control::drivers::logger::{LogSlot, Logger, MAX_SERIES};

#[test]
fn new_series_then_existing() {
    let mut l = Logger::new();
    assert_eq!(l.log_value("speed"), Some(LogSlot::New(0)));
    assert_eq!(l.log_value("current"), Some(LogSlot::New(1)));
    assert_eq!(l.log_value("speed"), Some(LogSlot::Existing(0)));
    let series = l.take_series();
    assert_eq!(series.len(), 2);
    assert_eq!(series[0].key, "speed");
    assert_eq!(series[0].value_count, 2);
    assert_eq!(series[1].key, "current");
    assert_eq!(series[1].value_count, 1);
}

#[test]
fn keys_compare_by_content() {
    let mut l = Logger::new();
    let owned: &'static str = Box::leak(String::from("vbat").into_boxed_str());
    assert_eq!(l.log_value("vbat"), Some(LogSlot::New(0)));
    assert_eq!(l.log_value(owned), Some(LogSlot::Existing(0)));
}

#[test]
fn full_table_drops_new_keys() {
    const KEYS: [&str; 11] = ["k0", "k1", "k2", "k3", "k4", "k5", "k6", "k7", "k8", "k9", "k10"];
    let mut l = Logger::new();
    for (i, k) in KEYS.iter().take(MAX_SERIES).enumerate() {
        assert_eq!(l.log_value(k), Some(LogSlot::New(i)));
    }
    assert_eq!(l.log_value(KEYS[10]), None);
    assert_eq!(l.log_value("k3"), Some(LogSlot::Existing(3)));
    let series = l.take_series();
    assert_eq!(series.len(), MAX_SERIES);
    assert_eq!(series[3].value_count, 2);
}

#[test]
fn take_series_empties_the_table() {
    let mut l = Logger::new();
    l.log_value("a");
    assert_eq!(l.take_series().len(), 1);
    assert_eq!(l.take_series().len(), 0);
    assert_eq!(l.log_value("a"), Some(LogSlot::New(0)));
}

#[test]
fn value_counts_and_readiness() {
    let mut l = Logger::new();
    assert!(l.can_log_value("x"));
    l.log_value("x");
    l.log_value("x");
    l.log_value("y");
    assert_eq!(l.value_count(0), 2);
    assert_eq!(l.value_count(1), 1);
    assert!(l.can_log_value("x"));
    assert!(l.can_log_value("z"));
}
