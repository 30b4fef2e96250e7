use supermarket_inventory::InventoryItem;
use supermarket_inventory::SupermarketManager;
use time::format_description::well_known::Rfc3339;
use time::OffsetDateTime;

fn milk(expiration_date: u64) -> InventoryItem {
    InventoryItem {
        id: 1,
        name: "Milk".to_string(),
        quantity: 10,
        price_bits: (2.5f64).to_bits(),
        expiration_date,
    }
}

/// The timestamp of a log line is everything after the final " at ".
fn timestamp_of(line: &str) -> &str {
    let pos = line.rfind(" at ").expect("log line carries a timestamp");
    &line[pos + 4..]
}

#[test]
fn new_store_is_empty() {
    let m = SupermarketManager::new();
    assert!(m.get_item(1).is_none());
    assert_eq!(m.get_logs().len(), 0);
}

#[test]
fn insert_then_get_returns_exact_record() {
    let mut m = SupermarketManager::new();
    m.add_item(milk(1_700_000_000));
    let got = m.get_item(1).expect("item 1 was added");
    assert_eq!(got.id, 1);
    assert_eq!(got.name, "Milk");
    assert_eq!(got.quantity, 10);
    assert_eq!(f64::from_bits(got.price_bits), 2.5);
    assert_eq!(got.expiration_date, 1_700_000_000);
    assert_eq!(m.get_logs().len(), 1);
}

#[test]
fn overwrite_replaces_all_fields() {
    let mut m = SupermarketManager::new();
    m.add_item(milk(1_700_000_000));
    m.add_item(InventoryItem {
        id: 1,
        name: "Oat milk".to_string(),
        quantity: 4,
        price_bits: (3.75f64).to_bits(),
        expiration_date: 1_800_000_000,
    });
    let got = m.get_item(1).expect("item 1 is still present");
    assert_eq!(got.name, "Oat milk");
    assert_eq!(got.quantity, 4);
    assert_eq!(f64::from_bits(got.price_bits), 3.75);
    assert_eq!(got.expiration_date, 1_800_000_000);
    assert_eq!(m.get_logs().len(), 2);
}

#[test]
fn update_on_missing_id_is_noop() {
    let mut m = SupermarketManager::new();
    m.add_item(milk(1_700_000_000));
    let logs_before = m.get_logs();
    m.update_item_quantity(999, 5);
    assert!(m.get_item(999).is_none());
    assert_eq!(m.get_logs(), logs_before);
    assert_eq!(m.get_item(1).unwrap().quantity, 10);
}

#[test]
fn remove_then_get_is_absent_and_second_remove_is_noop() {
    let mut m = SupermarketManager::new();
    m.add_item(milk(1_700_000_000));
    m.remove_item(1);
    assert!(m.get_item(1).is_none());
    let logs_after_first = m.get_logs();
    assert_eq!(logs_after_first.len(), 2);
    m.remove_item(1);
    assert_eq!(m.get_logs(), logs_after_first);
}

#[test]
fn log_ordering_ids_and_timestamps() {
    let mut m = SupermarketManager::new();
    m.add_item(milk(1_700_000_000));
    m.update_item_quantity(1, 7);
    m.remove_item(1);
    let logs = m.get_logs();
    assert_eq!(logs.len(), 3);
    assert!(logs[0].starts_with("Item 1 added at "));
    assert!(logs[1].starts_with("Item 1 quantity updated to 7 at "));
    assert!(logs[2].starts_with("Item 1 removed at "));
    for line in &logs {
        let ts = timestamp_of(line);
        OffsetDateTime::parse(ts, &Rfc3339).expect("timestamp parses as RFC 3339");
    }
    let logs_again = m.get_logs();
    assert_eq!(logs, logs_again);
}

#[test]
fn update_quantity_to_zero_keeps_item() {
    let mut m = SupermarketManager::new();
    m.add_item(milk(1_700_000_000));
    m.update_item_quantity(1, 0);
    let got = m.get_item(1).expect("a zero quantity does not remove the item");
    assert_eq!(got.quantity, 0);
    assert_eq!(got.name, "Milk");
    assert_eq!(m.get_logs().len(), 2);
}

#[test]
fn current_time_is_rfc3339() {
    let ts = SupermarketManager::get_current_time();
    OffsetDateTime::parse(&ts, &Rfc3339).expect("current time renders as RFC 3339");
}
