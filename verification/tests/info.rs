use patlite_rs::{device_info_records, print_device_info};

fn text(s: &str) -> Option<String> {
    Some(s.to_string())
}

#[test]
fn records_hold_headings_and_values() {
    let records =
        device_info_records("en".to_string(), text("PATLITE"), text("NE-USB"), text("0001"));
    assert_eq!(
        records,
        vec![
            vec!["Language", "Manufacturer", "Product", "Serial Number"],
            vec!["en", "PATLITE", "NE-USB", "0001"],
        ]
    );
}

#[test]
fn unreadable_text_is_not_found() {
    let records = device_info_records("en".to_string(), None, text("NE-USB"), None);
    assert_eq!(records[1], vec!["en", "Not Found", "NE-USB", "Not Found"]);
}

#[test]
fn no_language_no_table() {
    assert_eq!(print_device_info(None, text("PATLITE"), text("NE-USB"), text("0001")), None);
}

#[test]
fn table_is_drawn_with_rounded_corners() {
    let table = print_device_info(text("en"), text("PATLITE"), text("NE-USB"), None).unwrap();
    let expected = "\
╭──────────┬──────────────┬─────────┬───────────────╮
│ Language │ Manufacturer │ Product │ Serial Number │
├──────────┼──────────────┼─────────┼───────────────┤
│ en       │ PATLITE      │ NE-USB  │ Not Found     │
╰──────────┴──────────────┴─────────┴───────────────╯";
    assert_eq!(table, expected);
}
