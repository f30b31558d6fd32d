use khelp::config::kubernetes::{ClusterData, ClusterEntry};
use khelp::entries::{entry_names, partition_by_names, position, unlisted_names, NamedEntry};
use khelp::name_map::NameMap;
use khelp::naming::{candidate_string, contains_name, decimal_string};
use khelp::text::{begins_with, blank, framed, join, same_text};

fn names(items: &[&str]) -> Vec<String> {
    items.iter().map(|s| s.to_string()).collect()
}

fn clusters(items: &[&str]) -> Vec<ClusterEntry> {
    items
        .iter()
        .map(|name| ClusterEntry {
            name: name.to_string(),
            cluster: ClusterData { server: format!("https://{}", name), ..ClusterData::default() },
        })
        .collect()
}

#[test]
fn test_decimal_numerals() {
    assert_eq!(decimal_string(0), "0");
    assert_eq!(decimal_string(7), "7");
    assert_eq!(decimal_string(10), "10");
    assert_eq!(decimal_string(2024), "2024");
    assert_eq!(decimal_string(1_000_000_007), "1000000007");
    assert_eq!(decimal_string(u128::MAX), "340282366920938463463374607431768211455");
}

#[test]
fn test_candidate_names() {
    assert_eq!(candidate_string("prod", 1), "prod-imported");
    assert_eq!(candidate_string("prod", 0), "prod-imported");
    assert_eq!(candidate_string("prod", 2), "prod-imported-2");
    assert_eq!(candidate_string("prod", 31), "prod-imported-31");
    assert_eq!(candidate_string("", 3), "-imported-3");
}

#[test]
fn test_contains_name() {
    let list = names(&["a", "b", ""]);
    assert!(contains_name(&list, &"a".to_string()));
    assert!(contains_name(&list, &"".to_string()));
    assert!(!contains_name(&list, &"A".to_string()));
    assert!(!contains_name(&names(&[]), &"a".to_string()));
}

#[test]
fn test_position_is_the_first_place() {
    let list = clusters(&["a", "b", "a"]);
    assert_eq!(position(&list, &"a".to_string()), Some(0));
    assert_eq!(position(&list, &"b".to_string()), Some(1));
    assert_eq!(position(&list, &"c".to_string()), None);
    assert_eq!(entry_names(&list), names(&["a", "b", "a"]));
}

#[test]
fn test_entries_can_be_renamed() {
    let mut list = clusters(&["a"]);
    list[0].set_entry_name("z".to_string());
    assert_eq!(list[0].entry_name(), "z");
    assert_eq!(list[0].cluster.server, "https://a");
}

#[test]
fn test_partition_by_names_keeps_order() {
    let (listed, others) = partition_by_names(clusters(&["a", "b", "c", "d"]), &names(&["d", "b", "x"]));
    assert_eq!(entry_names(&listed), names(&["b", "d"]));
    assert_eq!(entry_names(&others), names(&["a", "c"]));
    assert_eq!(listed[0].cluster.server, "https://b");
    assert_eq!(
        unlisted_names(&clusters(&["a", "b", "c", "d"]), &names(&["d", "b", "x"])),
        names(&["a", "c"])
    );
}

#[test]
fn test_name_map_later_entry_wins() {
    let mut map = NameMap::new();
    assert_eq!(map.get(&"a".to_string()), None);
    map.insert("a".to_string(), "a-imported".to_string());
    map.insert("b".to_string(), "b-imported".to_string());
    map.insert("a".to_string(), "a-imported-2".to_string());
    assert_eq!(map.get(&"a".to_string()), Some(&"a-imported-2".to_string()));
    assert_eq!(map.get(&"b".to_string()), Some(&"b-imported".to_string()));
    assert_eq!(map.get(&"c".to_string()), None);
}

#[test]
fn test_blank_texts() {
    assert!(blank(""));
    assert!(blank("   \n\n  \t  \n"));
    assert!(blank("\u{a0}\u{2003}"));
    assert!(!blank("  x  "));
    assert!(!blank("apiVersion: v1"));
}

#[test]
fn test_join_and_frame() {
    assert_eq!(join(&names(&[]), ", "), "");
    assert_eq!(join(&names(&["a"]), ", "), "a");
    assert_eq!(join(&names(&["a", "b", "c"]), ", "), "a, b, c");
    assert_eq!(join(&names(&["", ""]), "\n"), "\n");
    assert_eq!(framed("Context '", "x", "' not found"), "Context 'x' not found");
    assert!(same_text("bash", "bash"));
    assert!(!same_text("bash", "bash "));
}

#[test]
fn test_white_space_is_the_unicode_property() {
    let listed = |c: char| {
        let n = c as u32;
        (0x9..=0xd).contains(&n)
            || n == 0x20
            || n == 0x85
            || n == 0xa0
            || n == 0x1680
            || (0x2000..=0x200a).contains(&n)
            || n == 0x2028
            || n == 0x2029
            || n == 0x202f
            || n == 0x205f
            || n == 0x3000
    };
    for n in 0..=0x10ffffu32 {
        if let Some(c) = char::from_u32(n) {
            assert_eq!(blank(&c.to_string()), listed(c), "U+{:04X}", n);
        }
    }
    assert!(blank("\u{2028}\u{3000} \r\n\u{85}"));
    assert!(!blank("\u{200b}"));
    assert!(!blank(" \u{feff} "));
}

#[test]
fn test_begins_with() {
    assert!(begins_with("Config file is empty: /c", "Config file is empty: "));
    assert!(begins_with("abc", ""));
    assert!(begins_with("", ""));
    assert!(begins_with("abc", "abc"));
    assert!(!begins_with("ab", "abc"));
    assert!(!begins_with("xabc", "abc"));
    assert!(!begins_with("", "a"));
    assert!(begins_with("\u{e9}t\u{e9}", "\u{e9}t"));
    assert!(!begins_with("\u{e9}t\u{e9}", "e"));
}
