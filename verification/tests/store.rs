use girl_technology::directory::Directory;
use girl_technology::models::{Listing, NewListing, PgTimestamp};

fn pair(category: &str, url: &str) -> NewListing {
    NewListing { category: category.to_string(), url: url.to_string() }
}

fn listing(category: &str, url: &str, at: i64) -> Listing {
    Listing { category: category.to_string(), url: url.to_string(), timestamp: PgTimestamp(at) }
}

#[test]
fn new_directory_is_empty() {
    let directory = Directory::new();
    assert_eq!(directory.len(), 0);
    assert_eq!(directory.get(0), None);
    assert_eq!(directory.find(&"https://a.example/".to_string()), None);
}

#[test]
fn same_pair_twice_is_one_row() {
    let mut directory = Directory::new();
    assert!(!directory.upsert(pair("x", "https://a.example/"), PgTimestamp(10)));
    assert!(directory.upsert(pair("x", "https://a.example/"), PgTimestamp(20)));
    assert_eq!(directory.len(), 1);
    assert_eq!(directory.get(0), Some(&listing("x", "https://a.example/", 20)));
    assert_eq!(directory.get(1), None);
}

#[test]
fn new_category_for_a_url_updates_its_row() {
    let mut directory = Directory::new();
    directory.upsert(pair("x", "https://a.example/"), PgTimestamp(10));
    directory.upsert(pair("x", "https://a.example/"), PgTimestamp(20));
    assert!(directory.upsert(pair("y", "https://a.example/"), PgTimestamp(30)));
    assert_eq!(directory.len(), 1);
    assert_eq!(directory.find(&"https://a.example/".to_string()), Some(&listing("y", "https://a.example/", 30)));
}

#[test]
fn other_urls_keep_their_rows() {
    let mut directory = Directory::new();
    assert!(!directory.upsert(pair("x", "https://a.example/"), PgTimestamp(1)));
    assert!(!directory.upsert(pair("x", "https://b.example/"), PgTimestamp(2)));
    assert!(!directory.upsert(pair("z", "https://c.example/"), PgTimestamp(3)));
    assert!(directory.upsert(pair("y", "https://b.example/"), PgTimestamp(4)));
    assert_eq!(directory.len(), 3);
    assert_eq!(directory.get(0), Some(&listing("x", "https://a.example/", 1)));
    assert_eq!(directory.get(1), Some(&listing("y", "https://b.example/", 4)));
    assert_eq!(directory.get(2), Some(&listing("z", "https://c.example/", 3)));
    assert_eq!(directory.find(&"https://c.example/".to_string()), Some(&listing("z", "https://c.example/", 3)));
    assert_eq!(directory.find(&"https://d.example/".to_string()), None);
}

#[test]
fn urls_are_keys_letter_for_letter() {
    let mut directory = Directory::new();
    directory.upsert(pair("x", "https://a.example/"), PgTimestamp(1));
    assert!(!directory.upsert(pair("x", "https://a.example/p"), PgTimestamp(2)));
    assert!(!directory.upsert(pair("x", "http://a.example/"), PgTimestamp(3)));
    assert_eq!(directory.len(), 3);
}

#[test]
fn timestamps_order_as_their_integers() {
    assert!(PgTimestamp(1) < PgTimestamp(2));
    assert!(PgTimestamp(-5) < PgTimestamp(0));
    assert_eq!(PgTimestamp(3), PgTimestamp(3));
    assert_eq!(PgTimestamp(9).0, 9);
}
