use macgen::store::{
    check_mac, check_prompt, is_mac_registered, load_db, CredentialDB, Entry, LoadStatus, Loaded,
};

fn entry(client: &str, mac: &str) -> Entry {
    Entry { client: client.to_string(), mac: mac.to_string() }
}

#[test]
fn a_new_record_is_empty() {
    let db = CredentialDB::new();
    assert_eq!(db.len(), 0);
    assert!(db.credentials.is_empty());
    assert!(!db.contains("02:aa:bb:cc:dd:ee"));
    assert!(db.find_by_address("02:aa:bb:cc:dd:ee").is_none());
}

#[test]
fn contains_is_true_right_after_push() {
    let mut db = CredentialDB::new();
    assert!(!db.contains("02:aa:bb:cc:dd:ee"));
    db.push(entry("alice", "02:aa:bb:cc:dd:ee"));
    assert!(db.contains("02:aa:bb:cc:dd:ee"));
    assert!(is_mac_registered(&db, "02:aa:bb:cc:dd:ee"));
    assert_eq!(db.len(), 1);
}

#[test]
fn contains_does_not_normalise() {
    let mut db = CredentialDB::new();
    db.push(entry("alice", "02:aa:bb:cc:dd:ee"));
    assert!(!db.contains("02:AA:BB:CC:DD:EE"));
    assert!(!db.contains("02:Aa:bb:cc:dd:ee"));
    assert!(!db.contains("02aabbccddee"));
    assert!(!db.contains("02-aa-bb-cc-dd-ee"));
    assert!(!db.contains("02:aa:bb:cc:dd:ee "));
    assert!(!db.contains(" 02:aa:bb:cc:dd:ee"));
    assert!(!db.contains("2:aa:bb:cc:dd:ee"));
    assert!(!db.contains(""));
    assert!(!is_mac_registered(&db, "02:AA:BB:CC:DD:EE"));
}

#[test]
fn push_keeps_the_order_and_allows_a_shared_client() {
    let mut db = CredentialDB::new();
    db.push(entry("alice", "02:aa:bb:cc:dd:ee"));
    db.push(entry("bob", "12:00:00:00:00:01"));
    db.push(entry("alice", "22:00:00:00:00:02"));
    assert_eq!(db.len(), 3);
    let seen: Vec<(&str, &str)> =
        db.credentials.iter().map(|e| (e.client.as_str(), e.mac.as_str())).collect();
    assert_eq!(
        seen,
        vec![
            ("alice", "02:aa:bb:cc:dd:ee"),
            ("bob", "12:00:00:00:00:01"),
            ("alice", "22:00:00:00:00:02")
        ]
    );
}

#[test]
fn find_by_address_gives_the_first_match() {
    let db = CredentialDB {
        credentials: vec![
            entry("alice", "02:aa:bb:cc:dd:ee"),
            entry("bob", "12:00:00:00:00:01"),
            entry("carol", "12:00:00:00:00:01"),
        ],
    };
    let found = db.find_by_address("12:00:00:00:00:01").expect("a record");
    assert_eq!(found.client, "bob");
    assert_eq!(found.mac, "12:00:00:00:00:01");
    let found = db.find_by_address("02:aa:bb:cc:dd:ee").expect("a record");
    assert_eq!(found.client, "alice");
    assert!(db.find_by_address("12:00:00:00:00:02").is_none());
    assert!(db.find_by_address("12:00:00:00:00:01 ").is_none());
}

#[test]
fn loading_a_missing_file_gives_an_empty_record() {
    let (db, status) = load_db(Loaded::Missing);
    assert_eq!(db.len(), 0);
    assert_eq!(status, LoadStatus::Started);
}

#[test]
fn loading_a_malformed_file_gives_an_empty_record_and_says_so() {
    let (db, status) = load_db(Loaded::Malformed);
    assert_eq!(db.len(), 0);
    assert_eq!(status, LoadStatus::Recovered);
}

#[test]
fn loading_an_unreadable_file_gives_an_empty_record_and_says_so() {
    let (db, status) = load_db(Loaded::Unreadable);
    assert_eq!(db.len(), 0);
    assert_eq!(status, LoadStatus::Recovered);
}

#[test]
fn loading_records_keeps_them_in_order() {
    let (db, status) = load_db(Loaded::Records {
        entries: vec![
            entry("alice", "02:aa:bb:cc:dd:ee"),
            entry("bob", "12:00:00:00:00:01"),
            entry("bob", "12:00:00:00:00:01"),
        ],
    });
    assert_eq!(status, LoadStatus::Restored);
    assert_eq!(db.len(), 3);
    assert_eq!(db.credentials[0].client, "alice");
    assert_eq!(db.credentials[0].mac, "02:aa:bb:cc:dd:ee");
    assert_eq!(db.credentials[1].client, "bob");
    assert_eq!(db.credentials[2].mac, "12:00:00:00:00:01");

    let (db, status) = load_db(Loaded::Records { entries: Vec::new() });
    assert_eq!(status, LoadStatus::Restored);
    assert_eq!(db.len(), 0);
}

#[test]
fn records_handed_to_load_db_come_back_unchanged() {
    let mut db = CredentialDB::new();
    db.push(entry("alice", "02:aa:bb:cc:dd:ee"));
    db.push(entry("bob", "12:00:00:00:00:01"));
    let copied: Vec<Entry> =
        db.credentials.iter().map(|e| entry(e.client.as_str(), e.mac.as_str())).collect();
    let (loaded, _) = load_db(Loaded::Records { entries: copied });
    assert_eq!(loaded.len(), db.len());
    for (a, b) in loaded.credentials.iter().zip(db.credentials.iter()) {
        assert_eq!(a.client, b.client);
        assert_eq!(a.mac, b.mac);
    }
}

#[test]
fn check_mac_names_the_client_of_a_recorded_address() {
    let db = CredentialDB {
        credentials: vec![entry("alice", "02:aa:bb:cc:dd:ee"), entry("bob", "02:aa:bb:cc:dd:ee")],
    };
    assert_eq!(
        check_mac(&db, "02:aa:bb:cc:dd:ee\n"),
        "MAC 02:aa:bb:cc:dd:ee is registered to client: alice"
    );
    assert_eq!(
        check_mac(&db, "  02:aa:bb:cc:dd:ee  "),
        "MAC 02:aa:bb:cc:dd:ee is registered to client: alice"
    );
}

#[test]
fn check_mac_says_when_an_address_is_not_recorded() {
    let db = CredentialDB { credentials: vec![entry("alice", "02:aa:bb:cc:dd:ee")] };
    assert_eq!(check_mac(&db, "02:AA:BB:CC:DD:EE\n"), "MAC 02:AA:BB:CC:DD:EE is not registered");
    assert_eq!(check_mac(&db, "\n"), "MAC  is not registered");
    assert_eq!(
        check_mac(&CredentialDB::new(), "02:aa:bb:cc:dd:ee"),
        "MAC 02:aa:bb:cc:dd:ee is not registered"
    );
}

#[test]
fn check_prompt_text() {
    assert_eq!(check_prompt(), "Enter MAC address to check (format xx:xx:xx:xx:xx:xx):");
}
