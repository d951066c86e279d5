use album_sync::error::SyncError;
use album_sync::peers::{Edge, Peer, PeerTable};

fn peer(name: &str, sync_with: &[&str]) -> Peer {
    Peer {
        name: name.to_string(),
        shared_link: format!("https://{name}.example/share/{name}-key"),
        sync_with: sync_with.iter().map(|other| other.to_string()).collect(),
    }
}

fn table(peers: Vec<Peer>) -> PeerTable {
    let mut table = PeerTable::new();
    for peer in peers {
        table = table.insert(peer);
    }
    table
}

#[test]
fn empty_table_has_no_peers_and_no_edges() {
    let table = PeerTable::new();
    assert_eq!(table.len(), 0);
    assert_eq!(table.get(0), None);
    assert_eq!(table.position("alice"), None);
    assert_eq!(table.edges(), Ok(vec![]));
}

#[test]
fn peers_are_found_by_name() {
    let table = table(vec![peer("alice", &[]), peer("bob", &[]), peer("carol", &[])]);
    assert_eq!(table.len(), 3);
    assert_eq!(table.position("alice"), Some(0));
    assert_eq!(table.position("bob"), Some(1));
    assert_eq!(table.position("carol"), Some(2));
    assert_eq!(table.position("dave"), None);
    assert_eq!(table.position("Alice"), None);
    assert_eq!(table.position(""), None);
    assert_eq!(table.get(1), Some(&peer("bob", &[])));
    assert_eq!(table.get(3), None);
}

#[test]
fn peer_of_the_same_name_is_replaced_in_its_place() {
    let table = table(vec![peer("alice", &[]), peer("bob", &[]), peer("alice", &["bob"])]);
    assert_eq!(table.len(), 2);
    assert_eq!(table.get(0), Some(&peer("alice", &["bob"])));
    assert_eq!(table.get(1), Some(&peer("bob", &[])));
    assert_eq!(table.edges(), Ok(vec![Edge { destination: 0, source: 1 }]));
}

#[test]
fn edges_come_peer_by_peer_in_the_order_of_sync_with() {
    let table = table(vec![
        peer("alice", &["carol", "bob"]),
        peer("bob", &[]),
        peer("carol", &["alice"]),
    ]);
    assert_eq!(
        table.edges(),
        Ok(vec![
            Edge { destination: 0, source: 2 },
            Edge { destination: 0, source: 1 },
            Edge { destination: 2, source: 0 },
        ])
    );
}

#[test]
fn cycles_become_two_edges() {
    let table = table(vec![peer("alice", &["bob"]), peer("bob", &["alice"])]);
    assert_eq!(
        table.edges(),
        Ok(vec![Edge { destination: 0, source: 1 }, Edge { destination: 1, source: 0 }])
    );
}

#[test]
fn peer_may_sync_with_itself() {
    let table = table(vec![peer("alice", &["alice"])]);
    assert_eq!(table.edges(), Ok(vec![Edge { destination: 0, source: 0 }]));
}

#[test]
fn repeated_entries_become_repeated_edges() {
    let table = table(vec![peer("alice", &["bob", "bob"]), peer("bob", &[])]);
    assert_eq!(
        table.edges(),
        Ok(vec![Edge { destination: 0, source: 1 }, Edge { destination: 0, source: 1 }])
    );
}

#[test]
fn unknown_peer_is_refused() {
    let table = table(vec![peer("alice", &["bob", "zed"]), peer("bob", &["alice"])]);
    assert_eq!(
        table.edges(),
        Err(SyncError::UnknownPeer { peer: "alice".to_string(), unknown: "zed".to_string() })
    );
}

#[test]
fn first_unknown_peer_is_reported() {
    let table = table(vec![
        peer("alice", &["bob"]),
        peer("bob", &["alice", "yan", "zed"]),
        peer("carol", &["xavier"]),
    ]);
    assert_eq!(
        table.edges(),
        Err(SyncError::UnknownPeer { peer: "bob".to_string(), unknown: "yan".to_string() })
    );
}
