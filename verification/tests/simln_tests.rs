use blast::simln::{
    destination_lookup_failed, skip_connection, ActivityParser, BlastSimLnManager, NodeConnection, NodeId, NodeInfo,
    Resolution, SimSetup, ValueOrRange, EXPECTED_PAYMENT_AMOUNT, RESULTS_DIR,
};

fn lnd(name: &str, address: &str) -> NodeConnection {
    NodeConnection::Lnd {
        id: NodeId::Alias(name.to_string()),
        address: address.to_string(),
        macaroon: "m".to_string(),
        cert: "c".to_string(),
    }
}

fn info(key: &str, alias: &str) -> NodeInfo {
    NodeInfo { pubkey: key.to_string(), alias: alias.to_string() }
}

#[test]
fn activity_is_listed_after_it_is_added() {
    let mut m = BlastSimLnManager::new();
    assert!(m.get_activity().is_empty());
    m.add_activity("blast_lnd-0000", "blast_lnd-0001", None, Some(5), 10, 2000);
    m.add_activity("a", "b", Some(3), None, 1, 7);
    assert_eq!(
        m.get_activity(),
        vec!["blast_lnd-0000 blast_lnd-0001 None 5 10 2000".to_string(), "a b 3 None 1 7".to_string()]
    );
}

#[test]
fn ranges_and_keys_print() {
    let mut m = BlastSimLnManager::new();
    m.data.activity.push(ActivityParser {
        source: NodeId::PublicKey("02ab".to_string()),
        destination: NodeId::Alias("d".to_string()),
        start_secs: Some(0),
        count: Some(1),
        interval_secs: ValueOrRange::Range(1, 5),
        amount_msat: ValueOrRange::Range(100, 200),
    });
    assert_eq!(m.get_activity(), vec!["02ab d 0 1 (1-5) (100-200)".to_string()]);
    assert_eq!(NodeId::PublicKey("k".to_string()).to_text(), "k");
}

#[test]
fn nodes_are_added_listed_and_reset() {
    let mut m = BlastSimLnManager::new();
    m.add_nodes(vec![lnd("n0", "localhost:1"), lnd("n1", "localhost:2")]);
    m.add_nodes(vec![NodeConnection::Cln {
        id: NodeId::Alias("c0".to_string()),
        address: "a".to_string(),
        ca_cert: "x".to_string(),
        client_cert: "y".to_string(),
        client_key: "z".to_string(),
    }]);
    assert_eq!(m.get_nodes(), vec!["n0".to_string(), "n1".to_string(), "c0".to_string()]);
    m.add_activity("n0", "n1", None, None, 1, 1);
    m.reset();
    assert!(m.get_nodes().is_empty());
    assert!(m.get_activity().is_empty());
}

#[test]
fn connections_without_address_are_skipped() {
    assert!(skip_connection(&lnd("n", "")));
    assert!(!skip_connection(&lnd("n", "localhost:10009")));
    let e = NodeConnection::Eclair {
        id: NodeId::Alias("e".to_string()),
        base_url: String::new(),
        api_username: "u".to_string(),
        api_password: "p".to_string(),
    };
    assert!(!skip_connection(&e));
}

#[test]
fn duplicate_aliases_are_refused() {
    let mut s = SimSetup::new();
    assert_eq!(s.register(info("k1", "alice")), Ok(()));
    assert_eq!(s.register(info("k2", "bob")), Ok(()));
    assert_eq!(s.register(info("k3", "alice")), Err("duplicated node: alice.".to_string()));
}

fn act(source: NodeId, destination: NodeId) -> ActivityParser {
    ActivityParser {
        source,
        destination,
        start_secs: None,
        count: None,
        interval_secs: ValueOrRange::Value(1),
        amount_msat: ValueOrRange::Value(EXPECTED_PAYMENT_AMOUNT),
    }
}

#[test]
fn activity_ends_are_resolved() {
    let mut s = SimSetup::new();
    s.register(info("k1", "alice")).unwrap();
    s.register(info("k2", "bob")).unwrap();
    match s.resolve(&act(NodeId::Alias("alice".to_string()), NodeId::Alias("bob".to_string()))) {
        Resolution::Ready { source, destination } => {
            assert_eq!(source.pubkey, "k1");
            assert_eq!(destination.pubkey, "k2");
        }
        _ => panic!("expected Ready"),
    }
    match s.resolve(&act(NodeId::PublicKey("k2".to_string()), NodeId::PublicKey("k1".to_string()))) {
        Resolution::Ready { source, destination } => {
            assert_eq!(source.alias, "bob");
            assert_eq!(destination.alias, "alice");
        }
        _ => panic!("expected Ready"),
    }
    match s.resolve(&act(NodeId::Alias("alice".to_string()), NodeId::PublicKey("k9".to_string()))) {
        Resolution::LookUp { source, destination_key } => {
            assert_eq!(source.alias, "alice");
            assert_eq!(destination_key, "k9");
        }
        _ => panic!("expected LookUp"),
    }
    match s.resolve(&act(NodeId::Alias("carol".to_string()), NodeId::Alias("bob".to_string()))) {
        Resolution::Fail(e) => assert_eq!(e, "activity source carol not found in nodes."),
        _ => panic!("expected Fail"),
    }
    match s.resolve(&act(NodeId::Alias("alice".to_string()), NodeId::Alias("dave".to_string()))) {
        Resolution::Fail(e) => assert_eq!(e, "unknown activity destination: dave."),
        _ => panic!("expected Fail"),
    }
    assert_eq!(destination_lookup_failed("k9"), "Destination node unknown or invalid: k9.");
    assert_eq!(RESULTS_DIR, ".blast/blast_results");
}

#[test]
fn keys_match_in_either_letter_case() {
    let mut s = SimSetup::new();
    s.register(info("02abcdef", "alice")).unwrap();
    s.register(info("03ABCDEF", "bob")).unwrap();
    match s.resolve(&act(NodeId::PublicKey("02ABCDEF".to_string()), NodeId::PublicKey("03abcdef".to_string()))) {
        Resolution::Ready { source, destination } => {
            assert_eq!(source.alias, "alice");
            assert_eq!(destination.alias, "bob");
        }
        _ => panic!("expected Ready"),
    }
    match s.resolve(&act(NodeId::PublicKey("02FF".to_string()), NodeId::Alias("bob".to_string()))) {
        Resolution::Fail(e) => assert_eq!(e, "activity source 02ff not found in nodes."),
        _ => panic!("expected Fail"),
    }
    assert_eq!(NodeId::PublicKey("02AbCd".to_string()).to_text(), "02abcd");
}

#[test]
fn long_form_keys_match_their_compressed_form() {
    let x = "79be667ef9dcbbac55a06295ce870b07029bfcdb2dce28d959f2815b16f81798";
    let y = "483ada7726a3c4655da4fbfc0e1108a8fd17b448a68554199c47d08ffb10d4b8";
    let mut s = SimSetup::new();
    s.register(info(&format!("02{}", x), "alice")).unwrap();
    let long = format!("04{}{}", x.to_uppercase(), y);
    match s.resolve(&act(NodeId::PublicKey(long.clone()), NodeId::Alias("alice".to_string()))) {
        Resolution::Ready { source, .. } => assert_eq!(source.alias, "alice"),
        _ => panic!("expected Ready"),
    }
    assert_eq!(NodeId::PublicKey(long).to_text(), format!("02{}", x));
    let odd = format!("04{}{}", x, "483ada7726a3c4655da4fbfc0e1108a8fd17b448a68554199c47d08ffb10d4b9");
    assert_eq!(NodeId::PublicKey(odd).to_text(), format!("03{}", x));
}
