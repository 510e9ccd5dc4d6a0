use blast::node_models::{cln_cert_paths, ldk_listen_address, model_save_files};
use blast::node_models::{
    balance_text, channel_list, cln_channels_text, cln_listen_address, cln_node_dir, cln_open_amounts, cln_peers_text,
    cln_rpc_address, count_node_dirs, decode_peer_key, ldk_alias, ldk_peer_address, model_sim_dir, node_id,
    replace_text, split_peer_address, starts_with,
};

#[test]
fn node_ids_are_padded() {
    assert_eq!(node_id("blast_cln-", 1), "blast_cln-0001");
    assert_eq!(node_id("blast_ldk-", 0), "blast_ldk-0000");
    assert_eq!(node_id("blast_ldk-", 12345), "blast_ldk-12345");
}

#[test]
fn peer_keys_in_hex() {
    assert_eq!(decode_peer_key("ab01"), Ok(vec![0xab, 0x01]));
    assert_eq!(decode_peer_key("AB0f"), Ok(vec![0xab, 0x0f]));
    assert_eq!(decode_peer_key(""), Ok(vec![]));
    assert_eq!(decode_peer_key("abc"), Err("Could not decode the peer pub key.".to_string()));
    assert_eq!(decode_peer_key("zz"), Err("Could not decode the peer pub key.".to_string()));
}

#[test]
fn peer_list_text() {
    let peers = vec![
        (vec![0x02, 0xff], vec!["127.0.0.1:9735".to_string(), "other".to_string()]),
        (vec![0x10], vec!["h:1".to_string()]),
    ];
    assert_eq!(cln_peers_text(&peers), "Pubkey: 02ff, Address: 127.0.0.1:9735\nPubkey: 10, Address: h:1\n");
    assert_eq!(cln_peers_text(&Vec::new()), "");
}

#[test]
fn hex_text_decodes_back() {
    let key = vec![0x03u8, 0x9a, 0x00, 0xff, 0x42];
    let text = cln_peers_text(&vec![(key.clone(), vec!["a".to_string()])]);
    let hex = text.trim_start_matches("Pubkey: ").split(',').next().unwrap().to_string();
    assert_eq!(hex, "039a00ff42");
    assert_eq!(decode_peer_key(&hex), Ok(key));
}

#[test]
fn balances_in_sat() {
    assert_eq!(balance_text(&vec![Some(1500), None, Some(2600)]), "4");
    assert_eq!(balance_text(&vec![]), "0");
    assert_eq!(balance_text(&vec![Some(999)]), "0");
}

#[test]
fn channel_texts() {
    let chans = vec![(vec![0xaa], Some(5_000_000u64)), (vec![0xbb], None), (vec![0x01, 0x02], Some(1999))];
    assert_eq!(cln_channels_text(&chans), "Peer: aa, Amount: 5000\nPeer: 0102, Amount: 1\n");
    let list = vec![(1i64, "a".to_string(), "b".to_string()), (-2i64, "c".to_string(), "d".to_string())];
    assert_eq!(channel_list(&list), "1: a -> b,-2: c -> d");
    assert_eq!(channel_list(&Vec::new()), "");
}

#[test]
fn open_amounts_in_msat() {
    assert_eq!(cln_open_amounts(30000, 0), (30_000_000, 0));
    assert_eq!(cln_open_amounts(-1, 2), ((-1000i64) as u64, 2000));
}

#[test]
fn peer_addresses() {
    assert_eq!(split_peer_address("127.0.0.1:9735"), Ok(("127.0.0.1".to_string(), 9735)));
    assert_eq!(split_peer_address("h:10:extra"), Ok(("h".to_string(), 10)));
    assert_eq!(split_peer_address("h:port"), Err("Could not parse peer port: \"port\"".to_string()));
    assert_eq!(split_peer_address("h:"), Err("Could not parse peer port: \"\"".to_string()));
    assert_eq!(ldk_peer_address("localhost:9735"), "127.0.0.1:9735");
    assert_eq!(ldk_peer_address("a.b:1"), "a.b:1");
    assert_eq!(replace_text("aaa", "aa", "b"), "ba");
    assert_eq!(replace_text("xyx", "x", "zz"), "xyx".replace("x", "zz"));
}

#[test]
fn aliases_are_32_bytes() {
    let a = ldk_alias("blast_ldk-0000");
    assert_eq!(a.len(), 32);
    assert_eq!(&a[..14], "blast_ldk-0000".as_bytes());
    assert!(a[14..].iter().all(|b| *b == 0));
    let long = "x".repeat(40);
    assert_eq!(ldk_alias(&long), vec![b'x'; 32]);
}

#[test]
fn directories_and_addresses() {
    assert!(starts_with("blast_ldk-0001", "blast_ldk-"));
    assert!(!starts_with("blast", "blast_ldk-"));
    let names = vec!["blast_ldk-0000".to_string(), "other".to_string(), "blast_ldk-0001".to_string()];
    assert_eq!(count_node_dirs(&names, "blast_ldk-"), 2);
    assert_eq!(cln_listen_address(9735), "localhost:9735");
    assert_eq!(cln_rpc_address("11001"), "https://localhost:11001");
    assert_eq!(cln_node_dir("/data", "blast_cln-0000"), "/data/blast_cln-0000");
    assert_eq!(model_sim_dir("/home/u", ".blast", "sim", "blast_cln", true), "/home/u/.blast/sim/blast_cln/");
    assert_eq!(model_sim_dir("/home/u/", ".blast/", "sim", "blast_cln", false), "/home/u/.blast/sim/blast_cln/");
}

#[test]
fn model_file_names() {
    let (ca, cert, key) = cln_cert_paths("/d/blast_cln-0000");
    assert_eq!(ca, "/d/blast_cln-0000/regtest/ca.pem");
    assert_eq!(cert, "/d/blast_cln-0000/regtest/client.pem");
    assert_eq!(key, "/d/blast_cln-0000/regtest/client-key.pem");
    assert_eq!(ldk_listen_address(9735), "127.0.0.1:9735");
    assert_eq!(model_save_files("s", true), ("s.tar.gz".to_string(), "s_data.json".to_string()));
    assert_eq!(model_save_files("s", false), ("s.tar.gz".to_string(), "s_channels.json".to_string()));
}
