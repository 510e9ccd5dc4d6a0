use blast::event::BlastEvent;
use blast::model::{
    connection_retry, event_action, flag_reply, get_model_from_node, is_model_file, rpc_failure, rpc_refusal,
    scan_depth_allowed, simln_reply, text_reply, BlastModelManager, EventAction, ModelConfig, ModelRpc,
    BLAST_MODEL_LOG_DIR,
};

fn config(name: &str, rpc: &str, start: &str) -> ModelConfig {
    ModelConfig { name: name.to_string(), rpc: rpc.to_string(), start: start.to_string() }
}

fn manager() -> BlastModelManager {
    BlastModelManager::from_configs(vec![
        config("blast_lnd", "localhost:5050", "blast_lnd"),
        config("blast_ldk", "localhost:5051", "blast_ldk"),
    ])
}

#[test]
fn node_ids_name_their_model() {
    assert_eq!(get_model_from_node("blast_lnd-0000".to_string()), "blast_lnd");
    assert_eq!(get_model_from_node("blast_cln-0001-x".to_string()), "blast_cln");
    assert_eq!(get_model_from_node("plain".to_string()), "plain");
    assert_eq!(get_model_from_node("-lead".to_string()), "");
    assert_eq!(get_model_from_node(String::new()), "");
}

#[test]
fn registry_lists_models() {
    let m = manager();
    let mut names = m.get_models().unwrap();
    names.sort();
    assert_eq!(names, vec!["blast_ldk".to_string(), "blast_lnd".to_string()]);
    let empty = BlastModelManager::from_configs(Vec::new());
    assert_eq!(empty.get_models(), Err("No models available".to_string()));
    // a later description of the same name replaces the earlier one
    let dup = BlastModelManager::from_configs(vec![config("m", "a:1", "x"), config("m", "b:2", "y")]);
    assert_eq!(dup.get_models().unwrap(), vec!["m".to_string()]);
    assert_eq!(dup.launch_plan("m").unwrap().address, "http://b:2");
}

#[test]
fn clients_need_a_connection() {
    let mut m = manager();
    assert_eq!(m.get_model_client("blast_cln"), Err("Could not get model".to_string()));
    assert_eq!(m.get_model_client("blast_lnd"), Err("Could not get model connection".to_string()));
    m.set_connected("blast_lnd");
    assert_eq!(m.get_model_client("blast_lnd"), Ok(()));
    assert_eq!(m.get_model_client("blast_ldk"), Err("Could not get model connection".to_string()));
}

#[test]
fn nodes_route_to_connected_models() {
    let mut m = manager();
    assert_eq!(m.route("blast_lnd-0003"), Err("Could not get model connection".to_string()));
    m.set_connected("blast_lnd");
    assert_eq!(m.route("blast_lnd-0003"), Ok("blast_lnd".to_string()));
    assert_eq!(m.route("blast_eclair-0000"), Err("Could not get model".to_string()));
    assert!(m.get_channels().is_empty());
}

#[test]
fn launch_plans() {
    let m = manager();
    let l = m.launch_plan("blast_ldk").unwrap();
    assert_eq!(l.exe, "../blast_models/blast_ldk/blast_ldk");
    assert_eq!(l.log_file, "blast_ldk.log");
    assert_eq!(l.address, "http://localhost:5051");
    assert!(matches!(m.launch_plan("nope"), Err(ref e) if e == "Failed to get the model"));
    assert_eq!(BLAST_MODEL_LOG_DIR, ".blast/");
}

#[test]
fn rpc_outcomes() {
    assert_eq!(rpc_failure(ModelRpc::ListPeers, "refused"), "RPC list_peers failed: refused");
    assert_eq!(rpc_failure(ModelRpc::StopModel, "refused"), "RPC stop_model failed");
    assert_eq!(rpc_failure(ModelRpc::StartNodes, "x"), "RPC start nodes failed");
    assert_eq!(rpc_refusal(ModelRpc::Save), "Model did not save successfully");
    assert_eq!(rpc_refusal(ModelRpc::GetPubKey), "RPC get_pub_key failed");
    assert_eq!(flag_reply(ModelRpc::OpenChannel, Ok(true)), Ok(()));
    assert_eq!(flag_reply(ModelRpc::OpenChannel, Ok(false)), Err("Error opening channel".to_string()));
    assert_eq!(flag_reply(ModelRpc::Load, Ok(false)), Err("Model did not load successfully".to_string()));
    assert_eq!(
        flag_reply(ModelRpc::ConnectPeer, Err("down".to_string())),
        Err("RPC connect_peer failed: down".to_string())
    );
    assert_eq!(text_reply(ModelRpc::WalletBalance, Ok("5".to_string())), Ok("5".to_string()));
    assert_eq!(
        text_reply(ModelRpc::WalletBalance, Err("t".to_string())),
        Err("RPC wallet_balance failed: t".to_string())
    );
}

#[test]
fn simln_data_must_be_utf8() {
    assert_eq!(simln_reply(Ok(vec![104, 105])), Ok("hi".to_string()));
    assert_eq!(simln_reply(Ok("né".as_bytes().to_vec())), Ok("né".to_string()));
    assert_eq!(simln_reply(Ok(vec![0xff, 0x41])), Err("Invalid UTF-8 sequence".to_string()));
    assert_eq!(simln_reply(Err("gone".to_string())), Err("RPC get_sim_ln failed".to_string()));
}

#[test]
fn events_become_model_actions() {
    match event_action(BlastEvent::OpenChannelEvent("a".to_string(), "b".to_string(), 10, 2, 3)) {
        EventAction::OpenChannel { source, dest, amount, push, chan_id } => {
            assert_eq!((source.as_str(), dest.as_str(), amount, push, chan_id), ("a", "b", 10, 2, 3));
        }
        _ => panic!("expected OpenChannel"),
    }
    match event_action(BlastEvent::CloseChannelEvent("a".to_string(), 9)) {
        EventAction::CloseChannel { source, chan_id } => assert_eq!((source.as_str(), chan_id), ("a", 9)),
        _ => panic!("expected CloseChannel"),
    }
    assert!(matches!(event_action(BlastEvent::StartNodeEvent("n".to_string())), EventAction::Nothing));
    assert!(matches!(event_action(BlastEvent::NoEvent), EventAction::Nothing));
}

#[test]
fn model_discovery_rules() {
    assert!(scan_depth_allowed(0));
    assert!(scan_depth_allowed(1));
    assert!(!scan_depth_allowed(2));
    assert!(is_model_file("model.json"));
    assert!(!is_model_file("model.json.bak"));
    assert_eq!(connection_retry(true), Ok(()));
    assert_eq!(connection_retry(false), Err("Could not connect to model".to_string()));
}
