use blast::blast::{blast_error, network_start_step, sim_path, Blast, BlastNetwork, BlastOp, CommandStep, StartAction, StartEvent, BLAST_SIM_DIR};
use blast::command::CliCommand;
use blast::model::ModelConfig;
use blast::simln::{NodeConnection, NodeId};
use blast::tui::Model;

fn configs() -> Vec<ModelConfig> {
    vec![ModelConfig { name: "blast_lnd".to_string(), rpc: "localhost:5050".to_string(), start: "blast_lnd".to_string() }]
}

fn output(step: CommandStep) -> Vec<String> {
    match step {
        CommandStep::Output(v) => v,
        CommandStep::Pending(_) => panic!("expected output"),
    }
}

#[test]
fn network_from_selected_models() {
    let models = vec![
        Model { name: "blast_lnd".to_string(), num_nodes: 2 },
        Model { name: "blast_ldk".to_string(), num_nodes: 0 },
        Model { name: "blast_cln".to_string(), num_nodes: 1 },
    ];
    let n = BlastNetwork::from_models("test", &models);
    assert_eq!(n.name(), "test");
    let mut m = n.models();
    m.sort();
    assert_eq!(m, vec![("blast_cln".to_string(), 1), ("blast_lnd".to_string(), 2)]);
}

#[test]
fn network_is_recorded() {
    let mut b = Blast::new(configs());
    assert_eq!(b.network_name(), Err("No network found".to_string()));
    assert_eq!(b.network_models(), Err("No network found".to_string()));
    let to_start = b.create_network("net1", vec![("blast_lnd".to_string(), 3)]);
    assert_eq!(to_start, vec![("blast_lnd".to_string(), 3)]);
    assert_eq!(b.network_name(), Ok("net1".to_string()));
    assert_eq!(b.network_models(), Ok(vec![("blast_lnd".to_string(), 3)]));
    b.set_network(BlastNetwork::new("loaded".to_string(), vec![("blast_ldk".to_string(), 1)]));
    assert_eq!(b.network_name(), Ok("loaded".to_string()));
}

#[test]
fn commands_run_in_the_simulation() {
    let mut b = Blast::new(configs());
    assert!(output(b.run_command("")).is_empty());
    assert_eq!(output(b.run_command("help")).len(), 16);
    assert_eq!(output(b.run_command("nonsense")), vec!["Unknown command".to_string()]);
    assert_eq!(output(b.run_command("add_activity a b")), vec!["Successfully added activity.".to_string()]);
    assert_eq!(b.get_activity(), vec!["a b None None 10 50000".to_string()]);
    assert_eq!(output(b.run_command("add_event 3 StartNode n1")), vec!["Successfully added event.".to_string()]);
    assert_eq!(b.event_manager().events_at(3)[0].to_text(), "StartNodeEvent: n1");
    assert_eq!(output(b.run_command("add_event 3 StartNode")), vec!["No args given for StartNodeEvent: .".to_string()]);
    assert_eq!(b.event_manager().events_at(3).len(), 1);
    match b.run_command("list_peers blast_lnd-0000") {
        CommandStep::Pending(CliCommand::ListPeers { node }) => assert_eq!(node, "blast_lnd-0000"),
        _ => panic!("expected a pending list_peers"),
    }
    b.add_started_nodes(vec![NodeConnection::Lnd {
        id: NodeId::Alias("blast_lnd-0000".to_string()),
        address: "localhost:10009".to_string(),
        macaroon: "m".to_string(),
        cert: "c".to_string(),
    }]);
    assert_eq!(output(b.run_command("get_nodes")), vec!["blast_lnd-0000".to_string()]);
    assert_eq!(b.get_nodes(), vec!["blast_lnd-0000".to_string()]);
    b.reset_simln();
    assert!(b.get_nodes().is_empty());
    assert!(b.get_activity().is_empty());
    assert!(b.get_channels().is_empty());
}

#[test]
fn models_of_the_simulation() {
    let mut b = Blast::new(configs());
    assert_eq!(b.get_available_models(), Ok(vec!["blast_lnd".to_string()]));
    assert_eq!(b.model_manager().get_model_client("blast_lnd"), Err("Could not get model connection".to_string()));
    b.set_model_connected("blast_lnd");
    assert_eq!(b.model_manager().get_model_client("blast_lnd"), Ok(()));
    assert!(b.simln_manager().data.nodes.is_empty());
    let none = Blast::new(Vec::new());
    assert_eq!(none.get_available_models(), Err("No models available".to_string()));
}

#[test]
fn events_and_activity_through_the_simulation() {
    let mut b = Blast::new(configs());
    assert_eq!(b.add_event(1, "CloseChannel", Some(vec!["n".to_string(), "2".to_string()])), Ok(()));
    assert_eq!(b.add_event(1, "Nope", None), Err("Error parsing BlastEvent".to_string()));
    b.add_activity("x", "y", Some(1), Some(2), 3, 4);
    assert_eq!(b.get_activity(), vec!["x y 1 2 3 4".to_string()]);
}

#[test]
fn error_texts_and_paths() {
    assert_eq!(blast_error(BlastOp::ListPeers, "no route"), "Error getting peers: no route");
    assert_eq!(blast_error(BlastOp::CreateNetwork, "x"), "Unable to start nodes: x");
    assert_eq!(blast_error(BlastOp::GetAddress, "x"), "Error getting address: x");
    assert_eq!(sim_path("s1", ""), "/home/blast_sims/s1/");
    assert_eq!(sim_path("s1", "events.json"), "/home/blast_sims/s1/events.json");
    assert_eq!(BLAST_SIM_DIR, "/home/blast_sims");
}

#[test]
fn network_comes_up_model_by_model() {
    let to_start = vec![("blast_lnd".to_string(), 2), ("blast_cln".to_string(), 1)];
    let (at, a) = network_start_step(&to_start, 0, StartEvent::Begin);
    assert!(matches!(a, StartAction::StartModel(ref m) if m == "blast_lnd") && at == 0);
    let (at, a) = network_start_step(&to_start, at, StartEvent::ModelStarted);
    assert!(matches!(a, StartAction::StartNodes(ref m, 2) if m == "blast_lnd") && at == 0);
    let (at, a) = network_start_step(&to_start, at, StartEvent::NodesStarted);
    assert!(matches!(a, StartAction::StartModel(ref m) if m == "blast_cln") && at == 1);
    let (at, a) = network_start_step(&to_start, at, StartEvent::ModelStarted);
    assert!(matches!(a, StartAction::StartNodes(ref m, 1) if m == "blast_cln") && at == 1);
    let (_, a) = network_start_step(&to_start, at, StartEvent::NodesStarted);
    assert!(matches!(a, StartAction::Done));
    let (_, a) = network_start_step(&to_start, 0, StartEvent::NodesFailed("Error starting nodes: x".to_string()));
    assert!(matches!(a, StartAction::Fail(ref e) if e == "Unable to start nodes: Error starting nodes: x"));
    let (_, a) = network_start_step(&to_start, 1, StartEvent::ModelFailed("Failed to execute process".to_string()));
    assert!(matches!(a, StartAction::Fail(ref e) if e == "Failed to execute process"));
    let (_, a) = network_start_step(&Vec::new(), 0, StartEvent::Begin);
    assert!(matches!(a, StartAction::Done));
}
