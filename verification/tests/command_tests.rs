use blast::command::{command_report, help_lines, is_whitespace, parse_command, split_whitespace, CliCommand};

#[test]
fn words_are_split_on_any_whitespace() {
    assert_eq!(split_whitespace("  add_event 10\tStartNode  n1 \n"), vec!["add_event", "10", "StartNode", "n1"]);
    assert!(split_whitespace("   ").is_empty());
    assert!(split_whitespace("").is_empty());
    let s = "a\u{3000}b\u{a0}c";
    assert_eq!(split_whitespace(s), s.split_whitespace().collect::<Vec<_>>());
    assert!(is_whitespace('\u{2028}'));
    assert!(!is_whitespace('x'));
    for c in ['\t', '\n', ' ', '\u{85}', '\u{1680}', '\u{2000}', '\u{200b}', '\u{feff}', 'a'] {
        assert_eq!(is_whitespace(c), c.is_whitespace());
    }
}

#[test]
fn add_activity_uses_defaults() {
    match parse_command("add_activity a b") {
        CliCommand::AddActivity { source, dest, start_secs, count, interval, amount_msat } => {
            assert_eq!(source, "a");
            assert_eq!(dest, "b");
            assert_eq!(start_secs, None);
            assert_eq!(count, None);
            assert_eq!(interval, 10);
            assert_eq!(amount_msat, 50000);
        }
        _ => panic!("expected AddActivity"),
    }
    match parse_command("add_activity a b 5 3 20 1000") {
        CliCommand::AddActivity { start_secs, count, interval, amount_msat, .. } => {
            assert_eq!(start_secs, Some(5));
            assert_eq!(count, Some(3));
            assert_eq!(interval, 20);
            assert_eq!(amount_msat, 1000);
        }
        _ => panic!("expected AddActivity"),
    }
    match parse_command("add_activity a b x y z w") {
        CliCommand::AddActivity { start_secs, count, interval, amount_msat, .. } => {
            assert_eq!(start_secs, None);
            assert_eq!(count, None);
            assert_eq!(interval, 10);
            assert_eq!(amount_msat, 50000);
        }
        _ => panic!("expected AddActivity"),
    }
}

#[test]
fn add_event_and_channel_commands() {
    match parse_command("add_event 20 OpenChannel a b 100 0 1") {
        CliCommand::AddEvent { frame, event, args } => {
            assert_eq!(frame, 20);
            assert_eq!(event, "OpenChannel");
            assert_eq!(args, Some(vec!["a".to_string(), "b".to_string(), "100".to_string(), "0".to_string(), "1".to_string()]));
        }
        _ => panic!("expected AddEvent"),
    }
    match parse_command("add_event x StopNode") {
        CliCommand::AddEvent { frame, event, args } => {
            assert_eq!(frame, 10);
            assert_eq!(event, "StopNode");
            assert_eq!(args, None);
        }
        _ => panic!("expected AddEvent"),
    }
    match parse_command("open_channel s d") {
        CliCommand::OpenChannel { source, dest, amount, push, chan_id } => {
            assert_eq!((source.as_str(), dest.as_str()), ("s", "d"));
            assert_eq!((amount, push, chan_id), (30000, 0, 0));
        }
        _ => panic!("expected OpenChannel"),
    }
    match parse_command("close_channel s 4") {
        CliCommand::CloseChannel { source, chan_id } => {
            assert_eq!(source, "s");
            assert_eq!(chan_id, 4);
        }
        _ => panic!("expected CloseChannel"),
    }
    match parse_command("fund_node n") {
        CliCommand::FundNode { source, amount_text } => {
            assert_eq!(source, "n");
            assert_eq!(amount_text, "1.0");
        }
        _ => panic!("expected FundNode"),
    }
}

#[test]
fn simple_commands() {
    assert!(matches!(parse_command(""), CliCommand::Nothing));
    assert!(matches!(parse_command("help me"), CliCommand::Help));
    assert!(matches!(parse_command("get_nodes"), CliCommand::GetNodes));
    assert!(matches!(parse_command("launch"), CliCommand::Unknown));
    assert!(matches!(parse_command("save"), CliCommand::Save { ref name } if name == "simulation1"));
    assert!(matches!(parse_command("save mine"), CliCommand::Save { ref name } if name == "mine"));
    assert!(matches!(parse_command("list_peers"), CliCommand::ListPeers { ref node } if node.is_empty()));
    assert!(matches!(parse_command("get_pub_key n"), CliCommand::GetPubKey { ref node } if node == "n"));
    assert!(matches!(parse_command("wallet_balance n"), CliCommand::WalletBalance { .. }));
    assert!(matches!(parse_command("channel_balance n"), CliCommand::ChannelBalance { .. }));
    assert!(matches!(parse_command("list_channels n"), CliCommand::ListChannels { .. }));
    assert!(matches!(parse_command("connect_peer a b"), CliCommand::ConnectPeer { ref dest, .. } if dest == "b"));
    assert!(matches!(parse_command("disconnect_peer a b"), CliCommand::DisconnectPeer { ref source, .. } if source == "a"));
}

#[test]
fn help_lists_every_command() {
    let h = help_lines();
    assert_eq!(h.len(), 16);
    assert_eq!(h[0], "Command           Parameters ");
    assert_eq!(h[15], "fund_node         source_node amount_btc");
}

#[test]
fn reports_after_network_commands() {
    let save = parse_command("save s");
    assert_eq!(command_report(&save, Ok(String::new())), vec!["Successfully saved simulation.".to_string()]);
    assert_eq!(command_report(&save, Err("disk full".to_string())), vec!["disk full".to_string()]);
    let peers = parse_command("list_peers n");
    assert_eq!(command_report(&peers, Ok("p1".to_string())), vec!["p1".to_string()]);
    let open = parse_command("open_channel a b");
    assert!(command_report(&open, Ok(String::new())).is_empty());
    assert_eq!(command_report(&open, Err("e".to_string())), vec!["Unable to open channel: e".to_string()]);
    let close = parse_command("close_channel a 1");
    assert_eq!(command_report(&close, Err("e".to_string())), vec!["Unable to open channel: e".to_string()]);
    let con = parse_command("connect_peer a b");
    assert_eq!(command_report(&con, Err("e".to_string())), vec!["Unable to connect peers: e".to_string()]);
    let dis = parse_command("disconnect_peer a b");
    assert_eq!(command_report(&dis, Err("e".to_string())), vec!["Unable to disconnect peers: e".to_string()]);
    let fund = parse_command("fund_node a 2");
    assert_eq!(command_report(&fund, Err("e".to_string())), vec!["Unable to fund node: e".to_string()]);
    assert!(command_report(&CliCommand::Help, Err("e".to_string())).is_empty());
}
