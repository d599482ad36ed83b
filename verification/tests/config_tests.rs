use p2p_mpc::cli::{Cli, Config};

fn empty_cli() -> Cli {
    Cli {
        config: None,
        metrics_port: None,
        enable_jaeger: None,
        jaeger_host: None,
        jaeger_port: None,
        json_trace: None,
        json_trace_file: None,
        log_level: None,
        network_port: None,
        bootnode: Vec::new(),
        seed_node: Vec::new(),
        topic: Vec::new(),
        explicit_peer: None,
        identity_key_path: None,
    }
}

fn file_config() -> Config {
    Config {
        metrics_port: 9191,
        enable_jaeger: true,
        jaeger_host: "jaeger.local".to_string(),
        jaeger_port: 14317,
        json_trace: true,
        json_trace_file: "out.json".to_string(),
        log_level: "debug".to_string(),
        network_port: 9000,
        bootnodes: vec!["/ip4/127.0.0.1/tcp/9001/p2p/12D3KooWExample".to_string()],
        seed_nodes: vec!["/ip4/10.0.0.1/tcp/9000".to_string()],
        topics: vec!["mpc-computation".to_string(), "mpc-control".to_string()],
        explicit_peer: Some("12D3KooWPeer".to_string()),
        identity_key_path: Some("./keys/node.key".to_string()),
    }
}

#[test]
fn defaults_match_documentation() {
    let c = Config::default();
    assert_eq!(c.metrics_port, 9090);
    assert!(!c.enable_jaeger);
    assert_eq!(c.jaeger_host, "localhost");
    assert_eq!(c.jaeger_port, 4317);
    assert!(!c.json_trace);
    assert_eq!(c.json_trace_file, "traces.json");
    assert_eq!(c.log_level, "info");
    assert_eq!(c.network_port, 0);
    assert!(c.bootnodes.is_empty());
    assert!(c.seed_nodes.is_empty());
    assert!(c.topics.is_empty());
    assert_eq!(c.explicit_peer, None);
    assert_eq!(c.identity_key_path, None);
}

#[test]
fn no_arguments_and_no_file_give_defaults() {
    let c = empty_cli().get_config(None);
    assert_eq!(c.metrics_port, 9090);
    assert_eq!(c.jaeger_host, "localhost");
    assert_eq!(c.log_level, "info");
    assert_eq!(c.network_port, 0);
}

#[test]
fn no_arguments_keep_file_values() {
    let c = empty_cli().get_config(Some(file_config()));
    assert_eq!(c.metrics_port, 9191);
    assert!(c.enable_jaeger);
    assert_eq!(c.jaeger_host, "jaeger.local");
    assert_eq!(c.jaeger_port, 14317);
    assert!(c.json_trace);
    assert_eq!(c.json_trace_file, "out.json");
    assert_eq!(c.log_level, "debug");
    assert_eq!(c.network_port, 9000);
    assert_eq!(c.bootnodes.len(), 1);
    assert_eq!(c.seed_nodes.len(), 1);
    assert_eq!(c.topics, vec!["mpc-computation".to_string(), "mpc-control".to_string()]);
    assert_eq!(c.explicit_peer, Some("12D3KooWPeer".to_string()));
    assert_eq!(c.identity_key_path, Some("./keys/node.key".to_string()));
}

#[test]
fn arguments_win_over_file_and_defaults() {
    let mut cli = empty_cli();
    cli.metrics_port = Some(9091);
    cli.network_port = Some(9001);
    cli.log_level = Some("trace".to_string());
    cli.enable_jaeger = Some(false);
    cli.topic = vec!["chat".to_string()];
    cli.explicit_peer = Some("12D3KooWOther".to_string());
    let c = cli.get_config(Some(file_config()));
    assert_eq!(c.metrics_port, 9091);
    assert_eq!(c.network_port, 9001);
    assert_eq!(c.log_level, "trace");
    assert!(!c.enable_jaeger);
    assert_eq!(c.topics, vec!["chat".to_string()]);
    assert_eq!(c.explicit_peer, Some("12D3KooWOther".to_string()));
    // values not given on the command line still come from the file
    assert_eq!(c.jaeger_host, "jaeger.local");
    assert_eq!(c.seed_nodes, vec!["/ip4/10.0.0.1/tcp/9000".to_string()]);
}

#[test]
fn arguments_win_over_defaults() {
    let mut cli = empty_cli();
    cli.jaeger_host = Some("collector".to_string());
    cli.bootnode = vec!["/ip4/127.0.0.1/tcp/9000/p2p/X".to_string()];
    cli.identity_key_path = Some("./keys/node1.key".to_string());
    let c = cli.get_config(None);
    assert_eq!(c.jaeger_host, "collector");
    assert_eq!(c.bootnodes, vec!["/ip4/127.0.0.1/tcp/9000/p2p/X".to_string()]);
    assert_eq!(c.identity_key_path, Some("./keys/node1.key".to_string()));
    assert_eq!(c.metrics_port, 9090);
    assert_eq!(c.jaeger_port, 4317);
}

#[test]
fn empty_list_arguments_do_not_clear_file_lists() {
    let c = empty_cli().get_config(Some(file_config()));
    assert_eq!(c.bootnodes, vec!["/ip4/127.0.0.1/tcp/9001/p2p/12D3KooWExample".to_string()]);
}
