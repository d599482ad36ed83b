//! Node configuration: defaults, a configuration file's values, and
//! command-line overrides, layered in that order.

use vstd::prelude::*;

verus! {

/// The node's configuration.
pub struct Config {
    pub metrics_port: u16,
    pub enable_jaeger: bool,
    pub jaeger_host: String,
    pub jaeger_port: u16,
    pub json_trace: bool,
    pub json_trace_file: String,
    pub log_level: String,
    pub network_port: u16,
    pub bootnodes: Vec<String>,
    pub seed_nodes: Vec<String>,
    pub topics: Vec<String>,
    pub explicit_peer: Option<String>,
    pub identity_key_path: Option<String>,
}

/// Command-line arguments; each one that is given overrides the
/// corresponding configuration value. `config` is the path of a YAML
/// configuration file.
pub struct Cli {
    pub config: Option<String>,
    pub metrics_port: Option<u16>,
    pub enable_jaeger: Option<bool>,
    pub jaeger_host: Option<String>,
    pub jaeger_port: Option<u16>,
    pub json_trace: Option<bool>,
    pub json_trace_file: Option<String>,
    pub log_level: Option<String>,
    pub network_port: Option<u16>,
    pub bootnode: Vec<String>,
    pub seed_node: Vec<String>,
    pub topic: Vec<String>,
    pub explicit_peer: Option<String>,
    pub identity_key_path: Option<String>,
}

/// The built-in defaults: metrics on port 9090, Jaeger off at
/// `localhost:4317`, JSON tracing off into `traces.json`, log level `info`,
/// a random network port (0), and no peers, topics or identity file.
pub open spec fn is_default_config(c: Config) -> bool {
    &&& c.metrics_port == 9090
    &&& !c.enable_jaeger
    &&& c.jaeger_host@ == "localhost"@
    &&& c.jaeger_port == 4317
    &&& !c.json_trace
    &&& c.json_trace_file@ == "traces.json"@
    &&& c.log_level@ == "info"@
    &&& c.network_port == 0
    &&& c.bootnodes@.len() == 0
    &&& c.seed_nodes@.len() == 0
    &&& c.topics@.len() == 0
    &&& c.explicit_peer is None
    &&& c.identity_key_path is None
}

/// A given option's value, else the base value.
pub open spec fn given_or<T>(given: Option<T>, base: T) -> T {
    match given {
        Some(v) => v,
        None => base,
    }
}

/// A given text option's characters, else the base text's.
pub open spec fn given_text_or(given: Option<String>, base: String) -> Seq<char> {
    match given {
        Some(v) => v@,
        None => base@,
    }
}

/// A non-empty list of arguments, else the base list.
pub open spec fn nonempty_or(given: Seq<String>, base: Seq<String>) -> Seq<String> {
    if given.len() > 0 {
        given
    } else {
        base
    }
}

impl Cli {
    /// `result` is `base` with every argument that was given put in place of
    /// the corresponding value.
    pub open spec fn overrides(self, base: Config, result: Config) -> bool {
        &&& result.metrics_port == given_or(self.metrics_port, base.metrics_port)
        &&& result.enable_jaeger == given_or(self.enable_jaeger, base.enable_jaeger)
        &&& result.jaeger_host@ == given_text_or(self.jaeger_host, base.jaeger_host)
        &&& result.jaeger_port == given_or(self.jaeger_port, base.jaeger_port)
        &&& result.json_trace == given_or(self.json_trace, base.json_trace)
        &&& result.json_trace_file@ == given_text_or(self.json_trace_file, base.json_trace_file)
        &&& result.log_level@ == given_text_or(self.log_level, base.log_level)
        &&& result.network_port == given_or(self.network_port, base.network_port)
        &&& result.bootnodes@ == nonempty_or(self.bootnode@, base.bootnodes@)
        &&& result.seed_nodes@ == nonempty_or(self.seed_node@, base.seed_nodes@)
        &&& result.topics@ == nonempty_or(self.topic@, base.topics@)
        &&& result.explicit_peer == (if self.explicit_peer is Some {
            self.explicit_peer
        } else {
            base.explicit_peer
        })
        &&& result.identity_key_path == (if self.identity_key_path is Some {
            self.identity_key_path
        } else {
            base.identity_key_path
        })
    }

    /// The configuration to run with: command-line arguments over the
    /// configuration file's values (`file_config`, read from `self.config`),
    /// over the built-in defaults where no file was given.
    pub fn get_config(self, file_config: Option<Config>) -> (config: Config)
        ensures
            match file_config {
                Some(base) => self.overrides(base, config),
                None => exists|d: Config| is_default_config(d) && #[trigger] self.overrides(d, config),
            },
    {
        let ghost cli = self;
        let base = match file_config {
            Some(c) => c,
            None => Config::default(),
        };
        let ghost b = base;
        let Cli {
            config: _,
            metrics_port: cli_metrics_port,
            enable_jaeger: cli_enable_jaeger,
            jaeger_host: cli_jaeger_host,
            jaeger_port: cli_jaeger_port,
            json_trace: cli_json_trace,
            json_trace_file: cli_json_trace_file,
            log_level: cli_log_level,
            network_port: cli_network_port,
            bootnode: cli_bootnode,
            seed_node: cli_seed_node,
            topic: cli_topic,
            explicit_peer: cli_explicit_peer,
            identity_key_path: cli_identity_key_path,
        } = self;
        let Config {
            metrics_port,
            enable_jaeger,
            jaeger_host,
            jaeger_port,
            json_trace,
            json_trace_file,
            log_level,
            network_port,
            bootnodes,
            seed_nodes,
            topics,
            explicit_peer,
            identity_key_path,
        } = base;
        let config = Config {
            metrics_port: match cli_metrics_port {
                Some(port) => port,
                None => metrics_port,
            },
            enable_jaeger: match cli_enable_jaeger {
                Some(enable) => enable,
                None => enable_jaeger,
            },
            jaeger_host: match cli_jaeger_host {
                Some(host) => host,
                None => jaeger_host,
            },
            jaeger_port: match cli_jaeger_port {
                Some(port) => port,
                None => jaeger_port,
            },
            json_trace: match cli_json_trace {
                Some(enable) => enable,
                None => json_trace,
            },
            json_trace_file: match cli_json_trace_file {
                Some(file) => file,
                None => json_trace_file,
            },
            log_level: match cli_log_level {
                Some(level) => level,
                None => log_level,
            },
            network_port: match cli_network_port {
                Some(port) => port,
                None => network_port,
            },
            bootnodes: if cli_bootnode.len() > 0 {
                cli_bootnode
            } else {
                bootnodes
            },
            seed_nodes: if cli_seed_node.len() > 0 {
                cli_seed_node
            } else {
                seed_nodes
            },
            topics: if cli_topic.len() > 0 {
                cli_topic
            } else {
                topics
            },
            explicit_peer: if cli_explicit_peer.is_some() {
                cli_explicit_peer
            } else {
                explicit_peer
            },
            identity_key_path: if cli_identity_key_path.is_some() {
                cli_identity_key_path
            } else {
                identity_key_path
            },
        };
        assert(cli.overrides(b, config));
        config
    }
}

/// The OTLP collector endpoint for Jaeger tracing: `http://host:port`.
pub fn jaeger_endpoint(host: &str, port: u16) -> (endpoint: String)
    ensures
        endpoint@ == "http://"@ + host@ + ":"@ + crate::text::decimal(port as nat),
{
    let p = crate::text::decimal_string(port as u64);
    crate::text::concat4("http://", host, ":", p.as_str())
}

/// Without command-line arguments, the base configuration is taken as it is.
pub proof fn law_no_arguments_keep_base(cli: Cli, base: Config, result: Config)
    requires
        cli.metrics_port is None,
        cli.enable_jaeger is None,
        cli.jaeger_host is None,
        cli.jaeger_port is None,
        cli.json_trace is None,
        cli.json_trace_file is None,
        cli.log_level is None,
        cli.network_port is None,
        cli.bootnode@.len() == 0,
        cli.seed_node@.len() == 0,
        cli.topic@.len() == 0,
        cli.explicit_peer is None,
        cli.identity_key_path is None,
        cli.overrides(base, result),
    ensures
        result.metrics_port == base.metrics_port,
        result.enable_jaeger == base.enable_jaeger,
        result.jaeger_host@ == base.jaeger_host@,
        result.jaeger_port == base.jaeger_port,
        result.json_trace == base.json_trace,
        result.json_trace_file@ == base.json_trace_file@,
        result.log_level@ == base.log_level@,
        result.network_port == base.network_port,
        result.bootnodes@ == base.bootnodes@,
        result.seed_nodes@ == base.seed_nodes@,
        result.topics@ == base.topics@,
        result.explicit_peer == base.explicit_peer,
        result.identity_key_path == base.identity_key_path,
{
}

/// Every argument that is given wins over the base configuration, whatever
/// the base holds.
pub proof fn law_arguments_win(cli: Cli, base1: Config, base2: Config, r1: Config, r2: Config)
    requires
        cli.overrides(base1, r1),
        cli.overrides(base2, r2),
    ensures
        cli.metrics_port is Some ==> r1.metrics_port == r2.metrics_port,
        cli.enable_jaeger is Some ==> r1.enable_jaeger == r2.enable_jaeger,
        cli.jaeger_host is Some ==> r1.jaeger_host@ == r2.jaeger_host@,
        cli.jaeger_port is Some ==> r1.jaeger_port == r2.jaeger_port,
        cli.json_trace is Some ==> r1.json_trace == r2.json_trace,
        cli.json_trace_file is Some ==> r1.json_trace_file@ == r2.json_trace_file@,
        cli.log_level is Some ==> r1.log_level@ == r2.log_level@,
        cli.network_port is Some ==> r1.network_port == r2.network_port,
        cli.bootnode@.len() > 0 ==> r1.bootnodes@ == r2.bootnodes@,
        cli.seed_node@.len() > 0 ==> r1.seed_nodes@ == r2.seed_nodes@,
        cli.topic@.len() > 0 ==> r1.topics@ == r2.topics@,
        cli.explicit_peer is Some ==> r1.explicit_peer == r2.explicit_peer,
        cli.identity_key_path is Some ==> r1.identity_key_path == r2.identity_key_path,
{
}

/// Each argument that is given is taken as it was given, and each one that
/// is not leaves the base value; a list argument counts as given when it is
/// not empty.
pub proof fn law_given_arguments_are_taken(cli: Cli, base: Config, result: Config)
    requires
        cli.overrides(base, result),
    ensures
        cli.metrics_port matches Some(v) ==> result.metrics_port == v,
        cli.metrics_port is None ==> result.metrics_port == base.metrics_port,
        cli.enable_jaeger matches Some(v) ==> result.enable_jaeger == v,
        cli.enable_jaeger is None ==> result.enable_jaeger == base.enable_jaeger,
        cli.jaeger_host matches Some(v) ==> result.jaeger_host@ == v@,
        cli.jaeger_host is None ==> result.jaeger_host@ == base.jaeger_host@,
        cli.jaeger_port matches Some(v) ==> result.jaeger_port == v,
        cli.jaeger_port is None ==> result.jaeger_port == base.jaeger_port,
        cli.json_trace matches Some(v) ==> result.json_trace == v,
        cli.json_trace is None ==> result.json_trace == base.json_trace,
        cli.json_trace_file matches Some(v) ==> result.json_trace_file@ == v@,
        cli.json_trace_file is None ==> result.json_trace_file@ == base.json_trace_file@,
        cli.log_level matches Some(v) ==> result.log_level@ == v@,
        cli.log_level is None ==> result.log_level@ == base.log_level@,
        cli.network_port matches Some(v) ==> result.network_port == v,
        cli.network_port is None ==> result.network_port == base.network_port,
        cli.bootnode@.len() > 0 ==> result.bootnodes@ == cli.bootnode@,
        cli.bootnode@.len() == 0 ==> result.bootnodes@ == base.bootnodes@,
        cli.seed_node@.len() > 0 ==> result.seed_nodes@ == cli.seed_node@,
        cli.seed_node@.len() == 0 ==> result.seed_nodes@ == base.seed_nodes@,
        cli.topic@.len() > 0 ==> result.topics@ == cli.topic@,
        cli.topic@.len() == 0 ==> result.topics@ == base.topics@,
        cli.explicit_peer is Some ==> result.explicit_peer == cli.explicit_peer,
        cli.explicit_peer is None ==> result.explicit_peer == base.explicit_peer,
        cli.identity_key_path is Some ==> result.identity_key_path == cli.identity_key_path,
        cli.identity_key_path is None ==> result.identity_key_path == base.identity_key_path,
{
}

fn default_metrics_port() -> (p: u16)
    ensures
        p == 9090,
{
    9090
}

fn default_jaeger_host() -> (h: String)
    ensures
        h@ == "localhost"@,
{
    String::from_str("localhost")
}

fn default_jaeger_port() -> (p: u16)
    ensures
        p == 4317,
{
    4317
}

fn default_json_trace_file() -> (f: String)
    ensures
        f@ == "traces.json"@,
{
    String::from_str("traces.json")
}

fn default_log_level() -> (l: String)
    ensures
        l@ == "info"@,
{
    String::from_str("info")
}

/// 0 asks the system for any free port.
fn default_network_port() -> (p: u16)
    ensures
        p == 0,
{
    0
}

impl Default for Config {
    fn default() -> (c: Self)
        ensures
            is_default_config(c),
    {
        Config {
            metrics_port: default_metrics_port(),
            enable_jaeger: false,
            jaeger_host: default_jaeger_host(),
            jaeger_port: default_jaeger_port(),
            json_trace: false,
            json_trace_file: default_json_trace_file(),
            log_level: default_log_level(),
            network_port: default_network_port(),
            bootnodes: Vec::new(),
            seed_nodes: Vec::new(),
            topics: Vec::new(),
            explicit_peer: None,
            identity_key_path: None,
        }
    }
}

} // verus!
