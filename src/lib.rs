//! Concurrent latency probing of proxy nodes: the port allocator, the batch
//! scheduler, the probe decisions, and the view model that results flow into.
//!
//! Everything here is decision and data: the caller performs the network,
//! process and file work that a decision asks for and reports back what
//! happened.

pub mod config;
pub mod display;
pub mod json;
pub mod links;
pub mod node;
pub mod ports;
pub mod probe;
pub mod proxy_config;
pub mod restart;
pub mod scheduler;
pub mod sorting;
pub mod status;
pub mod text;
pub mod view;

pub use config::{Config, SavedNode};
pub use display::{display_width, pad_string};
pub use json::{active_node_from_config, JsonValue};
pub use links::{
    decode_base64_lenient, decode_base64_text, decode_link_payload, links_in_text, subscription_links,
    text_from_decoded, LinkError,
};
pub use node::{find_active_node_index, ActiveNodeInfo, FieldValue, VmessNode, DEFAULT_NODE_PORT};
pub use ports::{get_test_port, reset_port_counter, PortAllocator, PORT_CEILING, PORT_FLOOR};
pub use probe::{
    classify_http, classify_tcp, probe_config_path, probe_proxy_url, tcp_target, HttpProbe, ProbeEvent,
    ProbeStage, ProbeStep, PROBE_TIMEOUT_SECS, PROBE_URL, READY_ATTEMPTS, READY_INTERVAL_MS,
};
pub use proxy_config::{
    generate_config, ProxyConfig, StreamSettings, TcpHttpHeader, TlsSettings, WsSettings, DEFAULT_SOCKS_PORT,
    DEFAULT_XRAY_CONFIG_PATH, OUTBOUND_PROTOCOL,
};
pub use restart::{
    first_pid, restart_step, RestartError, RestartResult, RestartStep, RESTART_ATTEMPTS, RESTART_INTERVAL_MS,
};
pub use scheduler::{BatchAction, BatchScheduler};
pub use sorting::{apply_sort_to_nodes, IndexedNode, SortColumn, SortDirection};
pub use status::{latency_sort_key, LatencyResult, LatencyStatus, TestType};
pub use view::App;
