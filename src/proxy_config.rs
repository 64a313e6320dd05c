use vstd::prelude::*;

use crate::node::{aid_of, port_of, VmessNode};
use crate::text::{split_spec, split_str, str_eq, string_views};

verus! {

/// The live proxy's configuration file, by default.
pub const DEFAULT_XRAY_CONFIG_PATH: &'static str = "/opt/homebrew/etc/xray/config.json";

/// The local SOCKS port of the live proxy.
pub const DEFAULT_SOCKS_PORT: u16 = 1080;

/// The outbound protocol of every generated configuration.
pub const OUTBOUND_PROTOCOL: &'static str = "vmess";

/// WebSocket transport settings.
#[derive(Debug)]
pub struct WsSettings {
    pub path: Option<String>,
    /// The `Host` header.
    pub host: Option<String>,
}

/// The HTTP header disguise of a TCP transport.
#[derive(Debug)]
pub struct TcpHttpHeader {
    /// The single request path.
    pub path: String,
    /// The single `Host` header value.
    pub host: String,
}

/// TLS settings.
#[derive(Debug)]
pub struct TlsSettings {
    pub server_name: Option<String>,
    pub alpn: Option<Vec<String>>,
    pub fingerprint: Option<String>,
}

/// How the outbound connection is carried.
#[derive(Debug)]
pub struct StreamSettings {
    pub network: String,
    pub ws: Option<WsSettings>,
    pub tcp_http: Option<TcpHttpHeader>,
    /// Present exactly when the security is TLS.
    pub tls: Option<TlsSettings>,
}

/// A complete helper configuration: a SOCKS inbound on a local port and one
/// vmess outbound to the node.
#[derive(Debug)]
pub struct ProxyConfig {
    pub socks_port: u16,
    pub address: String,
    pub port: u16,
    pub user_id: String,
    pub alter_id: u32,
    pub stream: StreamSettings,
}

impl ProxyConfig {
    /// The protocol of the outbound.
    pub fn outbound_protocol(&self) -> (r: &'static str)
        ensures
            r@ == OUTBOUND_PROTOCOL@,
    {
        OUTBOUND_PROTOCOL
    }
}

/// `Some(s)` when `s` is not empty.
pub open spec fn non_empty(s: String) -> Option<String> {
    if s@.len() > 0 {
        Some(s)
    } else {
        None
    }
}

fn non_empty_exec(s: &String) -> (r: Option<String>)
    ensures
        r == non_empty(*s),
{
    if s.as_str().unicode_len() > 0 {
        Some(s.clone())
    } else {
        None
    }
}

/// The WebSocket settings of a node whose network is `ws`.
pub open spec fn ws_plan(n: VmessNode) -> Option<WsSettings> {
    if n.net@ == "ws"@ {
        Some(WsSettings { path: non_empty(n.path), host: non_empty(n.host) })
    } else {
        None
    }
}

/// A node on `tcp` with header type `http` gets an HTTP header disguise:
/// its path or `/`, and its host or its address.
pub open spec fn tcp_http_plan(n: VmessNode) -> Option<(Seq<char>, Seq<char>)> {
    if n.net@ == "tcp"@ && n.type_field@ == "http"@ {
        Some(
            (
                if n.path@.len() > 0 {
                    n.path@
                } else {
                    "/"@
                },
                if n.host@.len() > 0 {
                    n.host@
                } else {
                    n.add@
                },
            ),
        )
    } else {
        None
    }
}

/// The server name of a TLS node: its SNI, else its host, else none.
pub open spec fn server_name_plan(n: VmessNode) -> Option<String> {
    if n.sni@.len() > 0 {
        Some(n.sni)
    } else if n.host@.len() > 0 {
        Some(n.host)
    } else {
        None
    }
}

/// The configuration of a helper for `node` listening on `socks_port`.
pub fn generate_config(node: &VmessNode, socks_port: u16) -> (r: ProxyConfig)
    ensures
        r.socks_port == socks_port,
        r.address == node.add,
        r.port == port_of(node.port),
        r.user_id == node.id,
        r.alter_id == aid_of(node.aid),
        r.stream.network@ == if node.net@.len() == 0 {
            "tcp"@
        } else {
            node.net@
        },
        r.stream.ws == ws_plan(*node),
        match tcp_http_plan(*node) {
            Some((p, h)) => r.stream.tcp_http is Some && r.stream.tcp_http->0.path@ == p
                && r.stream.tcp_http->0.host@ == h,
            None => r.stream.tcp_http is None,
        },
        (r.stream.tls is Some) == (node.tls@ == "tls"@),
        r.stream.tls is Some ==> {
            let t = r.stream.tls->0;
            &&& t.server_name == server_name_plan(*node)
            &&& t.fingerprint == non_empty(node.fp)
            &&& (t.alpn is Some) == (node.alpn@.len() > 0)
            &&& t.alpn is Some ==> string_views(t.alpn->0@) == split_spec(node.alpn@, ',')
        },
{
    let port = node.get_port();
    let aid = node.get_aid();
    let network = if node.net.as_str().unicode_len() == 0 {
        String::from_str("tcp")
    } else {
        node.net.clone()
    };
    let ws = if str_eq(node.net.as_str(), "ws") {
        Some(WsSettings { path: non_empty_exec(&node.path), host: non_empty_exec(&node.host) })
    } else {
        None
    };
    let tcp_http = if str_eq(node.net.as_str(), "tcp") && str_eq(node.type_field.as_str(), "http") {
        let path = if node.path.as_str().unicode_len() > 0 {
            node.path.clone()
        } else {
            String::from_str("/")
        };
        let host = if node.host.as_str().unicode_len() > 0 {
            node.host.clone()
        } else {
            node.add.clone()
        };
        Some(TcpHttpHeader { path, host })
    } else {
        None
    };
    let tls = if str_eq(node.tls.as_str(), "tls") {
        let server_name = if node.sni.as_str().unicode_len() > 0 {
            Some(node.sni.clone())
        } else if node.host.as_str().unicode_len() > 0 {
            Some(node.host.clone())
        } else {
            None
        };
        let alpn = if node.alpn.as_str().unicode_len() > 0 {
            Some(split_str(node.alpn.as_str(), ','))
        } else {
            None
        };
        Some(TlsSettings { server_name, alpn, fingerprint: non_empty_exec(&node.fp) })
    } else {
        None
    };
    ProxyConfig {
        socks_port,
        address: node.add.clone(),
        port,
        user_id: node.id.clone(),
        alter_id: aid,
        stream: StreamSettings { network, ws, tcp_http, tls },
    }
}

} // verus!
