use vstd::prelude::*;

use crate::status::LatencyStatus;
use crate::text::{decimal, parse_unsigned, parse_unsigned_exec, push_decimal};

verus! {

/// A loosely typed field of a node definition, as subscriptions write it:
/// an unsigned integer, a string, or anything else.
#[derive(Debug)]
pub enum FieldValue {
    /// A number that is a non-negative integer within `u64`.
    UInt(u64),
    /// A string, which may or may not hold a number.
    Text(String),
    /// Null, absent, or a value of another kind.
    Other,
}

impl Clone for FieldValue {
    fn clone(&self) -> (r: Self)
        ensures
            r == *self,
    {
        match self {
            FieldValue::UInt(n) => FieldValue::UInt(*n),
            FieldValue::Text(s) => FieldValue::Text(s.clone()),
            FieldValue::Other => FieldValue::Other,
        }
    }
}

/// The port used when a node's port field gives none.
pub const DEFAULT_NODE_PORT: u16 = 443;

/// The port a node's port field stands for: an integer is truncated to 16
/// bits, a string is parsed, anything else gives the default.
pub open spec fn port_of(v: FieldValue) -> u16 {
    match v {
        FieldValue::UInt(n) => (n as int % 65536) as u16,
        FieldValue::Text(s) => match parse_unsigned(s@, 65535) {
            Some(p) => p as u16,
            None => DEFAULT_NODE_PORT,
        },
        FieldValue::Other => DEFAULT_NODE_PORT,
    }
}

/// The alter id a node's aid field stands for, with 0 where it gives none.
pub open spec fn aid_of(v: FieldValue) -> u32 {
    match v {
        FieldValue::UInt(n) => (n as int % 0x1_0000_0000) as u32,
        FieldValue::Text(s) => match parse_unsigned(s@, 0xffff_ffff) {
            Some(p) => p as u32,
            None => 0,
        },
        FieldValue::Other => 0,
    }
}

/// One remote endpoint: its address, identity and transport settings, and the
/// two latencies last measured for it.
#[derive(Debug)]
pub struct VmessNode {
    pub v: String,
    pub ps: String,
    pub add: String,
    pub port: FieldValue,
    pub id: String,
    pub aid: FieldValue,
    pub net: String,
    pub type_field: String,
    pub host: String,
    pub path: String,
    pub tls: String,
    pub sni: String,
    pub alpn: String,
    pub fp: String,
    pub http_latency: LatencyStatus,
    pub tcp_latency: LatencyStatus,
}

impl Clone for VmessNode {
    fn clone(&self) -> (r: Self)
        ensures
            r == *self,
    {
        VmessNode {
            v: self.v.clone(),
            ps: self.ps.clone(),
            add: self.add.clone(),
            port: self.port.clone(),
            id: self.id.clone(),
            aid: self.aid.clone(),
            net: self.net.clone(),
            type_field: self.type_field.clone(),
            host: self.host.clone(),
            path: self.path.clone(),
            tls: self.tls.clone(),
            sni: self.sni.clone(),
            alpn: self.alpn.clone(),
            fp: self.fp.clone(),
            http_latency: self.http_latency,
            tcp_latency: self.tcp_latency,
        }
    }
}

impl Default for VmessNode {
    fn default() -> (r: Self)
        ensures
            r.v@.len() == 0 && r.ps@.len() == 0 && r.add@.len() == 0 && r.id@.len() == 0,
            r.net@.len() == 0 && r.type_field@.len() == 0 && r.host@.len() == 0,
            r.path@.len() == 0 && r.tls@.len() == 0 && r.sni@.len() == 0,
            r.alpn@.len() == 0 && r.fp@.len() == 0,
            r.port is Other && r.aid is Other,
            r.http_latency is NotTested && r.tcp_latency is NotTested,
    {
        VmessNode {
            v: String::new(),
            ps: String::new(),
            add: String::new(),
            port: FieldValue::Other,
            id: String::new(),
            aid: FieldValue::Other,
            net: String::new(),
            type_field: String::new(),
            host: String::new(),
            path: String::new(),
            tls: String::new(),
            sni: String::new(),
            alpn: String::new(),
            fp: String::new(),
            http_latency: LatencyStatus::NotTested,
            tcp_latency: LatencyStatus::NotTested,
        }
    }
}

/// The name a node is shown and sorted by: its label, or `address:port` when
/// the label is empty.
pub open spec fn display_name_spec(n: VmessNode) -> Seq<char> {
    if n.ps@.len() == 0 {
        n.add@ + seq![':'] + decimal(port_of(n.port) as nat)
    } else {
        n.ps@
    }
}

impl VmessNode {
    /// The node's port, see `port_of`.
    pub fn get_port(&self) -> (r: u16)
        ensures
            r == port_of(self.port),
    {
        match &self.port {
            FieldValue::UInt(n) => (*n % 65536) as u16,
            FieldValue::Text(s) => match parse_unsigned_exec(s.as_str(), 65535) {
                Some(p) => p as u16,
                None => DEFAULT_NODE_PORT,
            },
            FieldValue::Other => DEFAULT_NODE_PORT,
        }
    }

    /// The node's alter id, see `aid_of`.
    pub fn get_aid(&self) -> (r: u32)
        ensures
            r == aid_of(self.aid),
    {
        match &self.aid {
            FieldValue::UInt(n) => (*n % 0x1_0000_0000) as u32,
            FieldValue::Text(s) => match parse_unsigned_exec(s.as_str(), 0xffff_ffff) {
                Some(p) => p,
                None => 0,
            },
            FieldValue::Other => 0,
        }
    }

    /// The label, or `address:port` when the label is empty.
    pub fn display_name(&self) -> (r: String)
        ensures
            r@ == display_name_spec(*self),
    {
        if self.ps.as_str().unicode_len() == 0 {
            let mut out = self.add.clone();
            proof {
                reveal_strlit(":");
            }
            out.append(":");
            push_decimal(&mut out, self.get_port() as u64);
            out
        } else {
            self.ps.clone()
        }
    }
}

/// The node that the live proxy configuration points at.
#[derive(Debug)]
pub struct ActiveNodeInfo {
    pub address: String,
    pub port: u16,
    pub user_id: String,
}

impl Clone for ActiveNodeInfo {
    fn clone(&self) -> (r: Self)
        ensures
            r == *self,
    {
        ActiveNodeInfo { address: self.address.clone(), port: self.port, user_id: self.user_id.clone() }
    }
}

/// The node has the active node's address, port and user id.
pub open spec fn is_active_node(n: VmessNode, a: ActiveNodeInfo) -> bool {
    n.add@ == a.address@ && port_of(n.port) == a.port && n.id@ == a.user_id@
}

/// `r` is the position of the first node that is the active one, or nothing
/// when no node is.
pub open spec fn first_active(nodes: Seq<VmessNode>, active: ActiveNodeInfo, r: Option<usize>) -> bool {
    match r {
        Some(i) => i < nodes.len() && is_active_node(nodes[i as int], active) && forall|j: int|
            0 <= j < i ==> !is_active_node(#[trigger] nodes[j], active),
        None => forall|j: int| 0 <= j < nodes.len() ==> !is_active_node(#[trigger] nodes[j], active),
    }
}

/// The first node that is the active one, if any.
pub fn find_active_node_index(nodes: &[VmessNode], active: &ActiveNodeInfo) -> (r: Option<usize>)
    ensures
        first_active(nodes@, *active, r),
{
    let mut i: usize = 0;
    while i < nodes.len()
        invariant
            i <= nodes@.len(),
            forall|j: int| 0 <= j < i ==> !is_active_node(#[trigger] nodes@[j], *active),
        decreases nodes@.len() - i,
    {
        let n = &nodes[i];
        if n.add == active.address && n.get_port() == active.port && n.id == active.user_id {
            return Some(i);
        }
        i = i + 1;
    }
    None
}

} // verus!
