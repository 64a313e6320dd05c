use vstd::prelude::*;

use crate::node::{FieldValue, VmessNode};
use crate::status::LatencyStatus;

verus! {

/// A node as it is stored, with each latency split into the milliseconds of a
/// success and a flag for a timeout.
#[derive(Debug)]
pub struct SavedNode {
    pub v: String,
    pub ps: String,
    pub add: String,
    pub port: FieldValue,
    pub id: String,
    pub aid: FieldValue,
    pub net: String,
    pub type_field: String,
    pub host: String,
    pub path: String,
    pub tls: String,
    pub sni: String,
    pub alpn: String,
    pub fp: String,
    pub http_latency: Option<u64>,
    pub tcp_latency: Option<u64>,
    pub http_timed_out: bool,
    pub tcp_timed_out: bool,
}

/// How a latency is stored: the milliseconds of a success, and whether it timed out.
pub open spec fn stored_latency(s: LatencyStatus) -> (Option<u64>, bool) {
    match s {
        LatencyStatus::Success(ms) => (Some(ms), false),
        LatencyStatus::TimedOut => (None, true),
        LatencyStatus::NotTested => (None, false),
    }
}

/// The latency a stored pair stands for; milliseconds win over the flag.
pub open spec fn restored_latency(ms: Option<u64>, timed_out: bool) -> LatencyStatus {
    match ms {
        Some(m) => LatencyStatus::Success(m),
        None => if timed_out {
            LatencyStatus::TimedOut
        } else {
            LatencyStatus::NotTested
        },
    }
}

pub open spec fn saved_of(n: VmessNode) -> SavedNode {
    SavedNode {
        v: n.v,
        ps: n.ps,
        add: n.add,
        port: n.port,
        id: n.id,
        aid: n.aid,
        net: n.net,
        type_field: n.type_field,
        host: n.host,
        path: n.path,
        tls: n.tls,
        sni: n.sni,
        alpn: n.alpn,
        fp: n.fp,
        http_latency: stored_latency(n.http_latency).0,
        tcp_latency: stored_latency(n.tcp_latency).0,
        http_timed_out: stored_latency(n.http_latency).1,
        tcp_timed_out: stored_latency(n.tcp_latency).1,
    }
}

pub open spec fn node_of(s: SavedNode) -> VmessNode {
    VmessNode {
        v: s.v,
        ps: s.ps,
        add: s.add,
        port: s.port,
        id: s.id,
        aid: s.aid,
        net: s.net,
        type_field: s.type_field,
        host: s.host,
        path: s.path,
        tls: s.tls,
        sni: s.sni,
        alpn: s.alpn,
        fp: s.fp,
        http_latency: restored_latency(s.http_latency, s.http_timed_out),
        tcp_latency: restored_latency(s.tcp_latency, s.tcp_timed_out),
    }
}

fn store_latency(s: LatencyStatus) -> (r: (Option<u64>, bool))
    ensures
        r == stored_latency(s),
{
    match s {
        LatencyStatus::Success(ms) => (Some(ms), false),
        LatencyStatus::TimedOut => (None, true),
        LatencyStatus::NotTested => (None, false),
    }
}

fn restore_latency(ms: Option<u64>, timed_out: bool) -> (r: LatencyStatus)
    ensures
        r == restored_latency(ms, timed_out),
{
    match ms {
        Some(m) => LatencyStatus::Success(m),
        None => if timed_out {
            LatencyStatus::TimedOut
        } else {
            LatencyStatus::NotTested
        },
    }
}

impl<'a> From<&'a VmessNode> for SavedNode {
    /// The stored form of a node.
    fn from(node: &'a VmessNode) -> (r: SavedNode)
        ensures
            r == saved_of(*node),
    {
        let (http_latency, http_timed_out) = store_latency(node.http_latency);
        let (tcp_latency, tcp_timed_out) = store_latency(node.tcp_latency);
        SavedNode {
            v: node.v.clone(),
            ps: node.ps.clone(),
            add: node.add.clone(),
            port: node.port.clone(),
            id: node.id.clone(),
            aid: node.aid.clone(),
            net: node.net.clone(),
            type_field: node.type_field.clone(),
            host: node.host.clone(),
            path: node.path.clone(),
            tls: node.tls.clone(),
            sni: node.sni.clone(),
            alpn: node.alpn.clone(),
            fp: node.fp.clone(),
            http_latency,
            tcp_latency,
            http_timed_out,
            tcp_timed_out,
        }
    }
}

impl<'a> vstd::std_specs::convert::FromSpecImpl<&'a VmessNode> for SavedNode {
    open spec fn obeys_from_spec() -> bool {
        true
    }

    open spec fn from_spec(node: &'a VmessNode) -> SavedNode {
        saved_of(*node)
    }
}

impl From<SavedNode> for VmessNode {
    /// The node a stored entry stands for.
    fn from(saved: SavedNode) -> (r: VmessNode)
        ensures
            r == node_of(saved),
    {
        let http_latency = restore_latency(saved.http_latency, saved.http_timed_out);
        let tcp_latency = restore_latency(saved.tcp_latency, saved.tcp_timed_out);
        VmessNode {
            v: saved.v,
            ps: saved.ps,
            add: saved.add,
            port: saved.port,
            id: saved.id,
            aid: saved.aid,
            net: saved.net,
            type_field: saved.type_field,
            host: saved.host,
            path: saved.path,
            tls: saved.tls,
            sni: saved.sni,
            alpn: saved.alpn,
            fp: saved.fp,
            http_latency,
            tcp_latency,
        }
    }
}

impl vstd::std_specs::convert::FromSpecImpl<SavedNode> for VmessNode {
    open spec fn obeys_from_spec() -> bool {
        true
    }

    open spec fn from_spec(saved: SavedNode) -> VmessNode {
        node_of(saved)
    }
}

impl Clone for SavedNode {
    fn clone(&self) -> (r: Self)
        ensures
            r == *self,
    {
        SavedNode {
            v: self.v.clone(),
            ps: self.ps.clone(),
            add: self.add.clone(),
            port: self.port.clone(),
            id: self.id.clone(),
            aid: self.aid.clone(),
            net: self.net.clone(),
            type_field: self.type_field.clone(),
            host: self.host.clone(),
            path: self.path.clone(),
            tls: self.tls.clone(),
            sni: self.sni.clone(),
            alpn: self.alpn.clone(),
            fp: self.fp.clone(),
            http_latency: self.http_latency,
            tcp_latency: self.tcp_latency,
            http_timed_out: self.http_timed_out,
            tcp_timed_out: self.tcp_timed_out,
        }
    }
}

/// The persisted settings: subscription, nodes with their latencies, and the
/// sort of the view.
#[derive(Debug)]
pub struct Config {
    pub subscribe_url: Option<String>,
    pub nodes: Vec<SavedNode>,
    pub sort_column: Option<String>,
    pub sort_direction: Option<String>,
}

impl Config {
    /// Settings with nothing stored.
    pub fn empty() -> (r: Config)
        ensures
            r.subscribe_url is None,
            r.nodes@.len() == 0,
            r.sort_column is None,
            r.sort_direction is None,
    {
        Config { subscribe_url: None, nodes: Vec::new(), sort_column: None, sort_direction: None }
    }

    /// The stored nodes as nodes, in order.
    pub fn to_vmess_nodes(&self) -> (r: Vec<VmessNode>)
        ensures
            r@.len() == self.nodes@.len(),
            forall|i: int| 0 <= i < r@.len() ==> r@[i] == node_of(#[trigger] self.nodes@[i]),
    {
        let mut out: Vec<VmessNode> = Vec::new();
        let mut i: usize = 0;
        while i < self.nodes.len()
            invariant
                i <= self.nodes@.len(),
                out@.len() == i,
                forall|k: int| 0 <= k < i ==> out@[k] == node_of(#[trigger] self.nodes@[k]),
            decreases self.nodes@.len() - i,
        {
            out.push(VmessNode::from(self.nodes[i].clone()));
            i = i + 1;
        }
        out
    }

    /// Replaces the stored nodes by the given ones, in order.
    pub fn update_nodes(&mut self, nodes: &[VmessNode])
        ensures
            final(self).nodes@.len() == nodes@.len(),
            forall|i: int| 0 <= i < nodes@.len() ==> final(self).nodes@[i] == saved_of(#[trigger] nodes@[i]),
            final(self).subscribe_url == old(self).subscribe_url,
            final(self).sort_column == old(self).sort_column,
            final(self).sort_direction == old(self).sort_direction,
    {
        let mut out: Vec<SavedNode> = Vec::new();
        let mut i: usize = 0;
        while i < nodes.len()
            invariant
                i <= nodes@.len(),
                out@.len() == i,
                forall|k: int| 0 <= k < i ==> out@[k] == saved_of(#[trigger] nodes@[k]),
            decreases nodes@.len() - i,
        {
            out.push(SavedNode::from(&nodes[i]));
            i = i + 1;
        }
        self.nodes = out;
    }
}

} // verus!
