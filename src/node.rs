use vstd::prelude::*;
use crate::text::{contains_seq, contains_str, dec, push_decimal};

verus! {

/// Port of the REST API on the node's own service.
pub const REST_API_SERVICE_PORT: u32 = 8080;

/// Port of the REST API on the reverse proxy that may front the node.
pub const REST_API_HAPROXY_SERVICE_PORT: u32 = 80;

/// Port of the metrics endpoint on every pod.
pub const NODE_METRIC_PORT: u64 = 9101;

/// A version of the node software: an ordinal and the text shown for it.
pub struct Version(pub usize, pub String);

/// A node that runs as the single replica of a stateful set in a cluster.
pub struct K8sNode {
    /// Label used in diagnostics.
    pub name: String,
    /// The stateful set whose single pod is this node.
    pub stateful_set_name: String,
    /// Network identity of the node.
    pub peer_id: [u8; 32],
    /// Zero-based position of the node within its group.
    pub index: usize,
    /// In-cluster DNS name of the service that exposes the REST API.
    pub service_name: String,
    /// Local port of the REST API when forwarded, else the service port.
    pub rest_api_port: u32,
    pub version: Version,
    pub namespace: String,
    /// Whether a reverse proxy fronts the node.
    pub haproxy_enabled: bool,
    /// Whether the node is reached through a locally forwarded port.
    pub port_forward_enabled: bool,
}

/// The host of forwarded endpoints.
pub open spec fn localhost() -> Seq<char> {
    "127.0.0.1"@
}

/// `http://{host}:{port}/`.
pub open spec fn endpoint_text(host: Seq<char>, port: nat) -> Seq<char> {
    "http://"@ + host + ":"@ + dec(port) + "/"@
}

/// The service port that the REST forwarder targets.
pub open spec fn remote_rest_port(haproxy_enabled: bool) -> u32 {
    if haproxy_enabled {
        REST_API_HAPROXY_SERVICE_PORT
    } else {
        REST_API_SERVICE_PORT
    }
}

/// The persistent volume claim that backs the storage of a stateful set.
pub open spec fn pvc_name_of(sts: Seq<char>) -> Seq<char> {
    if contains_seq(sts, "fullnode"@) {
        "fn-"@ + sts + "-0"@
    } else {
        sts
    }
}

/// The single pod of a stateful set.
pub open spec fn pod_name_of(sts: Seq<char>) -> Seq<char> {
    sts + "-0"@
}

/// `{local}:{remote}`, the port pair of a forwarder.
pub open spec fn port_pair(local: nat, remote: nat) -> Seq<char> {
    dec(local) + ":"@ + dec(remote)
}

/// The texts of a vector of strings.
pub open spec fn texts(v: Seq<String>) -> Seq<Seq<char>> {
    v.map_values(|s: String| s@)
}

impl K8sNode {
    /// The host that the REST endpoint names.
    pub open spec fn rest_host(&self) -> Seq<char> {
        if self.port_forward_enabled {
            localhost()
        } else {
            self.service_name@
        }
    }

    pub open spec fn rest_endpoint_spec(&self) -> Seq<char> {
        endpoint_text(self.rest_host(), self.rest_api_port as nat)
    }

    pub open spec fn inspection_endpoint_spec(&self) -> Seq<char> {
        endpoint_text(self.service_name@, self.rest_api_port as nat)
    }

    /// Arguments of the cluster CLI that forward the REST port locally.
    pub open spec fn port_forward_argv(&self) -> Seq<Seq<char>> {
        seq![
            "port-forward"@,
            "-n"@,
            self.namespace@,
            "svc/"@ + self.service_name@,
            port_pair(self.rest_api_port as nat, remote_rest_port(self.haproxy_enabled) as nat),
        ]
    }

    /// Arguments of the cluster CLI that forward the metrics port of the pod.
    pub open spec fn metric_forward_argv(&self, local: nat) -> Seq<Seq<char>> {
        seq![
            "port-forward"@,
            "pod/"@ + pod_name_of(self.stateful_set_name@),
            port_pair(local, NODE_METRIC_PORT as nat),
        ]
    }

    /// Arguments of the cluster CLI that delete the node's storage.
    pub open spec fn clear_storage_argv(&self) -> Seq<Seq<char>> {
        seq!["delete"@, "pvc"@, pvc_name_of(self.stateful_set_name@)]
    }

    pub fn name(&self) -> (r: &str)
        ensures
            r@ == self.name@,
    {
        self.name.as_str()
    }

    pub fn stateful_set_name(&self) -> (r: &str)
        ensures
            r@ == self.stateful_set_name@,
    {
        self.stateful_set_name.as_str()
    }

    pub fn namespace(&self) -> (r: &str)
        ensures
            r@ == self.namespace@,
    {
        self.namespace.as_str()
    }

    pub fn service_name(&self) -> (r: String)
        ensures
            r@ == self.service_name@,
    {
        self.service_name.clone()
    }

    pub fn peer_id(&self) -> (r: [u8; 32])
        ensures
            r == self.peer_id,
    {
        self.peer_id
    }

    pub fn index(&self) -> (r: usize)
        ensures
            r == self.index,
    {
        self.index
    }

    pub fn rest_api_port(&self) -> (r: u32)
        ensures
            r == self.rest_api_port,
    {
        self.rest_api_port
    }

    pub fn version(&self) -> (r: Version)
        ensures
            r.0 == self.version.0,
            r.1@ == self.version.1@,
    {
        Version(self.version.0, self.version.1.clone())
    }

    /// The service port that the REST forwarder targets: the proxy's port
    /// when a proxy fronts the node, else the node's own.
    pub fn remote_rest_api_port(&self) -> (r: u32)
        ensures
            r == remote_rest_port(self.haproxy_enabled),
            r == 80 <==> self.haproxy_enabled,
            r == 8080 <==> !self.haproxy_enabled,
    {
        if self.haproxy_enabled {
            REST_API_HAPROXY_SERVICE_PORT
        } else {
            REST_API_SERVICE_PORT
        }
    }

    /// `http://{host}:{port}/`, where the host is `127.0.0.1` when the node
    /// is reached through a forwarded port and the service name otherwise.
    pub fn rest_api_endpoint(&self) -> (r: String)
        ensures
            r@ == self.rest_endpoint_spec(),
    {
        let mut s = String::from_str("http://");
        if self.port_forward_enabled {
            s.append("127.0.0.1");
        } else {
            s.append(self.service_name.as_str());
        }
        s.append(":");
        push_decimal(&mut s, self.rest_api_port as u64);
        s.append("/");
        s
    }

    /// `http://{service_name}:{port}/`, for tools that run inside the cluster.
    pub fn inspection_service_endpoint(&self) -> (r: String)
        ensures
            r@ == self.inspection_endpoint_spec(),
    {
        let mut s = String::from_str("http://");
        s.append(self.service_name.as_str());
        s.append(":");
        push_decimal(&mut s, self.rest_api_port as u64);
        s.append("/");
        s
    }

    /// `{name} @ {host}:{port}`, the node as shown in diagnostics.
    pub fn describe(&self) -> (r: String)
        ensures
            r@ == self.name@ + " @ "@ + self.rest_host() + ":"@ + dec(self.rest_api_port as nat),
    {
        let mut s = self.name.clone();
        s.append(" @ ");
        if self.port_forward_enabled {
            s.append("127.0.0.1");
        } else {
            s.append(self.service_name.as_str());
        }
        s.append(":");
        push_decimal(&mut s, self.rest_api_port as u64);
        s
    }

    /// Arguments of the cluster CLI for
    /// `port-forward -n {namespace} svc/{service} {local}:{remote}`.
    pub fn port_forward_args(&self) -> (r: Vec<String>)
        ensures
            texts(r@) == self.port_forward_argv(),
    {
        let mut svc = String::from_str("svc/");
        svc.append(self.service_name.as_str());
        let mut ports = String::new();
        push_decimal(&mut ports, self.rest_api_port as u64);
        ports.append(":");
        push_decimal(&mut ports, self.remote_rest_api_port() as u64);
        let mut r: Vec<String> = Vec::new();
        r.push(String::from_str("port-forward"));
        r.push(String::from_str("-n"));
        r.push(self.namespace.clone());
        r.push(svc);
        r.push(ports);
        assert(texts(r@) =~= self.port_forward_argv());
        r
    }

    /// The pod of the node: `{stateful_set_name}-0`.
    pub fn pod_name(&self) -> (r: String)
        ensures
            r@ == pod_name_of(self.stateful_set_name@),
    {
        let mut s = self.stateful_set_name.clone();
        s.append("-0");
        s
    }

    /// Arguments of the cluster CLI for
    /// `port-forward pod/{stateful_set_name}-0 {local}:9101`.
    pub fn metric_port_forward_args(&self, local: u64) -> (r: Vec<String>)
        ensures
            texts(r@) == self.metric_forward_argv(local as nat),
    {
        let mut pod = String::from_str("pod/");
        pod.append(self.pod_name().as_str());
        let mut ports = String::new();
        push_decimal(&mut ports, local);
        ports.append(":");
        push_decimal(&mut ports, NODE_METRIC_PORT);
        let mut r: Vec<String> = Vec::new();
        r.push(String::from_str("port-forward"));
        r.push(pod);
        r.push(ports);
        assert(texts(r@) =~= self.metric_forward_argv(local as nat));
        r
    }

    /// The volume claim that backs the node's storage.
    pub fn pvc_name(&self) -> (r: String)
        ensures
            r@ == pvc_name_of(self.stateful_set_name@),
    {
        pvc_name_for(self.stateful_set_name.as_str())
    }

    /// Arguments of the cluster CLI for `delete pvc {pvc_name}`.
    pub fn clear_storage_args(&self) -> (r: Vec<String>)
        ensures
            texts(r@) == self.clear_storage_argv(),
    {
        let mut r: Vec<String> = Vec::new();
        r.push(String::from_str("delete"));
        r.push(String::from_str("pvc"));
        r.push(self.pvc_name());
        assert(texts(r@) =~= self.clear_storage_argv());
        r
    }
}

/// The volume claim of a stateful set: `fn-{sts}-0` where its name holds
/// `fullnode`, else the name itself.
pub fn pvc_name_for(sts: &str) -> (r: String)
    ensures
        r@ == pvc_name_of(sts@),
{
    if contains_str(sts, "fullnode") {
        let mut s = String::from_str("fn-");
        s.append(sts);
        s.append("-0");
        s
    } else {
        String::from_str(sts)
    }
}

/// `http://localhost:{port}/counters`, where a node's forwarded metrics
/// endpoint serves its counters.
pub fn counters_url(port: u64) -> (r: String)
    ensures
        r@ == "http://localhost:"@ + dec(port as nat) + "/counters"@,
{
    let mut s = String::from_str("http://localhost:");
    push_decimal(&mut s, port);
    s.append("/counters");
    s
}

/// The host can be read back from an endpoint: it follows `http://` and is
/// followed by `:`.
pub proof fn lemma_endpoint_host(host: Seq<char>, port: nat)
    ensures
        endpoint_text(host, port).subrange(7, 7 + host.len() as int) == host,
        endpoint_text(host, port)[7 + host.len() as int] == ':',
{
    reveal_strlit("http://");
    reveal_strlit(":");
    let t = endpoint_text(host, port);
    assert(t.subrange(7, 7 + host.len() as int) =~= host);
}

/// The REST endpoint names `127.0.0.1` exactly when the node is reached
/// through a forwarded port, and the service name otherwise.
pub proof fn lemma_rest_endpoint_host(node: K8sNode)
    ensures
        node.port_forward_enabled ==> node.rest_endpoint_spec() == endpoint_text(localhost(), node.rest_api_port as nat),
        !node.port_forward_enabled ==> node.rest_endpoint_spec() == endpoint_text(node.service_name@, node.rest_api_port as nat),
        node.rest_endpoint_spec().subrange(7, 7 + node.rest_host().len() as int) == node.rest_host(),
{
    lemma_endpoint_host(node.rest_host(), node.rest_api_port as nat);
}

/// The inspection endpoint names the service, whether or not the node is
/// reached through a forwarded port.
pub proof fn lemma_inspection_endpoint_host(a: K8sNode, b: K8sNode)
    requires
        a.service_name@ == b.service_name@,
        a.rest_api_port == b.rest_api_port,
    ensures
        a.inspection_endpoint_spec() == b.inspection_endpoint_spec(),
        a.inspection_endpoint_spec().subrange(7, 7 + a.service_name@.len() as int) == a.service_name@,
{
    lemma_endpoint_host(a.service_name@, a.rest_api_port as nat);
}

/// The volume claim is `fn-{s}-0` exactly when `s` holds `fullnode`, and
/// `s` itself otherwise.
pub proof fn lemma_pvc_name(s: Seq<char>)
    ensures
        pvc_name_of(s) == "fn-"@ + s + "-0"@ <==> contains_seq(s, "fullnode"@),
        !contains_seq(s, "fullnode"@) ==> pvc_name_of(s) == s,
{
    reveal_strlit("fn-");
    reveal_strlit("-0");
    if !contains_seq(s, "fullnode"@) {
        assert(("fn-"@ + s + "-0"@).len() == s.len() + 5);
    }
}

} // verus!
